use vstd::prelude::*;

use crate::error::{error_kind, error_text, ErrorKind, Language, OpenPageError};
use crate::mode::{mode_code, mode_from_code, other_mode, WebMode};
use crate::model::{ElementHandle, FrameHandle, TabReference, WebElement, WebFrame, WebPage};
use crate::page_flow::{change_seen, switch_steps, wait_locator, SwitchStep, WaitTarget};
use crate::route::{Backend, Reply, Route};

verus! {

/// Reading back the code of a mode gives the same mode.
pub proof fn mode_code_round_trip(mode: WebMode)
    ensures
        mode_from_code(mode_code(mode)) == Some(mode),
{
    let s: Seq<char> = seq!['s'];
    assert(s[0] == 's');
    assert(s != seq!['d']) by {
        assert(seq!['d'][0] == 'd');
    }
    assert(s != seq!['D']) by {
        assert(seq!['D'][0] == 'D');
    }
}

/// Toggling a mode gives the other mode, and toggling twice gives the mode back.
pub proof fn toggle_is_an_involution(mode: WebMode)
    ensures
        other_mode(mode) != mode,
        other_mode(other_mode(mode)) == mode,
{
}

/// A change of mode without a target always moves the page to the other
/// side, and two such changes bring it back to where it was.
pub proof fn change_mode_toggles(page: WebPage)
    ensures
        page.mode_change_target(None) != page.mode,
        (WebPage { mode: page.mode_change_target(None), target_id: page.target_id }).mode_change_target(
            None,
        ) == page.mode,
{
}

/// Asking for the mode the page is already in needs no step at all, and a
/// change that copies nothing and goes nowhere has no steps either.
pub proof fn change_mode_steps_only_when_asked(target: WebMode)
    ensures
        switch_steps(target, false, false) == Seq::<crate::page_flow::SwitchStep>::empty(),
        switch_steps(target, true, true).len() == 2,
{
    assert(switch_steps(target, false, false) =~= Seq::<crate::page_flow::SwitchStep>::empty());
}

/// In driver mode a page refuses nothing: every operation goes to a component.
pub proof fn driver_mode_refuses_nothing(page: WebPage, op: &'static str)
    requires
        page.mode == WebMode::Driver,
    ensures
        page.by_mode() == Route::Run(Backend::Driver),
        page.driver_only(op) == Route::Run(Backend::Driver),
        !page.session_request().is_refused(),
        !page.browser_or_session().is_refused(),
{
}

/// In session mode a driver-only operation is refused with an
/// unsupported-operation error that names the operation, in every language.
pub proof fn session_mode_refuses_driver_only(page: WebPage, op: &'static str, language: Language)
    requires
        page.mode == WebMode::Session,
    ensures
        page.driver_only(op) == Route::Refuse(OpenPageError::DriverModeOnly(op)),
        error_kind(OpenPageError::DriverModeOnly(op)) == ErrorKind::UnsupportedOperation,
        op@.is_prefix_of(error_text(OpenPageError::DriverModeOnly(op), language)),
        page.by_mode() == Route::Run(Backend::Session),
{
    let text = error_text(OpenPageError::DriverModeOnly(op), language);
    assert(text.subrange(0, op@.len() as int) =~= op@);
}

/// A page in session mode never hands an operation that both sides support
/// to the tab: it goes to the session, is answered, or is refused.
pub proof fn session_mode_keeps_away_from_the_tab(page: WebPage, reply: crate::route::Reply)
    requires
        page.mode == WebMode::Session,
    ensures
        page.by_mode() == Route::Run(Backend::Session),
        page.driver_or_reply(reply) == Route::Answer(reply),
        page.session_or_reply(reply) == Route::Run(Backend::Session),
        page.session_request() == Route::Run(Backend::Session),
        page.browser_or_session() == Route::Run(Backend::Session),
{
}

/// A session element refuses exactly the driver-only operations, and a
/// browser-backed element refuses none of them.
pub proof fn element_refusals(element: WebElement, op: &'static str)
    ensures
        element is Session ==> element.driver_only(op) == Route::Refuse(
            OpenPageError::DriverModeOnly(op),
        ),
        element is Session ==> element.by_kind() == Route::Run(Backend::Session),
        !(element is Session) ==> element.driver_only(op) == Route::Run(Backend::Driver)
            && element.by_kind() == Route::Run(Backend::Driver),
{
}

/// What is found through a mix element, frame or page keeps the same web
/// page as its context; what is found through plain browser elements and
/// frames stays plain.
pub proof fn found_objects_keep_their_context(
    element: WebElement,
    frame: WebFrame,
    page: WebPage,
    found: ElementHandle,
    found_frame: FrameHandle,
)
    ensures
        element matches WebElement::Mix { page: p, .. } ==> element.found_element(found)
            == (WebElement::Mix { element: found, page: p }) && element.wrapped_frame(found_frame)
            == (WebFrame::Mix { frame: found_frame, page: p }),
        element is Browser ==> element.found_element(found) == WebElement::Browser(found),
        element is Session ==> element.found_element(found) == WebElement::Session(found),
        frame matches WebFrame::Mix { page: p, .. } ==> frame.frame_found(found) == (WebElement::Mix {
            element: found,
            page: p,
        }) && frame.frame_found_frame(found_frame) == (WebFrame::Mix { frame: found_frame, page: p }),
        frame is Browser ==> frame.frame_found(found) == WebElement::Browser(found),
        page.mode == WebMode::Driver ==> page.found_element(found) == (WebElement::Mix {
            element: found,
            page: Box::new(page),
        }),
        page.mode == WebMode::Session ==> page.found_element(found) == WebElement::Session(found),
{
}

/// A page routes an operation on the element a locator finds the way that
/// element would: a browser-backed mix element in driver mode, a session
/// element in session mode.
pub proof fn page_routes_like_the_found_element(page: WebPage, found: ElementHandle, op: &'static str)
    ensures
        page.by_mode() == page.found_element(found).by_kind(),
        page.driver_only(op) == page.found_element(found).driver_only(op),
{
}

/// A tab opened from a mix element or frame is a web page in the same mode
/// as the element's or frame's page.
pub proof fn opened_tabs_keep_the_mode(element: WebElement, frame: WebFrame, target_id: String)
    ensures
        element matches WebElement::Mix { page: p, .. } ==> element.wrapped_tab(target_id)
            == crate::model::TabReference::WebPage(WebPage { mode: p.mode, target_id }),
        frame matches WebFrame::Mix { page: p, .. } ==> frame.frame_found_tab(target_id)
            == crate::model::TabReference::WebPage(WebPage { mode: p.mode, target_id }),
{
}

/// Releasing a frame and connecting it again keeps its page context; only
/// the driver handle is new.
pub proof fn frame_reconnect_keeps_context(frame: WebFrame, released: FrameHandle, new_handle: FrameHandle)
    ensures
        frame.released_as(released).reconnected(new_handle) == frame.frame_found_frame(new_handle),
{
}

/// Releasing a page and connecting it again gives the same page: the same
/// tab, in the same mode.
pub proof fn page_reconnect_round_trip(page: WebPage)
    ensures
        page.released().reconnected() == page,
{
}

/// A wait for a URL or title to change is over on a value read exactly when
/// the text occurs in it as a run of characters, or, when the text is to be
/// excluded, exactly when it does not: a value without the text never ends a
/// wait for the text, one with it never ends a wait for it to go, the two
/// kinds of wait never agree on a value, and nothing read ends no wait.
pub proof fn change_waits_follow_the_text(value: Seq<char>, text: Seq<char>)
    ensures
        change_seen(Some(value), text, false) <==> (exists|i: int|
            0 <= i && i + text.len() <= value.len() && #[trigger] value.subrange(i, i + text.len())
                == text),
        change_seen(Some(value), text, true) <==> !(exists|i: int|
            0 <= i && i + text.len() <= value.len() && #[trigger] value.subrange(i, i + text.len())
                == text),
        change_seen(Some(value), text, false) != change_seen(Some(value), text, true),
        !change_seen(None, text, false),
        !change_seen(None, text, true),
{
}

/// A change of mode copies the cookies before the new side loads the old
/// side's URL, whichever side it goes to: when both are asked for, the copy
/// step is the first and the follow step the last; each step that is asked
/// for is taken once, on the side the page goes to, and no other.
pub proof fn cookies_move_before_the_url(target: WebMode, go: bool, copy_cookies: bool)
    ensures
        switch_steps(target, go, copy_cookies).len() == (if copy_cookies { 1int } else { 0int }) + (
        if go { 1int } else { 0int }),
        copy_cookies && target == WebMode::Driver ==> switch_steps(target, go, copy_cookies)[0]
            == SwitchStep::CookiesToBrowser,
        copy_cookies && target == WebMode::Session ==> switch_steps(target, go, copy_cookies)[0]
            == SwitchStep::CookiesToSession,
        go && target == WebMode::Driver ==> switch_steps(target, go, copy_cookies).last()
            == SwitchStep::DriverFollowsSession,
        go && target == WebMode::Session ==> switch_steps(target, go, copy_cookies).last()
            == SwitchStep::SessionFollowsDriver,
{
}

/// In session mode a page-level element wait is refused exactly when it was
/// given a browser-backed element: a locator or an element of the session
/// document is waited on by the session, which then has a locator to look
/// for. In driver mode the tab waits on anything.
pub proof fn session_waits_refuse_only_browser_elements(page: WebPage, target: WaitTarget)
    ensures
        page.mode == WebMode::Session ==> (page.element_wait(target) is Refuse <==> target is BrowserElement),
        page.mode == WebMode::Session && !(target is BrowserElement) ==> page.element_wait(target)
            == Route::Run(Backend::Session) && wait_locator(target) is Some,
        page.mode == WebMode::Session && target is BrowserElement ==> page.element_wait(target)
            == Route::Refuse(OpenPageError::SessionWaitNeedsSessionTarget) && wait_locator(target) is None,
        page.mode == WebMode::Driver ==> page.element_wait(target) == Route::Run(Backend::Driver),
{
}

/// In driver mode the tab is asked even where session mode has a fixed
/// answer (ready state, liveness, load waits, storage): whatever that answer
/// would be, the operation goes to the tab; and in session mode it is never
/// handed to the tab. In driver mode the session-only reads are answered by
/// the facade, HTTP requests first take the tab's cookies, and locations are
/// kept by the browser; per-tab settings always name this page's own tab.
pub proof fn driver_mode_asks_the_tab(page: WebPage, reply: Reply)
    ensures
        page.mode == WebMode::Driver ==> page.driver_or_reply(reply) == Route::Run(Backend::Driver),
        page.mode == WebMode::Session ==> page.driver_or_reply(reply) == Route::Answer(reply),
        page.driver_or_reply(reply) is Run <==> page.mode == WebMode::Driver,
        page.mode == WebMode::Driver ==> page.session_or_reply(reply) == Route::Answer(reply)
            && page.session_request() == Route::SyncCookiesThenSession && page.browser_or_session()
            == Route::Run(Backend::Browser),
        page.for_this_tab() == Route::RunForTab(Backend::Browser, page.target_id),
{
}

/// A plain tab that the browser reports through a page becomes a web page
/// for that tab in the page's current mode, so it routes every operation as
/// the page does; references that are not plain pages are kept as they are.
pub proof fn reported_tabs_follow_the_page(page: WebPage, id: String, reference: TabReference, op: &'static str)
    ensures
        page.mixed_tab(TabReference::Page(id)) matches TabReference::WebPage(w) && w.target_id == id
            && w.mode == page.mode && w.by_mode() == page.by_mode() && w.driver_only(op) == page.driver_only(op),
        !(reference is Page) ==> page.mixed_tab(reference) == reference,
{
}

} // verus!
