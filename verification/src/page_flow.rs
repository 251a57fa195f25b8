use vstd::prelude::*;
use vstd::string::*;

use crate::error::OpenPageError;
use crate::mode::{other_mode, WebMode};
use crate::model::WebPage;
use crate::route::{Backend, Reply, Route};
use crate::text::{contains_text, non_empty_text, occurs_in, starts_with};

verus! {

/// A step of moving a page from one side to the other.
#[derive(Clone, Copy, Debug, PartialEq, Eq, Structural)]
pub enum SwitchStep {
    /// Copy the tab's cookies and user agent into the session.
    CookiesToSession,
    /// Copy the session's cookies into the tab.
    CookiesToBrowser,
    /// Load the tab's current URL in the session, if the tab has one.
    SessionFollowsDriver,
    /// Load the session's current URL in the tab, if the session has one.
    DriverFollowsSession,
}

/// A change of mode: the steps to take, in order, before the page is
/// switched to `target`.
#[derive(Debug)]
pub struct ModeChange {
    pub target: WebMode,
    pub steps: Vec<SwitchStep>,
}

/// What copying the tab's cookies into the session does.
#[derive(Debug)]
pub struct SessionCookieCopy {
    /// The URL the cookies are stored for.
    pub url: String,
    /// The cookie header to store, if the tab had cookies.
    pub cookie_header: Option<String>,
    /// Whether the session also takes over the tab's user agent.
    pub copy_user_agent: bool,
}

/// What copying the session's cookies into the tab does.
#[derive(Debug)]
pub struct BrowserCookieCopy {
    /// The session's URL, which the cookies belong to.
    pub url: String,
    /// Whether the tab must first load `url`, because it is not on a web page.
    pub navigate_first: bool,
    /// The cookie header to set in the tab, if the session had cookies.
    pub cookie_header: Option<String>,
}

/// What closing a page does.
#[derive(Clone, Copy, Debug, PartialEq, Eq, Structural)]
pub enum ClosePlan {
    /// Close every other tab, then wait until this tab is the only one left.
    CloseOthersThenWait,
    /// Close this tab, and the session as well when asked.
    CloseTab { close_session: bool },
}

/// Closing one side of a page: the change of mode to make first (none when
/// the page is already on the side that stays), then the side to close.
#[derive(Debug)]
pub struct SideClose {
    pub change: Option<ModeChange>,
    /// The side that is closed once the change is made.
    pub closed: Backend,
    /// Whether a failure to close that side is the result; otherwise it is
    /// ignored.
    pub close_failure_counts: bool,
}

/// What a page-level element wait was given to wait on.
#[derive(Debug)]
pub enum WaitTarget {
    /// A locator, as written.
    Locator(String),
    /// An element of a session document, by its XPath.
    SessionElement(String),
    /// A browser-backed element.
    BrowserElement,
}

/// The steps of a mode change, in the order they are taken.
pub open spec fn switch_steps(target: WebMode, go: bool, copy_cookies: bool) -> Seq<SwitchStep> {
    let copy = match target {
        WebMode::Session => seq![SwitchStep::CookiesToSession],
        WebMode::Driver => seq![SwitchStep::CookiesToBrowser],
    };
    let follow = match target {
        WebMode::Session => seq![SwitchStep::SessionFollowsDriver],
        WebMode::Driver => seq![SwitchStep::DriverFollowsSession],
    };
    (if copy_cookies { copy } else { Seq::empty() }) + (if go { follow } else { Seq::empty() })
}

/// The locator a session-mode wait looks for.
pub open spec fn wait_locator(target: WaitTarget) -> Option<Seq<char>> {
    match target {
        WaitTarget::Locator(raw) => Some(raw@),
        WaitTarget::SessionElement(xpath) => Some("xpath:"@ + xpath@),
        WaitTarget::BrowserElement => None,
    }
}

/// Whether a value read while waiting for a change satisfies the wait: the
/// text must occur in it, or, with `exclude`, must not.
pub open spec fn change_seen(value: Option<Seq<char>>, text: Seq<char>, exclude: bool) -> bool {
    match value {
        Some(v) => occurs_in(text, v) != exclude,
        None => false,
    }
}

impl WebPage {
    /// The mode a change of mode goes to: the one asked for, or else the other one.
    pub open spec fn mode_change_target(self, mode: Option<WebMode>) -> WebMode {
        match mode {
            Some(m) => m,
            None => other_mode(self.mode),
        }
    }

    /// How an element wait is routed: the tab waits in driver mode; in
    /// session mode the session waits, which it cannot do on a
    /// browser-backed element.
    pub open spec fn element_wait(self, target: WaitTarget) -> Route {
        match self.mode {
            WebMode::Driver => Route::Run(Backend::Driver),
            WebMode::Session => match target {
                WaitTarget::BrowserElement => Route::Refuse(
                    OpenPageError::SessionWaitNeedsSessionTarget,
                ),
                _ => Route::Run(Backend::Session),
            },
        }
    }

    /// Plans a change of mode. Nothing is done when the page is already in
    /// the target mode; otherwise cookies are copied over first (when asked),
    /// then the new side loads the old side's URL (when asked).
    pub fn change_mode(&self, mode: Option<WebMode>, go: bool, copy_cookies: bool) -> (change:
        Option<ModeChange>)
        ensures
            self.mode_change_target(mode) == self.mode ==> change is None,
            self.mode_change_target(mode) != self.mode ==> (change matches Some(c) && c.target
                == self.mode_change_target(mode) && c.steps@ == switch_steps(c.target, go, copy_cookies)),
    {
        let target = match mode {
            Some(m) => m,
            None => self.mode.toggled(),
        };
        if target == self.mode {
            return None;
        }
        let mut steps: Vec<SwitchStep> = Vec::new();
        if copy_cookies {
            match target {
                WebMode::Session => steps.push(SwitchStep::CookiesToSession),
                WebMode::Driver => steps.push(SwitchStep::CookiesToBrowser),
            }
        }
        if go {
            match target {
                WebMode::Session => steps.push(SwitchStep::SessionFollowsDriver),
                WebMode::Driver => steps.push(SwitchStep::DriverFollowsSession),
            }
        }
        proof {
            assert(steps@ =~= switch_steps(target, go, copy_cookies));
        }
        Some(ModeChange { target, steps })
    }

    /// Completes a change of mode, given how its steps went: the page moves
    /// to the target mode only when every step succeeded; the error of a
    /// failed step is passed on and the page stays as it was.
    pub fn apply_mode_change<E>(&mut self, change: &ModeChange, steps_done: Result<(), E>) -> (applied:
        Result<(), E>)
        ensures
            match steps_done {
                Ok(()) => applied is Ok && final(self).mode == change.target && final(self).target_id
                    == old(self).target_id,
                Err(x) => applied == Err::<(), E>(x) && *final(self) == *old(self),
            },
    {
        match steps_done {
            Ok(()) => {
                self.set_mode(change.target);
                Ok(())
            },
            Err(x) => Err(x),
        }
    }

    /// The URL the session loads when it follows the tab: none when the tab
    /// has no URL.
    pub fn session_follow_url(&self, driver_url: String) -> (url: Option<String>)
        ensures
            driver_url@.len() == 0 ==> url is None,
            driver_url@.len() > 0 ==> url == Some(driver_url),
    {
        non_empty_text(driver_url)
    }

    /// Plans copying the tab's cookies into the session: nothing happens
    /// when the tab has no URL.
    pub fn cookies_to_session(
        &self,
        driver_url: String,
        driver_cookie_header: Option<String>,
        copy_user_agent: bool,
    ) -> (copy: Option<SessionCookieCopy>)
        ensures
            driver_url@.len() == 0 ==> copy is None,
            driver_url@.len() > 0 ==> copy == Some(
                SessionCookieCopy {
                    url: driver_url,
                    cookie_header: driver_cookie_header,
                    copy_user_agent,
                },
            ),
    {
        if driver_url.as_str().unicode_len() == 0 {
            None
        } else {
            Some(
                SessionCookieCopy {
                    url: driver_url,
                    cookie_header: driver_cookie_header,
                    copy_user_agent,
                },
            )
        }
    }

    /// Plans copying the session's cookies into the tab: nothing happens
    /// when the session has no URL; the tab first loads the session's URL
    /// when it is not on an `http://` or `https://` page.
    pub fn cookies_to_browser(
        &self,
        session_url: Option<String>,
        driver_url: &str,
        session_cookie_header: Option<String>,
    ) -> (copy: Option<BrowserCookieCopy>)
        ensures
            match session_url {
                None => copy is None,
                Some(url) => copy == Some(
                    BrowserCookieCopy {
                        url,
                        navigate_first: !("http://"@.is_prefix_of(driver_url@))
                            && !("https://"@.is_prefix_of(driver_url@)),
                        cookie_header: session_cookie_header,
                    },
                ),
            },
    {
        match session_url {
            None => None,
            Some(url) => {
                let on_web = starts_with(driver_url, "http://") || starts_with(driver_url, "https://");
                Some(
                    BrowserCookieCopy {
                        url,
                        navigate_first: !on_web,
                        cookie_header: session_cookie_header,
                    },
                )
            },
        }
    }

    /// Whether a wait for the URL is over, given the URL just read.
    pub fn wait_for_url_change(&self, url: Option<String>, text: &str, exclude: bool) -> (seen:
        bool)
        ensures
            seen == change_seen(
                match url {
                    Some(u) => Some(u@),
                    None => None,
                },
                text@,
                exclude,
            ),
    {
        match url {
            Some(u) => contains_text(u.as_str(), text) != exclude,
            None => false,
        }
    }

    /// Whether a wait for the title is over, given the title just read.
    pub fn wait_for_title_change(&self, title: Option<String>, text: &str, exclude: bool) -> (seen:
        bool)
        ensures
            seen == change_seen(
                match title {
                    Some(t) => Some(t@),
                    None => None,
                },
                text@,
                exclude,
            ),
    {
        match title {
            Some(t) => contains_text(t.as_str(), text) != exclude,
            None => false,
        }
    }

    /// The tab waits for the elements in driver mode; in session mode the
    /// page polls the session (see `elements_loaded`).
    pub fn wait_for_elements_loaded(&self) -> (route: Route)
        ensures
            route == self.by_mode(),
    {
        self.route_by_mode()
    }

    pub fn route_element_wait(&self, target: &WaitTarget) -> (route: Route)
        ensures
            route == self.element_wait(*target),
    {
        match self.mode {
            WebMode::Driver => Route::Run(Backend::Driver),
            WebMode::Session => match target {
                WaitTarget::BrowserElement => Route::Refuse(
                    OpenPageError::SessionWaitNeedsSessionTarget,
                ),
                _ => Route::Run(Backend::Session),
            },
        }
    }

    pub fn wait_for_ele_displayed(&self, target: &WaitTarget) -> (route: Route)
        ensures
            route == self.element_wait(*target),
    {
        self.route_element_wait(target)
    }

    pub fn wait_for_ele_hidden(&self, target: &WaitTarget) -> (route: Route)
        ensures
            route == self.element_wait(*target),
    {
        self.route_element_wait(target)
    }

    pub fn wait_for_ele_enabled(&self, target: &WaitTarget) -> (route: Route)
        ensures
            route == self.element_wait(*target),
    {
        self.route_element_wait(target)
    }

    pub fn wait_for_ele_deleted(&self, target: &WaitTarget) -> (route: Route)
        ensures
            route == self.element_wait(*target),
    {
        self.route_element_wait(target)
    }

    pub fn wait_for_ele_clickable(&self, target: &WaitTarget) -> (route: Route)
        ensures
            route == self.element_wait(*target),
    {
        self.route_element_wait(target)
    }

    /// Setting timeouts: the tab takes all of them; the session has only a
    /// base timeout, so in session mode page-load and script timeouts are
    /// refused, and setting none is a no-op.
    pub fn set_timeouts(&self, base_given: bool, page_load_given: bool, script_given: bool) -> (route:
        Route)
        ensures
            self.mode == WebMode::Driver ==> route == Route::Run(Backend::Driver),
            self.mode == WebMode::Session && (page_load_given || script_given) ==> route
                == Route::Refuse(OpenPageError::DriverModeOnly("set_timeouts(page_load/script)")),
            self.mode == WebMode::Session && !page_load_given && !script_given && base_given
                ==> route == Route::Run(Backend::Session),
            self.mode == WebMode::Session && !page_load_given && !script_given && !base_given
                ==> route == Route::Answer(Reply::Unit),
    {
        match self.mode {
            WebMode::Driver => Route::Run(Backend::Driver),
            WebMode::Session => {
                if page_load_given || script_given {
                    Route::Refuse(OpenPageError::DriverModeOnly("set_timeouts(page_load/script)"))
                } else if base_given {
                    Route::Run(Backend::Session)
                } else {
                    Route::Answer(Reply::Unit)
                }
            },
        }
    }

    /// Plans closing the page.
    pub fn close(&self, others: bool, session: bool) -> (plan: ClosePlan)
        ensures
            others ==> plan == ClosePlan::CloseOthersThenWait,
            !others ==> plan == (ClosePlan::CloseTab { close_session: session }),
    {
        if others {
            ClosePlan::CloseOthersThenWait
        } else {
            ClosePlan::CloseTab { close_session: session }
        }
    }

    pub fn close_with_options(&self, others: bool, session: bool) -> (plan: ClosePlan)
        ensures
            others ==> plan == ClosePlan::CloseOthersThenWait,
            !others ==> plan == (ClosePlan::CloseTab { close_session: session }),
    {
        self.close(others, session)
    }

    /// Whether closing the other tabs is done: this tab is the only one left.
    pub fn others_closed(&self, tab_ids: &Vec<String>) -> (done: bool)
        ensures
            done == (tab_ids@.len() == 1 && tab_ids@[0]@ == self.target_id@),
    {
        if tab_ids.len() == 1 {
            tab_ids[0] == self.target_id
        } else {
            false
        }
    }

    /// Closing the driver keeps the session: the page first moves to session
    /// mode, taking the tab's cookies and URL along, then the tab's browser
    /// is closed; a failure of that last close is ignored.
    pub fn close_driver(&self) -> (plan: SideClose)
        ensures
            plan.closed == Backend::Driver,
            !plan.close_failure_counts,
            self.mode == WebMode::Session ==> plan.change is None,
            self.mode == WebMode::Driver ==> (plan.change matches Some(c) && c.target == WebMode::Session
                && c.steps@ == switch_steps(WebMode::Session, true, true)),
    {
        SideClose {
            change: self.change_mode(Some(WebMode::Session), true, true),
            closed: Backend::Driver,
            close_failure_counts: false,
        }
    }

    /// Closing the session keeps the tab: the page first moves to driver
    /// mode, taking the session's cookies and URL along, then the session is
    /// closed; a failure of that close is the result.
    pub fn close_session(&self) -> (plan: SideClose)
        ensures
            plan.closed == Backend::Session,
            plan.close_failure_counts,
            self.mode == WebMode::Driver ==> plan.change is None,
            self.mode == WebMode::Session ==> (plan.change matches Some(c) && c.target == WebMode::Driver
                && c.steps@ == switch_steps(WebMode::Driver, true, true)),
    {
        SideClose {
            change: self.change_mode(Some(WebMode::Driver), true, true),
            closed: Backend::Session,
            close_failure_counts: true,
        }
    }

    /// The same page after its tab was reconnected, given what reconnecting
    /// the tab gave: whether the reconnected tab still belongs to a browser.
    /// An error is passed on unchanged; a tab without a browser is refused;
    /// otherwise mode and tab are kept.
    pub fn reconnect(&self, reconnected: Result<bool, OpenPageError>) -> (page: Result<WebPage, OpenPageError>)
        ensures
            match reconnected {
                Ok(true) => page == Ok::<WebPage, OpenPageError>(*self),
                Ok(false) => page == Err::<WebPage, OpenPageError>(
                    OpenPageError::DriverModeOnly("reconnect()"),
                ),
                Err(x) => page == Err::<WebPage, OpenPageError>(x),
            },
    {
        match reconnected {
            Ok(true) => Ok(self.clone()),
            Ok(false) => Err(OpenPageError::DriverModeOnly("reconnect()")),
            Err(x) => Err(x),
        }
    }

    /// The web page of another tab of the same browser, in this page's current mode.
    pub fn with_target(&self, target_id: &str) -> (page: WebPage)
        ensures
            page.mode == self.mode,
            page.target_id@ == target_id@,
    {
        self.with_driver_page(target_id.to_owned())
    }
}

/// The locator a session-mode wait looks for: a locator as written, or the
/// XPath of a session element; none for a browser-backed element.
pub fn session_wait_locator(target: &WaitTarget) -> (locator: Result<String, OpenPageError>)
    ensures
        match wait_locator(*target) {
            Some(l) => locator matches Ok(s) && s@ == l,
            None => locator matches Err(OpenPageError::SessionWaitNeedsSessionTarget),
        },
{
    match target {
        WaitTarget::Locator(raw) => Ok(raw.clone()),
        WaitTarget::SessionElement(xpath) => Ok(String::from_str("xpath:").concat(xpath.as_str())),
        WaitTarget::BrowserElement => Err(OpenPageError::SessionWaitNeedsSessionTarget),
    }
}

/// Whether every locator found some element, or, with `any_one`, at least
/// one of them did, given how many elements each found.
pub open spec fn loaded(found: Seq<usize>, any_one: bool) -> bool {
    if any_one {
        exists|i: int| 0 <= i < found.len() && #[trigger] found[i] > 0
    } else {
        forall|i: int| 0 <= i < found.len() ==> #[trigger] found[i] > 0
    }
}

/// Whether the session has loaded the elements waited for, given how many
/// elements each locator found: all of them must have found some, or, with
/// `any_one`, at least one.
pub fn elements_loaded(found: &Vec<usize>, any_one: bool) -> (loaded_now: bool)
    ensures
        loaded_now == loaded(found@, any_one),
{
    let mut matched: usize = 0;
    let mut i: usize = 0;
    while i < found.len()
        invariant
            i <= found@.len(),
            matched <= i,
            matched == i <==> (forall|j: int| 0 <= j < i ==> #[trigger] found@[j] > 0),
            matched > 0 <==> (exists|j: int| 0 <= j < i && #[trigger] found@[j] > 0),
        decreases found@.len() - i,
    {
        if found[i] > 0 {
            matched = matched + 1;
        }
        i = i + 1;
    }
    if any_one {
        matched > 0
    } else {
        matched == found.len()
    }
}

} // verus!
