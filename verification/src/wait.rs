use vstd::prelude::*;
use vstd::string::*;

use crate::error::OpenPageError;
use crate::model::{ElementHandle, WebElement, WebPage};
use crate::page_flow::{elements_loaded, loaded};

verus! {

/// What one round of a polling wait decides, given what was looked at and
/// whether the deadline has passed.
#[derive(Debug)]
pub enum WaitStep<T> {
    /// The wait is over, with this outcome.
    Done(T),
    /// The deadline passed first: the wait ends with the configured timeout
    /// outcome for it.
    TimedOut,
    /// Nothing yet: pause, then look again.
    Retry,
}

/// What a page-level element wait waits for in session mode.
#[derive(Clone, Copy, Debug, PartialEq, Eq, Structural)]
pub enum SessionCondition {
    /// An element is found, and then the wait answers whether it has no
    /// `disabled` attribute.
    Ready,
    /// The locator finds no element.
    Gone,
}

/// The element waits of a page.
#[derive(Clone, Copy, Debug, PartialEq, Eq, Structural)]
pub enum ElementWaitKind {
    Displayed,
    Hidden,
    Enabled,
    Deleted,
    Clickable,
}

/// The session-side condition of each element wait: hidden and deleted
/// wait until nothing is found, the others for an element that is not
/// disabled.
pub open spec fn condition_of(kind: ElementWaitKind) -> SessionCondition {
    match kind {
        ElementWaitKind::Hidden | ElementWaitKind::Deleted => SessionCondition::Gone,
        _ => SessionCondition::Ready,
    }
}

pub fn session_condition(kind: ElementWaitKind) -> (condition: SessionCondition)
    ensures
        condition == condition_of(kind),
{
    match kind {
        ElementWaitKind::Hidden | ElementWaitKind::Deleted => SessionCondition::Gone,
        _ => SessionCondition::Ready,
    }
}

/// The step of a wait that polls a check until it holds: an error of the
/// check ends the wait with that error, a check that holds ends it with
/// `true`, and otherwise the deadline decides.
pub open spec fn poll(check: Result<bool, OpenPageError>, deadline_passed: bool) -> WaitStep<
    Result<bool, OpenPageError>,
> {
    match check {
        Err(x) => WaitStep::Done(Err(x)),
        Ok(true) => WaitStep::Done(Ok(true)),
        Ok(false) => if deadline_passed {
            WaitStep::TimedOut
        } else {
            WaitStep::Retry
        },
    }
}

pub fn poll_step(check: Result<bool, OpenPageError>, deadline_passed: bool) -> (step: WaitStep<
    Result<bool, OpenPageError>,
>)
    ensures
        step == poll(check, deadline_passed),
{
    match check {
        Err(x) => WaitStep::Done(Err(x)),
        Ok(true) => WaitStep::Done(Ok(true)),
        Ok(false) => if deadline_passed {
            WaitStep::TimedOut
        } else {
            WaitStep::Retry
        },
    }
}

/// One round of a session-mode wait for elements to load, given how many
/// elements each locator found: a lookup error ends the wait with that
/// error; loaded ends it with `true`; otherwise the deadline decides.
pub fn elements_loaded_step(found: Result<Vec<usize>, OpenPageError>, any_one: bool, deadline_passed: bool) -> (step:
    WaitStep<Result<bool, OpenPageError>>)
    ensures
        step == poll(
            match found {
                Ok(counts) => Ok(loaded(counts@, any_one)),
                Err(x) => Err(x),
            },
            deadline_passed,
        ),
{
    match found {
        Ok(counts) => poll_step(Ok(elements_loaded(&counts, any_one)), deadline_passed),
        Err(x) => poll_step(Err(x), deadline_passed),
    }
}

/// A session-mode wait for an element to vanish: done as soon as the
/// locator finds nothing.
pub fn session_gone_step(found: Option<ElementHandle>, deadline_passed: bool) -> (step: WaitStep<
    Result<bool, OpenPageError>,
>)
    ensures
        step == poll(Ok(found is None), deadline_passed),
{
    poll_step(Ok(found.is_none()), deadline_passed)
}

/// A session-mode wait for an element to appear: once one is found it is
/// handed on to be checked; until then the deadline decides.
pub fn session_find_step(found: Option<ElementHandle>, deadline_passed: bool) -> (step: WaitStep<
    ElementHandle,
>)
    ensures
        found matches Some(h) ==> step == WaitStep::Done(h),
        found is None && deadline_passed ==> step is TimedOut,
        found is None && !deadline_passed ==> step is Retry,
{
    match found {
        Some(h) => WaitStep::Done(h),
        None => if deadline_passed {
            WaitStep::TimedOut
        } else {
            WaitStep::Retry
        },
    }
}

/// The check made on the element a ready-wait found, given what reading its
/// `disabled` attribute gave: it is ready when it has none; an error is
/// passed on unchanged.
pub fn session_element_ready<E>(disabled: Result<Option<String>, E>) -> (ready: Result<bool, E>)
    ensures
        match disabled {
            Ok(value) => ready == Ok::<bool, E>(value is None),
            Err(x) => ready == Err::<bool, E>(x),
        },
{
    match disabled {
        Ok(value) => Ok(value.is_none()),
        Err(x) => Err(x),
    }
}

impl WebPage {
    /// One round of waiting for a locator, given what the lookup gave (its
    /// error as text): an element found is returned in this page's context;
    /// when the lookup failed and the deadline has passed, the wait fails
    /// with a timeout that names the locator and the lookup's error; else it
    /// looks again.
    pub fn wait_for_step(&self, locator: &str, found: Result<ElementHandle, String>, deadline_passed: bool) -> (step:
        WaitStep<Result<WebElement, OpenPageError>>)
        ensures
            match found {
                Ok(h) => step == WaitStep::Done(Ok::<WebElement, OpenPageError>(self.found_element(h))),
                Err(cause) => if deadline_passed {
                    step matches WaitStep::Done(Err(OpenPageError::LocatorTimedOut { locator: l, last_error: c }))
                        && l@ == locator@ && c == cause
                } else {
                    step is Retry
                },
            },
    {
        match found {
            Ok(h) => WaitStep::Done(Ok(self.found(h))),
            Err(cause) => if deadline_passed {
                WaitStep::Done(
                    Err(OpenPageError::LocatorTimedOut { locator: String::from_str(locator), last_error: cause }),
                )
            } else {
                WaitStep::Retry
            },
        }
    }

    /// One round of waiting, after the other tabs were told to close, until
    /// this tab is the only one left: an error listing the tabs ends the
    /// wait with that error. `TimedOut` here means that `close()` fails with
    /// its timeout error after one second.
    pub fn close_others_step<E>(&self, tab_ids: Result<Vec<String>, E>, deadline_passed: bool) -> (step:
        WaitStep<Result<(), E>>)
        ensures
            match tab_ids {
                Err(x) => step == WaitStep::Done(Err::<(), E>(x)),
                Ok(ids) => if ids@.len() == 1 && ids@[0]@ == self.target_id@ {
                    step == WaitStep::Done(Ok::<(), E>(()))
                } else if deadline_passed {
                    step is TimedOut
                } else {
                    step is Retry
                },
            },
    {
        match tab_ids {
            Err(x) => WaitStep::Done(Err(x)),
            Ok(ids) => {
                if self.others_closed(&ids) {
                    WaitStep::Done(Ok(()))
                } else if deadline_passed {
                    WaitStep::TimedOut
                } else {
                    WaitStep::Retry
                }
            },
        }
    }
}

} // verus!
