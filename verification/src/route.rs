use vstd::prelude::*;

use crate::error::OpenPageError;

verus! {

/// A component that can carry out an operation of the web facade.
///
/// For a page, `Driver` is its browser tab and `Session` its HTTP session
/// page; for an element, `Driver` is the browser-backed element and `Session`
/// the element of a session document; `Browser` is the browser process that
/// owns the tabs.
#[derive(Clone, Copy, Debug, PartialEq, Eq, Structural)]
pub enum Backend {
    Browser,
    Driver,
    Session,
}

/// A result that the facade gives without asking any component.
#[derive(Clone, Copy, Debug, PartialEq, Eq, Structural)]
pub enum Reply {
    /// The operation succeeds and has nothing to return.
    Unit,
    /// The operation answers with a fixed truth value.
    Bool(bool),
    /// The operation answers that there is no value.
    Absent,
    /// The operation answers with an empty list.
    EmptyList,
}

/// What the facade does with an operation.
#[derive(Debug)]
pub enum Route {
    /// The operation is handed to one component.
    Run(Backend),
    /// The operation is handed to a component for one tab only, named by its
    /// target id; the component keeps such settings apart per tab.
    RunForTab(Backend, String),
    /// The operation is handed to the first component, then to the second.
    RunBoth(Backend, Backend),
    /// The driver's cookies and user agent are first copied into the
    /// session, then the session carries out the operation.
    SyncCookiesThenSession,
    /// The facade answers by itself.
    Answer(Reply),
    /// The operation is refused.
    Refuse(OpenPageError),
}

/// A batch search as it is handed on: where it goes, and the two flags
/// that the component is given with the locators.
#[derive(Debug)]
pub struct LocatorBatchRequest {
    pub route: Route,
    /// Whether the search may stop at the first locator that finds anything.
    pub any_one: bool,
    /// Whether each locator keeps only its first match.
    pub first_match_only: bool,
}

/// An operation as the facade hands it on: where it goes, and the
/// arguments it was called with, in order and unchanged (the facade neither
/// reads nor rewrites them).
#[derive(Debug)]
pub struct RouteCall<A> {
    pub route: Route,
    pub args: A,
}

/// A search by one locator as it is handed on: where it goes, and the
/// locator as read.
#[derive(Debug)]
pub struct LocatorRequest {
    pub route: Route,
    pub locator: String,
}

impl Route {
    pub open spec fn is_refused(self) -> bool {
        self is Refuse
    }
}

} // verus!
