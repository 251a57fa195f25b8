use vstd::prelude::*;

use crate::mode::WebMode;

verus! {

/// A reference to an element held by a backend (a node of the driver tab or
/// of a session document).
#[derive(Clone, Copy, Debug, PartialEq, Eq, Structural)]
pub struct ElementHandle {
    pub id: u64,
}

/// A reference to a frame held by the driver.
#[derive(Clone, Copy, Debug, PartialEq, Eq, Structural)]
pub struct FrameHandle {
    pub id: u64,
}

/// A page that can be driven either through a browser tab or through an
/// HTTP session, switching between the two by its mode.
#[derive(Debug)]
pub struct WebPage {
    /// The side that currently carries out page operations.
    pub mode: WebMode,
    /// The target id of the browser tab behind the page.
    pub target_id: String,
}

/// A web page whose browser connection was released; it keeps the mode and
/// the tab it belonged to.
#[derive(Debug)]
pub struct DisconnectedWebPage {
    pub mode: WebMode,
    pub target_id: String,
}

/// An element found through a web page.
#[derive(Debug)]
pub enum WebElement {
    /// A browser-backed element found outside any web page.
    Browser(ElementHandle),
    /// A browser-backed element that remembers the web page it came from.
    Mix { element: ElementHandle, page: Box<WebPage> },
    /// An element of a session document.
    Session(ElementHandle),
}

/// A frame found through a page.
#[derive(Debug)]
pub enum WebFrame {
    /// A frame of a plain browser page.
    Browser(FrameHandle),
    /// A frame that remembers the web page it came from.
    Mix { frame: FrameHandle, page: Box<WebPage> },
}

/// A frame whose connection was released.
#[derive(Debug)]
pub enum DisconnectedWebFrame {
    Browser(FrameHandle),
    Mix { frame: FrameHandle, page: Box<WebPage> },
}

/// What a lookup of one element gives: the element, or, on a miss, the
/// placeholder that the lookup was configured to give in its place.
#[derive(Debug)]
pub enum OneOrPlaceholder<T, P> {
    Found(T),
    Missing(P),
}

/// A tab as reported by the browser.
#[derive(Debug)]
pub enum TabReference {
    /// The tab's target id, when only ids were asked for.
    Id(String),
    /// A plain browser page, by its target id.
    Page(String),
    /// A tab as a web page.
    WebPage(WebPage),
}

impl Clone for WebPage {
    fn clone(&self) -> (copy: Self)
        ensures
            copy == *self,
    {
        WebPage { mode: self.mode, target_id: self.target_id.clone() }
    }
}

} // verus!
