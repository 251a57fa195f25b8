use vstd::prelude::*;

use crate::error::OpenPageError;
use crate::model::{ElementHandle, FrameHandle, TabReference, WebElement, WebFrame, WebPage};
use crate::route::{Backend, Route};

verus! {

impl WebElement {
    pub open spec fn is_browser_backed(self) -> bool {
        !(self is Session)
    }

    /// Operations that both kinds of element support go to the element itself:
    /// the browser-backed element, or the session element.
    pub open spec fn by_kind(self) -> Route {
        match self {
            WebElement::Session(_) => Route::Run(Backend::Session),
            _ => Route::Run(Backend::Driver),
        }
    }

    /// Operations that need a live browser are refused for session elements.
    pub open spec fn driver_only(self, op: &'static str) -> Route {
        match self {
            WebElement::Session(_) => Route::Refuse(OpenPageError::DriverModeOnly(op)),
            _ => Route::Run(Backend::Driver),
        }
    }

    /// The element a browser-backed result is wrapped into: it keeps the web
    /// page of a mix element, and is a plain browser element otherwise.
    pub open spec fn wrapped_element(self, found: ElementHandle) -> WebElement {
        match self {
            WebElement::Mix { page, .. } => WebElement::Mix { element: found, page },
            _ => WebElement::Browser(found),
        }
    }

    /// The frame a browser-backed frame result is wrapped into.
    pub open spec fn wrapped_frame(self, found: FrameHandle) -> WebFrame {
        match self {
            WebElement::Mix { page, .. } => WebFrame::Mix { frame: found, page },
            _ => WebFrame::Browser(found),
        }
    }

    /// The reference a new tab opened from this element is reported as.
    pub open spec fn wrapped_tab(self, target_id: String) -> TabReference {
        match self {
            WebElement::Mix { page, .. } => TabReference::WebPage(
                WebPage { mode: page.mode, target_id },
            ),
            _ => TabReference::Page(target_id),
        }
    }

    pub fn route_by_kind(&self) -> (route: Route)
        ensures
            route == self.by_kind(),
    {
        match self {
            WebElement::Session(_) => Route::Run(Backend::Session),
            _ => Route::Run(Backend::Driver),
        }
    }

    pub fn route_driver_only(&self, op: &'static str) -> (route: Route)
        ensures
            route == self.driver_only(op),
    {
        match self {
            WebElement::Session(_) => Route::Refuse(OpenPageError::DriverModeOnly(op)),
            _ => Route::Run(Backend::Driver),
        }
    }

    /// The browser-backed element behind this element, if any.
    pub fn browser_element(&self) -> (element: Option<ElementHandle>)
        ensures
            match *self {
                WebElement::Browser(e) => element == Some(e),
                WebElement::Mix { element: e, .. } => element == Some(e),
                WebElement::Session(_) => element is None,
            },
    {
        match self {
            WebElement::Browser(e) => Some(*e),
            WebElement::Mix { element, .. } => Some(*element),
            WebElement::Session(_) => None,
        }
    }

    pub fn wrap_browser_element(&self, found: ElementHandle) -> (element: WebElement)
        ensures
            element == self.wrapped_element(found),
    {
        match self {
            WebElement::Mix { page, .. } => page.with_driver_element(found),
            _ => WebElement::Browser(found),
        }
    }

    pub fn wrap_browser_frame(&self, found: FrameHandle) -> (frame: WebFrame)
        ensures
            frame == self.wrapped_frame(found),
    {
        match self {
            WebElement::Mix { page, .. } => page.with_driver_frame(found),
            _ => WebFrame::Browser(found),
        }
    }

    pub fn wrap_page(&self, target_id: String) -> (tab: TabReference)
        ensures
            tab == self.wrapped_tab(target_id),
    {
        match self {
            WebElement::Mix { page, .. } => TabReference::WebPage(page.with_driver_page(target_id)),
            _ => TabReference::Page(target_id),
        }
    }

    /// Wraps every browser-backed result the same way as one.
    pub fn wrap_browser_elements(&self, found: &Vec<ElementHandle>) -> (elements: Vec<WebElement>)
        ensures
            elements@.len() == found@.len(),
            forall|i: int|
                0 <= i < found@.len() ==> elements@[i] == self.wrapped_element(#[trigger] found@[i]),
    {
        let mut elements: Vec<WebElement> = Vec::new();
        let mut i: usize = 0;
        while i < found.len()
            invariant
                i <= found@.len(),
                elements@.len() == i,
                forall|j: int|
                    0 <= j < i ==> elements@[j] == self.wrapped_element(#[trigger] found@[j]),
            decreases found@.len() - i,
        {
            elements.push(self.wrap_browser_element(found[i]));
            i = i + 1;
        }
        elements
    }
}

} // verus!
