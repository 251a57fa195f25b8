use vstd::prelude::*;

use crate::element_flow::WebElementDragTarget;
use crate::error::OpenPageError;
use crate::frame_forward::FrameCall;
use crate::model::{ElementHandle, FrameHandle, OneOrPlaceholder, TabReference, WebElement, WebFrame};
use crate::route::{Backend, Route};

verus! {

/// Searches and lookups in a frame are carried out by the driver frame;
/// what they find keeps the frame's page context.
impl WebFrame {
    pub fn click_for_new_tab<E>(&self, opened: Result<Option<String>, E>) -> (tab: Result<Option<TabReference>, E>)
        ensures
            tab == self.frame_found_optional_tab_result(opened),
    {
        self.wrap_optional_page_result(opened)
    }

    pub fn click_middle<E>(&self, opened: Result<Option<String>, E>) -> (tab: Result<Option<TabReference>, E>)
        ensures
            tab == self.frame_found_optional_tab_result(opened),
    {
        self.wrap_optional_page_result(opened)
    }

    pub fn active_element<E>(&self, found: Result<Option<ElementHandle>, E>) -> (element: Result<Option<WebElement>, E>)
        ensures
            element == self.frame_found_optional_result(found),
    {
        self.wrap_optional_element_result(found)
    }

    /// `parsed` is what reading the locator gave: an error refuses the
    /// lookup before anything is asked; otherwise the driver frame looks the
    /// element up by the locator as read.
    pub fn ele<E>(&self, parsed: Result<String, E>) -> (call: Result<FrameCall<String>, E>)
        ensures
            call == match parsed {
                Ok(raw) => Ok(FrameCall { frame: self.handle(), args: raw }),
                Err(x) => Err::<FrameCall<String>, E>(x),
            },
    {
        match parsed {
            Ok(raw) => Ok(FrameCall { frame: self.frame(), args: raw }),
            Err(x) => Err(x),
        }
    }

    /// What `ele` gives, given what the driver frame's lookup gave: an
    /// error is passed on; a found element keeps the frame's context; a
    /// miss keeps the placeholder the lookup gave.
    pub fn ele_found<P, E>(&self, found: Result<OneOrPlaceholder<ElementHandle, P>, E>) -> (element:
        Result<OneOrPlaceholder<WebElement, P>, E>)
        ensures
            element == match found {
                Ok(OneOrPlaceholder::Found(h)) => Ok(OneOrPlaceholder::Found(self.frame_found(h))),
                Ok(OneOrPlaceholder::Missing(p)) => Ok(OneOrPlaceholder::Missing(p)),
                Err(x) => Err::<OneOrPlaceholder<WebElement, P>, E>(x),
            },
    {
        match found {
            Ok(OneOrPlaceholder::Found(h)) => Ok(OneOrPlaceholder::Found(self.wrap_element(h))),
            Ok(OneOrPlaceholder::Missing(p)) => Ok(OneOrPlaceholder::Missing(p)),
            Err(x) => Err(x),
        }
    }

    pub fn find<E>(&self, found: Result<ElementHandle, E>) -> (element: Result<WebElement, E>)
        ensures
            element == self.frame_found_result(found),
    {
        self.wrap_element_result(found)
    }

    pub fn find_all<E>(&self, found: Result<Vec<ElementHandle>, E>) -> (elements: Result<Vec<WebElement>, E>)
        ensures
            match found {
                Ok(w) => elements matches Ok(v) && self.frame_found_all(w@, v@),
                Err(x) => elements == Err::<Vec<WebElement>, E>(x),
            },
    {
        self.wrap_elements_result(found)
    }

    pub fn get_frame<E>(&self, found: Result<FrameHandle, E>) -> (frame: Result<WebFrame, E>)
        ensures
            frame == self.frame_found_frame_result(found),
    {
        self.wrap_frame_result(found)
    }

    pub fn get_frame_with_timeout<E>(&self, found: Result<FrameHandle, E>) -> (frame: Result<WebFrame, E>)
        ensures
            frame == self.frame_found_frame_result(found),
    {
        self.wrap_frame_result(found)
    }

    pub fn get_frame_by_index<E>(&self, found: Result<FrameHandle, E>) -> (frame: Result<WebFrame, E>)
        ensures
            frame == self.frame_found_frame_result(found),
    {
        self.wrap_frame_result(found)
    }

    pub fn get_frame_by_index_with_timeout<E>(&self, found: Result<FrameHandle, E>) -> (frame: Result<WebFrame, E>)
        ensures
            frame == self.frame_found_frame_result(found),
    {
        self.wrap_frame_result(found)
    }

    pub fn get_frame_ele<E>(&self, found: Result<ElementHandle, E>) -> (element: Result<WebElement, E>)
        ensures
            element == self.frame_found_result(found),
    {
        self.wrap_element_result(found)
    }

    pub fn get_frame_ele_with_timeout<E>(&self, found: Result<ElementHandle, E>) -> (element: Result<WebElement, E>)
        ensures
            element == self.frame_found_result(found),
    {
        self.wrap_element_result(found)
    }

    pub fn get_frame_ele_by_index<E>(&self, found: Result<ElementHandle, E>) -> (element: Result<WebElement, E>)
        ensures
            element == self.frame_found_result(found),
    {
        self.wrap_element_result(found)
    }

    pub fn get_frame_ele_by_index_with_timeout<E>(&self, found: Result<ElementHandle, E>) -> (element: Result<WebElement, E>)
        ensures
            element == self.frame_found_result(found),
    {
        self.wrap_element_result(found)
    }

    pub fn get_frames<E>(&self, found: Result<Vec<FrameHandle>, E>) -> (frames: Result<Vec<WebFrame>, E>)
        ensures
            match found {
                Ok(w) => frames matches Ok(v) && self.frame_found_frames(w@, v@),
                Err(x) => frames == Err::<Vec<WebFrame>, E>(x),
            },
    {
        self.wrap_frames_result(found)
    }

    pub fn get_frames_with_timeout<E>(&self, found: Result<Vec<FrameHandle>, E>) -> (frames: Result<Vec<WebFrame>, E>)
        ensures
            match found {
                Ok(w) => frames matches Ok(v) && self.frame_found_frames(w@, v@),
                Err(x) => frames == Err::<Vec<WebFrame>, E>(x),
            },
    {
        self.wrap_frames_result(found)
    }

    pub fn get_frame_eles<E>(&self, found: Result<Vec<ElementHandle>, E>) -> (elements: Result<Vec<WebElement>, E>)
        ensures
            match found {
                Ok(w) => elements matches Ok(v) && self.frame_found_all(w@, v@),
                Err(x) => elements == Err::<Vec<WebElement>, E>(x),
            },
    {
        self.wrap_elements_result(found)
    }

    pub fn get_frame_eles_with_timeout<E>(&self, found: Result<Vec<ElementHandle>, E>) -> (elements: Result<Vec<WebElement>, E>)
        ensures
            match found {
                Ok(w) => elements matches Ok(v) && self.frame_found_all(w@, v@),
                Err(x) => elements == Err::<Vec<WebElement>, E>(x),
            },
    {
        self.wrap_elements_result(found)
    }

    pub fn parent<E>(&self, found: Result<ElementHandle, E>) -> (element: Result<WebElement, E>)
        ensures
            element == self.frame_found_result(found),
    {
        self.wrap_element_result(found)
    }

    /// The driver frame and the level that `parent_level` hands to it.
    pub fn parent_level_request(&self, level: usize) -> (request: (FrameHandle, usize))
        ensures
            request == (self.handle(), level),
    {
        (self.frame(), level)
    }

    pub fn parent_level<E>(&self, found: Result<ElementHandle, E>) -> (element: Result<WebElement, E>)
        ensures
            element == self.frame_found_result(found),
    {
        self.wrap_element_result(found)
    }

    pub fn parent_with<E>(&self, found: Result<ElementHandle, E>) -> (element: Result<WebElement, E>)
        ensures
            element == self.frame_found_result(found),
    {
        self.wrap_element_result(found)
    }

    pub fn child<E>(&self, found: Result<ElementHandle, E>) -> (element: Result<WebElement, E>)
        ensures
            element == self.frame_found_result(found),
    {
        self.wrap_element_result(found)
    }

    pub fn child_with<E>(&self, found: Result<ElementHandle, E>) -> (element: Result<WebElement, E>)
        ensures
            element == self.frame_found_result(found),
    {
        self.wrap_element_result(found)
    }

    pub fn children<E>(&self, found: Result<Vec<ElementHandle>, E>) -> (elements: Result<Vec<WebElement>, E>)
        ensures
            match found {
                Ok(w) => elements matches Ok(v) && self.frame_found_all(w@, v@),
                Err(x) => elements == Err::<Vec<WebElement>, E>(x),
            },
    {
        self.wrap_elements_result(found)
    }

    pub fn children_with<E>(&self, found: Result<Vec<ElementHandle>, E>) -> (elements: Result<Vec<WebElement>, E>)
        ensures
            match found {
                Ok(w) => elements matches Ok(v) && self.frame_found_all(w@, v@),
                Err(x) => elements == Err::<Vec<WebElement>, E>(x),
            },
    {
        self.wrap_elements_result(found)
    }

    pub fn prev<E>(&self, found: Result<ElementHandle, E>) -> (element: Result<WebElement, E>)
        ensures
            element == self.frame_found_result(found),
    {
        self.wrap_element_result(found)
    }

    pub fn prev_with<E>(&self, found: Result<ElementHandle, E>) -> (element: Result<WebElement, E>)
        ensures
            element == self.frame_found_result(found),
    {
        self.wrap_element_result(found)
    }

    pub fn next<E>(&self, found: Result<ElementHandle, E>) -> (element: Result<WebElement, E>)
        ensures
            element == self.frame_found_result(found),
    {
        self.wrap_element_result(found)
    }

    pub fn next_with<E>(&self, found: Result<ElementHandle, E>) -> (element: Result<WebElement, E>)
        ensures
            element == self.frame_found_result(found),
    {
        self.wrap_element_result(found)
    }

    pub fn before<E>(&self, found: Result<ElementHandle, E>) -> (element: Result<WebElement, E>)
        ensures
            element == self.frame_found_result(found),
    {
        self.wrap_element_result(found)
    }

    pub fn before_with<E>(&self, found: Result<ElementHandle, E>) -> (element: Result<WebElement, E>)
        ensures
            element == self.frame_found_result(found),
    {
        self.wrap_element_result(found)
    }

    pub fn after<E>(&self, found: Result<ElementHandle, E>) -> (element: Result<WebElement, E>)
        ensures
            element == self.frame_found_result(found),
    {
        self.wrap_element_result(found)
    }

    pub fn after_with<E>(&self, found: Result<ElementHandle, E>) -> (element: Result<WebElement, E>)
        ensures
            element == self.frame_found_result(found),
    {
        self.wrap_element_result(found)
    }

    pub fn prevs<E>(&self, found: Result<Vec<ElementHandle>, E>) -> (elements: Result<Vec<WebElement>, E>)
        ensures
            match found {
                Ok(w) => elements matches Ok(v) && self.frame_found_all(w@, v@),
                Err(x) => elements == Err::<Vec<WebElement>, E>(x),
            },
    {
        self.wrap_elements_result(found)
    }

    pub fn prevs_with<E>(&self, found: Result<Vec<ElementHandle>, E>) -> (elements: Result<Vec<WebElement>, E>)
        ensures
            match found {
                Ok(w) => elements matches Ok(v) && self.frame_found_all(w@, v@),
                Err(x) => elements == Err::<Vec<WebElement>, E>(x),
            },
    {
        self.wrap_elements_result(found)
    }

    pub fn nexts<E>(&self, found: Result<Vec<ElementHandle>, E>) -> (elements: Result<Vec<WebElement>, E>)
        ensures
            match found {
                Ok(w) => elements matches Ok(v) && self.frame_found_all(w@, v@),
                Err(x) => elements == Err::<Vec<WebElement>, E>(x),
            },
    {
        self.wrap_elements_result(found)
    }

    pub fn nexts_with<E>(&self, found: Result<Vec<ElementHandle>, E>) -> (elements: Result<Vec<WebElement>, E>)
        ensures
            match found {
                Ok(w) => elements matches Ok(v) && self.frame_found_all(w@, v@),
                Err(x) => elements == Err::<Vec<WebElement>, E>(x),
            },
    {
        self.wrap_elements_result(found)
    }

    pub fn befores<E>(&self, found: Result<Vec<ElementHandle>, E>) -> (elements: Result<Vec<WebElement>, E>)
        ensures
            match found {
                Ok(w) => elements matches Ok(v) && self.frame_found_all(w@, v@),
                Err(x) => elements == Err::<Vec<WebElement>, E>(x),
            },
    {
        self.wrap_elements_result(found)
    }

    pub fn befores_with<E>(&self, found: Result<Vec<ElementHandle>, E>) -> (elements: Result<Vec<WebElement>, E>)
        ensures
            match found {
                Ok(w) => elements matches Ok(v) && self.frame_found_all(w@, v@),
                Err(x) => elements == Err::<Vec<WebElement>, E>(x),
            },
    {
        self.wrap_elements_result(found)
    }

    pub fn afters<E>(&self, found: Result<Vec<ElementHandle>, E>) -> (elements: Result<Vec<WebElement>, E>)
        ensures
            match found {
                Ok(w) => elements matches Ok(v) && self.frame_found_all(w@, v@),
                Err(x) => elements == Err::<Vec<WebElement>, E>(x),
            },
    {
        self.wrap_elements_result(found)
    }

    pub fn afters_with<E>(&self, found: Result<Vec<ElementHandle>, E>) -> (elements: Result<Vec<WebElement>, E>)
        ensures
            match found {
                Ok(w) => elements matches Ok(v) && self.frame_found_all(w@, v@),
                Err(x) => elements == Err::<Vec<WebElement>, E>(x),
            },
    {
        self.wrap_elements_result(found)
    }

    pub fn over<E>(&self, found: Result<Option<ElementHandle>, E>) -> (element: Result<Option<WebElement>, E>)
        ensures
            element == self.frame_found_optional_result(found),
    {
        self.wrap_optional_element_result(found)
    }

    pub fn over_with_timeout<E>(&self, found: Result<Option<ElementHandle>, E>) -> (element: Result<Option<WebElement>, E>)
        ensures
            element == self.frame_found_optional_result(found),
    {
        self.wrap_optional_element_result(found)
    }

    pub fn offset<E>(&self, found: Result<ElementHandle, E>) -> (element: Result<WebElement, E>)
        ensures
            element == self.frame_found_result(found),
    {
        self.wrap_element_result(found)
    }

    pub fn east<E>(&self, found: Result<ElementHandle, E>) -> (element: Result<WebElement, E>)
        ensures
            element == self.frame_found_result(found),
    {
        self.wrap_element_result(found)
    }

    pub fn south<E>(&self, found: Result<ElementHandle, E>) -> (element: Result<WebElement, E>)
        ensures
            element == self.frame_found_result(found),
    {
        self.wrap_element_result(found)
    }

    pub fn west<E>(&self, found: Result<ElementHandle, E>) -> (element: Result<WebElement, E>)
        ensures
            element == self.frame_found_result(found),
    {
        self.wrap_element_result(found)
    }

    pub fn north<E>(&self, found: Result<ElementHandle, E>) -> (element: Result<WebElement, E>)
        ensures
            element == self.frame_found_result(found),
    {
        self.wrap_element_result(found)
    }

    pub fn active_ele<E>(&self, found: Result<Option<ElementHandle>, E>) -> (element: Result<Option<WebElement>, E>)
        ensures
            element == self.frame_found_optional_result(found),
    {
        self.active_element(found)
    }

    pub fn eles<E>(&self, found: Result<Vec<ElementHandle>, E>) -> (elements: Result<Vec<WebElement>, E>)
        ensures
            match found {
                Ok(w) => elements matches Ok(v) && self.frame_found_all(w@, v@),
                Err(x) => elements == Err::<Vec<WebElement>, E>(x),
            },
    {
        self.find_all(found)
    }

    pub fn get_frame_context<E>(&self, found: Result<FrameHandle, E>) -> (frame: Result<WebFrame, E>)
        ensures
            frame == self.frame_found_frame_result(found),
    {
        self.get_frame(found)
    }

    pub fn get_frame_context_by_index<E>(&self, found: Result<FrameHandle, E>) -> (frame: Result<WebFrame, E>)
        ensures
            frame == self.frame_found_frame_result(found),
    {
        self.get_frame_by_index(found)
    }

    pub fn get_frame_contexts<E>(&self, found: Result<Vec<FrameHandle>, E>) -> (frames: Result<Vec<WebFrame>, E>)
        ensures
            match found {
                Ok(w) => frames matches Ok(v) && self.frame_found_frames(w@, v@),
                Err(x) => frames == Err::<Vec<WebFrame>, E>(x),
            },
    {
        self.get_frames(found)
    }
}

impl WebFrame {
    /// A frame is always browser-backed, so only the target of a drag can be
    /// refused.
    pub fn drag_to(&self, target: &WebElementDragTarget) -> (route: Route)
        ensures
            match *target {
                WebElementDragTarget::Element(t) => t is Session ==> route == Route::Refuse(
                    OpenPageError::DriverElementRequired("drag_to() target"),
                ),
                _ => true,
            },
            !(*target matches WebElementDragTarget::Element(t) && t is Session) ==> route
                == Route::Run(Backend::Driver),
    {
        match target {
            WebElementDragTarget::Element(t) => {
                if t.browser_element().is_none() {
                    return Route::Refuse(OpenPageError::DriverElementRequired("drag_to() target"));
                }
                Route::Run(Backend::Driver)
            },
            _ => Route::Run(Backend::Driver),
        }
    }

    /// The drag onto the element a locator target found in this frame, given
    /// what the search gave: an error is passed on unchanged, and what a
    /// frame finds is always browser-backed.
    pub fn drag_to_located<E>(&self, found: Result<ElementHandle, E>) -> (route: Result<Route, E>)
        ensures
            match found {
                Ok(h) => route == Ok::<Route, E>(Route::Run(Backend::Driver)) && !(self.frame_found(h) is Session),
                Err(x) => route == Err::<Route, E>(x),
            },
    {
        match found {
            Ok(_) => Ok(Route::Run(Backend::Driver)),
            Err(x) => Err(x),
        }
    }
}

} // verus!
