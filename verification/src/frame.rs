use vstd::prelude::*;

use crate::element_flow::LocatorMatch;
use crate::model::{DisconnectedWebFrame, ElementHandle, FrameHandle, TabReference, WebElement, WebFrame, WebPage};

verus! {

impl WebFrame {
    pub open spec fn handle(self) -> FrameHandle {
        match self {
            WebFrame::Browser(frame) => frame,
            WebFrame::Mix { frame, .. } => frame,
        }
    }

    /// The frame a nested frame found in this frame becomes.
    pub open spec fn frame_found_frame(self, found: FrameHandle) -> WebFrame {
        match self {
            WebFrame::Browser(_) => WebFrame::Browser(found),
            WebFrame::Mix { page, .. } => WebFrame::Mix { frame: found, page },
        }
    }

    /// The reference a tab reached from this frame is reported as.
    pub open spec fn frame_found_tab(self, target_id: String) -> TabReference {
        match self {
            WebFrame::Browser(_) => TabReference::Page(target_id),
            WebFrame::Mix { page, .. } => TabReference::WebPage(
                WebPage { mode: page.mode, target_id },
            ),
        }
    }

    pub open spec fn frame_found(self, found: ElementHandle) -> WebElement {
        match self {
            WebFrame::Browser(_) => WebElement::Browser(found),
            WebFrame::Mix { page, .. } => WebElement::Mix { element: found, page },
        }
    }

    pub open spec fn frame_found_optional(self, found: Option<ElementHandle>) -> Option<WebElement> {
        match found {
            Some(h) => Some(self.frame_found(h)),
            None => None,
        }
    }

    pub open spec fn frame_found_optional_tab(self, opened: Option<String>) -> Option<TabReference> {
        match opened {
            Some(id) => Some(self.frame_found_tab(id)),
            None => None,
        }
    }

    /// What a search in this frame gives: an error of the driver frame is
    /// passed on unchanged, a found element keeps the frame's context.
    pub open spec fn frame_found_result<E>(self, found: Result<ElementHandle, E>) -> Result<WebElement, E> {
        match found {
            Ok(h) => Ok(self.frame_found(h)),
            Err(x) => Err(x),
        }
    }

    pub open spec fn frame_found_optional_result<E>(self, found: Result<Option<ElementHandle>, E>) -> Result<
        Option<WebElement>,
        E,
    > {
        match found {
            Ok(h) => Ok(self.frame_found_optional(h)),
            Err(x) => Err(x),
        }
    }

    pub open spec fn frame_found_frame_result<E>(self, found: Result<FrameHandle, E>) -> Result<WebFrame, E> {
        match found {
            Ok(h) => Ok(self.frame_found_frame(h)),
            Err(x) => Err(x),
        }
    }

    pub open spec fn frame_found_optional_tab_result<E>(self, opened: Result<Option<String>, E>) -> Result<
        Option<TabReference>,
        E,
    > {
        match opened {
            Ok(id) => Ok(self.frame_found_optional_tab(id)),
            Err(x) => Err(x),
        }
    }

    /// `wrapped` holds, in order, the elements of `found` in this frame's context.
    pub open spec fn frame_found_all(self, found: Seq<ElementHandle>, wrapped: Seq<WebElement>) -> bool {
        &&& wrapped.len() == found.len()
        &&& forall|i: int| 0 <= i < found.len() ==> wrapped[i] == self.frame_found(#[trigger] found[i])
    }

    /// `wrapped` holds, in order, the frames of `found` in this frame's context.
    pub open spec fn frame_found_frames(self, found: Seq<FrameHandle>, wrapped: Seq<WebFrame>) -> bool {
        &&& wrapped.len() == found.len()
        &&& forall|i: int|
            0 <= i < found.len() ==> wrapped[i] == self.frame_found_frame(#[trigger] found[i])
    }

    /// `wrapped` keeps each locator of `found` with its elements, in order,
    /// in this frame's context.
    pub open spec fn frame_found_matches(
        self,
        found: Seq<LocatorMatch<ElementHandle>>,
        wrapped: Seq<LocatorMatch<WebElement>>,
    ) -> bool {
        &&& wrapped.len() == found.len()
        &&& forall|i: int|
            #![trigger wrapped[i]]
            0 <= i < found.len() ==> {
                &&& wrapped[i].locator == found[i].locator
                &&& self.frame_found_all(found[i].elements@, wrapped[i].elements@)
            }
    }

    /// The driver frame behind this frame.
    pub fn frame(&self) -> (frame: FrameHandle)
        ensures
            frame == self.handle(),
    {
        match self {
            WebFrame::Browser(frame) => *frame,
            WebFrame::Mix { frame, .. } => *frame,
        }
    }

    pub fn wrap_frame(&self, found: FrameHandle) -> (frame: WebFrame)
        ensures
            frame == self.frame_found_frame(found),
    {
        match self {
            WebFrame::Browser(_) => WebFrame::Browser(found),
            WebFrame::Mix { page, .. } => page.with_driver_frame(found),
        }
    }

    pub fn wrap_element(&self, found: ElementHandle) -> (element: WebElement)
        ensures
            element == self.frame_found(found),
    {
        match self {
            WebFrame::Browser(_) => WebElement::Browser(found),
            WebFrame::Mix { page, .. } => page.with_driver_element(found),
        }
    }

    pub fn wrap_page(&self, target_id: String) -> (tab: TabReference)
        ensures
            tab == self.frame_found_tab(target_id),
    {
        match self {
            WebFrame::Browser(_) => TabReference::Page(target_id),
            WebFrame::Mix { page, .. } => TabReference::WebPage(page.with_driver_page(target_id)),
        }
    }

    /// The tab that owns this frame, given its target id.
    pub fn owner_reference(&self, owner_target_id: String) -> (tab: TabReference)
        ensures
            tab == self.frame_found_tab(owner_target_id),
    {
        self.wrap_page(owner_target_id)
    }

    pub fn tab_reference(&self, owner_target_id: String) -> (tab: TabReference)
        ensures
            tab == self.frame_found_tab(owner_target_id),
    {
        self.owner_reference(owner_target_id)
    }

    /// The element that holds this frame in its owner, given what resolving
    /// it gave: an error is passed on unchanged.
    pub fn frame_element_reference<E>(&self, resolved: Result<ElementHandle, E>) -> (element: Result<
        WebElement,
        E,
    >)
        ensures
            element == self.frame_found_result(resolved),
    {
        self.wrap_element_result(resolved)
    }

    pub fn frame_ele_reference<E>(&self, resolved: Result<ElementHandle, E>) -> (element: Result<
        WebElement,
        E,
    >)
        ensures
            element == self.frame_found_result(resolved),
    {
        self.frame_element_reference(resolved)
    }

    pub fn wrap_element_result<E>(&self, found: Result<ElementHandle, E>) -> (element: Result<WebElement, E>)
        ensures
            element == self.frame_found_result(found),
    {
        match found {
            Ok(h) => Ok(self.wrap_element(h)),
            Err(x) => Err(x),
        }
    }

    pub fn wrap_optional_element(&self, found: Option<ElementHandle>) -> (element: Option<WebElement>)
        ensures
            element == self.frame_found_optional(found),
    {
        match found {
            Some(h) => Some(self.wrap_element(h)),
            None => None,
        }
    }

    pub fn wrap_optional_element_result<E>(&self, found: Result<Option<ElementHandle>, E>) -> (element:
        Result<Option<WebElement>, E>)
        ensures
            element == self.frame_found_optional_result(found),
    {
        match found {
            Ok(h) => Ok(self.wrap_optional_element(h)),
            Err(x) => Err(x),
        }
    }

    pub fn wrap_optional_page(&self, opened: Option<String>) -> (tab: Option<TabReference>)
        ensures
            tab == self.frame_found_optional_tab(opened),
    {
        match opened {
            Some(id) => Some(self.wrap_page(id)),
            None => None,
        }
    }

    pub fn wrap_optional_page_result<E>(&self, opened: Result<Option<String>, E>) -> (tab: Result<
        Option<TabReference>,
        E,
    >)
        ensures
            tab == self.frame_found_optional_tab_result(opened),
    {
        match opened {
            Ok(id) => Ok(self.wrap_optional_page(id)),
            Err(x) => Err(x),
        }
    }

    pub fn wrap_frame_result<E>(&self, found: Result<FrameHandle, E>) -> (frame: Result<WebFrame, E>)
        ensures
            frame == self.frame_found_frame_result(found),
    {
        match found {
            Ok(h) => Ok(self.wrap_frame(h)),
            Err(x) => Err(x),
        }
    }

    /// Wraps the frames a lookup in this frame found.
    pub fn wrap_frames(&self, found: &Vec<FrameHandle>) -> (frames: Vec<WebFrame>)
        ensures
            self.frame_found_frames(found@, frames@),
    {
        let mut frames: Vec<WebFrame> = Vec::new();
        let mut i: usize = 0;
        while i < found.len()
            invariant
                i <= found@.len(),
                frames@.len() == i,
                forall|j: int|
                    0 <= j < i ==> frames@[j] == self.frame_found_frame(#[trigger] found@[j]),
            decreases found@.len() - i,
        {
            frames.push(self.wrap_frame(found[i]));
            i = i + 1;
        }
        frames
    }

    pub fn wrap_frames_result<E>(&self, found: Result<Vec<FrameHandle>, E>) -> (frames: Result<
        Vec<WebFrame>,
        E,
    >)
        ensures
            match found {
                Ok(w) => frames matches Ok(v) && self.frame_found_frames(w@, v@),
                Err(x) => frames == Err::<Vec<WebFrame>, E>(x),
            },
    {
        match found {
            Ok(w) => Ok(self.wrap_frames(&w)),
            Err(x) => Err(x),
        }
    }

    /// Wraps the handles a search in this frame found.
    pub fn wrap_elements(&self, found: &Vec<ElementHandle>) -> (elements: Vec<WebElement>)
        ensures
            self.frame_found_all(found@, elements@),
    {
        let mut elements: Vec<WebElement> = Vec::new();
        let mut i: usize = 0;
        while i < found.len()
            invariant
                i <= found@.len(),
                elements@.len() == i,
                forall|j: int|
                    0 <= j < i ==> elements@[j] == self.frame_found(#[trigger] found@[j]),
            decreases found@.len() - i,
        {
            elements.push(self.wrap_element(found[i]));
            i = i + 1;
        }
        elements
    }

    pub fn wrap_elements_result<E>(&self, found: Result<Vec<ElementHandle>, E>) -> (elements: Result<
        Vec<WebElement>,
        E,
    >)
        ensures
            match found {
                Ok(w) => elements matches Ok(v) && self.frame_found_all(w@, v@),
                Err(x) => elements == Err::<Vec<WebElement>, E>(x),
            },
    {
        match found {
            Ok(w) => Ok(self.wrap_elements(&w)),
            Err(x) => Err(x),
        }
    }

    /// Wraps the elements of every locator match found in this frame.
    fn wrap_matches(&self, matches: &Vec<LocatorMatch<ElementHandle>>) -> (wrapped: Vec<
        LocatorMatch<WebElement>,
    >)
        ensures
            self.frame_found_matches(matches@, wrapped@),
    {
        let mut wrapped: Vec<LocatorMatch<WebElement>> = Vec::new();
        let mut i: usize = 0;
        while i < matches.len()
            invariant
                i <= matches@.len(),
                wrapped@.len() == i,
                forall|k: int|
                    #![trigger wrapped@[k]]
                    0 <= k < i ==> {
                        &&& wrapped@[k].locator == matches@[k].locator
                        &&& self.frame_found_all(matches@[k].elements@, wrapped@[k].elements@)
                    },
            decreases matches@.len() - i,
        {
            let item = &matches[i];
            let elements = self.wrap_elements(&item.elements);
            wrapped.push(LocatorMatch { locator: item.locator.clone(), elements });
            i = i + 1;
        }
        wrapped
    }

    /// What `find_locators` gives in this frame, given what the driver
    /// frame's batch search gave: an error is passed on unchanged; otherwise
    /// each locator keeps its elements, in order, in the frame's context.
    pub fn find_locators<E>(&self, found: Result<Vec<LocatorMatch<ElementHandle>>, E>) -> (wrapped:
        Result<Vec<LocatorMatch<WebElement>>, E>)
        ensures
            match found {
                Ok(w) => wrapped matches Ok(v) && self.frame_found_matches(w@, v@),
                Err(x) => wrapped == Err::<Vec<LocatorMatch<WebElement>>, E>(x),
            },
    {
        match found {
            Ok(w) => Ok(self.wrap_matches(&w)),
            Err(x) => Err(x),
        }
    }

    /// The released form of this frame, given the driver frame's released
    /// handle: it keeps its variant and its page.
    pub open spec fn released_as(self, released: FrameHandle) -> DisconnectedWebFrame {
        match self {
            WebFrame::Browser(_) => DisconnectedWebFrame::Browser(released),
            WebFrame::Mix { page, .. } => DisconnectedWebFrame::Mix { frame: released, page },
        }
    }

    /// Releases the frame's connection, given what releasing the driver
    /// frame gave: an error is passed on unchanged, otherwise the frame keeps
    /// its page context.
    pub fn disconnect<E>(self, released: Result<FrameHandle, E>) -> (disconnected: Result<
        DisconnectedWebFrame,
        E,
    >)
        ensures
            disconnected == match released {
                Ok(h) => Ok(self.released_as(h)),
                Err(x) => Err::<DisconnectedWebFrame, E>(x),
            },
    {
        match released {
            Err(x) => Err(x),
            Ok(h) => match self {
                WebFrame::Browser(_) => Ok(DisconnectedWebFrame::Browser(h)),
                WebFrame::Mix { page, .. } => Ok(DisconnectedWebFrame::Mix { frame: h, page }),
            },
        }
    }

    /// The same frame after reconnecting, given what reconnecting the driver
    /// frame gave: an error is passed on unchanged.
    pub fn reconnect<E>(&self, reconnected: Result<FrameHandle, E>) -> (frame: Result<WebFrame, E>)
        ensures
            frame == self.frame_found_frame_result(reconnected),
    {
        self.wrap_frame_result(reconnected)
    }
}

impl DisconnectedWebFrame {
    /// The frame a released frame becomes when connected again with a new
    /// handle: a frame of a web page stays with that page.
    pub open spec fn reconnected(self, frame: FrameHandle) -> WebFrame {
        match self {
            DisconnectedWebFrame::Browser(_) => WebFrame::Browser(frame),
            DisconnectedWebFrame::Mix { page, .. } => WebFrame::Mix { frame, page },
        }
    }

    /// Connects the frame again, given what reconnecting the driver frame
    /// gave: an error is passed on unchanged.
    pub fn reconnect<E>(&self, reconnected: Result<FrameHandle, E>) -> (frame: Result<WebFrame, E>)
        ensures
            frame == match reconnected {
                Ok(h) => Ok(self.reconnected(h)),
                Err(x) => Err::<WebFrame, E>(x),
            },
    {
        match reconnected {
            Err(x) => Err(x),
            Ok(h) => match self {
                DisconnectedWebFrame::Browser(_) => Ok(WebFrame::Browser(h)),
                DisconnectedWebFrame::Mix { page, .. } => Ok(page.with_driver_frame(h)),
            },
        }
    }
}

} // verus!
