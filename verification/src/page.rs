use vstd::prelude::*;

use crate::element_flow::LocatorMatch;
use crate::error::OpenPageError;
use crate::mode::WebMode;
use crate::model::{
    DisconnectedWebPage, ElementHandle, FrameHandle, OneOrPlaceholder, TabReference, WebElement, WebFrame,
    WebPage,
};
use crate::route::{Backend, Reply, Route};

verus! {

impl WebPage {
    /// Operations that both sides support go to the side of the current mode.
    pub open spec fn by_mode(self) -> Route {
        match self.mode {
            WebMode::Driver => Route::Run(Backend::Driver),
            WebMode::Session => Route::Run(Backend::Session),
        }
    }

    /// Operations that only the browser tab supports are refused in session mode.
    pub open spec fn driver_only(self, op: &'static str) -> Route {
        match self.mode {
            WebMode::Driver => Route::Run(Backend::Driver),
            WebMode::Session => Route::Refuse(OpenPageError::DriverModeOnly(op)),
        }
    }

    /// The browser tab carries out the operation in driver mode; in session
    /// mode the facade answers with `reply`.
    pub open spec fn driver_or_reply(self, reply: Reply) -> Route {
        match self.mode {
            WebMode::Driver => Route::Run(Backend::Driver),
            WebMode::Session => Route::Answer(reply),
        }
    }

    /// The session carries out the operation in session mode; in driver mode
    /// the facade answers with `reply`.
    pub open spec fn session_or_reply(self, reply: Reply) -> Route {
        match self.mode {
            WebMode::Driver => Route::Answer(reply),
            WebMode::Session => Route::Run(Backend::Session),
        }
    }

    /// HTTP requests are made by the session; in driver mode the session
    /// first takes over the tab's cookies and user agent.
    pub open spec fn session_request(self) -> Route {
        match self.mode {
            WebMode::Driver => Route::SyncCookiesThenSession,
            WebMode::Session => Route::Run(Backend::Session),
        }
    }

    /// Locations are kept by the browser in driver mode and by the session
    /// in session mode.
    pub open spec fn browser_or_session(self) -> Route {
        match self.mode {
            WebMode::Driver => Route::Run(Backend::Browser),
            WebMode::Session => Route::Run(Backend::Session),
        }
    }

    /// Per-tab settings are kept by the browser, for this page's tab.
    pub open spec fn for_this_tab(self) -> Route {
        Route::RunForTab(Backend::Browser, self.target_id)
    }

    pub fn route_for_this_tab(&self) -> (route: Route)
        ensures
            route == self.for_this_tab(),
    {
        Route::RunForTab(Backend::Browser, self.target_id.clone())
    }

    pub fn route_by_mode(&self) -> (route: Route)
        ensures
            route == self.by_mode(),
    {
        match self.mode {
            WebMode::Driver => Route::Run(Backend::Driver),
            WebMode::Session => Route::Run(Backend::Session),
        }
    }

    pub fn route_driver_only(&self, op: &'static str) -> (route: Route)
        ensures
            route == self.driver_only(op),
    {
        match self.mode {
            WebMode::Driver => Route::Run(Backend::Driver),
            WebMode::Session => Route::Refuse(OpenPageError::DriverModeOnly(op)),
        }
    }

    pub fn route_driver_or_reply(&self, reply: Reply) -> (route: Route)
        ensures
            route == self.driver_or_reply(reply),
    {
        match self.mode {
            WebMode::Driver => Route::Run(Backend::Driver),
            WebMode::Session => Route::Answer(reply),
        }
    }

    pub fn route_session_or_reply(&self, reply: Reply) -> (route: Route)
        ensures
            route == self.session_or_reply(reply),
    {
        match self.mode {
            WebMode::Driver => Route::Answer(reply),
            WebMode::Session => Route::Run(Backend::Session),
        }
    }

    pub fn route_session_request(&self) -> (route: Route)
        ensures
            route == self.session_request(),
    {
        match self.mode {
            WebMode::Driver => Route::SyncCookiesThenSession,
            WebMode::Session => Route::Run(Backend::Session),
        }
    }

    pub fn route_browser_or_session(&self) -> (route: Route)
        ensures
            route == self.browser_or_session(),
    {
        match self.mode {
            WebMode::Driver => Route::Run(Backend::Browser),
            WebMode::Session => Route::Run(Backend::Session),
        }
    }

    pub fn new(mode: WebMode, target_id: String) -> (page: WebPage)
        ensures
            page.mode == mode,
            page.target_id == target_id,
    {
        WebPage { mode, target_id }
    }

    pub fn mode(&self) -> (mode: WebMode)
        ensures
            mode == self.mode,
    {
        self.mode
    }

    pub fn set_mode(&mut self, mode: WebMode)
        ensures
            final(self).mode == mode,
            final(self).target_id == old(self).target_id,
    {
        self.mode = mode;
    }

    pub fn target_id(&self) -> (id: String)
        ensures
            id == self.target_id,
    {
        self.target_id.clone()
    }

    /// The web page for another tab of the same browser, in this page's current mode.
    pub fn with_driver_page(&self, target_id: String) -> (page: WebPage)
        ensures
            page.mode == self.mode,
            page.target_id == target_id,
    {
        WebPage { mode: self.mode, target_id }
    }

    /// A frame found through this page keeps the page as its context.
    pub fn with_driver_frame(&self, frame: FrameHandle) -> (web_frame: WebFrame)
        ensures
            web_frame == (WebFrame::Mix { frame, page: Box::new(*self) }),
    {
        WebFrame::Mix { frame, page: Box::new(self.clone()) }
    }

    /// A browser element found through this page keeps the page as its context.
    pub fn with_driver_element(&self, element: ElementHandle) -> (web_element: WebElement)
        ensures
            web_element == (WebElement::Mix { element, page: Box::new(*self) }),
    {
        WebElement::Mix { element, page: Box::new(self.clone()) }
    }

    /// A plain browser page reported by the browser becomes a web page in
    /// this page's current mode; other references are kept as they are.
    pub fn mix_tab_reference(&self, reference: TabReference) -> (mixed: TabReference)
        ensures
            match reference {
                TabReference::Page(id) => mixed == TabReference::WebPage(
                    WebPage { mode: self.mode, target_id: id },
                ),
                _ => mixed == reference,
            },
    {
        match reference {
            TabReference::Page(id) => TabReference::WebPage(self.with_driver_page(id)),
            other => other,
        }
    }

    /// The reference a tab reported by the browser becomes.
    pub open spec fn mixed_tab(self, reference: TabReference) -> TabReference {
        match reference {
            TabReference::Page(id) => TabReference::WebPage(WebPage { mode: self.mode, target_id: id }),
            _ => reference,
        }
    }

    /// What `get_tab` and `latest_tab` give, given what the browser
    /// reported: an error is passed on, and a tab found becomes
    /// `mixed_tab` of it.
    pub fn wrap_tab<E>(&self, reported: Result<Option<TabReference>, E>) -> (tab: Result<Option<TabReference>, E>)
        ensures
            tab == match reported {
                Ok(Some(r)) => Ok(Some(self.mixed_tab(r))),
                Ok(None) => Ok(None),
                Err(x) => Err::<Option<TabReference>, E>(x),
            },
    {
        match reported {
            Ok(Some(r)) => Ok(Some(self.mix_tab_reference(r))),
            Ok(None) => Ok(None),
            Err(x) => Err(x),
        }
    }

    /// What `get_tabs` gives, given what the browser reported: an error is
    /// passed on; otherwise every tab, in order, becomes `mixed_tab` of it.
    pub fn wrap_tabs<E>(&self, reported: Result<Vec<TabReference>, E>) -> (tabs: Result<Vec<TabReference>, E>)
        ensures
            match reported {
                Ok(r) => tabs matches Ok(t) && t@.len() == r@.len() && forall|i: int|
                    0 <= i < r@.len() ==> t@[i] == self.mixed_tab(#[trigger] r@[i]),
                Err(x) => tabs == Err::<Vec<TabReference>, E>(x),
            },
    {
        let reported = match reported {
            Ok(r) => r,
            Err(x) => return Err(x),
        };
        let mut tabs: Vec<TabReference> = Vec::new();
        let mut rest = reported;
        let ghost all = rest@;
        let count: usize = rest.len();
        let mut taken: usize = 0;
        while rest.len() > 0
            invariant
                all.len() == count,
                taken + rest@.len() == all.len(),
                rest@ == all.subrange(taken as int, all.len() as int),
                tabs@.len() == taken,
                forall|i: int| 0 <= i < taken ==> tabs@[i] == self.mixed_tab(#[trigger] all[i]),
            decreases rest@.len(),
        {
            let r = rest.remove(0);
            tabs.push(self.mix_tab_reference(r));
            taken = taken + 1;
        }
        Ok(tabs)
    }

    /// An element found through this page: in driver mode a browser element
    /// that keeps the page as its context, in session mode a session element.
    pub open spec fn found_element(self, found: ElementHandle) -> WebElement {
        match self.mode {
            WebMode::Driver => WebElement::Mix { element: found, page: Box::new(self) },
            WebMode::Session => WebElement::Session(found),
        }
    }

    pub fn found(&self, found: ElementHandle) -> (element: WebElement)
        ensures
            element == self.found_element(found),
    {
        match self.mode {
            WebMode::Driver => self.with_driver_element(found),
            WebMode::Session => WebElement::Session(found),
        }
    }

    /// What `ele` gives, given what the component's lookup gave: an error
    /// is passed on; a found element keeps this page's context; a miss
    /// keeps the placeholder the lookup gave.
    pub fn ele_found<P, E>(&self, found: Result<OneOrPlaceholder<ElementHandle, P>, E>) -> (element:
        Result<OneOrPlaceholder<WebElement, P>, E>)
        ensures
            element == match found {
                Ok(OneOrPlaceholder::Found(h)) => Ok(OneOrPlaceholder::Found(self.found_element(h))),
                Ok(OneOrPlaceholder::Missing(p)) => Ok(OneOrPlaceholder::Missing(p)),
                Err(x) => Err::<OneOrPlaceholder<WebElement, P>, E>(x),
            },
    {
        match found {
            Ok(OneOrPlaceholder::Found(h)) => Ok(OneOrPlaceholder::Found(self.found(h))),
            Ok(OneOrPlaceholder::Missing(p)) => Ok(OneOrPlaceholder::Missing(p)),
            Err(x) => Err(x),
        }
    }

    /// Wraps the handles a search through this page found.
    pub fn wrap_found_elements(&self, found: &Vec<ElementHandle>) -> (elements: Vec<WebElement>)
        ensures
            elements@.len() == found@.len(),
            forall|i: int|
                0 <= i < found@.len() ==> elements@[i] == self.found_element(#[trigger] found@[i]),
    {
        let mut elements: Vec<WebElement> = Vec::new();
        let mut i: usize = 0;
        while i < found.len()
            invariant
                i <= found@.len(),
                elements@.len() == i,
                forall|j: int|
                    0 <= j < i ==> elements@[j] == self.found_element(#[trigger] found@[j]),
            decreases found@.len() - i,
        {
            elements.push(self.found(found[i]));
            i = i + 1;
        }
        elements
    }

    /// `wrapped` keeps each locator of `found` with its elements, in order,
    /// each in this page's context.
    pub open spec fn found_matches(
        self,
        found: Seq<LocatorMatch<ElementHandle>>,
        wrapped: Seq<LocatorMatch<WebElement>>,
    ) -> bool {
        &&& wrapped.len() == found.len()
        &&& forall|i: int|
            #![trigger wrapped[i]]
            0 <= i < found.len() ==> {
                &&& wrapped[i].locator == found[i].locator
                &&& wrapped[i].elements@.len() == found[i].elements@.len()
                &&& forall|j: int|
                    0 <= j < found[i].elements@.len() ==> wrapped[i].elements@[j]
                        == self.found_element(#[trigger] found[i].elements@[j])
            }
    }

    /// What `find_locators` gives, given what the component's batch search
    /// gave: an error is passed on unchanged; otherwise each locator keeps
    /// its elements, in order, in this page's context.
    pub fn wrap_locator_matches<E>(&self, found: Result<Vec<LocatorMatch<ElementHandle>>, E>) -> (wrapped:
        Result<Vec<LocatorMatch<WebElement>>, E>)
        ensures
            match found {
                Ok(w) => wrapped matches Ok(v) && self.found_matches(w@, v@),
                Err(x) => wrapped == Err::<Vec<LocatorMatch<WebElement>>, E>(x),
            },
    {
        let matches = match found {
            Ok(w) => w,
            Err(x) => return Err(x),
        };
        let mut wrapped: Vec<LocatorMatch<WebElement>> = Vec::new();
        let mut i: usize = 0;
        while i < matches.len()
            invariant
                i <= matches@.len(),
                wrapped@.len() == i,
                forall|k: int|
                    #![trigger wrapped@[k]]
                    0 <= k < i ==> {
                        &&& wrapped@[k].locator == matches@[k].locator
                        &&& wrapped@[k].elements@.len() == matches@[k].elements@.len()
                        &&& forall|j: int|
                            0 <= j < matches@[k].elements@.len() ==> wrapped@[k].elements@[j]
                                == self.found_element(#[trigger] matches@[k].elements@[j])
                    },
            decreases matches@.len() - i,
        {
            let item = &matches[i];
            let elements = self.wrap_found_elements(&item.elements);
            wrapped.push(LocatorMatch { locator: item.locator.clone(), elements });
            i = i + 1;
        }
        Ok(wrapped)
    }

    /// The page with its browser connection released.
    pub open spec fn released(self) -> DisconnectedWebPage {
        DisconnectedWebPage { mode: self.mode, target_id: self.target_id }
    }

    /// Releases the browser connection, keeping the mode and the tab.
    pub fn disconnect(self) -> (released: DisconnectedWebPage)
        ensures
            released == self.released(),
    {
        DisconnectedWebPage { mode: self.mode, target_id: self.target_id }
    }
}

impl DisconnectedWebPage {
    pub fn target_id(&self) -> (id: &str)
        ensures
            id@ == self.target_id@,
    {
        self.target_id.as_str()
    }

    /// The page a released page becomes when connected again.
    pub open spec fn reconnected(self) -> WebPage {
        WebPage { mode: self.mode, target_id: self.target_id }
    }

    /// Connects again to the same tab, in the mode the page had, given what
    /// reconnecting the browser and finding the tab again gave: an error is
    /// passed on unchanged.
    pub fn reconnect<E>(&self, reconnected: Result<(), E>) -> (page: Result<WebPage, E>)
        ensures
            page == match reconnected {
                Ok(()) => Ok(self.reconnected()),
                Err(x) => Err::<WebPage, E>(x),
            },
    {
        match reconnected {
            Ok(()) => Ok(WebPage { mode: self.mode, target_id: self.target_id.clone() }),
            Err(x) => Err(x),
        }
    }
}

} // verus!
