use vstd::prelude::*;

use crate::element_flow::ElementRead;
use crate::model::WebElement;
use crate::route::{Backend, LocatorBatchRequest, LocatorRequest, Route, RouteCall};

verus! {

/// Operations that both kinds of element support.
impl WebElement {
    pub fn tag(&self) -> (route: Route)
        ensures
            route == self.by_kind(),
    {
        self.route_by_kind()
    }

    pub fn text(&self) -> (route: Route)
        ensures
            route == self.by_kind(),
    {
        self.route_by_kind()
    }

    pub fn html(&self) -> (route: Route)
        ensures
            route == self.by_kind(),
    {
        self.route_by_kind()
    }

    pub fn inner_html(&self) -> (route: Route)
        ensures
            route == self.by_kind(),
    {
        self.route_by_kind()
    }

    pub fn snapshot_root(&self) -> (route: Route)
        ensures
            route == self.by_kind(),
    {
        self.route_by_kind()
    }

    pub fn snapshot_find<LocatorArg>(&self, locator: LocatorArg) -> (call: RouteCall<LocatorArg>)
        ensures
            call == (RouteCall { route: self.by_kind(), args: locator }),
    {
        RouteCall { route: self.route_by_kind(), args: locator }
    }

    pub fn snapshot_find_all<LocatorArg>(
        &self,
        locator: LocatorArg,
    ) -> (call: RouteCall<LocatorArg>)
        ensures
            call == (RouteCall { route: self.by_kind(), args: locator }),
    {
        RouteCall { route: self.route_by_kind(), args: locator }
    }

    pub fn snapshot_find_by<By, ValueArg>(
        &self,
        by: By,
        value: ValueArg,
    ) -> (call: RouteCall<(By, ValueArg)>)
        ensures
            call == (RouteCall { route: self.by_kind(), args: (by, value) }),
    {
        RouteCall { route: self.route_by_kind(), args: (by, value) }
    }

    pub fn snapshot_find_all_by<By, ValueArg>(
        &self,
        by: By,
        value: ValueArg,
    ) -> (call: RouteCall<(By, ValueArg)>)
        ensures
            call == (RouteCall { route: self.by_kind(), args: (by, value) }),
    {
        RouteCall { route: self.route_by_kind(), args: (by, value) }
    }

    pub fn snapshot_query_xpath<Expression>(
        &self,
        expression: Expression,
    ) -> (call: RouteCall<Expression>)
        ensures
            call == (RouteCall { route: self.by_kind(), args: expression }),
    {
        RouteCall { route: self.route_by_kind(), args: expression }
    }

    pub fn find<LocatorArg>(&self, locator: LocatorArg) -> (call: RouteCall<LocatorArg>)
        ensures
            call == (RouteCall { route: self.by_kind(), args: locator }),
    {
        RouteCall { route: self.route_by_kind(), args: locator }
    }

    pub fn find_all<LocatorArg>(&self, locator: LocatorArg) -> (call: RouteCall<LocatorArg>)
        ensures
            call == (RouteCall { route: self.by_kind(), args: locator }),
    {
        RouteCall { route: self.route_by_kind(), args: locator }
    }

    /// A batch search goes where single searches go, with both flags
    /// handed on as given.
    pub fn find_locators(&self, any_one: bool, first_match_only: bool) -> (request: LocatorBatchRequest)
        ensures
            request == (LocatorBatchRequest { route: self.by_kind(), any_one, first_match_only }),
    {
        LocatorBatchRequest { route: self.route_by_kind(), any_one, first_match_only }
    }

    pub fn attrs(&self) -> (route: Route)
        ensures
            route == self.by_kind(),
    {
        self.route_by_kind()
    }

    pub fn attr<Name>(&self, name: Name) -> (call: RouteCall<Name>)
        ensures
            call == (RouteCall { route: self.by_kind(), args: name }),
    {
        RouteCall { route: self.route_by_kind(), args: name }
    }

    pub fn raw_text(&self) -> (route: Route)
        ensures
            route == self.by_kind(),
    {
        self.route_by_kind()
    }

    /// A browser-backed element answers by itself; for a session element
    /// the facade reads and answers with the `value` attribute, as read.
    pub fn value(&self) -> (read: ElementRead)
        ensures
            self is Session ==> read == ElementRead::Attribute("value"),
            !(self is Session) ==> read == ElementRead::Ask(Route::Run(Backend::Driver)),
    {
        match self {
            WebElement::Session(_) => ElementRead::Attribute("value"),
            _ => ElementRead::Ask(Route::Run(Backend::Driver)),
        }
    }

    /// A browser-backed element answers by itself; for a session element
    /// the facade reads and answers with the number of its children (`children_counted`).
    pub fn child_count(&self) -> (read: ElementRead)
        ensures
            self is Session ==> read == ElementRead::Children(None),
            !(self is Session) ==> read == ElementRead::Ask(Route::Run(Backend::Driver)),
    {
        match self {
            WebElement::Session(_) => ElementRead::Children(None),
            _ => ElementRead::Ask(Route::Run(Backend::Driver)),
        }
    }

    pub fn css_path(&self) -> (route: Route)
        ensures
            route == self.by_kind(),
    {
        self.route_by_kind()
    }

    pub fn xpath(&self) -> (route: Route)
        ensures
            route == self.by_kind(),
    {
        self.route_by_kind()
    }

    pub fn comments(&self) -> (route: Route)
        ensures
            route == self.by_kind(),
    {
        self.route_by_kind()
    }

    pub fn texts(&self, text_node_only: bool) -> (call: RouteCall<bool>)
        ensures
            call == (RouteCall { route: self.by_kind(), args: text_node_only }),
    {
        RouteCall { route: self.route_by_kind(), args: text_node_only }
    }

    pub fn parent(&self) -> (route: Route)
        ensures
            route == self.by_kind(),
    {
        self.route_by_kind()
    }

    pub fn parent_level(&self, level: usize) -> (call: RouteCall<usize>)
        ensures
            call == (RouteCall { route: self.by_kind(), args: level }),
    {
        RouteCall { route: self.route_by_kind(), args: level }
    }

    pub fn parent_with<LocatorArg>(
        &self,
        locator: LocatorArg,
        index: usize,
    ) -> (call: RouteCall<(LocatorArg, usize)>)
        ensures
            call == (RouteCall { route: self.by_kind(), args: (locator, index) }),
    {
        RouteCall { route: self.route_by_kind(), args: (locator, index) }
    }

    pub fn child_with<LocatorArg>(
        &self,
        locator: LocatorArg,
        index: usize,
    ) -> (call: RouteCall<(LocatorArg, usize)>)
        ensures
            call == (RouteCall { route: self.by_kind(), args: (locator, index) }),
    {
        RouteCall { route: self.route_by_kind(), args: (locator, index) }
    }

    pub fn children_with<LocatorArg>(&self, locator: LocatorArg) -> (call: RouteCall<LocatorArg>)
        ensures
            call == (RouteCall { route: self.by_kind(), args: locator }),
    {
        RouteCall { route: self.route_by_kind(), args: locator }
    }

    pub fn prev_with<LocatorArg>(
        &self,
        locator: LocatorArg,
        index: usize,
    ) -> (call: RouteCall<(LocatorArg, usize)>)
        ensures
            call == (RouteCall { route: self.by_kind(), args: (locator, index) }),
    {
        RouteCall { route: self.route_by_kind(), args: (locator, index) }
    }

    pub fn prevs_with<LocatorArg>(&self, locator: LocatorArg) -> (call: RouteCall<LocatorArg>)
        ensures
            call == (RouteCall { route: self.by_kind(), args: locator }),
    {
        RouteCall { route: self.route_by_kind(), args: locator }
    }

    pub fn next_with<LocatorArg>(
        &self,
        locator: LocatorArg,
        index: usize,
    ) -> (call: RouteCall<(LocatorArg, usize)>)
        ensures
            call == (RouteCall { route: self.by_kind(), args: (locator, index) }),
    {
        RouteCall { route: self.route_by_kind(), args: (locator, index) }
    }

    pub fn nexts_with<LocatorArg>(&self, locator: LocatorArg) -> (call: RouteCall<LocatorArg>)
        ensures
            call == (RouteCall { route: self.by_kind(), args: locator }),
    {
        RouteCall { route: self.route_by_kind(), args: locator }
    }

    pub fn before_with<LocatorArg>(
        &self,
        locator: LocatorArg,
        index: usize,
    ) -> (call: RouteCall<(LocatorArg, usize)>)
        ensures
            call == (RouteCall { route: self.by_kind(), args: (locator, index) }),
    {
        RouteCall { route: self.route_by_kind(), args: (locator, index) }
    }

    pub fn befores_with<LocatorArg>(&self, locator: LocatorArg) -> (call: RouteCall<LocatorArg>)
        ensures
            call == (RouteCall { route: self.by_kind(), args: locator }),
    {
        RouteCall { route: self.route_by_kind(), args: locator }
    }

    pub fn after_with<LocatorArg>(
        &self,
        locator: LocatorArg,
        index: usize,
    ) -> (call: RouteCall<(LocatorArg, usize)>)
        ensures
            call == (RouteCall { route: self.by_kind(), args: (locator, index) }),
    {
        RouteCall { route: self.route_by_kind(), args: (locator, index) }
    }

    pub fn afters_with<LocatorArg>(&self, locator: LocatorArg) -> (call: RouteCall<LocatorArg>)
        ensures
            call == (RouteCall { route: self.by_kind(), args: locator }),
    {
        RouteCall { route: self.route_by_kind(), args: locator }
    }

    /// A browser-backed element answers by itself; for a session element
    /// the facade reads and answers with whether the `multiple` attribute is present (`attribute_present`).
    pub fn is_multi_select(&self) -> (read: ElementRead)
        ensures
            self is Session ==> read == ElementRead::Attribute("multiple"),
            !(self is Session) ==> read == ElementRead::Ask(Route::Run(Backend::Driver)),
    {
        match self {
            WebElement::Session(_) => ElementRead::Attribute("multiple"),
            _ => ElementRead::Ask(Route::Run(Backend::Driver)),
        }
    }
}

/// Operations with a route of their own.
impl WebElement {
    /// `parsed` is what reading the locator gave: an error refuses the
    /// search before anything is asked; otherwise the search goes where
    /// searches go, with the locator as read.
    pub fn s_ele<E>(&self, parsed: Result<String, E>) -> (request: Result<LocatorRequest, E>)
        ensures
            request == match parsed {
                Ok(raw) => Ok(LocatorRequest { route: self.by_kind(), locator: raw }),
                Err(x) => Err::<LocatorRequest, E>(x),
            },
    {
        match parsed {
            Ok(raw) => Ok(LocatorRequest { route: self.route_by_kind(), locator: raw }),
            Err(x) => Err(x),
        }
    }

    /// `parsed` is what reading the locator gave: an error refuses the
    /// search before anything is asked; otherwise the search goes where
    /// searches go, with the locator as read.
    pub fn s_eles<E>(&self, parsed: Result<String, E>) -> (request: Result<LocatorRequest, E>)
        ensures
            request == match parsed {
                Ok(raw) => Ok(LocatorRequest { route: self.by_kind(), locator: raw }),
                Err(x) => Err::<LocatorRequest, E>(x),
            },
    {
        match parsed {
            Ok(raw) => Ok(LocatorRequest { route: self.route_by_kind(), locator: raw }),
            Err(x) => Err(x),
        }
    }

    /// `parsed` is what reading the locator gave: an error refuses the
    /// search before anything is asked; otherwise the search goes where
    /// searches go, with the locator as read.
    pub fn ele<E>(&self, parsed: Result<String, E>) -> (request: Result<LocatorRequest, E>)
        ensures
            request == match parsed {
                Ok(raw) => Ok(LocatorRequest { route: self.by_kind(), locator: raw }),
                Err(x) => Err::<LocatorRequest, E>(x),
            },
    {
        match parsed {
            Ok(raw) => Ok(LocatorRequest { route: self.route_by_kind(), locator: raw }),
            Err(x) => Err(x),
        }
    }

    /// A browser-backed element answers by itself; for a session element
    /// the facade reads and answers with its `href`, or else its `src` (`session_link`).
    pub fn link(&self) -> (read: ElementRead)
        ensures
            self is Session ==> read == ElementRead::Attribute("href"),
            !(self is Session) ==> read == ElementRead::Ask(Route::Run(Backend::Driver)),
    {
        match self {
            WebElement::Session(_) => ElementRead::Attribute("href"),
            _ => ElementRead::Ask(Route::Run(Backend::Driver)),
        }
    }

    /// A browser-backed element answers by itself; for a session element
    /// the facade reads and answers with the texts that its `css:option` children have (`present_texts`).
    pub fn option_texts(&self) -> (read: ElementRead)
        ensures
            self is Session ==> read == ElementRead::Children(Some("css:option")),
            !(self is Session) ==> read == ElementRead::Ask(Route::Run(Backend::Driver)),
    {
        match self {
            WebElement::Session(_) => ElementRead::Children(Some("css:option")),
            _ => ElementRead::Ask(Route::Run(Backend::Driver)),
        }
    }

    /// A browser-backed element answers by itself; for a session element
    /// the facade reads and answers with the text of its first `css:option[selected]` child (`first_option_text`).
    pub fn selected_option(&self) -> (read: ElementRead)
        ensures
            self is Session ==> read == ElementRead::Children(Some("css:option[selected]")),
            !(self is Session) ==> read == ElementRead::Ask(Route::Run(Backend::Driver)),
    {
        match self {
            WebElement::Session(_) => ElementRead::Children(Some("css:option[selected]")),
            _ => ElementRead::Ask(Route::Run(Backend::Driver)),
        }
    }

    /// A browser-backed element answers by itself; for a session element
    /// the facade reads and answers with the texts that its `css:option[selected]` children have (`present_texts`).
    pub fn selected_options(&self) -> (read: ElementRead)
        ensures
            self is Session ==> read == ElementRead::Children(Some("css:option[selected]")),
            !(self is Session) ==> read == ElementRead::Ask(Route::Run(Backend::Driver)),
    {
        match self {
            WebElement::Session(_) => ElementRead::Children(Some("css:option[selected]")),
            _ => ElementRead::Ask(Route::Run(Backend::Driver)),
        }
    }

    pub fn selected_option_element(&self) -> (route: Route)
        ensures
            route == self.by_kind(),
    {
        self.route_by_kind()
    }

    /// The selected option elements: a search for
    /// `selected_options_locator()`.
    pub fn selected_option_elements(&self) -> (call: RouteCall<&'static str>)
        ensures
            call.route == self.by_kind(),
            self is Session ==> call.args@ == "css:option[selected]"@,
            !(self is Session) ==> call.args@ == "css:option:checked"@,
    {
        self.find_all(self.selected_options_locator())
    }
}

/// Operations that need a browser-backed element: refused for session elements.
impl WebElement {
    pub fn get_frame<Target>(&self, target: Target) -> (call: RouteCall<Target>)
        ensures
            call == (RouteCall { route: self.driver_only("get_frame()"), args: target }),
    {
        RouteCall { route: self.route_driver_only("get_frame()"), args: target }
    }

    pub fn get_frame_with_timeout<Target>(
        &self,
        target: Target,
        timeout_ms: u64,
    ) -> (call: RouteCall<(Target, u64)>)
        ensures
            call == (RouteCall { route: self.driver_only("get_frame_with_timeout()"), args: (target, timeout_ms) }),
    {
        RouteCall { route: self.route_driver_only("get_frame_with_timeout()"), args: (target, timeout_ms) }
    }

    pub fn get_frame_by_index(&self, index: usize) -> (call: RouteCall<usize>)
        ensures
            call == (RouteCall { route: self.driver_only("get_frame_by_index()"), args: index }),
    {
        RouteCall { route: self.route_driver_only("get_frame_by_index()"), args: index }
    }

    pub fn get_frame_by_index_with_timeout(
        &self,
        index: usize,
        timeout_ms: u64,
    ) -> (call: RouteCall<(usize, u64)>)
        ensures
            call == (RouteCall { route: self.driver_only("get_frame_by_index_with_timeout()"), args: (index, timeout_ms) }),
    {
        RouteCall { route: self.route_driver_only("get_frame_by_index_with_timeout()"), args: (index, timeout_ms) }
    }

    pub fn property<Name>(&self, name: Name) -> (call: RouteCall<Name>)
        ensures
            call == (RouteCall { route: self.driver_only("property()"), args: name }),
    {
        RouteCall { route: self.route_driver_only("property()"), args: name }
    }

    pub fn is_displayed(&self) -> (route: Route)
        ensures
            route == self.driver_only("is_displayed()"),
    {
        self.route_driver_only("is_displayed()")
    }

    pub fn is_checked(&self) -> (route: Route)
        ensures
            route == self.driver_only("is_checked()"),
    {
        self.route_driver_only("is_checked()")
    }

    pub fn is_selected(&self) -> (route: Route)
        ensures
            route == self.driver_only("is_selected()"),
    {
        self.route_driver_only("is_selected()")
    }

    pub fn is_enabled(&self) -> (route: Route)
        ensures
            route == self.driver_only("is_enabled()"),
    {
        self.route_driver_only("is_enabled()")
    }

    pub fn is_alive(&self) -> (route: Route)
        ensures
            route == self.driver_only("is_alive()"),
    {
        self.route_driver_only("is_alive()")
    }

    pub fn is_in_viewport(&self) -> (route: Route)
        ensures
            route == self.driver_only("is_in_viewport()"),
    {
        self.route_driver_only("is_in_viewport()")
    }

    pub fn is_whole_in_viewport(&self) -> (route: Route)
        ensures
            route == self.driver_only("is_whole_in_viewport()"),
    {
        self.route_driver_only("is_whole_in_viewport()")
    }

    pub fn is_covered(&self) -> (route: Route)
        ensures
            route == self.driver_only("is_covered()"),
    {
        self.route_driver_only("is_covered()")
    }

    pub fn is_clickable(&self) -> (route: Route)
        ensures
            route == self.driver_only("is_clickable()"),
    {
        self.route_driver_only("is_clickable()")
    }

    pub fn has_rect(&self) -> (route: Route)
        ensures
            route == self.driver_only("has_rect()"),
    {
        self.route_driver_only("has_rect()")
    }

    pub fn style<Name, Pseudo>(
        &self,
        name: Name,
        pseudo: Pseudo,
    ) -> (call: RouteCall<(Name, Pseudo)>)
        ensures
            call == (RouteCall { route: self.driver_only("style()"), args: (name, pseudo) }),
    {
        RouteCall { route: self.route_driver_only("style()"), args: (name, pseudo) }
    }

    pub fn pseudo_before(&self) -> (route: Route)
        ensures
            route == self.driver_only("pseudo_before()"),
    {
        self.route_driver_only("pseudo_before()")
    }

    pub fn pseudo_after(&self) -> (route: Route)
        ensures
            route == self.driver_only("pseudo_after()"),
    {
        self.route_driver_only("pseudo_after()")
    }

    pub fn scroll_to_top(&self) -> (route: Route)
        ensures
            route == self.driver_only("scroll_to_top()"),
    {
        self.route_driver_only("scroll_to_top()")
    }

    pub fn scroll_to_bottom(&self) -> (route: Route)
        ensures
            route == self.driver_only("scroll_to_bottom()"),
    {
        self.route_driver_only("scroll_to_bottom()")
    }

    pub fn scroll_to_half(&self) -> (route: Route)
        ensures
            route == self.driver_only("scroll_to_half()"),
    {
        self.route_driver_only("scroll_to_half()")
    }

    pub fn scroll_to_rightmost(&self) -> (route: Route)
        ensures
            route == self.driver_only("scroll_to_rightmost()"),
    {
        self.route_driver_only("scroll_to_rightmost()")
    }

    pub fn scroll_to_leftmost(&self) -> (route: Route)
        ensures
            route == self.driver_only("scroll_to_leftmost()"),
    {
        self.route_driver_only("scroll_to_leftmost()")
    }

    pub fn scroll_to_location<X, Y>(&self, x: X, y: Y) -> (call: RouteCall<(X, Y)>)
        ensures
            call == (RouteCall { route: self.driver_only("scroll_to_location()"), args: (x, y) }),
    {
        RouteCall { route: self.route_driver_only("scroll_to_location()"), args: (x, y) }
    }

    pub fn scroll_up<Pixels>(&self, pixels: Pixels) -> (call: RouteCall<Pixels>)
        ensures
            call == (RouteCall { route: self.driver_only("scroll_up()"), args: pixels }),
    {
        RouteCall { route: self.route_driver_only("scroll_up()"), args: pixels }
    }

    pub fn scroll_down<Pixels>(&self, pixels: Pixels) -> (call: RouteCall<Pixels>)
        ensures
            call == (RouteCall { route: self.driver_only("scroll_down()"), args: pixels }),
    {
        RouteCall { route: self.route_driver_only("scroll_down()"), args: pixels }
    }

    pub fn scroll_left<Pixels>(&self, pixels: Pixels) -> (call: RouteCall<Pixels>)
        ensures
            call == (RouteCall { route: self.driver_only("scroll_left()"), args: pixels }),
    {
        RouteCall { route: self.route_driver_only("scroll_left()"), args: pixels }
    }

    pub fn scroll_right<Pixels>(&self, pixels: Pixels) -> (call: RouteCall<Pixels>)
        ensures
            call == (RouteCall { route: self.driver_only("scroll_right()"), args: pixels }),
    {
        RouteCall { route: self.route_driver_only("scroll_right()"), args: pixels }
    }

    pub fn scroll_to_see(&self, center: Option<bool>) -> (call: RouteCall<Option<bool>>)
        ensures
            call == (RouteCall { route: self.driver_only("scroll_to_see()"), args: center }),
    {
        RouteCall { route: self.route_driver_only("scroll_to_see()"), args: center }
    }

    pub fn scroll_to_center(&self) -> (route: Route)
        ensures
            route == self.driver_only("scroll_to_center()"),
    {
        self.route_driver_only("scroll_to_center()")
    }

    pub fn src(&self, timeout_ms: u64, base64_to_bytes: bool) -> (call: RouteCall<(u64, bool)>)
        ensures
            call == (RouteCall { route: self.driver_only("src()"), args: (timeout_ms, base64_to_bytes) }),
    {
        RouteCall { route: self.route_driver_only("src()"), args: (timeout_ms, base64_to_bytes) }
    }

    pub fn save<PathArg, Name>(
        &self,
        path: PathArg,
        name: Name,
        timeout_ms: u64,
        rename: bool,
    ) -> (call: RouteCall<(PathArg, Name, u64, bool)>)
        ensures
            call == (RouteCall { route: self.driver_only("save()"), args: (path, name, timeout_ms, rename) }),
    {
        RouteCall { route: self.route_driver_only("save()"), args: (path, name, timeout_ms, rename) }
    }

    pub fn shadow_root(&self) -> (route: Route)
        ensures
            route == self.driver_only("shadow_root()"),
    {
        self.route_driver_only("shadow_root()")
    }

    pub fn over(&self) -> (route: Route)
        ensures
            route == self.driver_only("over()"),
    {
        self.route_driver_only("over()")
    }

    pub fn over_with_timeout(&self, timeout_ms: u64) -> (call: RouteCall<u64>)
        ensures
            call == (RouteCall { route: self.driver_only("over_with_timeout()"), args: timeout_ms }),
    {
        RouteCall { route: self.route_driver_only("over_with_timeout()"), args: timeout_ms }
    }

    pub fn offset<LocatorArg, X, Y>(
        &self,
        locator: LocatorArg,
        x: X,
        y: Y,
        timeout_ms: u64,
    ) -> (call: RouteCall<(LocatorArg, X, Y, u64)>)
        ensures
            call == (RouteCall { route: self.driver_only("offset()"), args: (locator, x, y, timeout_ms) }),
    {
        RouteCall { route: self.route_driver_only("offset()"), args: (locator, x, y, timeout_ms) }
    }

    pub fn east<LocatorArg>(
        &self,
        locator: LocatorArg,
        pixels: Option<i64>,
        index: usize,
    ) -> (call: RouteCall<(LocatorArg, Option<i64>, usize)>)
        ensures
            call == (RouteCall { route: self.driver_only("east()"), args: (locator, pixels, index) }),
    {
        RouteCall { route: self.route_driver_only("east()"), args: (locator, pixels, index) }
    }

    pub fn south<LocatorArg>(
        &self,
        locator: LocatorArg,
        pixels: Option<i64>,
        index: usize,
    ) -> (call: RouteCall<(LocatorArg, Option<i64>, usize)>)
        ensures
            call == (RouteCall { route: self.driver_only("south()"), args: (locator, pixels, index) }),
    {
        RouteCall { route: self.route_driver_only("south()"), args: (locator, pixels, index) }
    }

    pub fn west<LocatorArg>(
        &self,
        locator: LocatorArg,
        pixels: Option<i64>,
        index: usize,
    ) -> (call: RouteCall<(LocatorArg, Option<i64>, usize)>)
        ensures
            call == (RouteCall { route: self.driver_only("west()"), args: (locator, pixels, index) }),
    {
        RouteCall { route: self.route_driver_only("west()"), args: (locator, pixels, index) }
    }

    pub fn north<LocatorArg>(
        &self,
        locator: LocatorArg,
        pixels: Option<i64>,
        index: usize,
    ) -> (call: RouteCall<(LocatorArg, Option<i64>, usize)>)
        ensures
            call == (RouteCall { route: self.driver_only("north()"), args: (locator, pixels, index) }),
    {
        RouteCall { route: self.route_driver_only("north()"), args: (locator, pixels, index) }
    }

    pub fn click(&self) -> (route: Route)
        ensures
            route == self.driver_only("click()"),
    {
        self.route_driver_only("click()")
    }

    pub fn click_with_options(
        &self,
        by_js: Option<bool>,
        timeout_ms: Option<u64>,
        wait_stop: bool,
    ) -> (call: RouteCall<(Option<bool>, Option<u64>, bool)>)
        ensures
            call == (RouteCall { route: self.driver_only("click_with_options()"), args: (by_js, timeout_ms, wait_stop) }),
    {
        RouteCall { route: self.route_driver_only("click_with_options()"), args: (by_js, timeout_ms, wait_stop) }
    }

    pub fn click_at<OffsetX, OffsetY, Button>(
        &self,
        offset_x: OffsetX,
        offset_y: OffsetY,
        button: Button,
        count: u32,
    ) -> (call: RouteCall<(OffsetX, OffsetY, Button, u32)>)
        ensures
            call == (RouteCall { route: self.driver_only("click_at()"), args: (offset_x, offset_y, button, count) }),
    {
        RouteCall { route: self.route_driver_only("click_at()"), args: (offset_x, offset_y, button, count) }
    }

    pub fn click_multi(&self, times: u32) -> (call: RouteCall<u32>)
        ensures
            call == (RouteCall { route: self.driver_only("click_multi()"), args: times }),
    {
        RouteCall { route: self.route_driver_only("click_multi()"), args: times }
    }

    pub fn click_left(&self) -> (route: Route)
        ensures
            route == self.driver_only("click_left()"),
    {
        self.route_driver_only("click_left()")
    }

    pub fn click_left_with_options(
        &self,
        by_js: Option<bool>,
        timeout_ms: Option<u64>,
        wait_stop: bool,
    ) -> (call: RouteCall<(Option<bool>, Option<u64>, bool)>)
        ensures
            call == (RouteCall { route: self.driver_only("click_left_with_options()"), args: (by_js, timeout_ms, wait_stop) }),
    {
        RouteCall { route: self.route_driver_only("click_left_with_options()"), args: (by_js, timeout_ms, wait_stop) }
    }

    pub fn click_middle(&self) -> (route: Route)
        ensures
            route == self.driver_only("click_middle()"),
    {
        self.route_driver_only("click_middle()")
    }

    pub fn click_right(&self) -> (route: Route)
        ensures
            route == self.driver_only("click_right()"),
    {
        self.route_driver_only("click_right()")
    }

    pub fn input<Text>(&self, text: Text) -> (call: RouteCall<Text>)
        ensures
            call == (RouteCall { route: self.driver_only("input()"), args: text }),
    {
        RouteCall { route: self.route_driver_only("input()"), args: text }
    }

    pub fn input_with_options<Text>(
        &self,
        text: Text,
        clear: bool,
        by_js: bool,
    ) -> (call: RouteCall<(Text, bool, bool)>)
        ensures
            call == (RouteCall { route: self.driver_only("input_with_options()"), args: (text, clear, by_js) }),
    {
        RouteCall { route: self.route_driver_only("input_with_options()"), args: (text, clear, by_js) }
    }

    pub fn input_keys_with_options<Values>(
        &self,
        values: Values,
        clear: bool,
        by_js: bool,
    ) -> (call: RouteCall<(Values, bool, bool)>)
        ensures
            call == (RouteCall { route: self.driver_only("input_keys_with_options()"), args: (values, clear, by_js) }),
    {
        RouteCall { route: self.route_driver_only("input_keys_with_options()"), args: (values, clear, by_js) }
    }

    pub fn clear(&self) -> (route: Route)
        ensures
            route == self.driver_only("clear()"),
    {
        self.route_driver_only("clear()")
    }

    pub fn submit(&self) -> (route: Route)
        ensures
            route == self.driver_only("submit()"),
    {
        self.route_driver_only("submit()")
    }

    pub fn clear_with_mode(&self, by_js: bool) -> (call: RouteCall<bool>)
        ensures
            call == (RouteCall { route: self.driver_only("clear_with_mode()"), args: by_js }),
    {
        RouteCall { route: self.route_driver_only("clear_with_mode()"), args: by_js }
    }

    pub fn set_file_input_files<Files>(&self, files: Files) -> (call: RouteCall<Files>)
        ensures
            call == (RouteCall { route: self.driver_only("set_file_input_files()"), args: files }),
    {
        RouteCall { route: self.route_driver_only("set_file_input_files()"), args: files }
    }

    pub fn press_key<Key>(&self, key: Key) -> (call: RouteCall<Key>)
        ensures
            call == (RouteCall { route: self.driver_only("press_key()"), args: key }),
    {
        RouteCall { route: self.route_driver_only("press_key()"), args: key }
    }

    pub fn run_js<Script>(&self, script: Script) -> (call: RouteCall<Script>)
        ensures
            call == (RouteCall { route: self.driver_only("run_js()"), args: script }),
    {
        RouteCall { route: self.route_driver_only("run_js()"), args: script }
    }

    pub fn run_js_with_args<Script, Args>(
        &self,
        script: Script,
        args: Args,
        as_expr: bool,
    ) -> (call: RouteCall<(Script, Args, bool)>)
        ensures
            call == (RouteCall { route: self.driver_only("run_js_with_args()"), args: (script, args, as_expr) }),
    {
        RouteCall { route: self.route_driver_only("run_js_with_args()"), args: (script, args, as_expr) }
    }

    pub fn run_js_with_options<Script, Args>(
        &self,
        script: Script,
        args: Args,
        as_expr: bool,
        timeout_ms: Option<u64>,
    ) -> (call: RouteCall<(Script, Args, bool, Option<u64>)>)
        ensures
            call == (RouteCall { route: self.driver_only("run_js_with_options()"), args: (script, args, as_expr, timeout_ms) }),
    {
        RouteCall { route: self.route_driver_only("run_js_with_options()"), args: (script, args, as_expr, timeout_ms) }
    }

    pub fn run_async_js<Script>(&self, script: Script) -> (call: RouteCall<Script>)
        ensures
            call == (RouteCall { route: self.driver_only("run_async_js()"), args: script }),
    {
        RouteCall { route: self.route_driver_only("run_async_js()"), args: script }
    }

    pub fn run_async_js_with_args<Script, Args>(
        &self,
        script: Script,
        args: Args,
        as_expr: bool,
    ) -> (call: RouteCall<(Script, Args, bool)>)
        ensures
            call == (RouteCall { route: self.driver_only("run_async_js_with_args()"), args: (script, args, as_expr) }),
    {
        RouteCall { route: self.route_driver_only("run_async_js_with_args()"), args: (script, args, as_expr) }
    }

    pub fn run_async_js_with_options<Script, Args>(
        &self,
        script: Script,
        args: Args,
        as_expr: bool,
        timeout_ms: Option<u64>,
    ) -> (call: RouteCall<(Script, Args, bool, Option<u64>)>)
        ensures
            call == (RouteCall { route: self.driver_only("run_async_js_with_options()"), args: (script, args, as_expr, timeout_ms) }),
    {
        RouteCall { route: self.route_driver_only("run_async_js_with_options()"), args: (script, args, as_expr, timeout_ms) }
    }

    pub fn save_screenshot<PathArg>(&self, path: PathArg) -> (call: RouteCall<PathArg>)
        ensures
            call == (RouteCall { route: self.driver_only("save_screenshot()"), args: path }),
    {
        RouteCall { route: self.route_driver_only("save_screenshot()"), args: path }
    }

    pub fn screenshot_bytes(
        &self,
        scroll_to_center: bool,
        timeout_ms: u64,
    ) -> (call: RouteCall<(bool, u64)>)
        ensures
            call == (RouteCall { route: self.driver_only("screenshot_bytes()"), args: (scroll_to_center, timeout_ms) }),
    {
        RouteCall { route: self.route_driver_only("screenshot_bytes()"), args: (scroll_to_center, timeout_ms) }
    }

    pub fn screenshot_base64(
        &self,
        scroll_to_center: bool,
        timeout_ms: u64,
    ) -> (call: RouteCall<(bool, u64)>)
        ensures
            call == (RouteCall { route: self.driver_only("screenshot_base64()"), args: (scroll_to_center, timeout_ms) }),
    {
        RouteCall { route: self.route_driver_only("screenshot_base64()"), args: (scroll_to_center, timeout_ms) }
    }

    pub fn get_screenshot<PathArg, Name>(
        &self,
        path: PathArg,
        name: Name,
        scroll_to_center: bool,
        timeout_ms: u64,
    ) -> (call: RouteCall<(PathArg, Name, bool, u64)>)
        ensures
            call == (RouteCall { route: self.driver_only("get_screenshot()"), args: (path, name, scroll_to_center, timeout_ms) }),
    {
        RouteCall { route: self.route_driver_only("get_screenshot()"), args: (path, name, scroll_to_center, timeout_ms) }
    }

    pub fn focus(&self) -> (route: Route)
        ensures
            route == self.driver_only("focus()"),
    {
        self.route_driver_only("focus()")
    }

    pub fn hover(&self) -> (route: Route)
        ensures
            route == self.driver_only("hover()"),
    {
        self.route_driver_only("hover()")
    }

    pub fn hover_with_offset<OffsetX, OffsetY>(
        &self,
        offset_x: OffsetX,
        offset_y: OffsetY,
    ) -> (call: RouteCall<(OffsetX, OffsetY)>)
        ensures
            call == (RouteCall { route: self.driver_only("hover_with_offset()"), args: (offset_x, offset_y) }),
    {
        RouteCall { route: self.route_driver_only("hover_with_offset()"), args: (offset_x, offset_y) }
    }

    pub fn drag<OffsetX, OffsetY, DurationSecs>(
        &self,
        offset_x: OffsetX,
        offset_y: OffsetY,
        duration_secs: DurationSecs,
    ) -> (call: RouteCall<(OffsetX, OffsetY, DurationSecs)>)
        ensures
            call == (RouteCall { route: self.driver_only("drag()"), args: (offset_x, offset_y, duration_secs) }),
    {
        RouteCall { route: self.route_driver_only("drag()"), args: (offset_x, offset_y, duration_secs) }
    }

    pub fn drag_to_point<X, Y, DurationSecs>(
        &self,
        x: X,
        y: Y,
        duration_secs: DurationSecs,
    ) -> (call: RouteCall<(X, Y, DurationSecs)>)
        ensures
            call == (RouteCall { route: self.driver_only("drag_to_point()"), args: (x, y, duration_secs) }),
    {
        RouteCall { route: self.route_driver_only("drag_to_point()"), args: (x, y, duration_secs) }
    }

    pub fn remove_attr<Name>(&self, name: Name) -> (call: RouteCall<Name>)
        ensures
            call == (RouteCall { route: self.driver_only("remove_attr()"), args: name }),
    {
        RouteCall { route: self.route_driver_only("remove_attr()"), args: name }
    }

    pub fn set_attr<Name, ValueArg>(
        &self,
        name: Name,
        value: ValueArg,
    ) -> (call: RouteCall<(Name, ValueArg)>)
        ensures
            call == (RouteCall { route: self.driver_only("set_attr()"), args: (name, value) }),
    {
        RouteCall { route: self.route_driver_only("set_attr()"), args: (name, value) }
    }

    pub fn set_property<Name, ValueArg>(
        &self,
        name: Name,
        value: ValueArg,
    ) -> (call: RouteCall<(Name, ValueArg)>)
        ensures
            call == (RouteCall { route: self.driver_only("set_property()"), args: (name, value) }),
    {
        RouteCall { route: self.route_driver_only("set_property()"), args: (name, value) }
    }

    pub fn set_style<Name, ValueArg>(
        &self,
        name: Name,
        value: ValueArg,
    ) -> (call: RouteCall<(Name, ValueArg)>)
        ensures
            call == (RouteCall { route: self.driver_only("set_style()"), args: (name, value) }),
    {
        RouteCall { route: self.route_driver_only("set_style()"), args: (name, value) }
    }

    pub fn set_checked(&self, checked: bool) -> (call: RouteCall<bool>)
        ensures
            call == (RouteCall { route: self.driver_only("set_checked()"), args: checked }),
    {
        RouteCall { route: self.route_driver_only("set_checked()"), args: checked }
    }

    pub fn check(&self, uncheck: bool, by_js: bool) -> (call: RouteCall<(bool, bool)>)
        ensures
            call == (RouteCall { route: self.driver_only("check()"), args: (uncheck, by_js) }),
    {
        RouteCall { route: self.route_driver_only("check()"), args: (uncheck, by_js) }
    }

    pub fn uncheck(&self, by_js: bool) -> (call: RouteCall<bool>)
        ensures
            call == (RouteCall { route: self.driver_only("uncheck()"), args: by_js }),
    {
        RouteCall { route: self.route_driver_only("uncheck()"), args: by_js }
    }

    pub fn select_by_text<Text>(&self, text: Text) -> (call: RouteCall<Text>)
        ensures
            call == (RouteCall { route: self.driver_only("select_by_text()"), args: text }),
    {
        RouteCall { route: self.route_driver_only("select_by_text()"), args: text }
    }

    pub fn select_by_text_with_timeout<Text>(
        &self,
        text: Text,
        timeout_ms: Option<u64>,
    ) -> (call: RouteCall<(Text, Option<u64>)>)
        ensures
            call == (RouteCall { route: self.driver_only("select_by_text_with_timeout()"), args: (text, timeout_ms) }),
    {
        RouteCall { route: self.route_driver_only("select_by_text_with_timeout()"), args: (text, timeout_ms) }
    }

    pub fn select_by_value<ValueArg>(&self, value: ValueArg) -> (call: RouteCall<ValueArg>)
        ensures
            call == (RouteCall { route: self.driver_only("select_by_value()"), args: value }),
    {
        RouteCall { route: self.route_driver_only("select_by_value()"), args: value }
    }

    pub fn select_by_value_with_timeout<ValueArg>(
        &self,
        value: ValueArg,
        timeout_ms: Option<u64>,
    ) -> (call: RouteCall<(ValueArg, Option<u64>)>)
        ensures
            call == (RouteCall { route: self.driver_only("select_by_value_with_timeout()"), args: (value, timeout_ms) }),
    {
        RouteCall { route: self.route_driver_only("select_by_value_with_timeout()"), args: (value, timeout_ms) }
    }

    pub fn select_by_locator<LocatorArg>(
        &self,
        locator: LocatorArg,
    ) -> (call: RouteCall<LocatorArg>)
        ensures
            call == (RouteCall { route: self.driver_only("select_by_locator()"), args: locator }),
    {
        RouteCall { route: self.route_driver_only("select_by_locator()"), args: locator }
    }

    pub fn select_by_locator_with_timeout<LocatorArg>(
        &self,
        locator: LocatorArg,
        timeout_ms: Option<u64>,
    ) -> (call: RouteCall<(LocatorArg, Option<u64>)>)
        ensures
            call == (RouteCall { route: self.driver_only("select_by_locator_with_timeout()"), args: (locator, timeout_ms) }),
    {
        RouteCall { route: self.route_driver_only("select_by_locator_with_timeout()"), args: (locator, timeout_ms) }
    }

    pub fn select_by_index<Index>(&self, index: Index) -> (call: RouteCall<Index>)
        ensures
            call == (RouteCall { route: self.driver_only("select_by_index()"), args: index }),
    {
        RouteCall { route: self.route_driver_only("select_by_index()"), args: index }
    }

    pub fn select_by_index_with_timeout<Index>(
        &self,
        index: Index,
        timeout_ms: Option<u64>,
    ) -> (call: RouteCall<(Index, Option<u64>)>)
        ensures
            call == (RouteCall { route: self.driver_only("select_by_index_with_timeout()"), args: (index, timeout_ms) }),
    {
        RouteCall { route: self.route_driver_only("select_by_index_with_timeout()"), args: (index, timeout_ms) }
    }

    pub fn select_by_indices<Indices>(&self, indices: Indices) -> (call: RouteCall<Indices>)
        ensures
            call == (RouteCall { route: self.driver_only("select_by_indices()"), args: indices }),
    {
        RouteCall { route: self.route_driver_only("select_by_indices()"), args: indices }
    }

    pub fn select_by_indices_with_timeout<Indices>(
        &self,
        indices: Indices,
        timeout_ms: Option<u64>,
    ) -> (call: RouteCall<(Indices, Option<u64>)>)
        ensures
            call == (RouteCall { route: self.driver_only("select_by_indices_with_timeout()"), args: (indices, timeout_ms) }),
    {
        RouteCall { route: self.route_driver_only("select_by_indices_with_timeout()"), args: (indices, timeout_ms) }
    }

    pub fn cancel_by_text<Text>(&self, text: Text) -> (call: RouteCall<Text>)
        ensures
            call == (RouteCall { route: self.driver_only("cancel_by_text()"), args: text }),
    {
        RouteCall { route: self.route_driver_only("cancel_by_text()"), args: text }
    }

    pub fn cancel_by_text_with_timeout<Text>(
        &self,
        text: Text,
        timeout_ms: Option<u64>,
    ) -> (call: RouteCall<(Text, Option<u64>)>)
        ensures
            call == (RouteCall { route: self.driver_only("cancel_by_text_with_timeout()"), args: (text, timeout_ms) }),
    {
        RouteCall { route: self.route_driver_only("cancel_by_text_with_timeout()"), args: (text, timeout_ms) }
    }

    pub fn cancel_by_value<ValueArg>(&self, value: ValueArg) -> (call: RouteCall<ValueArg>)
        ensures
            call == (RouteCall { route: self.driver_only("cancel_by_value()"), args: value }),
    {
        RouteCall { route: self.route_driver_only("cancel_by_value()"), args: value }
    }

    pub fn cancel_by_value_with_timeout<ValueArg>(
        &self,
        value: ValueArg,
        timeout_ms: Option<u64>,
    ) -> (call: RouteCall<(ValueArg, Option<u64>)>)
        ensures
            call == (RouteCall { route: self.driver_only("cancel_by_value_with_timeout()"), args: (value, timeout_ms) }),
    {
        RouteCall { route: self.route_driver_only("cancel_by_value_with_timeout()"), args: (value, timeout_ms) }
    }

    pub fn cancel_by_index<Index>(&self, index: Index) -> (call: RouteCall<Index>)
        ensures
            call == (RouteCall { route: self.driver_only("cancel_by_index()"), args: index }),
    {
        RouteCall { route: self.route_driver_only("cancel_by_index()"), args: index }
    }

    pub fn cancel_by_index_with_timeout<Index>(
        &self,
        index: Index,
        timeout_ms: Option<u64>,
    ) -> (call: RouteCall<(Index, Option<u64>)>)
        ensures
            call == (RouteCall { route: self.driver_only("cancel_by_index_with_timeout()"), args: (index, timeout_ms) }),
    {
        RouteCall { route: self.route_driver_only("cancel_by_index_with_timeout()"), args: (index, timeout_ms) }
    }

    pub fn cancel_by_indices<Indices>(&self, indices: Indices) -> (call: RouteCall<Indices>)
        ensures
            call == (RouteCall { route: self.driver_only("cancel_by_indices()"), args: indices }),
    {
        RouteCall { route: self.route_driver_only("cancel_by_indices()"), args: indices }
    }

    pub fn cancel_by_indices_with_timeout<Indices>(
        &self,
        indices: Indices,
        timeout_ms: Option<u64>,
    ) -> (call: RouteCall<(Indices, Option<u64>)>)
        ensures
            call == (RouteCall { route: self.driver_only("cancel_by_indices_with_timeout()"), args: (indices, timeout_ms) }),
    {
        RouteCall { route: self.route_driver_only("cancel_by_indices_with_timeout()"), args: (indices, timeout_ms) }
    }

    pub fn cancel_by_locator<LocatorArg>(
        &self,
        locator: LocatorArg,
    ) -> (call: RouteCall<LocatorArg>)
        ensures
            call == (RouteCall { route: self.driver_only("cancel_by_locator()"), args: locator }),
    {
        RouteCall { route: self.route_driver_only("cancel_by_locator()"), args: locator }
    }

    pub fn cancel_by_locator_with_timeout<LocatorArg>(
        &self,
        locator: LocatorArg,
        timeout_ms: Option<u64>,
    ) -> (call: RouteCall<(LocatorArg, Option<u64>)>)
        ensures
            call == (RouteCall { route: self.driver_only("cancel_by_locator_with_timeout()"), args: (locator, timeout_ms) }),
    {
        RouteCall { route: self.route_driver_only("cancel_by_locator_with_timeout()"), args: (locator, timeout_ms) }
    }

    pub fn select_all(&self) -> (route: Route)
        ensures
            route == self.driver_only("select_all()"),
    {
        self.route_driver_only("select_all()")
    }

    pub fn invert_selected(&self) -> (route: Route)
        ensures
            route == self.driver_only("invert_selected()"),
    {
        self.route_driver_only("invert_selected()")
    }

    pub fn clear_selected(&self) -> (route: Route)
        ensures
            route == self.driver_only("clear_selected()"),
    {
        self.route_driver_only("clear_selected()")
    }

    pub fn rect_corners(&self) -> (route: Route)
        ensures
            route == self.driver_only("rect_corners()"),
    {
        self.route_driver_only("rect_corners()")
    }

    pub fn rect_viewport_corners(&self) -> (route: Route)
        ensures
            route == self.driver_only("rect_viewport_corners()"),
    {
        self.route_driver_only("rect_viewport_corners()")
    }

    pub fn rect_location(&self) -> (route: Route)
        ensures
            route == self.driver_only("rect_location()"),
    {
        self.route_driver_only("rect_location()")
    }

    pub fn rect_viewport_location(&self) -> (route: Route)
        ensures
            route == self.driver_only("rect_viewport_location()"),
    {
        self.route_driver_only("rect_viewport_location()")
    }

    pub fn rect_screen_location(&self) -> (route: Route)
        ensures
            route == self.driver_only("rect_screen_location()"),
    {
        self.route_driver_only("rect_screen_location()")
    }

    pub fn rect_midpoint(&self) -> (route: Route)
        ensures
            route == self.driver_only("rect_midpoint()"),
    {
        self.route_driver_only("rect_midpoint()")
    }

    pub fn rect_viewport_midpoint(&self) -> (route: Route)
        ensures
            route == self.driver_only("rect_viewport_midpoint()"),
    {
        self.route_driver_only("rect_viewport_midpoint()")
    }

    pub fn rect_click_point(&self) -> (route: Route)
        ensures
            route == self.driver_only("rect_click_point()"),
    {
        self.route_driver_only("rect_click_point()")
    }

    pub fn rect_viewport_click_point(&self) -> (route: Route)
        ensures
            route == self.driver_only("rect_viewport_click_point()"),
    {
        self.route_driver_only("rect_viewport_click_point()")
    }

    pub fn rect_size(&self) -> (route: Route)
        ensures
            route == self.driver_only("rect_size()"),
    {
        self.route_driver_only("rect_size()")
    }

    pub fn rect_screen_midpoint(&self) -> (route: Route)
        ensures
            route == self.driver_only("rect_screen_midpoint()"),
    {
        self.route_driver_only("rect_screen_midpoint()")
    }

    pub fn rect_screen_click_point(&self) -> (route: Route)
        ensures
            route == self.driver_only("rect_screen_click_point()"),
    {
        self.route_driver_only("rect_screen_click_point()")
    }

    pub fn rect_scroll_position(&self) -> (route: Route)
        ensures
            route == self.driver_only("rect_scroll_position()"),
    {
        self.route_driver_only("rect_scroll_position()")
    }

    pub fn wait_until_displayed(&self, timeout_ms: u64) -> (call: RouteCall<u64>)
        ensures
            call == (RouteCall { route: self.driver_only("wait_until_displayed()"), args: timeout_ms }),
    {
        RouteCall { route: self.route_driver_only("wait_until_displayed()"), args: timeout_ms }
    }

    pub fn wait_until_hidden(&self, timeout_ms: u64) -> (call: RouteCall<u64>)
        ensures
            call == (RouteCall { route: self.driver_only("wait_until_hidden()"), args: timeout_ms }),
    {
        RouteCall { route: self.route_driver_only("wait_until_hidden()"), args: timeout_ms }
    }

    pub fn wait_until_enabled(&self, timeout_ms: u64) -> (call: RouteCall<u64>)
        ensures
            call == (RouteCall { route: self.driver_only("wait_until_enabled()"), args: timeout_ms }),
    {
        RouteCall { route: self.route_driver_only("wait_until_enabled()"), args: timeout_ms }
    }

    pub fn wait_until_disabled(&self, timeout_ms: u64) -> (call: RouteCall<u64>)
        ensures
            call == (RouteCall { route: self.driver_only("wait_until_disabled()"), args: timeout_ms }),
    {
        RouteCall { route: self.route_driver_only("wait_until_disabled()"), args: timeout_ms }
    }

    pub fn wait_until_deleted(&self, timeout_ms: u64) -> (call: RouteCall<u64>)
        ensures
            call == (RouteCall { route: self.driver_only("wait_until_deleted()"), args: timeout_ms }),
    {
        RouteCall { route: self.route_driver_only("wait_until_deleted()"), args: timeout_ms }
    }

    pub fn wait_until_clickable(&self, timeout_ms: u64) -> (call: RouteCall<u64>)
        ensures
            call == (RouteCall { route: self.driver_only("wait_until_clickable()"), args: timeout_ms }),
    {
        RouteCall { route: self.route_driver_only("wait_until_clickable()"), args: timeout_ms }
    }

    pub fn wait_until_has_rect(&self, timeout_ms: u64) -> (call: RouteCall<u64>)
        ensures
            call == (RouteCall { route: self.driver_only("wait_until_has_rect()"), args: timeout_ms }),
    {
        RouteCall { route: self.route_driver_only("wait_until_has_rect()"), args: timeout_ms }
    }

    pub fn wait_until_covered(&self, timeout_ms: u64) -> (call: RouteCall<u64>)
        ensures
            call == (RouteCall { route: self.driver_only("wait_until_covered()"), args: timeout_ms }),
    {
        RouteCall { route: self.route_driver_only("wait_until_covered()"), args: timeout_ms }
    }

    pub fn wait_until_not_covered(&self, timeout_ms: u64) -> (call: RouteCall<u64>)
        ensures
            call == (RouteCall { route: self.driver_only("wait_until_not_covered()"), args: timeout_ms }),
    {
        RouteCall { route: self.route_driver_only("wait_until_not_covered()"), args: timeout_ms }
    }

    pub fn wait_until_disabled_or_deleted(&self, timeout_ms: u64) -> (call: RouteCall<u64>)
        ensures
            call == (RouteCall { route: self.driver_only("wait_until_disabled_or_deleted()"), args: timeout_ms }),
    {
        RouteCall { route: self.route_driver_only("wait_until_disabled_or_deleted()"), args: timeout_ms }
    }

    pub fn wait_until_stop_moving(&self, timeout_ms: u64) -> (call: RouteCall<u64>)
        ensures
            call == (RouteCall { route: self.driver_only("wait_until_stop_moving()"), args: timeout_ms }),
    {
        RouteCall { route: self.route_driver_only("wait_until_stop_moving()"), args: timeout_ms }
    }
}

/// Other names for operations above: they route as the operation they name.
impl WebElement {
    pub fn eles<LocatorArg>(&self, locator: LocatorArg) -> (call: RouteCall<LocatorArg>)
        ensures
            call == (RouteCall { route: self.by_kind(), args: locator }),
    {
        RouteCall { route: self.route_by_kind(), args: locator }
    }

    pub fn sr(&self) -> (route: Route)
        ensures
            route == self.driver_only("shadow_root()"),
    {
        self.route_driver_only("shadow_root()")
    }

    /// The first match, with no locator: `child_with(None, 1)`.
    pub fn child(&self) -> (call: RouteCall<(Option<&'static str>, usize)>)
        ensures
            call == (RouteCall { route: self.by_kind(), args: (None::<&'static str>, 1usize) }),
    {
        self.child_with(None, 1)
    }

    /// Every match, with no locator: `childs_with(None)`.
    pub fn children(&self) -> (call: RouteCall<Option<&'static str>>)
        ensures
            call == (RouteCall { route: self.by_kind(), args: None::<&'static str> }),
    {
        self.children_with(None)
    }

    /// The first match, with no locator: `prev_with(None, 1)`.
    pub fn prev(&self) -> (call: RouteCall<(Option<&'static str>, usize)>)
        ensures
            call == (RouteCall { route: self.by_kind(), args: (None::<&'static str>, 1usize) }),
    {
        self.prev_with(None, 1)
    }

    /// Every match, with no locator: `prevs_with(None)`.
    pub fn prevs(&self) -> (call: RouteCall<Option<&'static str>>)
        ensures
            call == (RouteCall { route: self.by_kind(), args: None::<&'static str> }),
    {
        self.prevs_with(None)
    }

    /// The first match, with no locator: `next_with(None, 1)`.
    pub fn next(&self) -> (call: RouteCall<(Option<&'static str>, usize)>)
        ensures
            call == (RouteCall { route: self.by_kind(), args: (None::<&'static str>, 1usize) }),
    {
        self.next_with(None, 1)
    }

    /// Every match, with no locator: `nexts_with(None)`.
    pub fn nexts(&self) -> (call: RouteCall<Option<&'static str>>)
        ensures
            call == (RouteCall { route: self.by_kind(), args: None::<&'static str> }),
    {
        self.nexts_with(None)
    }

    /// The first match, with no locator: `before_with(None, 1)`.
    pub fn before(&self) -> (call: RouteCall<(Option<&'static str>, usize)>)
        ensures
            call == (RouteCall { route: self.by_kind(), args: (None::<&'static str>, 1usize) }),
    {
        self.before_with(None, 1)
    }

    /// Every match, with no locator: `befores_with(None)`.
    pub fn befores(&self) -> (call: RouteCall<Option<&'static str>>)
        ensures
            call == (RouteCall { route: self.by_kind(), args: None::<&'static str> }),
    {
        self.befores_with(None)
    }

    /// The first match, with no locator: `after_with(None, 1)`.
    pub fn after(&self) -> (call: RouteCall<(Option<&'static str>, usize)>)
        ensures
            call == (RouteCall { route: self.by_kind(), args: (None::<&'static str>, 1usize) }),
    {
        self.after_with(None, 1)
    }

    /// Every match, with no locator: `afters_with(None)`.
    pub fn afters(&self) -> (call: RouteCall<Option<&'static str>>)
        ensures
            call == (RouteCall { route: self.by_kind(), args: None::<&'static str> }),
    {
        self.afters_with(None)
    }

    /// The option elements of a select element: `find_all("css:option")`.
    pub fn option_elements(&self) -> (call: RouteCall<&'static str>)
        ensures
            call.route == self.by_kind(),
            call.args@ == "css:option"@,
    {
        self.find_all("css:option")
    }
}

} // verus!
