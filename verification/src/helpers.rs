use vstd::prelude::*;

use crate::element_flow::{OptionBatch, WebSelectOptionInput};
use crate::error::OpenPageError;
use crate::mode::WebMode;
use crate::model::{WebElement, WebPage};
use crate::route::{Backend, Reply, Route, RouteCall};

verus! {

/// Scrolling of an element, reached through `WebElement::scroll`.
pub struct WebElementScroller<'a> {
    pub element: &'a WebElement,
}

impl<'a> WebElementScroller<'a> {
    pub fn to_top(&self) -> (route: Route)
        ensures
            route == self.element.driver_only("scroll_to_top()"),
    {
        self.element.route_driver_only("scroll_to_top()")
    }

    pub fn to_bottom(&self) -> (route: Route)
        ensures
            route == self.element.driver_only("scroll_to_bottom()"),
    {
        self.element.route_driver_only("scroll_to_bottom()")
    }

    pub fn to_half(&self) -> (route: Route)
        ensures
            route == self.element.driver_only("scroll_to_half()"),
    {
        self.element.route_driver_only("scroll_to_half()")
    }

    pub fn to_rightmost(&self) -> (route: Route)
        ensures
            route == self.element.driver_only("scroll_to_rightmost()"),
    {
        self.element.route_driver_only("scroll_to_rightmost()")
    }

    pub fn to_leftmost(&self) -> (route: Route)
        ensures
            route == self.element.driver_only("scroll_to_leftmost()"),
    {
        self.element.route_driver_only("scroll_to_leftmost()")
    }

    pub fn to_location<X, Y>(&self, x: X, y: Y) -> (call: RouteCall<(X, Y)>)
        ensures
            call == (RouteCall { route: self.element.driver_only("scroll_to_location()"), args: (x, y) }),
    {
        RouteCall { route: self.element.route_driver_only("scroll_to_location()"), args: (x, y) }
    }

    pub fn up<Pixels>(&self, pixels: Pixels) -> (call: RouteCall<Pixels>)
        ensures
            call == (RouteCall { route: self.element.driver_only("scroll_up()"), args: pixels }),
    {
        RouteCall { route: self.element.route_driver_only("scroll_up()"), args: pixels }
    }

    pub fn down<Pixels>(&self, pixels: Pixels) -> (call: RouteCall<Pixels>)
        ensures
            call == (RouteCall { route: self.element.driver_only("scroll_down()"), args: pixels }),
    {
        RouteCall { route: self.element.route_driver_only("scroll_down()"), args: pixels }
    }

    pub fn left<Pixels>(&self, pixels: Pixels) -> (call: RouteCall<Pixels>)
        ensures
            call == (RouteCall { route: self.element.driver_only("scroll_left()"), args: pixels }),
    {
        RouteCall { route: self.element.route_driver_only("scroll_left()"), args: pixels }
    }

    pub fn right<Pixels>(&self, pixels: Pixels) -> (call: RouteCall<Pixels>)
        ensures
            call == (RouteCall { route: self.element.driver_only("scroll_right()"), args: pixels }),
    {
        RouteCall { route: self.element.route_driver_only("scroll_right()"), args: pixels }
    }

    pub fn to_see(&self, center: Option<bool>) -> (call: RouteCall<Option<bool>>)
        ensures
            call == (RouteCall { route: self.element.driver_only("scroll_to_see()"), args: center }),
    {
        RouteCall { route: self.element.route_driver_only("scroll_to_see()"), args: center }
    }

    pub fn to_center(&self) -> (route: Route)
        ensures
            route == self.element.driver_only("scroll_to_center()"),
    {
        self.element.route_driver_only("scroll_to_center()")
    }
}

/// Clicking an element, reached through `WebElement::clicker`.
pub struct WebElementClicker<'a> {
    pub element: &'a WebElement,
}

impl<'a> WebElementClicker<'a> {
    /// A plain left click: `left_with_options(Some(false), None, true)`, not
    /// by script, with the default timeout, waiting for the element to stop.
    pub fn left(&self) -> (call: RouteCall<(Option<bool>, Option<u64>, bool)>)
        ensures
            call == (RouteCall {
                route: self.element.driver_only("click_left_with_options()"),
                args: (Some(false), None::<u64>, true),
            }),
    {
        self.left_with_options(Some(false), None, true)
    }

    pub fn left_with_options(
        &self,
        by_js: Option<bool>,
        timeout_ms: Option<u64>,
        wait_stop: bool,
    ) -> (call: RouteCall<(Option<bool>, Option<u64>, bool)>)
        ensures
            call == (RouteCall { route: self.element.driver_only("click_left_with_options()"), args: (by_js, timeout_ms, wait_stop) }),
    {
        RouteCall { route: self.element.route_driver_only("click_left_with_options()"), args: (by_js, timeout_ms, wait_stop) }
    }

    pub fn right(&self) -> (route: Route)
        ensures
            route == self.element.driver_only("click_right()"),
    {
        self.element.route_driver_only("click_right()")
    }

    pub fn middle(&self, get_tab: bool) -> (call: RouteCall<bool>)
        ensures
            call == (RouteCall { route: self.element.driver_only("clicker()"), args: get_tab }),
    {
        RouteCall { route: self.element.route_driver_only("clicker()"), args: get_tab }
    }

    pub fn multi(&self, times: u32) -> (call: RouteCall<u32>)
        ensures
            call == (RouteCall { route: self.element.driver_only("click_multi()"), args: times }),
    {
        RouteCall { route: self.element.route_driver_only("click_multi()"), args: times }
    }

    pub fn at<OffsetX, OffsetY, Button>(
        &self,
        offset_x: OffsetX,
        offset_y: OffsetY,
        button: Button,
        count: u32,
    ) -> (call: RouteCall<(OffsetX, OffsetY, Button, u32)>)
        ensures
            call == (RouteCall { route: self.element.driver_only("click_at()"), args: (offset_x, offset_y, button, count) }),
    {
        RouteCall { route: self.element.route_driver_only("click_at()"), args: (offset_x, offset_y, button, count) }
    }

    pub fn to_upload<Files>(
        &self,
        files: Files,
        timeout_ms: Option<u64>,
        by_js: bool,
    ) -> (call: RouteCall<(Files, Option<u64>, bool)>)
        ensures
            call == (RouteCall { route: self.element.driver_only("clicker()"), args: (files, timeout_ms, by_js) }),
    {
        RouteCall { route: self.element.route_driver_only("clicker()"), args: (files, timeout_ms, by_js) }
    }

    pub fn to_download<SavePath, Rename, Suffix>(
        &self,
        save_path: SavePath,
        rename: Rename,
        suffix: Suffix,
        suffix_specified: bool,
        timeout_ms: Option<u64>,
        by_js: bool,
        new_tab: bool,
    ) -> (call: RouteCall<(SavePath, Rename, Suffix, bool, Option<u64>, bool, bool)>)
        ensures
            call == (RouteCall { route: self.element.driver_only("clicker()"), args: (save_path, rename, suffix, suffix_specified, timeout_ms, by_js, new_tab) }),
    {
        RouteCall { route: self.element.route_driver_only("clicker()"), args: (save_path, rename, suffix, suffix_specified, timeout_ms, by_js, new_tab) }
    }

    pub fn for_new_tab(
        &self,
        timeout_ms: Option<u64>,
        by_js: bool,
    ) -> (call: RouteCall<(Option<u64>, bool)>)
        ensures
            call == (RouteCall { route: self.element.driver_only("clicker()"), args: (timeout_ms, by_js) }),
    {
        RouteCall { route: self.element.route_driver_only("clicker()"), args: (timeout_ms, by_js) }
    }
}

/// Setting properties, styles and attributes of an element, reached through `WebElement::set`.
pub struct WebElementSetter<'a> {
    pub element: &'a WebElement,
}

impl<'a> WebElementSetter<'a> {
    /// Sets the `innerHTML` property to the given text, as a string value.
    pub fn inner_html<Html>(&self, html: Html) -> (call: RouteCall<(&'static str, Html)>)
        ensures
            call.route == self.element.driver_only("set_property()"),
            call.args.0@ == "innerHTML"@,
            call.args.1 == html,
    {
        self.property("innerHTML", html)
    }

    pub fn property<Name, ValueArg>(
        &self,
        name: Name,
        value: ValueArg,
    ) -> (call: RouteCall<(Name, ValueArg)>)
        ensures
            call == (RouteCall { route: self.element.driver_only("set_property()"), args: (name, value) }),
    {
        RouteCall { route: self.element.route_driver_only("set_property()"), args: (name, value) }
    }

    pub fn style<Name, ValueArg>(
        &self,
        name: Name,
        value: ValueArg,
    ) -> (call: RouteCall<(Name, ValueArg)>)
        ensures
            call == (RouteCall { route: self.element.driver_only("set_style()"), args: (name, value) }),
    {
        RouteCall { route: self.element.route_driver_only("set_style()"), args: (name, value) }
    }

    pub fn attr<Name, ValueArg>(
        &self,
        name: Name,
        value: ValueArg,
    ) -> (call: RouteCall<(Name, ValueArg)>)
        ensures
            call == (RouteCall { route: self.element.driver_only("set_attr()"), args: (name, value) }),
    {
        RouteCall { route: self.element.route_driver_only("set_attr()"), args: (name, value) }
    }

    /// Sets the `value` property to the given text, as a string value.
    pub fn value<ValueArg>(&self, value: ValueArg) -> (call: RouteCall<(&'static str, ValueArg)>)
        ensures
            call.route == self.element.driver_only("set_property()"),
            call.args.0@ == "value"@,
            call.args.1 == value,
    {
        self.property("value", value)
    }
}

/// Working a select element, reached through `WebElement::select`.
pub struct WebElementSelector<'a> {
    pub element: &'a WebElement,
}

impl<'a> WebElementSelector<'a> {
    pub fn by_text<Text>(&self, text: Text) -> (call: RouteCall<Text>)
        ensures
            call == (RouteCall { route: self.element.driver_only("select_by_text()"), args: text }),
    {
        RouteCall { route: self.element.route_driver_only("select_by_text()"), args: text }
    }

    pub fn by_text_with_timeout<Text>(
        &self,
        text: Text,
        timeout_ms: Option<u64>,
    ) -> (call: RouteCall<(Text, Option<u64>)>)
        ensures
            call == (RouteCall { route: self.element.driver_only("select_by_text_with_timeout()"), args: (text, timeout_ms) }),
    {
        RouteCall { route: self.element.route_driver_only("select_by_text_with_timeout()"), args: (text, timeout_ms) }
    }

    pub fn by_value<ValueArg>(&self, value: ValueArg) -> (call: RouteCall<ValueArg>)
        ensures
            call == (RouteCall { route: self.element.driver_only("select_by_value()"), args: value }),
    {
        RouteCall { route: self.element.route_driver_only("select_by_value()"), args: value }
    }

    pub fn by_value_with_timeout<ValueArg>(
        &self,
        value: ValueArg,
        timeout_ms: Option<u64>,
    ) -> (call: RouteCall<(ValueArg, Option<u64>)>)
        ensures
            call == (RouteCall { route: self.element.driver_only("select_by_value_with_timeout()"), args: (value, timeout_ms) }),
    {
        RouteCall { route: self.element.route_driver_only("select_by_value_with_timeout()"), args: (value, timeout_ms) }
    }

    pub fn by_index<Index>(&self, index: Index) -> (call: RouteCall<Index>)
        ensures
            call == (RouteCall { route: self.element.driver_only("select_by_index()"), args: index }),
    {
        RouteCall { route: self.element.route_driver_only("select_by_index()"), args: index }
    }

    pub fn by_index_with_timeout<Index>(
        &self,
        index: Index,
        timeout_ms: Option<u64>,
    ) -> (call: RouteCall<(Index, Option<u64>)>)
        ensures
            call == (RouteCall { route: self.element.driver_only("select_by_index_with_timeout()"), args: (index, timeout_ms) }),
    {
        RouteCall { route: self.element.route_driver_only("select_by_index_with_timeout()"), args: (index, timeout_ms) }
    }

    pub fn by_indices<Indices>(&self, indices: Indices) -> (call: RouteCall<Indices>)
        ensures
            call == (RouteCall { route: self.element.driver_only("select_by_indices()"), args: indices }),
    {
        RouteCall { route: self.element.route_driver_only("select_by_indices()"), args: indices }
    }

    pub fn by_indices_with_timeout<Indices>(
        &self,
        indices: Indices,
        timeout_ms: Option<u64>,
    ) -> (call: RouteCall<(Indices, Option<u64>)>)
        ensures
            call == (RouteCall { route: self.element.driver_only("select_by_indices_with_timeout()"), args: (indices, timeout_ms) }),
    {
        RouteCall { route: self.element.route_driver_only("select_by_indices_with_timeout()"), args: (indices, timeout_ms) }
    }

    pub fn by_locator<LocatorArg>(&self, locator: LocatorArg) -> (call: RouteCall<LocatorArg>)
        ensures
            call == (RouteCall { route: self.element.driver_only("select_by_locator()"), args: locator }),
    {
        RouteCall { route: self.element.route_driver_only("select_by_locator()"), args: locator }
    }

    pub fn by_locator_with_timeout<LocatorArg>(
        &self,
        locator: LocatorArg,
        timeout_ms: Option<u64>,
    ) -> (call: RouteCall<(LocatorArg, Option<u64>)>)
        ensures
            call == (RouteCall { route: self.element.driver_only("select_by_locator_with_timeout()"), args: (locator, timeout_ms) }),
    {
        RouteCall { route: self.element.route_driver_only("select_by_locator_with_timeout()"), args: (locator, timeout_ms) }
    }

    pub fn cancel_by_text<Text>(&self, text: Text) -> (call: RouteCall<Text>)
        ensures
            call == (RouteCall { route: self.element.driver_only("cancel_by_text()"), args: text }),
    {
        RouteCall { route: self.element.route_driver_only("cancel_by_text()"), args: text }
    }

    pub fn cancel_by_text_with_timeout<Text>(
        &self,
        text: Text,
        timeout_ms: Option<u64>,
    ) -> (call: RouteCall<(Text, Option<u64>)>)
        ensures
            call == (RouteCall { route: self.element.driver_only("cancel_by_text_with_timeout()"), args: (text, timeout_ms) }),
    {
        RouteCall { route: self.element.route_driver_only("cancel_by_text_with_timeout()"), args: (text, timeout_ms) }
    }

    pub fn cancel_by_value<ValueArg>(&self, value: ValueArg) -> (call: RouteCall<ValueArg>)
        ensures
            call == (RouteCall { route: self.element.driver_only("cancel_by_value()"), args: value }),
    {
        RouteCall { route: self.element.route_driver_only("cancel_by_value()"), args: value }
    }

    pub fn cancel_by_value_with_timeout<ValueArg>(
        &self,
        value: ValueArg,
        timeout_ms: Option<u64>,
    ) -> (call: RouteCall<(ValueArg, Option<u64>)>)
        ensures
            call == (RouteCall { route: self.element.driver_only("cancel_by_value_with_timeout()"), args: (value, timeout_ms) }),
    {
        RouteCall { route: self.element.route_driver_only("cancel_by_value_with_timeout()"), args: (value, timeout_ms) }
    }

    pub fn cancel_by_index<Index>(&self, index: Index) -> (call: RouteCall<Index>)
        ensures
            call == (RouteCall { route: self.element.driver_only("cancel_by_index()"), args: index }),
    {
        RouteCall { route: self.element.route_driver_only("cancel_by_index()"), args: index }
    }

    pub fn cancel_by_index_with_timeout<Index>(
        &self,
        index: Index,
        timeout_ms: Option<u64>,
    ) -> (call: RouteCall<(Index, Option<u64>)>)
        ensures
            call == (RouteCall { route: self.element.driver_only("cancel_by_index_with_timeout()"), args: (index, timeout_ms) }),
    {
        RouteCall { route: self.element.route_driver_only("cancel_by_index_with_timeout()"), args: (index, timeout_ms) }
    }

    pub fn cancel_by_indices<Indices>(&self, indices: Indices) -> (call: RouteCall<Indices>)
        ensures
            call == (RouteCall { route: self.element.driver_only("cancel_by_indices()"), args: indices }),
    {
        RouteCall { route: self.element.route_driver_only("cancel_by_indices()"), args: indices }
    }

    pub fn cancel_by_indices_with_timeout<Indices>(
        &self,
        indices: Indices,
        timeout_ms: Option<u64>,
    ) -> (call: RouteCall<(Indices, Option<u64>)>)
        ensures
            call == (RouteCall { route: self.element.driver_only("cancel_by_indices_with_timeout()"), args: (indices, timeout_ms) }),
    {
        RouteCall { route: self.element.route_driver_only("cancel_by_indices_with_timeout()"), args: (indices, timeout_ms) }
    }

    pub fn cancel_by_locator<LocatorArg>(
        &self,
        locator: LocatorArg,
    ) -> (call: RouteCall<LocatorArg>)
        ensures
            call == (RouteCall { route: self.element.driver_only("cancel_by_locator()"), args: locator }),
    {
        RouteCall { route: self.element.route_driver_only("cancel_by_locator()"), args: locator }
    }

    pub fn cancel_by_locator_with_timeout<LocatorArg>(
        &self,
        locator: LocatorArg,
        timeout_ms: Option<u64>,
    ) -> (call: RouteCall<(LocatorArg, Option<u64>)>)
        ensures
            call == (RouteCall { route: self.element.driver_only("cancel_by_locator_with_timeout()"), args: (locator, timeout_ms) }),
    {
        RouteCall { route: self.element.route_driver_only("cancel_by_locator_with_timeout()"), args: (locator, timeout_ms) }
    }

    pub fn all(&self) -> (route: Route)
        ensures
            route == self.element.driver_only("select_all()"),
    {
        self.element.route_driver_only("select_all()")
    }

    pub fn clear(&self) -> (route: Route)
        ensures
            route == self.element.driver_only("clear_selected()"),
    {
        self.element.route_driver_only("clear_selected()")
    }

    pub fn invert(&self) -> (route: Route)
        ensures
            route == self.element.driver_only("invert_selected()"),
    {
        self.element.route_driver_only("invert_selected()")
    }

    pub fn is_multi(&self) -> (route: Route)
        ensures
            route == self.element.by_kind(),
    {
        self.element.route_by_kind()
    }

    pub fn options(&self) -> (route: Route)
        ensures
            route == self.element.by_kind(),
    {
        self.element.route_by_kind()
    }

    pub fn selected_option(&self) -> (route: Route)
        ensures
            route == self.element.by_kind(),
    {
        self.element.route_by_kind()
    }

    pub fn selected_options(&self) -> (route: Route)
        ensures
            route == self.element.by_kind(),
    {
        self.element.route_by_kind()
    }
}

/// State queries of an element, reached through `WebElement::states`.
pub struct WebElementStates<'a> {
    pub element: &'a WebElement,
}

impl<'a> WebElementStates<'a> {
    pub fn is_in_viewport(&self) -> (route: Route)
        ensures
            route == self.element.driver_only("is_in_viewport()"),
    {
        self.element.route_driver_only("is_in_viewport()")
    }

    pub fn is_whole_in_viewport(&self) -> (route: Route)
        ensures
            route == self.element.driver_only("is_whole_in_viewport()"),
    {
        self.element.route_driver_only("is_whole_in_viewport()")
    }

    pub fn is_alive(&self) -> (route: Route)
        ensures
            route == self.element.driver_only("is_alive()"),
    {
        self.element.route_driver_only("is_alive()")
    }

    pub fn is_checked(&self) -> (route: Route)
        ensures
            route == self.element.driver_only("is_checked()"),
    {
        self.element.route_driver_only("is_checked()")
    }

    pub fn is_selected(&self) -> (route: Route)
        ensures
            route == self.element.driver_only("is_selected()"),
    {
        self.element.route_driver_only("is_selected()")
    }

    pub fn is_enabled(&self) -> (route: Route)
        ensures
            route == self.element.driver_only("is_enabled()"),
    {
        self.element.route_driver_only("is_enabled()")
    }

    pub fn is_displayed(&self) -> (route: Route)
        ensures
            route == self.element.driver_only("is_displayed()"),
    {
        self.element.route_driver_only("is_displayed()")
    }

    pub fn is_covered(&self) -> (route: Route)
        ensures
            route == self.element.driver_only("is_covered()"),
    {
        self.element.route_driver_only("is_covered()")
    }

    pub fn is_clickable(&self) -> (route: Route)
        ensures
            route == self.element.driver_only("is_clickable()"),
    {
        self.element.route_driver_only("is_clickable()")
    }

    pub fn has_rect(&self) -> (route: Route)
        ensures
            route == self.element.driver_only("has_rect()"),
    {
        self.element.route_driver_only("has_rect()")
    }
}

/// Geometry of an element, reached through `WebElement::rect`.
pub struct WebElementRect<'a> {
    pub element: &'a WebElement,
}

impl<'a> WebElementRect<'a> {
    pub fn corners(&self) -> (route: Route)
        ensures
            route == self.element.driver_only("rect_corners()"),
    {
        self.element.route_driver_only("rect_corners()")
    }

    pub fn viewport_corners(&self) -> (route: Route)
        ensures
            route == self.element.driver_only("rect_viewport_corners()"),
    {
        self.element.route_driver_only("rect_viewport_corners()")
    }

    pub fn location(&self) -> (route: Route)
        ensures
            route == self.element.driver_only("rect_location()"),
    {
        self.element.route_driver_only("rect_location()")
    }

    pub fn viewport_location(&self) -> (route: Route)
        ensures
            route == self.element.driver_only("rect_viewport_location()"),
    {
        self.element.route_driver_only("rect_viewport_location()")
    }

    pub fn screen_location(&self) -> (route: Route)
        ensures
            route == self.element.driver_only("rect_screen_location()"),
    {
        self.element.route_driver_only("rect_screen_location()")
    }

    pub fn midpoint(&self) -> (route: Route)
        ensures
            route == self.element.driver_only("rect_midpoint()"),
    {
        self.element.route_driver_only("rect_midpoint()")
    }

    pub fn viewport_midpoint(&self) -> (route: Route)
        ensures
            route == self.element.driver_only("rect_viewport_midpoint()"),
    {
        self.element.route_driver_only("rect_viewport_midpoint()")
    }

    pub fn click_point(&self) -> (route: Route)
        ensures
            route == self.element.driver_only("rect_click_point()"),
    {
        self.element.route_driver_only("rect_click_point()")
    }

    pub fn viewport_click_point(&self) -> (route: Route)
        ensures
            route == self.element.driver_only("rect_viewport_click_point()"),
    {
        self.element.route_driver_only("rect_viewport_click_point()")
    }

    pub fn size(&self) -> (route: Route)
        ensures
            route == self.element.driver_only("rect_size()"),
    {
        self.element.route_driver_only("rect_size()")
    }

    pub fn screen_midpoint(&self) -> (route: Route)
        ensures
            route == self.element.driver_only("rect_screen_midpoint()"),
    {
        self.element.route_driver_only("rect_screen_midpoint()")
    }

    pub fn screen_click_point(&self) -> (route: Route)
        ensures
            route == self.element.driver_only("rect_screen_click_point()"),
    {
        self.element.route_driver_only("rect_screen_click_point()")
    }

    pub fn scroll_position(&self) -> (route: Route)
        ensures
            route == self.element.driver_only("rect_scroll_position()"),
    {
        self.element.route_driver_only("rect_scroll_position()")
    }
}

/// Waiting on an element, reached through `WebElement::wait`.
pub struct WebElementWait<'a> {
    pub element: &'a WebElement,
}

impl<'a> WebElementWait<'a> {
    pub fn displayed(&self, timeout_ms: u64) -> (call: RouteCall<u64>)
        ensures
            call == (RouteCall { route: self.element.driver_only("wait_until_displayed()"), args: timeout_ms }),
    {
        RouteCall { route: self.element.route_driver_only("wait_until_displayed()"), args: timeout_ms }
    }

    pub fn hidden(&self, timeout_ms: u64) -> (call: RouteCall<u64>)
        ensures
            call == (RouteCall { route: self.element.driver_only("wait_until_hidden()"), args: timeout_ms }),
    {
        RouteCall { route: self.element.route_driver_only("wait_until_hidden()"), args: timeout_ms }
    }

    pub fn enabled(&self, timeout_ms: u64) -> (call: RouteCall<u64>)
        ensures
            call == (RouteCall { route: self.element.driver_only("wait_until_enabled()"), args: timeout_ms }),
    {
        RouteCall { route: self.element.route_driver_only("wait_until_enabled()"), args: timeout_ms }
    }

    pub fn disabled(&self, timeout_ms: u64) -> (call: RouteCall<u64>)
        ensures
            call == (RouteCall { route: self.element.driver_only("wait_until_disabled()"), args: timeout_ms }),
    {
        RouteCall { route: self.element.route_driver_only("wait_until_disabled()"), args: timeout_ms }
    }

    pub fn deleted(&self, timeout_ms: u64) -> (call: RouteCall<u64>)
        ensures
            call == (RouteCall { route: self.element.driver_only("wait_until_deleted()"), args: timeout_ms }),
    {
        RouteCall { route: self.element.route_driver_only("wait_until_deleted()"), args: timeout_ms }
    }

    pub fn clickable(&self, timeout_ms: u64) -> (call: RouteCall<u64>)
        ensures
            call == (RouteCall { route: self.element.driver_only("wait_until_clickable()"), args: timeout_ms }),
    {
        RouteCall { route: self.element.route_driver_only("wait_until_clickable()"), args: timeout_ms }
    }

    pub fn has_rect(&self, timeout_ms: u64) -> (call: RouteCall<u64>)
        ensures
            call == (RouteCall { route: self.element.driver_only("wait_until_has_rect()"), args: timeout_ms }),
    {
        RouteCall { route: self.element.route_driver_only("wait_until_has_rect()"), args: timeout_ms }
    }

    pub fn covered(&self, timeout_ms: u64) -> (call: RouteCall<u64>)
        ensures
            call == (RouteCall { route: self.element.driver_only("wait_until_covered()"), args: timeout_ms }),
    {
        RouteCall { route: self.element.route_driver_only("wait_until_covered()"), args: timeout_ms }
    }

    pub fn not_covered(&self, timeout_ms: u64) -> (call: RouteCall<u64>)
        ensures
            call == (RouteCall { route: self.element.driver_only("wait_until_not_covered()"), args: timeout_ms }),
    {
        RouteCall { route: self.element.route_driver_only("wait_until_not_covered()"), args: timeout_ms }
    }

    pub fn disabled_or_deleted(&self, timeout_ms: u64) -> (call: RouteCall<u64>)
        ensures
            call == (RouteCall { route: self.element.driver_only("wait_until_disabled_or_deleted()"), args: timeout_ms }),
    {
        RouteCall { route: self.element.route_driver_only("wait_until_disabled_or_deleted()"), args: timeout_ms }
    }

    pub fn stop_moving(&self, timeout_ms: u64) -> (call: RouteCall<u64>)
        ensures
            call == (RouteCall { route: self.element.driver_only("wait_until_stop_moving()"), args: timeout_ms }),
    {
        RouteCall { route: self.element.route_driver_only("wait_until_stop_moving()"), args: timeout_ms }
    }
}

/// Scrolling of a page, reached through `WebPage::scroll`.
pub struct WebPageScroller<'a> {
    pub page: &'a WebPage,
}

impl<'a> WebPageScroller<'a> {
    pub fn to_top(&self) -> (route: Route)
        ensures
            route == self.page.driver_only("scroll_to_top()"),
    {
        self.page.route_driver_only("scroll_to_top()")
    }

    pub fn to_bottom(&self) -> (route: Route)
        ensures
            route == self.page.driver_only("scroll_to_bottom()"),
    {
        self.page.route_driver_only("scroll_to_bottom()")
    }

    pub fn to_half(&self) -> (route: Route)
        ensures
            route == self.page.driver_only("scroll_to_half()"),
    {
        self.page.route_driver_only("scroll_to_half()")
    }

    pub fn to_rightmost(&self) -> (route: Route)
        ensures
            route == self.page.driver_only("scroll_to_rightmost()"),
    {
        self.page.route_driver_only("scroll_to_rightmost()")
    }

    pub fn to_leftmost(&self) -> (route: Route)
        ensures
            route == self.page.driver_only("scroll_to_leftmost()"),
    {
        self.page.route_driver_only("scroll_to_leftmost()")
    }

    pub fn to_location<X, Y>(&self, x: X, y: Y) -> (call: RouteCall<(X, Y)>)
        ensures
            call == (RouteCall { route: self.page.driver_only("scroll_to_location()"), args: (x, y) }),
    {
        RouteCall { route: self.page.route_driver_only("scroll_to_location()"), args: (x, y) }
    }

    pub fn up<Pixels>(&self, pixels: Pixels) -> (call: RouteCall<Pixels>)
        ensures
            call == (RouteCall { route: self.page.driver_only("scroll_up()"), args: pixels }),
    {
        RouteCall { route: self.page.route_driver_only("scroll_up()"), args: pixels }
    }

    pub fn down<Pixels>(&self, pixels: Pixels) -> (call: RouteCall<Pixels>)
        ensures
            call == (RouteCall { route: self.page.driver_only("scroll_down()"), args: pixels }),
    {
        RouteCall { route: self.page.route_driver_only("scroll_down()"), args: pixels }
    }

    pub fn left<Pixels>(&self, pixels: Pixels) -> (call: RouteCall<Pixels>)
        ensures
            call == (RouteCall { route: self.page.driver_only("scroll_left()"), args: pixels }),
    {
        RouteCall { route: self.page.route_driver_only("scroll_left()"), args: pixels }
    }

    pub fn right<Pixels>(&self, pixels: Pixels) -> (call: RouteCall<Pixels>)
        ensures
            call == (RouteCall { route: self.page.driver_only("scroll_right()"), args: pixels }),
    {
        RouteCall { route: self.page.route_driver_only("scroll_right()"), args: pixels }
    }
}

/// Settings of a page, reached through `WebPage::set`.
pub struct WebPageSetter<'a> {
    pub page: &'a WebPage,
}

impl<'a> WebPageSetter<'a> {
    pub fn blocked_urls<Patterns>(&self, patterns: Patterns) -> (call: RouteCall<Patterns>)
        ensures
            call == (RouteCall { route: Route::Run(Backend::Driver), args: patterns }),
    {
        RouteCall { route: Route::Run(Backend::Driver), args: patterns }
    }

    pub fn headers<Headers>(&self, headers: Headers) -> (call: RouteCall<Headers>)
        ensures
            call == (RouteCall { route: self.page.by_mode(), args: headers }),
    {
        RouteCall { route: self.page.route_by_mode(), args: headers }
    }

    pub fn user_agent<UserAgent, Platform>(
        &self,
        user_agent: UserAgent,
        platform: Platform,
    ) -> (call: RouteCall<(UserAgent, Platform)>)
        ensures
            call == (RouteCall { route: self.page.by_mode(), args: (user_agent, platform) }),
    {
        RouteCall { route: self.page.route_by_mode(), args: (user_agent, platform) }
    }

    pub fn encoding<Encoding>(&self, encoding: Encoding) -> (call: RouteCall<Encoding>)
        ensures
            call == (RouteCall { route: self.page.session_or_reply(Reply::Unit), args: encoding }),
    {
        RouteCall { route: self.page.route_session_or_reply(Reply::Unit), args: encoding }
    }

    pub fn session_storage<Item, ValueArg>(
        &self,
        item: Item,
        value: ValueArg,
    ) -> (call: RouteCall<(Item, ValueArg)>)
        ensures
            call == (RouteCall { route: Route::Run(Backend::Driver), args: (item, value) }),
    {
        RouteCall { route: Route::Run(Backend::Driver), args: (item, value) }
    }

    pub fn local_storage<Item, ValueArg>(
        &self,
        item: Item,
        value: ValueArg,
    ) -> (call: RouteCall<(Item, ValueArg)>)
        ensures
            call == (RouteCall { route: Route::Run(Backend::Driver), args: (item, value) }),
    {
        RouteCall { route: Route::Run(Backend::Driver), args: (item, value) }
    }

    pub fn auto_handle_alert<PromptText>(
        &self,
        accept: Option<bool>,
        prompt_text: PromptText,
    ) -> (call: RouteCall<(Option<bool>, PromptText)>)
        ensures
            call == (RouteCall { route: Route::Run(Backend::Driver), args: (accept, prompt_text) }),
    {
        RouteCall { route: Route::Run(Backend::Driver), args: (accept, prompt_text) }
    }

    pub fn cookies<Cookies>(&self, cookies: Cookies) -> (call: RouteCall<Cookies>)
        ensures
            call == (RouteCall { route: self.page.by_mode(), args: cookies }),
    {
        RouteCall { route: self.page.route_by_mode(), args: cookies }
    }

    pub fn clear_cookies(&self) -> (route: Route)
        ensures
            route == self.page.by_mode(),
    {
        self.page.route_by_mode()
    }

    pub fn remove_cookie<Name, Url, Domain, PathArg>(
        &self,
        name: Name,
        url: Url,
        domain: Domain,
        path: PathArg,
    ) -> (call: RouteCall<(Name, Url, Domain, PathArg)>)
        ensures
            call == (RouteCall { route: self.page.by_mode(), args: (name, url, domain, path) }),
    {
        RouteCall { route: self.page.route_by_mode(), args: (name, url, domain, path) }
    }

    pub fn download_path<PathArg>(&self, path: PathArg) -> (call: RouteCall<PathArg>)
        ensures
            call == (RouteCall { route: self.page.for_this_tab(), args: path }),
    {
        RouteCall { route: self.page.route_for_this_tab(), args: path }
    }

    pub fn download_file_exists<ModeArg>(&self, mode: ModeArg) -> (call: RouteCall<ModeArg>)
        ensures
            call == (RouteCall { route: self.page.for_this_tab(), args: mode }),
    {
        RouteCall { route: self.page.route_for_this_tab(), args: mode }
    }

    pub fn when_download_file_exists<ModeArg>(&self, mode: ModeArg) -> (call: RouteCall<ModeArg>)
        ensures
            call == (RouteCall { route: self.page.for_this_tab(), args: mode }),
    {
        RouteCall { route: self.page.route_for_this_tab(), args: mode }
    }

    pub fn download_file_name<Rename, Suffix>(
        &self,
        rename: Rename,
        suffix: Suffix,
    ) -> (call: RouteCall<(Rename, Suffix)>)
        ensures
            call == (RouteCall { route: self.page.for_this_tab(), args: (rename, suffix) }),
    {
        RouteCall { route: self.page.route_for_this_tab(), args: (rename, suffix) }
    }

    pub fn upload_files<Files>(&self, files: Files) -> (call: RouteCall<Files>)
        ensures
            call == (RouteCall { route: Route::Run(Backend::Driver), args: files }),
    {
        RouteCall { route: Route::Run(Backend::Driver), args: files }
    }

    pub fn upload_paths<Files>(&self, files: Files) -> (call: RouteCall<Files>)
        ensures
            call == (RouteCall { route: Route::Run(Backend::Driver), args: files }),
    {
        RouteCall { route: Route::Run(Backend::Driver), args: files }
    }

    pub fn activate(&self) -> (route: Route)
        ensures
            route == Route::Run(Backend::Driver),
    {
        Route::Run(Backend::Driver)
    }

    pub fn retry<RetryIntervalSecs>(
        &self,
        retry_times: Option<usize>,
        retry_interval_secs: RetryIntervalSecs,
    ) -> (call: RouteCall<(Option<usize>, RetryIntervalSecs)>)
        ensures
            call == (RouteCall { route: self.page.by_mode(), args: (retry_times, retry_interval_secs) }),
    {
        RouteCall { route: self.page.route_by_mode(), args: (retry_times, retry_interval_secs) }
    }

    /// Sets the retry count only: `retry(Some(times), None)`.
    pub fn retry_times<Interval>(&self, times: usize) -> (call: RouteCall<(Option<usize>, Option<Interval>)>)
        ensures
            call == (RouteCall { route: self.page.by_mode(), args: (Some(times), None::<Interval>) }),
    {
        self.retry(Some(times), None)
    }

    /// Sets the retry interval only: `retry(None, Some(interval_secs))`.
    pub fn retry_interval<IntervalSecs>(&self, interval_secs: IntervalSecs) -> (call: RouteCall<
        (Option<usize>, Option<IntervalSecs>),
    >)
        ensures
            call == (RouteCall { route: self.page.by_mode(), args: (None::<usize>, Some(interval_secs)) }),
    {
        self.retry(None, Some(interval_secs))
    }

    /// Sets the base timeout only: `set_timeouts(Some(timeout_secs), None,
    /// None)`.
    pub fn timeout<Secs>(&self, timeout_secs: Secs) -> (call: RouteCall<(Option<Secs>, Option<Secs>, Option<Secs>)>)
        ensures
            call.args == (Some(timeout_secs), None::<Secs>, None::<Secs>),
            self.page.mode == WebMode::Driver ==> call.route == Route::Run(Backend::Driver),
            self.page.mode == WebMode::Session ==> call.route == Route::Run(Backend::Session),
    {
        RouteCall { route: self.page.set_timeouts(true, false, false), args: (Some(timeout_secs), None, None) }
    }

    pub fn timeouts(&self, base_given: bool, page_load_given: bool, script_given: bool) -> (route:
        Route)
        ensures
            self.page.mode == WebMode::Driver ==> route == Route::Run(Backend::Driver),
            self.page.mode == WebMode::Session && (page_load_given || script_given) ==> route
                == Route::Refuse(OpenPageError::DriverModeOnly("set_timeouts(page_load/script)")),
            self.page.mode == WebMode::Session && !page_load_given && !script_given && base_given
                ==> route == Route::Run(Backend::Session),
            self.page.mode == WebMode::Session && !page_load_given && !script_given && !base_given
                ==> route == Route::Answer(Reply::Unit),
    {
        self.page.set_timeouts(base_given, page_load_given, script_given)
    }
}

/// Cookie settings of a page, reached through `WebPageSetter::cookie`.
pub struct WebPageCookieSetter<'a> {
    pub page: &'a WebPage,
}

impl<'a> WebPageCookieSetter<'a> {
    pub fn set<Cookies>(&self, cookies: Cookies) -> (call: RouteCall<Cookies>)
        ensures
            call == (RouteCall { route: self.page.by_mode(), args: cookies }),
    {
        RouteCall { route: self.page.route_by_mode(), args: cookies }
    }

    pub fn clear(&self) -> (route: Route)
        ensures
            route == self.page.by_mode(),
    {
        self.page.route_by_mode()
    }

    pub fn remove<Name, Url, Domain, PathArg>(
        &self,
        name: Name,
        url: Url,
        domain: Domain,
        path: PathArg,
    ) -> (call: RouteCall<(Name, Url, Domain, PathArg)>)
        ensures
            call == (RouteCall { route: self.page.by_mode(), args: (name, url, domain, path) }),
    {
        RouteCall { route: self.page.route_by_mode(), args: (name, url, domain, path) }
    }
}

/// Window settings of a page, reached through `WebPageSetter::window`.
pub struct WebPageWindowSetter<'a> {
    pub page: &'a WebPage,
}

impl<'a> WebPageWindowSetter<'a> {
    pub fn max(&self) -> (route: Route)
        ensures
            route == Route::Run(Backend::Driver),
    {
        Route::Run(Backend::Driver)
    }

    pub fn mini(&self) -> (route: Route)
        ensures
            route == Route::Run(Backend::Driver),
    {
        Route::Run(Backend::Driver)
    }

    pub fn full(&self) -> (route: Route)
        ensures
            route == Route::Run(Backend::Driver),
    {
        Route::Run(Backend::Driver)
    }

    pub fn normal(&self) -> (route: Route)
        ensures
            route == Route::Run(Backend::Driver),
    {
        Route::Run(Backend::Driver)
    }

    pub fn size(
        &self,
        width: Option<i64>,
        height: Option<i64>,
    ) -> (call: RouteCall<(Option<i64>, Option<i64>)>)
        ensures
            call == (RouteCall { route: Route::Run(Backend::Driver), args: (width, height) }),
    {
        RouteCall { route: Route::Run(Backend::Driver), args: (width, height) }
    }

    pub fn location(
        &self,
        x: Option<i64>,
        y: Option<i64>,
    ) -> (call: RouteCall<(Option<i64>, Option<i64>)>)
        ensures
            call == (RouteCall { route: Route::Run(Backend::Driver), args: (x, y) }),
    {
        RouteCall { route: Route::Run(Backend::Driver), args: (x, y) }
    }

    pub fn hide_window(&self) -> (route: Route)
        ensures
            route == Route::Run(Backend::Driver),
    {
        Route::Run(Backend::Driver)
    }

    pub fn show(&self) -> (route: Route)
        ensures
            route == Route::Run(Backend::Driver),
    {
        Route::Run(Backend::Driver)
    }
}

/// When a page load counts as done.
#[derive(Clone, Copy, Debug, PartialEq, Eq, Structural)]
pub enum LoadMode {
    /// Once the page and its resources have loaded.
    Normal,
    /// Once the document has been parsed.
    Eager,
    /// Without waiting for the load: the `none` load mode.
    NoWait,
}

/// Load mode settings of a page, reached through `WebPageSetter::load_mode`.
pub struct WebPageLoadModeSetter<'a> {
    pub page: &'a WebPage,
}

impl<'a> WebPageLoadModeSetter<'a> {
    /// `set_load_mode(LoadMode::Normal)`.
    pub fn normal(&self) -> (call: RouteCall<LoadMode>)
        ensures
            call == (RouteCall { route: Route::Run(Backend::Driver), args: LoadMode::Normal }),
    {
        self.page.set_load_mode(LoadMode::Normal)
    }

    /// `set_load_mode(LoadMode::Eager)`.
    pub fn eager(&self) -> (call: RouteCall<LoadMode>)
        ensures
            call == (RouteCall { route: Route::Run(Backend::Driver), args: LoadMode::Eager }),
    {
        self.page.set_load_mode(LoadMode::Eager)
    }

    /// `set_load_mode(LoadMode::NoWait)`.
    pub fn none(&self) -> (call: RouteCall<LoadMode>)
        ensures
            call == (RouteCall { route: Route::Run(Backend::Driver), args: LoadMode::NoWait }),
    {
        self.page.set_load_mode(LoadMode::NoWait)
    }
}

impl WebElement {
    pub fn scroll(&self) -> (helper: WebElementScroller<'_>)
        ensures
            helper.element == self,
    {
        WebElementScroller { element: self }
    }

    pub fn clicker(&self) -> (helper: WebElementClicker<'_>)
        ensures
            helper.element == self,
    {
        WebElementClicker { element: self }
    }

    pub fn set(&self) -> (helper: WebElementSetter<'_>)
        ensures
            helper.element == self,
    {
        WebElementSetter { element: self }
    }

    pub fn select(&self) -> (helper: WebElementSelector<'_>)
        ensures
            helper.element == self,
    {
        WebElementSelector { element: self }
    }

    pub fn states(&self) -> (helper: WebElementStates<'_>)
        ensures
            helper.element == self,
    {
        WebElementStates { element: self }
    }

    pub fn rect(&self) -> (helper: WebElementRect<'_>)
        ensures
            helper.element == self,
    {
        WebElementRect { element: self }
    }

    pub fn wait(&self) -> (helper: WebElementWait<'_>)
        ensures
            helper.element == self,
    {
        WebElementWait { element: self }
    }
}

impl WebPage {
    pub fn scroll(&self) -> (helper: WebPageScroller<'_>)
        ensures
            helper.page == self,
    {
        WebPageScroller { page: self }
    }

    pub fn set(&self) -> (helper: WebPageSetter<'_>)
        ensures
            helper.page == self,
    {
        WebPageSetter { page: self }
    }
}

impl<'a> WebPageSetter<'a> {
    pub fn window(&self) -> (helper: WebPageWindowSetter<'a>)
        ensures
            helper.page == self.page,
    {
        WebPageWindowSetter { page: self.page }
    }

    pub fn cookie(&self) -> (helper: WebPageCookieSetter<'a>)
        ensures
            helper.page == self.page,
    {
        WebPageCookieSetter { page: self.page }
    }

    pub fn load_mode(&self) -> (helper: WebPageLoadModeSetter<'a>)
        ensures
            helper.page == self.page,
    {
        WebPageLoadModeSetter { page: self.page }
    }
}

impl<'a> WebElementSelector<'a> {
    pub fn by_option(&self, option: &WebSelectOptionInput) -> (batch: OptionBatch)
        ensures
            self.element.option_batch(option.options(), "select_by_option()", batch),
    {
        self.element.select_by_option(option)
    }

    pub fn by_options(&self, options: &Vec<&WebElement>) -> (batch: OptionBatch)
        ensures
            self.element.option_batch(options@, "select_by_option()", batch),
    {
        self.element.select_by_options(options)
    }

    pub fn cancel_by_option(&self, option: &WebSelectOptionInput) -> (batch: OptionBatch)
        ensures
            self.element.option_batch(option.options(), "cancel_by_option()", batch),
    {
        self.element.cancel_by_option(option)
    }

    pub fn cancel_by_options(&self, options: &Vec<&WebElement>) -> (batch: OptionBatch)
        ensures
            self.element.option_batch(options@, "cancel_by_option()", batch),
    {
        self.element.cancel_by_options(options)
    }
}

} // verus!
