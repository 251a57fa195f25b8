use vstd::prelude::*;

use crate::model::WebPage;
use crate::route::{Backend, LocatorBatchRequest, LocatorRequest, Reply, Route, RouteCall};

verus! {

/// Operations that only the browser tab supports: refused in session mode.
impl WebPage {
    pub fn navigation_snapshot(&self) -> (route: Route)
        ensures
            route == self.driver_only("navigation_snapshot()"),
    {
        self.route_driver_only("navigation_snapshot()")
    }

    pub fn actions(&self) -> (route: Route)
        ensures
            route == self.driver_only("actions()"),
    {
        self.route_driver_only("actions()")
    }

    pub fn new_actions(&self) -> (route: Route)
        ensures
            route == self.driver_only("new_actions()"),
    {
        self.route_driver_only("new_actions()")
    }

    pub fn click_to_download<LocatorArg, SavePath, Rename, Suffix>(
        &self,
        locator: LocatorArg,
        save_path: SavePath,
        rename: Rename,
        suffix: Suffix,
        suffix_specified: bool,
        timeout_ms: Option<u64>,
        by_js: bool,
        new_tab: bool,
    ) -> (call: RouteCall<(LocatorArg, SavePath, Rename, Suffix, bool, Option<u64>, bool, bool)>)
        ensures
            call == (RouteCall { route: self.driver_only("click_to_download()"), args: (locator, save_path, rename, suffix, suffix_specified, timeout_ms, by_js, new_tab) }),
    {
        RouteCall { route: self.route_driver_only("click_to_download()"), args: (locator, save_path, rename, suffix, suffix_specified, timeout_ms, by_js, new_tab) }
    }

    pub fn click_to_upload<LocatorArg, Files>(
        &self,
        locator: LocatorArg,
        files: Files,
        timeout_ms: Option<u64>,
        by_js: bool,
    ) -> (call: RouteCall<(LocatorArg, Files, Option<u64>, bool)>)
        ensures
            call == (RouteCall { route: self.driver_only("click_to_upload()"), args: (locator, files, timeout_ms, by_js) }),
    {
        RouteCall { route: self.route_driver_only("click_to_upload()"), args: (locator, files, timeout_ms, by_js) }
    }

    pub fn click_for_new_tab<LocatorArg>(
        &self,
        locator: LocatorArg,
        timeout_ms: Option<u64>,
        by_js: bool,
    ) -> (call: RouteCall<(LocatorArg, Option<u64>, bool)>)
        ensures
            call == (RouteCall { route: self.driver_only("click_for_new_tab()"), args: (locator, timeout_ms, by_js) }),
    {
        RouteCall { route: self.route_driver_only("click_for_new_tab()"), args: (locator, timeout_ms, by_js) }
    }

    pub fn click_middle<LocatorArg>(
        &self,
        locator: LocatorArg,
        timeout_ms: Option<u64>,
        get_tab: bool,
    ) -> (call: RouteCall<(LocatorArg, Option<u64>, bool)>)
        ensures
            call == (RouteCall { route: self.driver_only("click_middle()"), args: (locator, timeout_ms, get_tab) }),
    {
        RouteCall { route: self.route_driver_only("click_middle()"), args: (locator, timeout_ms, get_tab) }
    }

    pub fn evaluate<Expression>(&self, expression: Expression) -> (call: RouteCall<Expression>)
        ensures
            call == (RouteCall { route: self.driver_only("evaluate()"), args: expression }),
    {
        RouteCall { route: self.route_driver_only("evaluate()"), args: expression }
    }

    pub fn save_screenshot<PathArg>(
        &self,
        path: PathArg,
        full_page: bool,
    ) -> (call: RouteCall<(PathArg, bool)>)
        ensures
            call == (RouteCall { route: self.driver_only("save_screenshot()"), args: (path, full_page) }),
    {
        RouteCall { route: self.route_driver_only("save_screenshot()"), args: (path, full_page) }
    }

    pub fn save<PathArg, Name>(
        &self,
        path: PathArg,
        name: Name,
        as_pdf: bool,
    ) -> (call: RouteCall<(PathArg, Name, bool)>)
        ensures
            call == (RouteCall { route: self.driver_only("save()"), args: (path, name, as_pdf) }),
    {
        RouteCall { route: self.route_driver_only("save()"), args: (path, name, as_pdf) }
    }

    pub fn save_with_options<PathArg, Name, PdfOptions>(
        &self,
        path: PathArg,
        name: Name,
        as_pdf: bool,
        pdf_options: PdfOptions,
    ) -> (call: RouteCall<(PathArg, Name, bool, PdfOptions)>)
        ensures
            call == (RouteCall { route: self.driver_only("save_with_options()"), args: (path, name, as_pdf, pdf_options) }),
    {
        RouteCall { route: self.route_driver_only("save_with_options()"), args: (path, name, as_pdf, pdf_options) }
    }

    pub fn save_pdf<PathArg>(&self, path: PathArg) -> (call: RouteCall<PathArg>)
        ensures
            call == (RouteCall { route: self.driver_only("save_pdf()"), args: path }),
    {
        RouteCall { route: self.route_driver_only("save_pdf()"), args: path }
    }

    pub fn screenshot_bytes<LeftTop, RightBottom>(
        &self,
        full_page: bool,
        left_top: LeftTop,
        right_bottom: RightBottom,
    ) -> (call: RouteCall<(bool, LeftTop, RightBottom)>)
        ensures
            call == (RouteCall { route: self.driver_only("screenshot_bytes()"), args: (full_page, left_top, right_bottom) }),
    {
        RouteCall { route: self.route_driver_only("screenshot_bytes()"), args: (full_page, left_top, right_bottom) }
    }

    pub fn screenshot_base64<LeftTop, RightBottom>(
        &self,
        full_page: bool,
        left_top: LeftTop,
        right_bottom: RightBottom,
    ) -> (call: RouteCall<(bool, LeftTop, RightBottom)>)
        ensures
            call == (RouteCall { route: self.driver_only("screenshot_base64()"), args: (full_page, left_top, right_bottom) }),
    {
        RouteCall { route: self.route_driver_only("screenshot_base64()"), args: (full_page, left_top, right_bottom) }
    }

    pub fn get_screenshot<PathArg, Name, LeftTop, RightBottom>(
        &self,
        path: PathArg,
        name: Name,
        full_page: bool,
        left_top: LeftTop,
        right_bottom: RightBottom,
    ) -> (call: RouteCall<(PathArg, Name, bool, LeftTop, RightBottom)>)
        ensures
            call == (RouteCall { route: self.driver_only("get_screenshot()"), args: (path, name, full_page, left_top, right_bottom) }),
    {
        RouteCall { route: self.route_driver_only("get_screenshot()"), args: (path, name, full_page, left_top, right_bottom) }
    }

    pub fn scroll_position(&self) -> (route: Route)
        ensures
            route == self.driver_only("scroll_position()"),
    {
        self.route_driver_only("scroll_position()")
    }

    pub fn viewport_size(&self) -> (route: Route)
        ensures
            route == self.driver_only("viewport_size()"),
    {
        self.route_driver_only("viewport_size()")
    }

    pub fn refresh(&self, ignore_cache: bool) -> (call: RouteCall<bool>)
        ensures
            call == (RouteCall { route: self.driver_only("refresh()"), args: ignore_cache }),
    {
        RouteCall { route: self.route_driver_only("refresh()"), args: ignore_cache }
    }

    pub fn back(&self, steps: usize) -> (call: RouteCall<usize>)
        ensures
            call == (RouteCall { route: self.driver_only("back()"), args: steps }),
    {
        RouteCall { route: self.route_driver_only("back()"), args: steps }
    }

    pub fn forward(&self, steps: usize) -> (call: RouteCall<usize>)
        ensures
            call == (RouteCall { route: self.driver_only("forward()"), args: steps }),
    {
        RouteCall { route: self.route_driver_only("forward()"), args: steps }
    }

    pub fn scroll_to_top(&self) -> (route: Route)
        ensures
            route == self.driver_only("scroll_to_top()"),
    {
        self.route_driver_only("scroll_to_top()")
    }

    pub fn scroll_to_bottom(&self) -> (route: Route)
        ensures
            route == self.driver_only("scroll_to_bottom()"),
    {
        self.route_driver_only("scroll_to_bottom()")
    }

    pub fn scroll_to_half(&self) -> (route: Route)
        ensures
            route == self.driver_only("scroll_to_half()"),
    {
        self.route_driver_only("scroll_to_half()")
    }

    pub fn scroll_to_rightmost(&self) -> (route: Route)
        ensures
            route == self.driver_only("scroll_to_rightmost()"),
    {
        self.route_driver_only("scroll_to_rightmost()")
    }

    pub fn scroll_to_leftmost(&self) -> (route: Route)
        ensures
            route == self.driver_only("scroll_to_leftmost()"),
    {
        self.route_driver_only("scroll_to_leftmost()")
    }

    pub fn scroll_to_location<X, Y>(&self, x: X, y: Y) -> (call: RouteCall<(X, Y)>)
        ensures
            call == (RouteCall { route: self.driver_only("scroll_to_location()"), args: (x, y) }),
    {
        RouteCall { route: self.route_driver_only("scroll_to_location()"), args: (x, y) }
    }

    pub fn scroll_up<Pixels>(&self, pixels: Pixels) -> (call: RouteCall<Pixels>)
        ensures
            call == (RouteCall { route: self.driver_only("scroll_up()"), args: pixels }),
    {
        RouteCall { route: self.route_driver_only("scroll_up()"), args: pixels }
    }

    pub fn scroll_down<Pixels>(&self, pixels: Pixels) -> (call: RouteCall<Pixels>)
        ensures
            call == (RouteCall { route: self.driver_only("scroll_down()"), args: pixels }),
    {
        RouteCall { route: self.route_driver_only("scroll_down()"), args: pixels }
    }

    pub fn scroll_left<Pixels>(&self, pixels: Pixels) -> (call: RouteCall<Pixels>)
        ensures
            call == (RouteCall { route: self.driver_only("scroll_left()"), args: pixels }),
    {
        RouteCall { route: self.route_driver_only("scroll_left()"), args: pixels }
    }

    pub fn scroll_right<Pixels>(&self, pixels: Pixels) -> (call: RouteCall<Pixels>)
        ensures
            call == (RouteCall { route: self.driver_only("scroll_right()"), args: pixels }),
    {
        RouteCall { route: self.route_driver_only("scroll_right()"), args: pixels }
    }

    pub fn active_element(&self) -> (route: Route)
        ensures
            route == self.driver_only("active_element()"),
    {
        self.route_driver_only("active_element()")
    }

    pub fn remove_element<LocatorArg>(&self, locator: LocatorArg) -> (call: RouteCall<LocatorArg>)
        ensures
            call == (RouteCall { route: self.driver_only("remove_element()"), args: locator }),
    {
        RouteCall { route: self.route_driver_only("remove_element()"), args: locator }
    }

    pub fn add_element_html<Html, InsertTo, Before>(
        &self,
        html: Html,
        insert_to: InsertTo,
        before: Before,
    ) -> (call: RouteCall<(Html, InsertTo, Before)>)
        ensures
            call == (RouteCall { route: self.driver_only("add_element_html()"), args: (html, insert_to, before) }),
    {
        RouteCall { route: self.route_driver_only("add_element_html()"), args: (html, insert_to, before) }
    }

    pub fn add_element<Content, InsertTo, Before>(
        &self,
        content: Content,
        insert_to: InsertTo,
        before: Before,
    ) -> (call: RouteCall<(Content, InsertTo, Before)>)
        ensures
            call == (RouteCall { route: self.driver_only("add_element()"), args: (content, insert_to, before) }),
    {
        RouteCall { route: self.route_driver_only("add_element()"), args: (content, insert_to, before) }
    }

    pub fn add_element_info<Info, InsertTo, Before>(
        &self,
        info: Info,
        insert_to: InsertTo,
        before: Before,
    ) -> (call: RouteCall<(Info, InsertTo, Before)>)
        ensures
            call == (RouteCall { route: self.driver_only("add_element_info()"), args: (info, insert_to, before) }),
    {
        RouteCall { route: self.route_driver_only("add_element_info()"), args: (info, insert_to, before) }
    }

    pub fn main_frame_id(&self) -> (route: Route)
        ensures
            route == self.driver_only("main_frame_id()"),
    {
        self.route_driver_only("main_frame_id()")
    }

    pub fn get_frame<Target>(&self, target: Target) -> (call: RouteCall<Target>)
        ensures
            call == (RouteCall { route: self.driver_only("get_frame()"), args: target }),
    {
        RouteCall { route: self.route_driver_only("get_frame()"), args: target }
    }

    pub fn get_frame_with_timeout<Target>(
        &self,
        target: Target,
        timeout_ms: u64,
    ) -> (call: RouteCall<(Target, u64)>)
        ensures
            call == (RouteCall { route: self.driver_only("get_frame_with_timeout()"), args: (target, timeout_ms) }),
    {
        RouteCall { route: self.route_driver_only("get_frame_with_timeout()"), args: (target, timeout_ms) }
    }

    pub fn get_frame_by_index(&self, index: usize) -> (call: RouteCall<usize>)
        ensures
            call == (RouteCall { route: self.driver_only("get_frame_by_index()"), args: index }),
    {
        RouteCall { route: self.route_driver_only("get_frame_by_index()"), args: index }
    }

    pub fn get_frame_by_index_with_timeout(
        &self,
        index: usize,
        timeout_ms: u64,
    ) -> (call: RouteCall<(usize, u64)>)
        ensures
            call == (RouteCall { route: self.driver_only("get_frame_by_index_with_timeout()"), args: (index, timeout_ms) }),
    {
        RouteCall { route: self.route_driver_only("get_frame_by_index_with_timeout()"), args: (index, timeout_ms) }
    }

    pub fn get_frame_ele<Target>(&self, target: Target) -> (call: RouteCall<Target>)
        ensures
            call == (RouteCall { route: self.driver_only("get_frame_ele()"), args: target }),
    {
        RouteCall { route: self.route_driver_only("get_frame_ele()"), args: target }
    }

    pub fn get_frame_ele_with_timeout<Target>(
        &self,
        target: Target,
        timeout_ms: u64,
    ) -> (call: RouteCall<(Target, u64)>)
        ensures
            call == (RouteCall { route: self.driver_only("get_frame_ele_with_timeout()"), args: (target, timeout_ms) }),
    {
        RouteCall { route: self.route_driver_only("get_frame_ele_with_timeout()"), args: (target, timeout_ms) }
    }

    pub fn get_frame_ele_by_index(&self, index: usize) -> (call: RouteCall<usize>)
        ensures
            call == (RouteCall { route: self.driver_only("get_frame_ele_by_index()"), args: index }),
    {
        RouteCall { route: self.route_driver_only("get_frame_ele_by_index()"), args: index }
    }

    pub fn get_frame_ele_by_index_with_timeout(
        &self,
        index: usize,
        timeout_ms: u64,
    ) -> (call: RouteCall<(usize, u64)>)
        ensures
            call == (RouteCall { route: self.driver_only("get_frame_ele_by_index_with_timeout()"), args: (index, timeout_ms) }),
    {
        RouteCall { route: self.route_driver_only("get_frame_ele_by_index_with_timeout()"), args: (index, timeout_ms) }
    }

    pub fn get_frames<LocatorArg>(&self, locator: LocatorArg) -> (call: RouteCall<LocatorArg>)
        ensures
            call == (RouteCall { route: self.driver_only("get_frames()"), args: locator }),
    {
        RouteCall { route: self.route_driver_only("get_frames()"), args: locator }
    }

    pub fn get_frames_with_timeout<LocatorArg>(
        &self,
        locator: LocatorArg,
        timeout_ms: u64,
    ) -> (call: RouteCall<(LocatorArg, u64)>)
        ensures
            call == (RouteCall { route: self.driver_only("get_frames_with_timeout()"), args: (locator, timeout_ms) }),
    {
        RouteCall { route: self.route_driver_only("get_frames_with_timeout()"), args: (locator, timeout_ms) }
    }

    pub fn get_frame_eles<LocatorArg>(&self, locator: LocatorArg) -> (call: RouteCall<LocatorArg>)
        ensures
            call == (RouteCall { route: self.driver_only("get_frame_eles()"), args: locator }),
    {
        RouteCall { route: self.route_driver_only("get_frame_eles()"), args: locator }
    }

    pub fn get_frame_eles_with_timeout<LocatorArg>(
        &self,
        locator: LocatorArg,
        timeout_ms: u64,
    ) -> (call: RouteCall<(LocatorArg, u64)>)
        ensures
            call == (RouteCall { route: self.driver_only("get_frame_eles_with_timeout()"), args: (locator, timeout_ms) }),
    {
        RouteCall { route: self.route_driver_only("get_frame_eles_with_timeout()"), args: (locator, timeout_ms) }
    }

    pub fn get_frame_context<Target>(&self, target: Target) -> (call: RouteCall<Target>)
        ensures
            call == (RouteCall { route: self.driver_only("get_frame_context()"), args: target }),
    {
        RouteCall { route: self.route_driver_only("get_frame_context()"), args: target }
    }

    pub fn get_frame_context_by_index(&self, index: usize) -> (call: RouteCall<usize>)
        ensures
            call == (RouteCall { route: self.driver_only("get_frame_context_by_index()"), args: index }),
    {
        RouteCall { route: self.route_driver_only("get_frame_context_by_index()"), args: index }
    }

    pub fn get_frame_contexts<LocatorArg>(
        &self,
        locator: LocatorArg,
    ) -> (call: RouteCall<LocatorArg>)
        ensures
            call == (RouteCall { route: self.driver_only("get_frame_contexts()"), args: locator }),
    {
        RouteCall { route: self.route_driver_only("get_frame_contexts()"), args: locator }
    }

    pub fn run_js<Expression>(&self, expression: Expression) -> (call: RouteCall<Expression>)
        ensures
            call == (RouteCall { route: self.driver_only("run_js()"), args: expression }),
    {
        RouteCall { route: self.route_driver_only("run_js()"), args: expression }
    }

    pub fn run_js_with_args<Script, Args>(
        &self,
        script: Script,
        args: Args,
        as_expr: bool,
    ) -> (call: RouteCall<(Script, Args, bool)>)
        ensures
            call == (RouteCall { route: self.driver_only("run_js_with_args()"), args: (script, args, as_expr) }),
    {
        RouteCall { route: self.route_driver_only("run_js_with_args()"), args: (script, args, as_expr) }
    }

    pub fn run_js_with_options<Script, Args>(
        &self,
        script: Script,
        args: Args,
        as_expr: bool,
        timeout_ms: Option<u64>,
    ) -> (call: RouteCall<(Script, Args, bool, Option<u64>)>)
        ensures
            call == (RouteCall { route: self.driver_only("run_js_with_options()"), args: (script, args, as_expr, timeout_ms) }),
    {
        RouteCall { route: self.route_driver_only("run_js_with_options()"), args: (script, args, as_expr, timeout_ms) }
    }

    pub fn run_js_loaded<Script>(&self, script: Script) -> (call: RouteCall<Script>)
        ensures
            call == (RouteCall { route: self.driver_only("run_js_loaded()"), args: script }),
    {
        RouteCall { route: self.route_driver_only("run_js_loaded()"), args: script }
    }

    pub fn run_js_loaded_with_args<Script, Args>(
        &self,
        script: Script,
        args: Args,
        as_expr: bool,
    ) -> (call: RouteCall<(Script, Args, bool)>)
        ensures
            call == (RouteCall { route: self.driver_only("run_js_loaded_with_args()"), args: (script, args, as_expr) }),
    {
        RouteCall { route: self.route_driver_only("run_js_loaded_with_args()"), args: (script, args, as_expr) }
    }

    pub fn run_js_loaded_with_options<Script, Args>(
        &self,
        script: Script,
        args: Args,
        as_expr: bool,
        timeout_ms: Option<u64>,
    ) -> (call: RouteCall<(Script, Args, bool, Option<u64>)>)
        ensures
            call == (RouteCall { route: self.driver_only("run_js_loaded_with_options()"), args: (script, args, as_expr, timeout_ms) }),
    {
        RouteCall { route: self.route_driver_only("run_js_loaded_with_options()"), args: (script, args, as_expr, timeout_ms) }
    }

    pub fn run_async_js<Script>(&self, script: Script) -> (call: RouteCall<Script>)
        ensures
            call == (RouteCall { route: self.driver_only("run_async_js()"), args: script }),
    {
        RouteCall { route: self.route_driver_only("run_async_js()"), args: script }
    }

    pub fn run_async_js_with_args<Script, Args>(
        &self,
        script: Script,
        args: Args,
        as_expr: bool,
    ) -> (call: RouteCall<(Script, Args, bool)>)
        ensures
            call == (RouteCall { route: self.driver_only("run_async_js_with_args()"), args: (script, args, as_expr) }),
    {
        RouteCall { route: self.route_driver_only("run_async_js_with_args()"), args: (script, args, as_expr) }
    }

    pub fn run_async_js_with_options<Script, Args>(
        &self,
        script: Script,
        args: Args,
        as_expr: bool,
        timeout_ms: Option<u64>,
    ) -> (call: RouteCall<(Script, Args, bool, Option<u64>)>)
        ensures
            call == (RouteCall { route: self.driver_only("run_async_js_with_options()"), args: (script, args, as_expr, timeout_ms) }),
    {
        RouteCall { route: self.route_driver_only("run_async_js_with_options()"), args: (script, args, as_expr, timeout_ms) }
    }

    pub fn stop_loading(&self) -> (route: Route)
        ensures
            route == self.driver_only("stop_loading()"),
    {
        self.route_driver_only("stop_loading()")
    }

    pub fn execute_cdp<Command>(&self, command: Command) -> (call: RouteCall<Command>)
        ensures
            call == (RouteCall { route: self.driver_only("execute_cdp()"), args: command }),
    {
        RouteCall { route: self.route_driver_only("execute_cdp()"), args: command }
    }

    pub fn run_cdp<Command>(&self, command: Command) -> (call: RouteCall<Command>)
        ensures
            call == (RouteCall { route: self.driver_only("run_cdp()"), args: command }),
    {
        RouteCall { route: self.route_driver_only("run_cdp()"), args: command }
    }

    pub fn execute_cdp_loaded<Command>(&self, command: Command) -> (call: RouteCall<Command>)
        ensures
            call == (RouteCall { route: self.driver_only("execute_cdp_loaded()"), args: command }),
    {
        RouteCall { route: self.route_driver_only("execute_cdp_loaded()"), args: command }
    }

    pub fn run_cdp_loaded<Command>(&self, command: Command) -> (call: RouteCall<Command>)
        ensures
            call == (RouteCall { route: self.driver_only("run_cdp_loaded()"), args: command }),
    {
        RouteCall { route: self.route_driver_only("run_cdp_loaded()"), args: command }
    }

    pub fn add_init_js<Script>(&self, script: Script) -> (call: RouteCall<Script>)
        ensures
            call == (RouteCall { route: self.driver_only("add_init_js()"), args: script }),
    {
        RouteCall { route: self.route_driver_only("add_init_js()"), args: script }
    }

    pub fn remove_init_js<ScriptId>(&self, script_id: ScriptId) -> (call: RouteCall<ScriptId>)
        ensures
            call == (RouteCall { route: self.driver_only("remove_init_js()"), args: script_id }),
    {
        RouteCall { route: self.route_driver_only("remove_init_js()"), args: script_id }
    }

    pub fn clear_cache(
        &self,
        session_storage: bool,
        local_storage: bool,
        cache: bool,
        cookies: bool,
    ) -> (call: RouteCall<(bool, bool, bool, bool)>)
        ensures
            call == (RouteCall { route: self.driver_only("clear_cache()"), args: (session_storage, local_storage, cache, cookies) }),
    {
        RouteCall { route: self.route_driver_only("clear_cache()"), args: (session_storage, local_storage, cache, cookies) }
    }

    pub fn set_permission<Name, Setting, Origin, EmbeddedOrigin>(
        &self,
        name: Name,
        setting: Setting,
        origin: Origin,
        embedded_origin: EmbeddedOrigin,
    ) -> (call: RouteCall<(Name, Setting, Origin, EmbeddedOrigin)>)
        ensures
            call == (RouteCall { route: self.driver_only("set_permission()"), args: (name, setting, origin, embedded_origin) }),
    {
        RouteCall { route: self.route_driver_only("set_permission()"), args: (name, setting, origin, embedded_origin) }
    }

    pub fn reset_permissions(&self) -> (route: Route)
        ensures
            route == self.driver_only("reset_permissions()"),
    {
        self.route_driver_only("reset_permissions()")
    }

    pub fn clipboard_read_text(&self) -> (route: Route)
        ensures
            route == self.driver_only("clipboard_read_text()"),
    {
        self.route_driver_only("clipboard_read_text()")
    }

    pub fn clipboard_write_text<Text>(&self, text: Text) -> (call: RouteCall<Text>)
        ensures
            call == (RouteCall { route: self.driver_only("clipboard_write_text()"), args: text }),
    {
        RouteCall { route: self.route_driver_only("clipboard_write_text()"), args: text }
    }
}

/// Operations with a route of their own.
impl WebPage {
    pub fn set_none_element_value<ValueArg>(
        &self,
        value: ValueArg,
        on_off: bool,
    ) -> (call: RouteCall<(ValueArg, bool)>)
        ensures
            call == (RouteCall { route: Route::RunBoth(Backend::Driver, Backend::Session), args: (value, on_off) }),
    {
        RouteCall { route: Route::RunBoth(Backend::Driver, Backend::Session), args: (value, on_off) }
    }

    pub fn set_raise_when_ele_not_found(&self, on_off: bool) -> (call: RouteCall<bool>)
        ensures
            call == (RouteCall { route: Route::RunBoth(Backend::Driver, Backend::Session), args: on_off }),
    {
        RouteCall { route: Route::RunBoth(Backend::Driver, Backend::Session), args: on_off }
    }

    pub fn download_path(&self) -> (route: Route)
        ensures
            route == self.browser_or_session(),
    {
        self.route_browser_or_session()
    }

    pub fn set_download_path<PathArg>(&self, path: PathArg) -> (call: RouteCall<PathArg>)
        ensures
            call == (RouteCall { route: Route::RunBoth(Backend::Browser, Backend::Session), args: path }),
    {
        RouteCall { route: Route::RunBoth(Backend::Browser, Backend::Session), args: path }
    }

    pub fn current_tab_download_path(&self) -> (route: Route)
        ensures
            route == self.for_this_tab(),
    {
        self.route_for_this_tab()
    }

    pub fn set_current_tab_download_path<PathArg>(
        &self,
        path: PathArg,
    ) -> (call: RouteCall<PathArg>)
        ensures
            call == (RouteCall { route: self.for_this_tab(), args: path }),
    {
        RouteCall { route: self.route_for_this_tab(), args: path }
    }

    pub fn current_tab_download_file_exists_mode(&self) -> (route: Route)
        ensures
            route == self.for_this_tab(),
    {
        self.route_for_this_tab()
    }

    pub fn set_current_tab_download_file_exists_mode<ModeArg>(
        &self,
        mode: ModeArg,
    ) -> (call: RouteCall<ModeArg>)
        ensures
            call == (RouteCall { route: self.for_this_tab(), args: mode }),
    {
        RouteCall { route: self.route_for_this_tab(), args: mode }
    }

    pub fn when_current_tab_download_file_exists<ModeArg>(
        &self,
        mode: ModeArg,
    ) -> (call: RouteCall<ModeArg>)
        ensures
            call == (RouteCall { route: self.for_this_tab(), args: mode }),
    {
        RouteCall { route: self.route_for_this_tab(), args: mode }
    }

    pub fn set_current_tab_download_filename<Rename, Suffix>(
        &self,
        rename: Rename,
        suffix: Suffix,
        suffix_specified: bool,
    ) -> (call: RouteCall<(Rename, Suffix, bool)>)
        ensures
            call == (RouteCall { route: self.for_this_tab(), args: (rename, suffix, suffix_specified) }),
    {
        RouteCall { route: self.route_for_this_tab(), args: (rename, suffix, suffix_specified) }
    }

    pub fn timeouts(&self) -> (route: Route)
        ensures
            route == self.by_mode(),
    {
        self.route_by_mode()
    }

    /// In driver mode the tab navigates and the page answers as
    /// `driver_navigated` says; in session mode the session's answer stands.
    pub fn get<Url>(&self, url: Url) -> (call: RouteCall<Url>)
        ensures
            call == (RouteCall { route: self.by_mode(), args: url }),
    {
        RouteCall { route: self.route_by_mode(), args: url }
    }

    /// In driver mode the tab's text is read and reported as
    /// `driver_text` says; in session mode the session's answer stands.
    pub fn url(&self) -> (route: Route)
        ensures
            route == self.by_mode(),
    {
        self.route_by_mode()
    }

    /// Read as `url` is.
    pub fn title(&self) -> (route: Route)
        ensures
            route == self.by_mode(),
    {
        self.route_by_mode()
    }

    /// The browser a page belongs to, which it always has.
    pub fn browser(&self) -> (route: Route)
        ensures
            route == Route::Run(Backend::Browser),
    {
        Route::Run(Backend::Browser)
    }

    pub fn user_agent(&self) -> (route: Route)
        ensures
            route == self.by_mode(),
    {
        self.route_by_mode()
    }

    pub fn cookie_header(&self) -> (route: Route)
        ensures
            route == self.by_mode(),
    {
        self.route_by_mode()
    }

    /// Each look of the wait goes where `find` goes; `wait_for_step`
    /// decides on what it found.
    pub fn wait_for<LocatorArg>(
        &self,
        locator: LocatorArg,
        timeout_ms: u64,
    ) -> (call: RouteCall<(LocatorArg, u64)>)
        ensures
            call == (RouteCall { route: self.by_mode(), args: (locator, timeout_ms) }),
    {
        RouteCall { route: self.route_by_mode(), args: (locator, timeout_ms) }
    }

    /// The wait for the element comes first; the element found then does
    /// or refuses `click()` as its own operation does.
    pub fn click<LocatorArg>(&self, locator: LocatorArg) -> (call: RouteCall<LocatorArg>)
        ensures
            call == (RouteCall { route: self.by_mode(), args: locator }),
    {
        RouteCall { route: self.route_by_mode(), args: locator }
    }

    /// The wait for the element comes first; the element found then does
    /// or refuses `input()` as its own operation does.
    pub fn fill<LocatorArg, Text>(
        &self,
        locator: LocatorArg,
        text: Text,
    ) -> (call: RouteCall<(LocatorArg, Text)>)
        ensures
            call == (RouteCall { route: self.by_mode(), args: (locator, text) }),
    {
        RouteCall { route: self.route_by_mode(), args: (locator, text) }
    }

    pub fn text<LocatorArg>(&self, locator: LocatorArg) -> (call: RouteCall<LocatorArg>)
        ensures
            call == (RouteCall { route: self.by_mode(), args: locator }),
    {
        RouteCall { route: self.route_by_mode(), args: locator }
    }

    pub fn attr<LocatorArg, Name>(
        &self,
        locator: LocatorArg,
        name: Name,
    ) -> (call: RouteCall<(LocatorArg, Name)>)
        ensures
            call == (RouteCall { route: self.by_mode(), args: (locator, name) }),
    {
        RouteCall { route: self.route_by_mode(), args: (locator, name) }
    }

    /// `parsed` is what reading the locator gave: an error refuses the
    /// search before anything is asked; otherwise the search goes where
    /// searches go, with the locator as read.
    pub fn ele<E>(&self, parsed: Result<String, E>) -> (request: Result<LocatorRequest, E>)
        ensures
            request == match parsed {
                Ok(raw) => Ok(LocatorRequest { route: self.by_mode(), locator: raw }),
                Err(x) => Err::<LocatorRequest, E>(x),
            },
    {
        match parsed {
            Ok(raw) => Ok(LocatorRequest { route: self.route_by_mode(), locator: raw }),
            Err(x) => Err(x),
        }
    }

    /// `parsed` is what reading the locator gave: an error refuses the
    /// search before anything is asked; otherwise the search goes where
    /// searches go, with the locator as read.
    pub fn s_ele<E>(&self, parsed: Result<String, E>) -> (request: Result<LocatorRequest, E>)
        ensures
            request == match parsed {
                Ok(raw) => Ok(LocatorRequest { route: self.by_mode(), locator: raw }),
                Err(x) => Err::<LocatorRequest, E>(x),
            },
    {
        match parsed {
            Ok(raw) => Ok(LocatorRequest { route: self.route_by_mode(), locator: raw }),
            Err(x) => Err(x),
        }
    }

    /// `parsed` is what reading the locator gave: an error refuses the
    /// search before anything is asked; otherwise the search goes where
    /// searches go, with the locator as read.
    pub fn s_eles<E>(&self, parsed: Result<String, E>) -> (request: Result<LocatorRequest, E>)
        ensures
            request == match parsed {
                Ok(raw) => Ok(LocatorRequest { route: self.by_mode(), locator: raw }),
                Err(x) => Err::<LocatorRequest, E>(x),
            },
    {
        match parsed {
            Ok(raw) => Ok(LocatorRequest { route: self.route_by_mode(), locator: raw }),
            Err(x) => Err(x),
        }
    }

    pub fn session_storage<Item>(&self, item: Item) -> (call: RouteCall<Item>)
        ensures
            call == (RouteCall { route: self.driver_or_reply(Reply::Absent), args: item }),
    {
        RouteCall { route: self.route_driver_or_reply(Reply::Absent), args: item }
    }

    pub fn local_storage<Item>(&self, item: Item) -> (call: RouteCall<Item>)
        ensures
            call == (RouteCall { route: self.driver_or_reply(Reply::Absent), args: item }),
    {
        RouteCall { route: self.route_driver_or_reply(Reply::Absent), args: item }
    }
}

/// Operations of the browser that owns the tab, whatever the mode.
impl WebPage {
    pub fn tabs_count(&self) -> (route: Route)
        ensures
            route == Route::Run(Backend::Browser),
    {
        Route::Run(Backend::Browser)
    }

    pub fn tab_ids(&self) -> (route: Route)
        ensures
            route == Route::Run(Backend::Browser),
    {
        Route::Run(Backend::Browser)
    }

    pub fn tab_infos(&self) -> (route: Route)
        ensures
            route == Route::Run(Backend::Browser),
    {
        Route::Run(Backend::Browser)
    }

    pub fn get_tab<IdOrNum, Title, Url, TabType>(
        &self,
        id_or_num: IdOrNum,
        title: Title,
        url: Url,
        tab_type: TabType,
        as_id: bool,
    ) -> (call: RouteCall<(IdOrNum, Title, Url, TabType, bool)>)
        ensures
            call == (RouteCall { route: Route::Run(Backend::Browser), args: (id_or_num, title, url, tab_type, as_id) }),
    {
        RouteCall { route: Route::Run(Backend::Browser), args: (id_or_num, title, url, tab_type, as_id) }
    }

    pub fn get_tabs<Title, Url, TabType>(
        &self,
        title: Title,
        url: Url,
        tab_type: TabType,
        as_id: bool,
    ) -> (call: RouteCall<(Title, Url, TabType, bool)>)
        ensures
            call == (RouteCall { route: Route::Run(Backend::Browser), args: (title, url, tab_type, as_id) }),
    {
        RouteCall { route: Route::Run(Backend::Browser), args: (title, url, tab_type, as_id) }
    }

    pub fn latest_tab(&self) -> (route: Route)
        ensures
            route == Route::Run(Backend::Browser),
    {
        Route::Run(Backend::Browser)
    }

    pub fn new_tab<Url>(
        &self,
        url: Url,
        new_window: bool,
        background: bool,
        new_context: bool,
    ) -> (call: RouteCall<(Url, bool, bool, bool)>)
        ensures
            call == (RouteCall { route: Route::Run(Backend::Browser), args: (url, new_window, background, new_context) }),
    {
        RouteCall { route: Route::Run(Backend::Browser), args: (url, new_window, background, new_context) }
    }

    pub fn activate_tab<Target>(&self, target: Target) -> (call: RouteCall<Target>)
        ensures
            call == (RouteCall { route: Route::Run(Backend::Browser), args: target }),
    {
        RouteCall { route: Route::Run(Backend::Browser), args: target }
    }

    pub fn close_tabs<Targets>(
        &self,
        targets: Targets,
        others: bool,
    ) -> (call: RouteCall<(Targets, bool)>)
        ensures
            call == (RouteCall { route: Route::Run(Backend::Browser), args: (targets, others) }),
    {
        RouteCall { route: Route::Run(Backend::Browser), args: (targets, others) }
    }

    pub fn download_file_exists_mode(&self) -> (route: Route)
        ensures
            route == Route::Run(Backend::Browser),
    {
        Route::Run(Backend::Browser)
    }

    pub fn set_download_file_exists_mode<ModeArg>(
        &self,
        mode: ModeArg,
    ) -> (call: RouteCall<ModeArg>)
        ensures
            call == (RouteCall { route: Route::Run(Backend::Browser), args: mode }),
    {
        RouteCall { route: Route::Run(Backend::Browser), args: mode }
    }

    pub fn when_download_file_exists<ModeArg>(&self, mode: ModeArg) -> (call: RouteCall<ModeArg>)
        ensures
            call == (RouteCall { route: Route::Run(Backend::Browser), args: mode }),
    {
        RouteCall { route: Route::Run(Backend::Browser), args: mode }
    }

    pub fn wait_for_download<Filename>(
        &self,
        filename: Filename,
        timeout_ms: u64,
    ) -> (call: RouteCall<(Filename, u64)>)
        ensures
            call == (RouteCall { route: Route::Run(Backend::Browser), args: (filename, timeout_ms) }),
    {
        RouteCall { route: Route::Run(Backend::Browser), args: (filename, timeout_ms) }
    }

    pub fn download_missions(&self) -> (route: Route)
        ensures
            route == Route::Run(Backend::Browser),
    {
        Route::Run(Backend::Browser)
    }

    pub fn last_download(&self) -> (route: Route)
        ensures
            route == Route::Run(Backend::Browser),
    {
        Route::Run(Backend::Browser)
    }

    pub fn clear_finished_downloads(&self) -> (route: Route)
        ensures
            route == Route::Run(Backend::Browser),
    {
        Route::Run(Backend::Browser)
    }

    pub fn cancel_download<Guid>(&self, guid: Guid) -> (call: RouteCall<Guid>)
        ensures
            call == (RouteCall { route: Route::Run(Backend::Browser), args: guid }),
    {
        RouteCall { route: Route::Run(Backend::Browser), args: guid }
    }

    pub fn is_headless(&self) -> (route: Route)
        ensures
            route == Route::Run(Backend::Browser),
    {
        Route::Run(Backend::Browser)
    }

    pub fn is_existed(&self) -> (route: Route)
        ensures
            route == Route::Run(Backend::Browser),
    {
        Route::Run(Backend::Browser)
    }

    pub fn is_incognito(&self) -> (route: Route)
        ensures
            route == Route::Run(Backend::Browser),
    {
        Route::Run(Backend::Browser)
    }

    pub fn wait_for_new_tab<CurrentTabId>(
        &self,
        current_tab_id: CurrentTabId,
        timeout_ms: u64,
    ) -> (call: RouteCall<(CurrentTabId, u64)>)
        ensures
            call == (RouteCall { route: Route::Run(Backend::Browser), args: (current_tab_id, timeout_ms) }),
    {
        RouteCall { route: Route::Run(Backend::Browser), args: (current_tab_id, timeout_ms) }
    }

    pub fn quit(&self) -> (route: Route)
        ensures
            route == Route::Run(Backend::Browser),
    {
        Route::Run(Backend::Browser)
    }
}

/// Other names for operations above: they route as the operation they name.
impl WebPage {
    pub fn set_tab_download_path<PathArg>(&self, path: PathArg) -> (call: RouteCall<PathArg>)
        ensures
            call == (RouteCall { route: self.for_this_tab(), args: path }),
    {
        RouteCall { route: self.route_for_this_tab(), args: path }
    }

    pub fn set_tab_download_file_exists_mode<ModeArg>(
        &self,
        mode: ModeArg,
    ) -> (call: RouteCall<ModeArg>)
        ensures
            call == (RouteCall { route: self.for_this_tab(), args: mode }),
    {
        RouteCall { route: self.route_for_this_tab(), args: mode }
    }

    pub fn set_tab_when_download_file_exists<ModeArg>(
        &self,
        mode: ModeArg,
    ) -> (call: RouteCall<ModeArg>)
        ensures
            call == (RouteCall { route: self.for_this_tab(), args: mode }),
    {
        RouteCall { route: self.route_for_this_tab(), args: mode }
    }

    pub fn set_tab_download_filename<Rename, Suffix>(
        &self,
        rename: Rename,
        suffix: Suffix,
        suffix_specified: bool,
    ) -> (call: RouteCall<(Rename, Suffix, bool)>)
        ensures
            call == (RouteCall { route: self.for_this_tab(), args: (rename, suffix, suffix_specified) }),
    {
        RouteCall { route: self.route_for_this_tab(), args: (rename, suffix, suffix_specified) }
    }

    pub fn set_download_filename<Rename, Suffix>(
        &self,
        rename: Rename,
        suffix: Suffix,
        suffix_specified: bool,
    ) -> (call: RouteCall<(Rename, Suffix, bool)>)
        ensures
            call == (RouteCall { route: self.for_this_tab(), args: (rename, suffix, suffix_specified) }),
    {
        RouteCall { route: self.route_for_this_tab(), args: (rename, suffix, suffix_specified) }
    }

    pub fn set_current_tab_download_file_name<Rename, Suffix>(
        &self,
        rename: Rename,
        suffix: Suffix,
        suffix_specified: bool,
    ) -> (call: RouteCall<(Rename, Suffix, bool)>)
        ensures
            call == (RouteCall { route: self.for_this_tab(), args: (rename, suffix, suffix_specified) }),
    {
        RouteCall { route: self.route_for_this_tab(), args: (rename, suffix, suffix_specified) }
    }

    pub fn set_tab_download_file_name<Rename, Suffix>(
        &self,
        rename: Rename,
        suffix: Suffix,
        suffix_specified: bool,
    ) -> (call: RouteCall<(Rename, Suffix, bool)>)
        ensures
            call == (RouteCall { route: self.for_this_tab(), args: (rename, suffix, suffix_specified) }),
    {
        RouteCall { route: self.route_for_this_tab(), args: (rename, suffix, suffix_specified) }
    }

    pub fn set_download_file_name<Rename, Suffix>(
        &self,
        rename: Rename,
        suffix: Suffix,
        suffix_specified: bool,
    ) -> (call: RouteCall<(Rename, Suffix, bool)>)
        ensures
            call == (RouteCall { route: self.for_this_tab(), args: (rename, suffix, suffix_specified) }),
    {
        RouteCall { route: self.route_for_this_tab(), args: (rename, suffix, suffix_specified) }
    }

    pub fn set_upload_paths<Files>(&self, files: Files) -> (call: RouteCall<Files>)
        ensures
            call == (RouteCall { route: Route::Run(Backend::Driver), args: files }),
    {
        RouteCall { route: Route::Run(Backend::Driver), args: files }
    }

    pub fn listen(&self) -> (route: Route)
        ensures
            route == Route::Run(Backend::Driver),
    {
        Route::Run(Backend::Driver)
    }

    pub fn intercept(&self) -> (route: Route)
        ensures
            route == Route::Run(Backend::Driver),
    {
        Route::Run(Backend::Driver)
    }

    pub fn goto<Url>(&self, url: Url) -> (call: RouteCall<Url>)
        ensures
            call == (RouteCall { route: self.by_mode(), args: url }),
    {
        RouteCall { route: self.route_by_mode(), args: url }
    }

    pub fn eles<LocatorArg>(&self, locator: LocatorArg) -> (call: RouteCall<LocatorArg>)
        ensures
            call == (RouteCall { route: self.by_mode(), args: locator }),
    {
        RouteCall { route: self.route_by_mode(), args: locator }
    }

    pub fn remove_ele<Target>(&self, target: Target) -> (call: RouteCall<Target>)
        ensures
            call == (RouteCall { route: self.driver_only("remove_element()"), args: target }),
    {
        RouteCall { route: self.route_driver_only("remove_element()"), args: target }
    }

    pub fn add_ele<Content, InsertTo, Before>(
        &self,
        content: Content,
        insert_to: InsertTo,
        before: Before,
    ) -> (call: RouteCall<(Content, InsertTo, Before)>)
        ensures
            call == (RouteCall { route: self.driver_only("add_element()"), args: (content, insert_to, before) }),
    {
        RouteCall { route: self.route_driver_only("add_element()"), args: (content, insert_to, before) }
    }
}

/// Operations of the browser tab, whatever the mode.
impl WebPage {
    pub fn set_blocked_urls<Patterns>(&self, patterns: Patterns) -> (call: RouteCall<Patterns>)
        ensures
            call == (RouteCall { route: Route::Run(Backend::Driver), args: patterns }),
    {
        RouteCall { route: Route::Run(Backend::Driver), args: patterns }
    }

    pub fn set_upload_files<Files>(&self, files: Files) -> (call: RouteCall<Files>)
        ensures
            call == (RouteCall { route: Route::Run(Backend::Driver), args: files }),
    {
        RouteCall { route: Route::Run(Backend::Driver), args: files }
    }

    pub fn load_mode(&self) -> (route: Route)
        ensures
            route == Route::Run(Backend::Driver),
    {
        Route::Run(Backend::Driver)
    }

    pub fn set_load_mode<ModeArg>(&self, mode: ModeArg) -> (call: RouteCall<ModeArg>)
        ensures
            call == (RouteCall { route: Route::Run(Backend::Driver), args: mode }),
    {
        RouteCall { route: Route::Run(Backend::Driver), args: mode }
    }

    pub fn window_state(&self) -> (route: Route)
        ensures
            route == Route::Run(Backend::Driver),
    {
        Route::Run(Backend::Driver)
    }

    pub fn window_id(&self) -> (route: Route)
        ensures
            route == Route::Run(Backend::Driver),
    {
        Route::Run(Backend::Driver)
    }

    pub fn window_size(&self) -> (route: Route)
        ensures
            route == Route::Run(Backend::Driver),
    {
        Route::Run(Backend::Driver)
    }

    pub fn window_location(&self) -> (route: Route)
        ensures
            route == Route::Run(Backend::Driver),
    {
        Route::Run(Backend::Driver)
    }

    pub fn window_max(&self) -> (route: Route)
        ensures
            route == Route::Run(Backend::Driver),
    {
        Route::Run(Backend::Driver)
    }

    pub fn window_min(&self) -> (route: Route)
        ensures
            route == Route::Run(Backend::Driver),
    {
        Route::Run(Backend::Driver)
    }

    pub fn window_full(&self) -> (route: Route)
        ensures
            route == Route::Run(Backend::Driver),
    {
        Route::Run(Backend::Driver)
    }

    pub fn window_normal(&self) -> (route: Route)
        ensures
            route == Route::Run(Backend::Driver),
    {
        Route::Run(Backend::Driver)
    }

    pub fn window_hide(&self) -> (route: Route)
        ensures
            route == Route::Run(Backend::Driver),
    {
        Route::Run(Backend::Driver)
    }

    pub fn window_show(&self) -> (route: Route)
        ensures
            route == Route::Run(Backend::Driver),
    {
        Route::Run(Backend::Driver)
    }

    pub fn window_size_set(
        &self,
        width: Option<i64>,
        height: Option<i64>,
    ) -> (call: RouteCall<(Option<i64>, Option<i64>)>)
        ensures
            call == (RouteCall { route: Route::Run(Backend::Driver), args: (width, height) }),
    {
        RouteCall { route: Route::Run(Backend::Driver), args: (width, height) }
    }

    pub fn window_location_set(
        &self,
        left: Option<i64>,
        top: Option<i64>,
    ) -> (call: RouteCall<(Option<i64>, Option<i64>)>)
        ensures
            call == (RouteCall { route: Route::Run(Backend::Driver), args: (left, top) }),
    {
        RouteCall { route: Route::Run(Backend::Driver), args: (left, top) }
    }

    pub fn zoom_factor(&self) -> (route: Route)
        ensures
            route == Route::Run(Backend::Driver),
    {
        Route::Run(Backend::Driver)
    }

    pub fn set_zoom_factor<Factor>(&self, factor: Factor) -> (call: RouteCall<Factor>)
        ensures
            call == (RouteCall { route: Route::Run(Backend::Driver), args: factor }),
    {
        RouteCall { route: Route::Run(Backend::Driver), args: factor }
    }

    pub fn reset_zoom_factor(&self) -> (route: Route)
        ensures
            route == Route::Run(Backend::Driver),
    {
        Route::Run(Backend::Driver)
    }

    pub fn listener(&self) -> (route: Route)
        ensures
            route == Route::Run(Backend::Driver),
    {
        Route::Run(Backend::Driver)
    }

    pub fn interceptor(&self) -> (route: Route)
        ensures
            route == Route::Run(Backend::Driver),
    {
        Route::Run(Backend::Driver)
    }

    pub fn console(&self) -> (route: Route)
        ensures
            route == Route::Run(Backend::Driver),
    {
        Route::Run(Backend::Driver)
    }

    pub fn screencast(&self) -> (route: Route)
        ensures
            route == Route::Run(Backend::Driver),
    {
        Route::Run(Backend::Driver)
    }

    pub fn browser_pid(&self) -> (route: Route)
        ensures
            route == Route::Run(Backend::Driver),
    {
        Route::Run(Backend::Driver)
    }

    pub fn process_id(&self) -> (route: Route)
        ensures
            route == Route::Run(Backend::Driver),
    {
        Route::Run(Backend::Driver)
    }

    pub fn browser_version(&self) -> (route: Route)
        ensures
            route == Route::Run(Backend::Driver),
    {
        Route::Run(Backend::Driver)
    }

    pub fn address(&self) -> (route: Route)
        ensures
            route == Route::Run(Backend::Driver),
    {
        Route::Run(Backend::Driver)
    }

    pub fn has_alert(&self) -> (route: Route)
        ensures
            route == Route::Run(Backend::Driver),
    {
        Route::Run(Backend::Driver)
    }

    pub fn wait_for_download_begin(
        &self,
        timeout_ms: u64,
        cancel_it: bool,
    ) -> (call: RouteCall<(u64, bool)>)
        ensures
            call == (RouteCall { route: Route::Run(Backend::Driver), args: (timeout_ms, cancel_it) }),
    {
        RouteCall { route: Route::Run(Backend::Driver), args: (timeout_ms, cancel_it) }
    }

    pub fn wait_for_downloads_done(
        &self,
        timeout_ms: u64,
        cancel_if_timeout: bool,
    ) -> (call: RouteCall<(u64, bool)>)
        ensures
            call == (RouteCall { route: Route::Run(Backend::Driver), args: (timeout_ms, cancel_if_timeout) }),
    {
        RouteCall { route: Route::Run(Backend::Driver), args: (timeout_ms, cancel_if_timeout) }
    }

    pub fn handle_alert<PromptText>(
        &self,
        accept: bool,
        prompt_text: PromptText,
        timeout_ms: u64,
    ) -> (call: RouteCall<(bool, PromptText, u64)>)
        ensures
            call == (RouteCall { route: Route::Run(Backend::Driver), args: (accept, prompt_text, timeout_ms) }),
    {
        RouteCall { route: Route::Run(Backend::Driver), args: (accept, prompt_text, timeout_ms) }
    }

    pub fn alert_text(&self) -> (route: Route)
        ensures
            route == Route::Run(Backend::Driver),
    {
        Route::Run(Backend::Driver)
    }

    pub fn set_next_alert_action<PromptText>(
        &self,
        accept: bool,
        prompt_text: PromptText,
    ) -> (call: RouteCall<(bool, PromptText)>)
        ensures
            call == (RouteCall { route: Route::Run(Backend::Driver), args: (accept, prompt_text) }),
    {
        RouteCall { route: Route::Run(Backend::Driver), args: (accept, prompt_text) }
    }

    pub fn wait_for_alert_closed(&self, timeout_ms: u64) -> (call: RouteCall<u64>)
        ensures
            call == (RouteCall { route: Route::Run(Backend::Driver), args: timeout_ms }),
    {
        RouteCall { route: Route::Run(Backend::Driver), args: timeout_ms }
    }

    pub fn activate(&self) -> (route: Route)
        ensures
            route == Route::Run(Backend::Driver),
    {
        Route::Run(Backend::Driver)
    }

    pub fn set_session_storage<Item, ValueArg>(
        &self,
        item: Item,
        value: ValueArg,
    ) -> (call: RouteCall<(Item, ValueArg)>)
        ensures
            call == (RouteCall { route: Route::Run(Backend::Driver), args: (item, value) }),
    {
        RouteCall { route: Route::Run(Backend::Driver), args: (item, value) }
    }

    pub fn set_local_storage<Item, ValueArg>(
        &self,
        item: Item,
        value: ValueArg,
    ) -> (call: RouteCall<(Item, ValueArg)>)
        ensures
            call == (RouteCall { route: Route::Run(Backend::Driver), args: (item, value) }),
    {
        RouteCall { route: Route::Run(Backend::Driver), args: (item, value) }
    }

    pub fn set_auto_alert_action<PromptText>(
        &self,
        accept: Option<bool>,
        prompt_text: PromptText,
    ) -> (call: RouteCall<(Option<bool>, PromptText)>)
        ensures
            call == (RouteCall { route: Route::Run(Backend::Driver), args: (accept, prompt_text) }),
    {
        RouteCall { route: Route::Run(Backend::Driver), args: (accept, prompt_text) }
    }
}

/// Operations that both sides support: they go to the side of the current mode.
impl WebPage {
    pub fn retry_times(&self) -> (route: Route)
        ensures
            route == self.by_mode(),
    {
        self.route_by_mode()
    }

    pub fn retry_interval(&self) -> (route: Route)
        ensures
            route == self.by_mode(),
    {
        self.route_by_mode()
    }

    pub fn set_retry<RetryIntervalSecs>(
        &self,
        retry_times: Option<usize>,
        retry_interval_secs: RetryIntervalSecs,
    ) -> (call: RouteCall<(Option<usize>, RetryIntervalSecs)>)
        ensures
            call == (RouteCall { route: self.by_mode(), args: (retry_times, retry_interval_secs) }),
    {
        RouteCall { route: self.route_by_mode(), args: (retry_times, retry_interval_secs) }
    }

    pub fn html(&self) -> (route: Route)
        ensures
            route == self.by_mode(),
    {
        self.route_by_mode()
    }

    pub fn cookies(&self) -> (route: Route)
        ensures
            route == self.by_mode(),
    {
        self.route_by_mode()
    }

    pub fn set_cookies<Cookies>(&self, cookies: Cookies) -> (call: RouteCall<Cookies>)
        ensures
            call == (RouteCall { route: self.by_mode(), args: cookies }),
    {
        RouteCall { route: self.route_by_mode(), args: cookies }
    }

    pub fn set_cookie_header<Url, CookieHeader>(
        &self,
        url: Url,
        cookie_header: CookieHeader,
    ) -> (call: RouteCall<(Url, CookieHeader)>)
        ensures
            call == (RouteCall { route: self.by_mode(), args: (url, cookie_header) }),
    {
        RouteCall { route: self.route_by_mode(), args: (url, cookie_header) }
    }

    pub fn set_cookie<Name, ValueArg, Url, Domain, PathArg>(
        &self,
        name: Name,
        value: ValueArg,
        url: Url,
        domain: Domain,
        path: PathArg,
    ) -> (call: RouteCall<(Name, ValueArg, Url, Domain, PathArg)>)
        ensures
            call == (RouteCall { route: self.by_mode(), args: (name, value, url, domain, path) }),
    {
        RouteCall { route: self.route_by_mode(), args: (name, value, url, domain, path) }
    }

    pub fn remove_cookie<Name, Url, Domain, PathArg>(
        &self,
        name: Name,
        url: Url,
        domain: Domain,
        path: PathArg,
    ) -> (call: RouteCall<(Name, Url, Domain, PathArg)>)
        ensures
            call == (RouteCall { route: self.by_mode(), args: (name, url, domain, path) }),
    {
        RouteCall { route: self.route_by_mode(), args: (name, url, domain, path) }
    }

    pub fn clear_cookies(&self) -> (route: Route)
        ensures
            route == self.by_mode(),
    {
        self.route_by_mode()
    }

    pub fn find<LocatorArg>(&self, locator: LocatorArg) -> (call: RouteCall<LocatorArg>)
        ensures
            call == (RouteCall { route: self.by_mode(), args: locator }),
    {
        RouteCall { route: self.route_by_mode(), args: locator }
    }

    pub fn find_all<LocatorArg>(&self, locator: LocatorArg) -> (call: RouteCall<LocatorArg>)
        ensures
            call == (RouteCall { route: self.by_mode(), args: locator }),
    {
        RouteCall { route: self.route_by_mode(), args: locator }
    }

    /// A batch search goes where single searches go, with both flags
    /// handed on as given.
    pub fn find_locators(&self, any_one: bool, first_match_only: bool) -> (request: LocatorBatchRequest)
        ensures
            request == (LocatorBatchRequest { route: self.by_mode(), any_one, first_match_only }),
    {
        LocatorBatchRequest { route: self.route_by_mode(), any_one, first_match_only }
    }

    pub fn snapshot_find<LocatorArg>(&self, locator: LocatorArg) -> (call: RouteCall<LocatorArg>)
        ensures
            call == (RouteCall { route: self.by_mode(), args: locator }),
    {
        RouteCall { route: self.route_by_mode(), args: locator }
    }

    pub fn snapshot_find_all<LocatorArg>(
        &self,
        locator: LocatorArg,
    ) -> (call: RouteCall<LocatorArg>)
        ensures
            call == (RouteCall { route: self.by_mode(), args: locator }),
    {
        RouteCall { route: self.route_by_mode(), args: locator }
    }

    pub fn snapshot_find_by<By, ValueArg>(
        &self,
        by: By,
        value: ValueArg,
    ) -> (call: RouteCall<(By, ValueArg)>)
        ensures
            call == (RouteCall { route: self.by_mode(), args: (by, value) }),
    {
        RouteCall { route: self.route_by_mode(), args: (by, value) }
    }

    pub fn snapshot_find_all_by<By, ValueArg>(
        &self,
        by: By,
        value: ValueArg,
    ) -> (call: RouteCall<(By, ValueArg)>)
        ensures
            call == (RouteCall { route: self.by_mode(), args: (by, value) }),
    {
        RouteCall { route: self.route_by_mode(), args: (by, value) }
    }

    pub fn snapshot_query_xpath<Expression>(
        &self,
        expression: Expression,
    ) -> (call: RouteCall<Expression>)
        ensures
            call == (RouteCall { route: self.by_mode(), args: expression }),
    {
        RouteCall { route: self.route_by_mode(), args: expression }
    }

    pub fn snapshot_root(&self) -> (route: Route)
        ensures
            route == self.by_mode(),
    {
        self.route_by_mode()
    }

    pub fn set_user_agent<UserAgent, Platform>(
        &self,
        user_agent: UserAgent,
        platform: Platform,
    ) -> (call: RouteCall<(UserAgent, Platform)>)
        ensures
            call == (RouteCall { route: self.by_mode(), args: (user_agent, platform) }),
    {
        RouteCall { route: self.route_by_mode(), args: (user_agent, platform) }
    }

    pub fn set_headers<Headers>(&self, headers: Headers) -> (call: RouteCall<Headers>)
        ensures
            call == (RouteCall { route: self.by_mode(), args: headers }),
    {
        RouteCall { route: self.route_by_mode(), args: headers }
    }
}

/// Operations of the HTTP session, whatever the mode.
impl WebPage {
    pub fn last_session_download(&self) -> (route: Route)
        ensures
            route == Route::Run(Backend::Session),
    {
        Route::Run(Backend::Session)
    }
}

/// HTTP requests, which the session always makes.
impl WebPage {
    pub fn post<Url>(&self, url: Url) -> (call: RouteCall<Url>)
        ensures
            call == (RouteCall { route: self.session_request(), args: url }),
    {
        RouteCall { route: self.route_session_request(), args: url }
    }

    pub fn post_json<Url, Payload>(
        &self,
        url: Url,
        payload: Payload,
    ) -> (call: RouteCall<(Url, Payload)>)
        ensures
            call == (RouteCall { route: self.session_request(), args: (url, payload) }),
    {
        RouteCall { route: self.route_session_request(), args: (url, payload) }
    }

    pub fn download<Url>(&self, url: Url) -> (call: RouteCall<Url>)
        ensures
            call == (RouteCall { route: self.session_request(), args: url }),
    {
        RouteCall { route: self.route_session_request(), args: url }
    }

    pub fn download_to<Url, PathArg>(
        &self,
        url: Url,
        path: PathArg,
    ) -> (call: RouteCall<(Url, PathArg)>)
        ensures
            call == (RouteCall { route: self.session_request(), args: (url, path) }),
    {
        RouteCall { route: self.route_session_request(), args: (url, path) }
    }
}

/// Operations of the HTTP session that have a fixed answer in driver mode.
impl WebPage {
    pub fn raw_data(&self) -> (route: Route)
        ensures
            route == self.session_or_reply(Reply::EmptyList),
    {
        self.route_session_or_reply(Reply::EmptyList)
    }

    pub fn encoding(&self) -> (route: Route)
        ensures
            route == self.session_or_reply(Reply::Absent),
    {
        self.route_session_or_reply(Reply::Absent)
    }

    pub fn set_encoding<Encoding>(&self, encoding: Encoding) -> (call: RouteCall<Encoding>)
        ensures
            call == (RouteCall { route: self.session_or_reply(Reply::Unit), args: encoding }),
    {
        RouteCall { route: self.route_session_or_reply(Reply::Unit), args: encoding }
    }

    pub fn status_code(&self) -> (route: Route)
        ensures
            route == self.session_or_reply(Reply::Absent),
    {
        self.route_session_or_reply(Reply::Absent)
    }

    pub fn json(&self) -> (route: Route)
        ensures
            route == self.session_or_reply(Reply::Absent),
    {
        self.route_session_or_reply(Reply::Absent)
    }
}

/// Operations of the browser tab that have a fixed answer in session mode.
impl WebPage {
    pub fn is_alive(&self) -> (route: Route)
        ensures
            route == self.driver_or_reply(Reply::Bool(true)),
    {
        self.route_driver_or_reply(Reply::Bool(true))
    }

    pub fn is_loading(&self) -> (route: Route)
        ensures
            route == self.driver_or_reply(Reply::Bool(false)),
    {
        self.route_driver_or_reply(Reply::Bool(false))
    }

    pub fn ready_state(&self) -> (route: Route)
        ensures
            route == self.driver_or_reply(Reply::Absent),
    {
        self.route_driver_or_reply(Reply::Absent)
    }

    pub fn wait_for_upload_paths_inputted(&self, timeout_ms: u64) -> (call: RouteCall<u64>)
        ensures
            call == (RouteCall { route: self.driver_or_reply(Reply::Bool(false)), args: timeout_ms }),
    {
        RouteCall { route: self.route_driver_or_reply(Reply::Bool(false)), args: timeout_ms }
    }

    pub fn wait_for_load_start(&self, timeout_ms: u64) -> (call: RouteCall<u64>)
        ensures
            call == (RouteCall { route: self.driver_or_reply(Reply::Bool(false)), args: timeout_ms }),
    {
        RouteCall { route: self.route_driver_or_reply(Reply::Bool(false)), args: timeout_ms }
    }

    pub fn wait_for_doc_loaded(&self, timeout_ms: u64) -> (call: RouteCall<u64>)
        ensures
            call == (RouteCall { route: self.driver_or_reply(Reply::Bool(true)), args: timeout_ms }),
    {
        RouteCall { route: self.route_driver_or_reply(Reply::Bool(true)), args: timeout_ms }
    }
}

} // verus!
