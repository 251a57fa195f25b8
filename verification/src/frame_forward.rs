use vstd::prelude::*;

use crate::model::{FrameHandle, WebFrame};

verus! {

/// An operation handed to the driver frame behind a frame, with its
/// arguments exactly as the caller gave them.
#[derive(Debug)]
pub struct FrameCall<A> {
    /// The driver frame that carries the operation out.
    pub frame: FrameHandle,
    /// The operation's arguments, in order.
    pub args: A,
}

/// Every other operation of a frame, of either variant, is carried out by
/// the driver frame behind it, with the caller's arguments unchanged, and
/// its result is the frame's result. Each of these gives that hand-over:
/// the driver frame alone for an operation without arguments, or the driver
/// frame with the arguments.
impl WebFrame {
    pub fn scroll(&self) -> (frame: FrameHandle)
        ensures
            frame == self.handle(),
    {
        self.frame()
    }

    pub fn set(&self) -> (frame: FrameHandle)
        ensures
            frame == self.handle(),
    {
        self.frame()
    }

    pub fn set_cookies<Cookies>(&self, cookies: Cookies) -> (call: FrameCall<Cookies>)
        ensures
            call == (FrameCall { frame: self.handle(), args: cookies }),
    {
        FrameCall { frame: self.frame(), args: cookies }
    }

    pub fn remove_cookie<Name, Url, Domain, PathArg>(
        &self,
        name: Name,
        url: Url,
        domain: Domain,
        path: PathArg,
    ) -> (call: FrameCall<(Name, Url, Domain, PathArg)>)
        ensures
            call == (FrameCall { frame: self.handle(), args: (name, url, domain, path) }),
    {
        FrameCall { frame: self.frame(), args: (name, url, domain, path) }
    }

    pub fn clear_cookies(&self) -> (frame: FrameHandle)
        ensures
            frame == self.handle(),
    {
        self.frame()
    }

    pub fn set_upload_files<Files>(&self, files: Files) -> (call: FrameCall<Files>)
        ensures
            call == (FrameCall { frame: self.handle(), args: files }),
    {
        FrameCall { frame: self.frame(), args: files }
    }

    pub fn set_upload_paths<Files>(&self, files: Files) -> (call: FrameCall<Files>)
        ensures
            call == (FrameCall { frame: self.handle(), args: files }),
    {
        FrameCall { frame: self.frame(), args: files }
    }

    pub fn set_download_path<PathArg>(&self, path: PathArg) -> (call: FrameCall<PathArg>)
        ensures
            call == (FrameCall { frame: self.handle(), args: path }),
    {
        FrameCall { frame: self.frame(), args: path }
    }

    pub fn set_download_file_exists_mode<Mode>(&self, mode: Mode) -> (call: FrameCall<Mode>)
        ensures
            call == (FrameCall { frame: self.handle(), args: mode }),
    {
        FrameCall { frame: self.frame(), args: mode }
    }

    pub fn set_when_download_file_exists<Mode>(&self, mode: Mode) -> (call: FrameCall<Mode>)
        ensures
            call == (FrameCall { frame: self.handle(), args: mode }),
    {
        FrameCall { frame: self.frame(), args: mode }
    }

    pub fn set_download_filename<Rename, Suffix>(
        &self,
        rename: Rename,
        suffix: Suffix,
        suffix_specified: bool,
    ) -> (call: FrameCall<(Rename, Suffix, bool)>)
        ensures
            call == (FrameCall { frame: self.handle(), args: (rename, suffix, suffix_specified) }),
    {
        FrameCall { frame: self.frame(), args: (rename, suffix, suffix_specified) }
    }

    pub fn set_download_file_name<Rename, Suffix>(
        &self,
        rename: Rename,
        suffix: Suffix,
        suffix_specified: bool,
    ) -> (call: FrameCall<(Rename, Suffix, bool)>)
        ensures
            call == (FrameCall { frame: self.handle(), args: (rename, suffix, suffix_specified) }),
    {
        FrameCall { frame: self.frame(), args: (rename, suffix, suffix_specified) }
    }

    pub fn states(&self) -> (frame: FrameHandle)
        ensures
            frame == self.handle(),
    {
        self.frame()
    }

    pub fn wait(&self) -> (frame: FrameHandle)
        ensures
            frame == self.handle(),
    {
        self.frame()
    }

    pub fn rect(&self) -> (frame: FrameHandle)
        ensures
            frame == self.handle(),
    {
        self.frame()
    }

    pub fn id(&self) -> (frame: FrameHandle)
        ensures
            frame == self.handle(),
    {
        self.frame()
    }

    pub fn frame_id(&self) -> (frame: FrameHandle)
        ensures
            frame == self.handle(),
    {
        self.frame()
    }

    pub fn frame_element(&self) -> (frame: FrameHandle)
        ensures
            frame == self.handle(),
    {
        self.frame()
    }

    pub fn frame_ele(&self) -> (frame: FrameHandle)
        ensures
            frame == self.handle(),
    {
        self.frame()
    }

    pub fn owner(&self) -> (frame: FrameHandle)
        ensures
            frame == self.handle(),
    {
        self.frame()
    }

    pub fn page(&self) -> (frame: FrameHandle)
        ensures
            frame == self.handle(),
    {
        self.frame()
    }

    pub fn tab(&self) -> (frame: FrameHandle)
        ensures
            frame == self.handle(),
    {
        self.frame()
    }

    pub fn tab_id(&self) -> (frame: FrameHandle)
        ensures
            frame == self.handle(),
    {
        self.frame()
    }

    pub fn set_none_element_value<ValueArg>(
        &self,
        value: ValueArg,
        on_off: bool,
    ) -> (call: FrameCall<(ValueArg, bool)>)
        ensures
            call == (FrameCall { frame: self.handle(), args: (value, on_off) }),
    {
        FrameCall { frame: self.frame(), args: (value, on_off) }
    }

    pub fn set_raise_when_ele_not_found(&self, on_off: bool) -> (call: FrameCall<bool>)
        ensures
            call == (FrameCall { frame: self.handle(), args: on_off }),
    {
        FrameCall { frame: self.frame(), args: on_off }
    }

    pub fn name(&self) -> (frame: FrameHandle)
        ensures
            frame == self.handle(),
    {
        self.frame()
    }

    pub fn tag(&self) -> (frame: FrameHandle)
        ensures
            frame == self.handle(),
    {
        self.frame()
    }

    pub fn link(&self) -> (frame: FrameHandle)
        ensures
            frame == self.handle(),
    {
        self.frame()
    }

    pub fn attrs(&self) -> (frame: FrameHandle)
        ensures
            frame == self.handle(),
    {
        self.frame()
    }

    pub fn attr<Name>(&self, name: Name) -> (call: FrameCall<Name>)
        ensures
            call == (FrameCall { frame: self.handle(), args: name }),
    {
        FrameCall { frame: self.frame(), args: name }
    }

    pub fn property<Name>(&self, name: Name) -> (call: FrameCall<Name>)
        ensures
            call == (FrameCall { frame: self.handle(), args: name }),
    {
        FrameCall { frame: self.frame(), args: name }
    }

    pub fn text(&self) -> (frame: FrameHandle)
        ensures
            frame == self.handle(),
    {
        self.frame()
    }

    pub fn raw_text(&self) -> (frame: FrameHandle)
        ensures
            frame == self.handle(),
    {
        self.frame()
    }

    pub fn value(&self) -> (frame: FrameHandle)
        ensures
            frame == self.handle(),
    {
        self.frame()
    }

    pub fn comments(&self) -> (frame: FrameHandle)
        ensures
            frame == self.handle(),
    {
        self.frame()
    }

    pub fn texts(&self, text_node_only: bool) -> (call: FrameCall<bool>)
        ensures
            call == (FrameCall { frame: self.handle(), args: text_node_only }),
    {
        FrameCall { frame: self.frame(), args: text_node_only }
    }

    pub fn src(&self, timeout_ms: u64, base64_to_bytes: bool) -> (call: FrameCall<(u64, bool)>)
        ensures
            call == (FrameCall { frame: self.handle(), args: (timeout_ms, base64_to_bytes) }),
    {
        FrameCall { frame: self.frame(), args: (timeout_ms, base64_to_bytes) }
    }

    pub fn save<PathArg, Name>(
        &self,
        path: PathArg,
        name: Name,
        timeout_ms: u64,
        rename: bool,
    ) -> (call: FrameCall<(PathArg, Name, u64, bool)>)
        ensures
            call == (FrameCall { frame: self.handle(), args: (path, name, timeout_ms, rename) }),
    {
        FrameCall { frame: self.frame(), args: (path, name, timeout_ms, rename) }
    }

    pub fn style<Name, Pseudo>(
        &self,
        name: Name,
        pseudo: Pseudo,
    ) -> (call: FrameCall<(Name, Pseudo)>)
        ensures
            call == (FrameCall { frame: self.handle(), args: (name, pseudo) }),
    {
        FrameCall { frame: self.frame(), args: (name, pseudo) }
    }

    pub fn pseudo_before(&self) -> (frame: FrameHandle)
        ensures
            frame == self.handle(),
    {
        self.frame()
    }

    pub fn pseudo_after(&self) -> (frame: FrameHandle)
        ensures
            frame == self.handle(),
    {
        self.frame()
    }

    pub fn scroll_to_see(&self, center: Option<bool>) -> (call: FrameCall<Option<bool>>)
        ensures
            call == (FrameCall { frame: self.handle(), args: center }),
    {
        FrameCall { frame: self.frame(), args: center }
    }

    pub fn scroll_to_center(&self) -> (frame: FrameHandle)
        ensures
            frame == self.handle(),
    {
        self.frame()
    }

    pub fn css_path(&self) -> (frame: FrameHandle)
        ensures
            frame == self.handle(),
    {
        self.frame()
    }

    pub fn xpath(&self) -> (frame: FrameHandle)
        ensures
            frame == self.handle(),
    {
        self.frame()
    }

    pub fn child_count(&self) -> (frame: FrameHandle)
        ensures
            frame == self.handle(),
    {
        self.frame()
    }

    pub fn sr(&self) -> (frame: FrameHandle)
        ensures
            frame == self.handle(),
    {
        self.frame()
    }

    pub fn shadow_root(&self) -> (frame: FrameHandle)
        ensures
            frame == self.handle(),
    {
        self.frame()
    }

    pub fn url(&self) -> (frame: FrameHandle)
        ensures
            frame == self.handle(),
    {
        self.frame()
    }

    pub fn parent_id(&self) -> (frame: FrameHandle)
        ensures
            frame == self.handle(),
    {
        self.frame()
    }

    pub fn title(&self) -> (frame: FrameHandle)
        ensures
            frame == self.handle(),
    {
        self.frame()
    }

    pub fn download_path(&self) -> (frame: FrameHandle)
        ensures
            frame == self.handle(),
    {
        self.frame()
    }

    pub fn download<Url>(&self, url: Url) -> (call: FrameCall<Url>)
        ensures
            call == (FrameCall { frame: self.handle(), args: url }),
    {
        FrameCall { frame: self.frame(), args: url }
    }

    pub fn download_to<Url, PathArg>(
        &self,
        url: Url,
        path: PathArg,
    ) -> (call: FrameCall<(Url, PathArg)>)
        ensures
            call == (FrameCall { frame: self.handle(), args: (url, path) }),
    {
        FrameCall { frame: self.frame(), args: (url, path) }
    }

    pub fn wait_for_upload_paths_inputted(&self, timeout_ms: u64) -> (call: FrameCall<u64>)
        ensures
            call == (FrameCall { frame: self.handle(), args: timeout_ms }),
    {
        FrameCall { frame: self.frame(), args: timeout_ms }
    }

    pub fn wait_for_download_begin(
        &self,
        timeout_ms: u64,
        cancel_it: bool,
    ) -> (call: FrameCall<(u64, bool)>)
        ensures
            call == (FrameCall { frame: self.handle(), args: (timeout_ms, cancel_it) }),
    {
        FrameCall { frame: self.frame(), args: (timeout_ms, cancel_it) }
    }

    pub fn wait_for_downloads_done(
        &self,
        timeout_ms: u64,
        cancel_if_timeout: bool,
    ) -> (call: FrameCall<(u64, bool)>)
        ensures
            call == (FrameCall { frame: self.handle(), args: (timeout_ms, cancel_if_timeout) }),
    {
        FrameCall { frame: self.frame(), args: (timeout_ms, cancel_if_timeout) }
    }

    pub fn click_to_download<LocatorArg, SavePath, Rename, Suffix>(
        &self,
        locator: LocatorArg,
        save_path: SavePath,
        rename: Rename,
        suffix: Suffix,
        suffix_specified: bool,
        timeout_ms: Option<u64>,
        by_js: bool,
        new_tab: bool,
    ) -> (call: FrameCall<(LocatorArg, SavePath, Rename, Suffix, bool, Option<u64>, bool, bool)>)
        ensures
            call == (FrameCall { frame: self.handle(), args: (locator, save_path, rename, suffix, suffix_specified, timeout_ms, by_js, new_tab) }),
    {
        FrameCall { frame: self.frame(), args: (locator, save_path, rename, suffix, suffix_specified, timeout_ms, by_js, new_tab) }
    }

    pub fn click_to_upload<LocatorArg, Files>(
        &self,
        locator: LocatorArg,
        files: Files,
        timeout_ms: Option<u64>,
        by_js: bool,
    ) -> (call: FrameCall<(LocatorArg, Files, Option<u64>, bool)>)
        ensures
            call == (FrameCall { frame: self.handle(), args: (locator, files, timeout_ms, by_js) }),
    {
        FrameCall { frame: self.frame(), args: (locator, files, timeout_ms, by_js) }
    }

    pub fn html(&self) -> (frame: FrameHandle)
        ensures
            frame == self.handle(),
    {
        self.frame()
    }

    pub fn inner_html(&self) -> (frame: FrameHandle)
        ensures
            frame == self.handle(),
    {
        self.frame()
    }

    pub fn run_js<Expression>(&self, expression: Expression) -> (call: FrameCall<Expression>)
        ensures
            call == (FrameCall { frame: self.handle(), args: expression }),
    {
        FrameCall { frame: self.frame(), args: expression }
    }

    pub fn run_js_with_args<Script, Args>(
        &self,
        script: Script,
        args: Args,
        as_expr: bool,
    ) -> (call: FrameCall<(Script, Args, bool)>)
        ensures
            call == (FrameCall { frame: self.handle(), args: (script, args, as_expr) }),
    {
        FrameCall { frame: self.frame(), args: (script, args, as_expr) }
    }

    pub fn run_js_with_options<Script, Args>(
        &self,
        script: Script,
        args: Args,
        as_expr: bool,
        timeout_ms: Option<u64>,
    ) -> (call: FrameCall<(Script, Args, bool, Option<u64>)>)
        ensures
            call == (FrameCall { frame: self.handle(), args: (script, args, as_expr, timeout_ms) }),
    {
        FrameCall { frame: self.frame(), args: (script, args, as_expr, timeout_ms) }
    }

    pub fn run_js_loaded<Script>(&self, script: Script) -> (call: FrameCall<Script>)
        ensures
            call == (FrameCall { frame: self.handle(), args: script }),
    {
        FrameCall { frame: self.frame(), args: script }
    }

    pub fn run_js_loaded_with_args<Script, Args>(
        &self,
        script: Script,
        args: Args,
        as_expr: bool,
    ) -> (call: FrameCall<(Script, Args, bool)>)
        ensures
            call == (FrameCall { frame: self.handle(), args: (script, args, as_expr) }),
    {
        FrameCall { frame: self.frame(), args: (script, args, as_expr) }
    }

    pub fn run_js_loaded_with_options<Script, Args>(
        &self,
        script: Script,
        args: Args,
        as_expr: bool,
        timeout_ms: Option<u64>,
    ) -> (call: FrameCall<(Script, Args, bool, Option<u64>)>)
        ensures
            call == (FrameCall { frame: self.handle(), args: (script, args, as_expr, timeout_ms) }),
    {
        FrameCall { frame: self.frame(), args: (script, args, as_expr, timeout_ms) }
    }

    pub fn run_async_js<Script>(&self, script: Script) -> (call: FrameCall<Script>)
        ensures
            call == (FrameCall { frame: self.handle(), args: script }),
    {
        FrameCall { frame: self.frame(), args: script }
    }

    pub fn run_async_js_with_args<Script, Args>(
        &self,
        script: Script,
        args: Args,
        as_expr: bool,
    ) -> (call: FrameCall<(Script, Args, bool)>)
        ensures
            call == (FrameCall { frame: self.handle(), args: (script, args, as_expr) }),
    {
        FrameCall { frame: self.frame(), args: (script, args, as_expr) }
    }

    pub fn run_async_js_with_options<Script, Args>(
        &self,
        script: Script,
        args: Args,
        as_expr: bool,
        timeout_ms: Option<u64>,
    ) -> (call: FrameCall<(Script, Args, bool, Option<u64>)>)
        ensures
            call == (FrameCall { frame: self.handle(), args: (script, args, as_expr, timeout_ms) }),
    {
        FrameCall { frame: self.frame(), args: (script, args, as_expr, timeout_ms) }
    }

    pub fn add_init_js<Script>(&self, script: Script) -> (call: FrameCall<Script>)
        ensures
            call == (FrameCall { frame: self.handle(), args: script }),
    {
        FrameCall { frame: self.frame(), args: script }
    }

    pub fn remove_init_js<ScriptId>(&self, script_id: ScriptId) -> (call: FrameCall<ScriptId>)
        ensures
            call == (FrameCall { frame: self.handle(), args: script_id }),
    {
        FrameCall { frame: self.frame(), args: script_id }
    }

    pub fn refresh(&self) -> (frame: FrameHandle)
        ensures
            frame == self.handle(),
    {
        self.frame()
    }

    pub fn refresh_with_options(&self, ignore_cache: bool) -> (call: FrameCall<bool>)
        ensures
            call == (FrameCall { frame: self.handle(), args: ignore_cache }),
    {
        FrameCall { frame: self.frame(), args: ignore_cache }
    }

    pub fn get<Url>(&self, url: Url) -> (call: FrameCall<Url>)
        ensures
            call == (FrameCall { frame: self.handle(), args: url }),
    {
        FrameCall { frame: self.frame(), args: url }
    }

    pub fn goto<Url>(&self, url: Url) -> (call: FrameCall<Url>)
        ensures
            call == (FrameCall { frame: self.handle(), args: url }),
    {
        FrameCall { frame: self.frame(), args: url }
    }

    pub fn remove_attr<Name>(&self, name: Name) -> (call: FrameCall<Name>)
        ensures
            call == (FrameCall { frame: self.handle(), args: name }),
    {
        FrameCall { frame: self.frame(), args: name }
    }

    pub fn set_attr<Name, ValueArg>(
        &self,
        name: Name,
        value: ValueArg,
    ) -> (call: FrameCall<(Name, ValueArg)>)
        ensures
            call == (FrameCall { frame: self.handle(), args: (name, value) }),
    {
        FrameCall { frame: self.frame(), args: (name, value) }
    }

    pub fn set_property<Name, ValueArg>(
        &self,
        name: Name,
        value: ValueArg,
    ) -> (call: FrameCall<(Name, ValueArg)>)
        ensures
            call == (FrameCall { frame: self.handle(), args: (name, value) }),
    {
        FrameCall { frame: self.frame(), args: (name, value) }
    }

    pub fn set_style<Name, ValueArg>(
        &self,
        name: Name,
        value: ValueArg,
    ) -> (call: FrameCall<(Name, ValueArg)>)
        ensures
            call == (FrameCall { frame: self.handle(), args: (name, value) }),
    {
        FrameCall { frame: self.frame(), args: (name, value) }
    }

    pub fn click(&self) -> (frame: FrameHandle)
        ensures
            frame == self.handle(),
    {
        self.frame()
    }

    pub fn click_with_options(
        &self,
        by_js: Option<bool>,
        timeout_ms: Option<u64>,
        wait_stop: bool,
    ) -> (call: FrameCall<(Option<bool>, Option<u64>, bool)>)
        ensures
            call == (FrameCall { frame: self.handle(), args: (by_js, timeout_ms, wait_stop) }),
    {
        FrameCall { frame: self.frame(), args: (by_js, timeout_ms, wait_stop) }
    }

    pub fn click_left_with_options(
        &self,
        by_js: Option<bool>,
        timeout_ms: Option<u64>,
        wait_stop: bool,
    ) -> (call: FrameCall<(Option<bool>, Option<u64>, bool)>)
        ensures
            call == (FrameCall { frame: self.handle(), args: (by_js, timeout_ms, wait_stop) }),
    {
        FrameCall { frame: self.frame(), args: (by_js, timeout_ms, wait_stop) }
    }

    pub fn click_at<OffsetX, OffsetY, Button>(
        &self,
        offset_x: OffsetX,
        offset_y: OffsetY,
        button: Button,
        count: u32,
    ) -> (call: FrameCall<(OffsetX, OffsetY, Button, u32)>)
        ensures
            call == (FrameCall { frame: self.handle(), args: (offset_x, offset_y, button, count) }),
    {
        FrameCall { frame: self.frame(), args: (offset_x, offset_y, button, count) }
    }

    pub fn click_multi(&self, times: u32) -> (call: FrameCall<u32>)
        ensures
            call == (FrameCall { frame: self.handle(), args: times }),
    {
        FrameCall { frame: self.frame(), args: times }
    }

    pub fn click_left(&self) -> (frame: FrameHandle)
        ensures
            frame == self.handle(),
    {
        self.frame()
    }

    pub fn click_right(&self) -> (frame: FrameHandle)
        ensures
            frame == self.handle(),
    {
        self.frame()
    }

    pub fn input<Text>(&self, text: Text) -> (call: FrameCall<Text>)
        ensures
            call == (FrameCall { frame: self.handle(), args: text }),
    {
        FrameCall { frame: self.frame(), args: text }
    }

    pub fn input_with_options<Text>(
        &self,
        text: Text,
        clear: bool,
        by_js: bool,
    ) -> (call: FrameCall<(Text, bool, bool)>)
        ensures
            call == (FrameCall { frame: self.handle(), args: (text, clear, by_js) }),
    {
        FrameCall { frame: self.frame(), args: (text, clear, by_js) }
    }

    pub fn input_keys_with_options<Values>(
        &self,
        values: Values,
        clear: bool,
        by_js: bool,
    ) -> (call: FrameCall<(Values, bool, bool)>)
        ensures
            call == (FrameCall { frame: self.handle(), args: (values, clear, by_js) }),
    {
        FrameCall { frame: self.frame(), args: (values, clear, by_js) }
    }

    pub fn press_key<Key>(&self, key: Key) -> (call: FrameCall<Key>)
        ensures
            call == (FrameCall { frame: self.handle(), args: key }),
    {
        FrameCall { frame: self.frame(), args: key }
    }

    pub fn clear(&self) -> (frame: FrameHandle)
        ensures
            frame == self.handle(),
    {
        self.frame()
    }

    pub fn clear_with_mode(&self, by_js: bool) -> (call: FrameCall<bool>)
        ensures
            call == (FrameCall { frame: self.handle(), args: by_js }),
    {
        FrameCall { frame: self.frame(), args: by_js }
    }

    pub fn submit(&self) -> (frame: FrameHandle)
        ensures
            frame == self.handle(),
    {
        self.frame()
    }

    pub fn focus(&self) -> (frame: FrameHandle)
        ensures
            frame == self.handle(),
    {
        self.frame()
    }

    pub fn hover(&self) -> (frame: FrameHandle)
        ensures
            frame == self.handle(),
    {
        self.frame()
    }

    pub fn hover_with_offset<OffsetX, OffsetY>(
        &self,
        offset_x: OffsetX,
        offset_y: OffsetY,
    ) -> (call: FrameCall<(OffsetX, OffsetY)>)
        ensures
            call == (FrameCall { frame: self.handle(), args: (offset_x, offset_y) }),
    {
        FrameCall { frame: self.frame(), args: (offset_x, offset_y) }
    }

    pub fn drag<OffsetX, OffsetY, DurationSecs>(
        &self,
        offset_x: OffsetX,
        offset_y: OffsetY,
        duration_secs: DurationSecs,
    ) -> (call: FrameCall<(OffsetX, OffsetY, DurationSecs)>)
        ensures
            call == (FrameCall { frame: self.handle(), args: (offset_x, offset_y, duration_secs) }),
    {
        FrameCall { frame: self.frame(), args: (offset_x, offset_y, duration_secs) }
    }

    pub fn drag_to_point<X, Y, DurationSecs>(
        &self,
        x: X,
        y: Y,
        duration_secs: DurationSecs,
    ) -> (call: FrameCall<(X, Y, DurationSecs)>)
        ensures
            call == (FrameCall { frame: self.handle(), args: (x, y, duration_secs) }),
    {
        FrameCall { frame: self.frame(), args: (x, y, duration_secs) }
    }

    pub fn set_checked(&self, checked: bool) -> (call: FrameCall<bool>)
        ensures
            call == (FrameCall { frame: self.handle(), args: checked }),
    {
        FrameCall { frame: self.frame(), args: checked }
    }

    pub fn check(&self, uncheck: bool, by_js: bool) -> (call: FrameCall<(bool, bool)>)
        ensures
            call == (FrameCall { frame: self.handle(), args: (uncheck, by_js) }),
    {
        FrameCall { frame: self.frame(), args: (uncheck, by_js) }
    }

    pub fn uncheck(&self, by_js: bool) -> (call: FrameCall<bool>)
        ensures
            call == (FrameCall { frame: self.handle(), args: by_js }),
    {
        FrameCall { frame: self.frame(), args: by_js }
    }

    pub fn screenshot_bytes(
        &self,
        scroll_to_center: bool,
        timeout_ms: u64,
    ) -> (call: FrameCall<(bool, u64)>)
        ensures
            call == (FrameCall { frame: self.handle(), args: (scroll_to_center, timeout_ms) }),
    {
        FrameCall { frame: self.frame(), args: (scroll_to_center, timeout_ms) }
    }

    pub fn screenshot_base64(
        &self,
        scroll_to_center: bool,
        timeout_ms: u64,
    ) -> (call: FrameCall<(bool, u64)>)
        ensures
            call == (FrameCall { frame: self.handle(), args: (scroll_to_center, timeout_ms) }),
    {
        FrameCall { frame: self.frame(), args: (scroll_to_center, timeout_ms) }
    }

    pub fn get_screenshot<PathArg, Name>(
        &self,
        path: PathArg,
        name: Name,
        scroll_to_center: bool,
        timeout_ms: u64,
    ) -> (call: FrameCall<(PathArg, Name, bool, u64)>)
        ensures
            call == (FrameCall { frame: self.handle(), args: (path, name, scroll_to_center, timeout_ms) }),
    {
        FrameCall { frame: self.frame(), args: (path, name, scroll_to_center, timeout_ms) }
    }

    pub fn save_screenshot<PathArg>(&self, path: PathArg) -> (call: FrameCall<PathArg>)
        ensures
            call == (FrameCall { frame: self.handle(), args: path }),
    {
        FrameCall { frame: self.frame(), args: path }
    }

    pub fn scroll_to_top(&self) -> (frame: FrameHandle)
        ensures
            frame == self.handle(),
    {
        self.frame()
    }

    pub fn scroll_to_bottom(&self) -> (frame: FrameHandle)
        ensures
            frame == self.handle(),
    {
        self.frame()
    }

    pub fn scroll_to_half(&self) -> (frame: FrameHandle)
        ensures
            frame == self.handle(),
    {
        self.frame()
    }

    pub fn scroll_to_rightmost(&self) -> (frame: FrameHandle)
        ensures
            frame == self.handle(),
    {
        self.frame()
    }

    pub fn scroll_to_leftmost(&self) -> (frame: FrameHandle)
        ensures
            frame == self.handle(),
    {
        self.frame()
    }

    pub fn scroll_to_location<X, Y>(&self, x: X, y: Y) -> (call: FrameCall<(X, Y)>)
        ensures
            call == (FrameCall { frame: self.handle(), args: (x, y) }),
    {
        FrameCall { frame: self.frame(), args: (x, y) }
    }

    pub fn scroll_up<Pixels>(&self, pixels: Pixels) -> (call: FrameCall<Pixels>)
        ensures
            call == (FrameCall { frame: self.handle(), args: pixels }),
    {
        FrameCall { frame: self.frame(), args: pixels }
    }

    pub fn scroll_down<Pixels>(&self, pixels: Pixels) -> (call: FrameCall<Pixels>)
        ensures
            call == (FrameCall { frame: self.handle(), args: pixels }),
    {
        FrameCall { frame: self.frame(), args: pixels }
    }

    pub fn scroll_left<Pixels>(&self, pixels: Pixels) -> (call: FrameCall<Pixels>)
        ensures
            call == (FrameCall { frame: self.handle(), args: pixels }),
    {
        FrameCall { frame: self.frame(), args: pixels }
    }

    pub fn scroll_right<Pixels>(&self, pixels: Pixels) -> (call: FrameCall<Pixels>)
        ensures
            call == (FrameCall { frame: self.handle(), args: pixels }),
    {
        FrameCall { frame: self.frame(), args: pixels }
    }

    pub fn scroll_position(&self) -> (frame: FrameHandle)
        ensures
            frame == self.handle(),
    {
        self.frame()
    }

    pub fn location(&self) -> (frame: FrameHandle)
        ensures
            frame == self.handle(),
    {
        self.frame()
    }

    pub fn viewport_location(&self) -> (frame: FrameHandle)
        ensures
            frame == self.handle(),
    {
        self.frame()
    }

    pub fn screen_location(&self) -> (frame: FrameHandle)
        ensures
            frame == self.handle(),
    {
        self.frame()
    }

    pub fn size(&self) -> (frame: FrameHandle)
        ensures
            frame == self.handle(),
    {
        self.frame()
    }

    pub fn viewport_size(&self) -> (frame: FrameHandle)
        ensures
            frame == self.handle(),
    {
        self.frame()
    }

    pub fn corners(&self) -> (frame: FrameHandle)
        ensures
            frame == self.handle(),
    {
        self.frame()
    }

    pub fn viewport_corners(&self) -> (frame: FrameHandle)
        ensures
            frame == self.handle(),
    {
        self.frame()
    }

    pub fn ready_state(&self) -> (frame: FrameHandle)
        ensures
            frame == self.handle(),
    {
        self.frame()
    }

    pub fn is_loading(&self) -> (frame: FrameHandle)
        ensures
            frame == self.handle(),
    {
        self.frame()
    }

    pub fn is_alive(&self) -> (frame: FrameHandle)
        ensures
            frame == self.handle(),
    {
        self.frame()
    }

    pub fn is_displayed(&self) -> (frame: FrameHandle)
        ensures
            frame == self.handle(),
    {
        self.frame()
    }

    pub fn is_enabled(&self) -> (frame: FrameHandle)
        ensures
            frame == self.handle(),
    {
        self.frame()
    }

    pub fn has_rect(&self) -> (frame: FrameHandle)
        ensures
            frame == self.handle(),
    {
        self.frame()
    }

    pub fn is_in_viewport(&self) -> (frame: FrameHandle)
        ensures
            frame == self.handle(),
    {
        self.frame()
    }

    pub fn is_whole_in_viewport(&self) -> (frame: FrameHandle)
        ensures
            frame == self.handle(),
    {
        self.frame()
    }

    pub fn is_covered(&self) -> (frame: FrameHandle)
        ensures
            frame == self.handle(),
    {
        self.frame()
    }

    pub fn is_clickable(&self) -> (frame: FrameHandle)
        ensures
            frame == self.handle(),
    {
        self.frame()
    }

    pub fn has_alert(&self) -> (frame: FrameHandle)
        ensures
            frame == self.handle(),
    {
        self.frame()
    }

    pub fn wait_for_doc_loaded(&self, timeout_ms: u64) -> (call: FrameCall<u64>)
        ensures
            call == (FrameCall { frame: self.handle(), args: timeout_ms }),
    {
        FrameCall { frame: self.frame(), args: timeout_ms }
    }

    pub fn wait_until_displayed(&self, timeout_ms: u64) -> (call: FrameCall<u64>)
        ensures
            call == (FrameCall { frame: self.handle(), args: timeout_ms }),
    {
        FrameCall { frame: self.frame(), args: timeout_ms }
    }

    pub fn wait_until_hidden(&self, timeout_ms: u64) -> (call: FrameCall<u64>)
        ensures
            call == (FrameCall { frame: self.handle(), args: timeout_ms }),
    {
        FrameCall { frame: self.frame(), args: timeout_ms }
    }

    pub fn wait_until_enabled(&self, timeout_ms: u64) -> (call: FrameCall<u64>)
        ensures
            call == (FrameCall { frame: self.handle(), args: timeout_ms }),
    {
        FrameCall { frame: self.frame(), args: timeout_ms }
    }

    pub fn wait_until_disabled(&self, timeout_ms: u64) -> (call: FrameCall<u64>)
        ensures
            call == (FrameCall { frame: self.handle(), args: timeout_ms }),
    {
        FrameCall { frame: self.frame(), args: timeout_ms }
    }

    pub fn wait_until_deleted(&self, timeout_ms: u64) -> (call: FrameCall<u64>)
        ensures
            call == (FrameCall { frame: self.handle(), args: timeout_ms }),
    {
        FrameCall { frame: self.frame(), args: timeout_ms }
    }

    pub fn wait_until_clickable(&self, timeout_ms: u64) -> (call: FrameCall<u64>)
        ensures
            call == (FrameCall { frame: self.handle(), args: timeout_ms }),
    {
        FrameCall { frame: self.frame(), args: timeout_ms }
    }

    pub fn wait_until_has_rect(&self, timeout_ms: u64) -> (call: FrameCall<u64>)
        ensures
            call == (FrameCall { frame: self.handle(), args: timeout_ms }),
    {
        FrameCall { frame: self.frame(), args: timeout_ms }
    }

    pub fn wait_until_covered(&self, timeout_ms: u64) -> (call: FrameCall<u64>)
        ensures
            call == (FrameCall { frame: self.handle(), args: timeout_ms }),
    {
        FrameCall { frame: self.frame(), args: timeout_ms }
    }

    pub fn wait_until_not_covered(&self, timeout_ms: u64) -> (call: FrameCall<u64>)
        ensures
            call == (FrameCall { frame: self.handle(), args: timeout_ms }),
    {
        FrameCall { frame: self.frame(), args: timeout_ms }
    }

    pub fn wait_until_disabled_or_deleted(&self, timeout_ms: u64) -> (call: FrameCall<u64>)
        ensures
            call == (FrameCall { frame: self.handle(), args: timeout_ms }),
    {
        FrameCall { frame: self.frame(), args: timeout_ms }
    }

    pub fn wait_until_stop_moving(&self, timeout_ms: u64) -> (call: FrameCall<u64>)
        ensures
            call == (FrameCall { frame: self.handle(), args: timeout_ms }),
    {
        FrameCall { frame: self.frame(), args: timeout_ms }
    }

    pub fn snapshot_root(&self) -> (frame: FrameHandle)
        ensures
            frame == self.handle(),
    {
        self.frame()
    }

    pub fn snapshot_find<LocatorArg>(&self, locator: LocatorArg) -> (call: FrameCall<LocatorArg>)
        ensures
            call == (FrameCall { frame: self.handle(), args: locator }),
    {
        FrameCall { frame: self.frame(), args: locator }
    }

    /// `parsed` is what reading the locator gave: an error refuses the
    /// search before any snapshot is taken; otherwise the driver frame
    /// searches its snapshot with the locator as read.
    pub fn s_ele<E>(&self, parsed: Result<String, E>) -> (call: Result<FrameCall<String>, E>)
        ensures
            call == match parsed {
                Ok(raw) => Ok(FrameCall { frame: self.handle(), args: raw }),
                Err(x) => Err::<FrameCall<String>, E>(x),
            },
    {
        match parsed {
            Ok(raw) => Ok(FrameCall { frame: self.frame(), args: raw }),
            Err(x) => Err(x),
        }
    }

    pub fn snapshot_find_all<LocatorArg>(
        &self,
        locator: LocatorArg,
    ) -> (call: FrameCall<LocatorArg>)
        ensures
            call == (FrameCall { frame: self.handle(), args: locator }),
    {
        FrameCall { frame: self.frame(), args: locator }
    }

    /// `parsed` is what reading the locator gave: an error refuses the
    /// search before any snapshot is taken; otherwise the driver frame
    /// searches its snapshot with the locator as read.
    pub fn s_eles<E>(&self, parsed: Result<String, E>) -> (call: Result<FrameCall<String>, E>)
        ensures
            call == match parsed {
                Ok(raw) => Ok(FrameCall { frame: self.handle(), args: raw }),
                Err(x) => Err::<FrameCall<String>, E>(x),
            },
    {
        match parsed {
            Ok(raw) => Ok(FrameCall { frame: self.frame(), args: raw }),
            Err(x) => Err(x),
        }
    }

    pub fn snapshot_find_by<By, ValueArg>(
        &self,
        by: By,
        value: ValueArg,
    ) -> (call: FrameCall<(By, ValueArg)>)
        ensures
            call == (FrameCall { frame: self.handle(), args: (by, value) }),
    {
        FrameCall { frame: self.frame(), args: (by, value) }
    }

    pub fn snapshot_find_all_by<By, ValueArg>(
        &self,
        by: By,
        value: ValueArg,
    ) -> (call: FrameCall<(By, ValueArg)>)
        ensures
            call == (FrameCall { frame: self.handle(), args: (by, value) }),
    {
        FrameCall { frame: self.frame(), args: (by, value) }
    }

    pub fn snapshot_query_xpath<Expression>(
        &self,
        expression: Expression,
    ) -> (call: FrameCall<Expression>)
        ensures
            call == (FrameCall { frame: self.handle(), args: expression }),
    {
        FrameCall { frame: self.frame(), args: expression }
    }

    pub fn listener(&self) -> (frame: FrameHandle)
        ensures
            frame == self.handle(),
    {
        self.frame()
    }

    pub fn listen(&self) -> (frame: FrameHandle)
        ensures
            frame == self.handle(),
    {
        self.frame()
    }

    pub fn console(&self) -> (frame: FrameHandle)
        ensures
            frame == self.handle(),
    {
        self.frame()
    }
}

} // verus!
