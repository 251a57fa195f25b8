use openpage::error::{ErrorKind, Language};
use openpage::mode::WebMode;
use openpage::model::{ElementHandle, WebElement, WebPage};
use openpage::route::{Backend, Route};

fn session_page() -> WebPage {
    WebPage::new(WebMode::Session, "TAB-1".to_string())
}

fn refused(route: Route, language: Language, text: &str) {
    match route {
        Route::Refuse(error) => {
            assert_eq!(error.kind(), ErrorKind::UnsupportedOperation);
            let message = error.message(language);
            assert!(message.contains(text), "message {message:?} should contain {text:?}");
        },
        other => panic!("expected a refusal containing {text:?}, got {other:?}"),
    }
}

#[test]
fn webpage_session_frame_errors_follow_language_setting() {
    let page = session_page();
    refused(page.get_frame("tag:iframe").route, Language::English, "get_frame() is only available in driver mode");
    refused(page.get_frame_by_index(1).route, Language::Chinese, "get_frame_by_index() 仅在 driver 模式可用");
    refused(page.get_frame_contexts(None::<&str>).route, Language::Chinese, "get_frame_contexts() 仅在 driver 模式可用");
    let driver = WebPage::new(WebMode::Driver, "TAB-1".to_string());
    assert!(matches!(driver.get_frame("tag:iframe").route, Route::Run(Backend::Driver)));
    assert!(matches!(driver.get_frame_by_index(1).route, Route::Run(Backend::Driver)));
    assert!(matches!(driver.get_frame_contexts(None::<&str>).route, Route::Run(Backend::Driver)));
}

#[test]
fn webpage_session_script_cdp_errors_follow_language_setting() {
    let page = session_page();
    refused(page.run_js("return 1").route, Language::English, "run_js() is only available in driver mode");
    refused(page.run_js_loaded("return 1").route, Language::Chinese, "run_js_loaded() 仅在 driver 模式可用");
    refused(page.run_async_js("return 1").route, Language::Chinese, "run_async_js() 仅在 driver 模式可用");
    refused(page.stop_loading(), Language::Chinese, "stop_loading() 仅在 driver 模式可用");
    refused(page.run_cdp("Page.reload").route, Language::Chinese, "run_cdp() 仅在 driver 模式可用");
    let driver = WebPage::new(WebMode::Driver, "TAB-1".to_string());
    assert!(matches!(driver.run_js("return 1").route, Route::Run(Backend::Driver)));
    assert!(matches!(driver.run_js_loaded("return 1").route, Route::Run(Backend::Driver)));
    assert!(matches!(driver.run_async_js("return 1").route, Route::Run(Backend::Driver)));
    assert!(matches!(driver.stop_loading(), Route::Run(Backend::Driver)));
    assert!(matches!(driver.run_cdp("Page.reload").route, Route::Run(Backend::Driver)));
}

#[test]
fn webpage_session_tool_errors_follow_language_setting() {
    let page = session_page();
    refused(page.add_init_js("window.__openpageInit = true;").route, Language::English, "add_init_js() is only available in driver mode");
    refused(page.clear_cache(true, true, true, true).route, Language::Chinese, "clear_cache() 仅在 driver 模式可用");
    refused(page.set_permission("clipboard-read", "granted", None::<&str>, None::<&str>).route, Language::Chinese, "set_permission() 仅在 driver 模式可用");
    refused(page.clipboard_write_text("openpage").route, Language::Chinese, "clipboard_write_text() 仅在 driver 模式可用");
    let driver = WebPage::new(WebMode::Driver, "TAB-1".to_string());
    assert!(matches!(driver.add_init_js("window.__openpageInit = true;").route, Route::Run(Backend::Driver)));
    assert!(matches!(driver.clear_cache(true, true, true, true).route, Route::Run(Backend::Driver)));
    assert!(matches!(driver.set_permission("clipboard-read", "granted", None::<&str>, None::<&str>).route, Route::Run(Backend::Driver)));
    assert!(matches!(driver.clipboard_write_text("openpage").route, Route::Run(Backend::Driver)));
}

#[test]
fn webpage_session_driver_action_errors_follow_language_setting() {
    let page = session_page();
    refused(page.navigation_snapshot(), Language::English, "navigation_snapshot() is only available in driver mode");
    refused(page.actions(), Language::Chinese, "actions() 仅在 driver 模式可用");
    refused(page.new_actions(), Language::Chinese, "new_actions() 仅在 driver 模式可用");
    let driver = WebPage::new(WebMode::Driver, "TAB-1".to_string());
    assert!(matches!(driver.navigation_snapshot(), Route::Run(Backend::Driver)));
    assert!(matches!(driver.actions(), Route::Run(Backend::Driver)));
    assert!(matches!(driver.new_actions(), Route::Run(Backend::Driver)));
}

#[test]
fn webpage_session_click_helper_errors_follow_language_setting() {
    let page = session_page();
    refused(page.click_to_download("css:#download", None::<&str>, None::<&str>, None::<&str>, false, Some(100), false, false).route, Language::English, "click_to_download() is only available in driver mode");
    refused(page.click_to_upload("css:#upload", "/tmp/a.txt", None, false).route, Language::Chinese, "click_to_upload() 仅在 driver 模式可用");
    refused(page.click_for_new_tab("css:#open", Some(100), false).route, Language::Chinese, "click_for_new_tab() 仅在 driver 模式可用");
    let driver = WebPage::new(WebMode::Driver, "TAB-1".to_string());
    assert!(matches!(driver.click_to_download("css:#download", None::<&str>, None::<&str>, None::<&str>, false, Some(100), false, false).route, Route::Run(Backend::Driver)));
    assert!(matches!(driver.click_to_upload("css:#upload", "/tmp/a.txt", None, false).route, Route::Run(Backend::Driver)));
    assert!(matches!(driver.click_for_new_tab("css:#open", Some(100), false).route, Route::Run(Backend::Driver)));
}

#[test]
fn webpage_session_capture_errors_follow_language_setting() {
    let page = session_page();
    refused(page.save_screenshot("/tmp/page.png", false).route, Language::English, "save_screenshot() is only available in driver mode");
    refused(page.screenshot_bytes(false, None::<(f64, f64)>, None::<(f64, f64)>).route, Language::Chinese, "screenshot_bytes() 仅在 driver 模式可用");
    refused(page.save_pdf("/tmp/page.pdf").route, Language::Chinese, "save_pdf() 仅在 driver 模式可用");
    let driver = WebPage::new(WebMode::Driver, "TAB-1".to_string());
    assert!(matches!(driver.save_screenshot("/tmp/page.png", false).route, Route::Run(Backend::Driver)));
    assert!(matches!(driver.screenshot_bytes(false, None::<&str>, None::<&str>).route, Route::Run(Backend::Driver)));
    assert!(matches!(driver.save_pdf("/tmp/page.pdf").route, Route::Run(Backend::Driver)));
}

#[test]
fn webpage_session_viewport_navigation_errors_follow_language_setting() {
    let page = session_page();
    refused(page.scroll_position(), Language::English, "scroll_position() is only available in driver mode");
    refused(page.viewport_size(), Language::Chinese, "viewport_size() 仅在 driver 模式可用");
    refused(page.back(1).route, Language::Chinese, "back() 仅在 driver 模式可用");
    let driver = WebPage::new(WebMode::Driver, "TAB-1".to_string());
    assert!(matches!(driver.scroll_position(), Route::Run(Backend::Driver)));
    assert!(matches!(driver.viewport_size(), Route::Run(Backend::Driver)));
    assert!(matches!(driver.back(1).route, Route::Run(Backend::Driver)));
}

#[test]
fn webpage_session_scroll_errors_follow_language_setting() {
    let page = session_page();
    refused(page.scroll_to_top(), Language::English, "scroll_to_top() is only available in driver mode");
    refused(page.scroll_to_location(10.0, 20.0).route, Language::Chinese, "scroll_to_location() 仅在 driver 模式可用");
    refused(page.scroll_right(100.0).route, Language::Chinese, "scroll_right() 仅在 driver 模式可用");
    let driver = WebPage::new(WebMode::Driver, "TAB-1".to_string());
    assert!(matches!(driver.scroll_to_top(), Route::Run(Backend::Driver)));
    assert!(matches!(driver.scroll_to_location(10.0, 20.0).route, Route::Run(Backend::Driver)));
    assert!(matches!(driver.scroll_right(100.0).route, Route::Run(Backend::Driver)));
}

#[test]
fn webpage_session_element_mutation_errors_follow_language_setting() {
    let page = session_page();
    refused(page.active_element(), Language::English, "active_element() is only available in driver mode");
    refused(page.remove_element("css:#gone").route, Language::Chinese, "remove_element() 仅在 driver 模式可用");
    refused(page.add_element_html("<p>x</p>", None::<&str>, None::<&str>).route, Language::Chinese, "add_element_html() 仅在 driver 模式可用");
    let driver = WebPage::new(WebMode::Driver, "TAB-1".to_string());
    assert!(matches!(driver.active_element(), Route::Run(Backend::Driver)));
    assert!(matches!(driver.remove_element("css:#gone").route, Route::Run(Backend::Driver)));
    assert!(matches!(driver.add_element_html("<p>x</p>", None::<&str>, None::<&str>).route, Route::Run(Backend::Driver)));
}

#[test]
fn webpage_session_tail_driver_only_errors_follow_language_setting() {
    let page = session_page();
    refused(
        page.set_timeouts(false, true, false),
        Language::English,
        "set_timeouts(page_load/script) is only available in driver mode",
    );
    let element = WebElement::Session(ElementHandle { id: 0 });
    refused(element.clicker().middle(false).route, Language::Chinese, "clicker() 仅在 driver 模式可用");
    assert!(matches!(page.set_timeouts(true, false, false), Route::Run(Backend::Session)));
}
