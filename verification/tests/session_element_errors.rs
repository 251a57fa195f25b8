use openpage::element_flow::{WebElementDragTarget, WebSelectOptionInput};
use openpage::error::{ErrorKind, Language, OpenPageError};
use openpage::model::{ElementHandle, WebElement};
use openpage::route::{Backend, Route};

/// The root element of a parsed session document.
fn session_root() -> WebElement {
    WebElement::Session(ElementHandle { id: 0 })
}

fn refusal(route: Route, what: &str) -> OpenPageError {
    match route {
        Route::Refuse(error) => error,
        other => panic!("{what}: expected a refusal, got {other:?}"),
    }
}

fn assert_unsupported(error: &OpenPageError, language: Language, text: &str) {
    assert_eq!(error.kind(), ErrorKind::UnsupportedOperation);
    let message = error.message(language);
    assert!(message.contains(text), "message {message:?} should contain {text:?}");
}

#[test]
fn web_element_session_frame_errors_follow_language_setting() {
    let element = session_root();
    let english = refusal(element.get_frame("tag:iframe").route, "session-backed WebElement get_frame should fail");
    assert_unsupported(&english, Language::English, "get_frame() is only available in driver mode");

    let chinese = refusal(
        element.get_frame_by_index(1).route,
        "session-backed WebElement get_frame_by_index should fail",
    );
    assert_unsupported(&chinese, Language::Chinese, "get_frame_by_index() 仅在 driver 模式可用");
}

#[test]
fn web_element_session_static_find_aliases_delegate_to_snapshot() {
    let element = session_root();
    // The snapshot search itself is the session element's own; the facade
    // hands it the locator as read, and refuses one that could not be read.
    let root = element.s_ele(Ok::<String, String>("#root".to_string())).unwrap();
    assert!(matches!(root.route, Route::Run(Backend::Session)));
    assert_eq!(root.locator, "#root");
    let items = element.s_eles(Ok::<String, String>("css:.item".to_string())).unwrap();
    assert!(matches!(items.route, Route::Run(Backend::Session)));
    assert_eq!(items.locator, "css:.item");
    let refused = element.s_eles(Err::<String, String>("unreadable locator".to_string()));
    assert_eq!(refused.unwrap_err(), "unreadable locator");
}

#[test]
fn web_element_session_driver_only_info_errors_follow_language_setting() {
    let element = session_root();
    let english = refusal(element.property("value").route, "session-backed WebElement property should fail");
    assert_unsupported(&english, Language::English, "property() is only available in driver mode");

    let chinese_state =
        refusal(element.is_clickable(), "session-backed WebElement is_clickable should fail");
    assert_unsupported(&chinese_state, Language::Chinese, "is_clickable() 仅在 driver 模式可用");
    let chinese_style = refusal(element.style("display", None::<&str>).route, "session-backed WebElement style should fail");
    assert_unsupported(&chinese_style, Language::Chinese, "style() 仅在 driver 模式可用");
}

#[test]
fn web_element_session_driver_only_scroll_resource_errors_follow_language_setting() {
    let element = session_root();
    let english =
        refusal(element.scroll_to_top(), "session-backed WebElement scroll_to_top should fail");
    assert_unsupported(&english, Language::English, "scroll_to_top() is only available in driver mode");

    let chinese_src = refusal(element.src(100, false).route, "session-backed WebElement src should fail");
    assert_unsupported(&chinese_src, Language::Chinese, "src() 仅在 driver 模式可用");
    let chinese_shadow =
        refusal(element.shadow_root(), "session-backed WebElement shadow_root should fail");
    assert_unsupported(&chinese_shadow, Language::Chinese, "shadow_root() 仅在 driver 模式可用");
}

#[test]
fn web_element_session_driver_only_script_capture_errors_follow_language_setting() {
    let element = session_root();
    let english = refusal(element.run_js("return 1").route, "session-backed WebElement run_js should fail");
    assert_unsupported(&english, Language::English, "run_js() is only available in driver mode");

    let chinese_capture = refusal(
        element.screenshot_bytes(false, 100).route,
        "session-backed WebElement screenshot_bytes should fail",
    );
    assert_unsupported(&chinese_capture, Language::Chinese, "screenshot_bytes() 仅在 driver 模式可用");
    let chinese_focus = refusal(element.focus(), "session-backed WebElement focus should fail");
    assert_unsupported(&chinese_focus, Language::Chinese, "focus() 仅在 driver 模式可用");
}

#[test]
fn web_element_session_driver_only_select_errors_follow_language_setting() {
    let element = session_root();
    let english =
        refusal(element.select_by_text("A").route, "session-backed WebElement select_by_text should fail");
    assert_unsupported(&english, Language::English, "select_by_text() is only available in driver mode");

    let chinese_index =
        refusal(element.select_by_index(1).route, "session-backed WebElement select_by_index should fail");
    assert_unsupported(&chinese_index, Language::Chinese, "select_by_index() 仅在 driver 模式可用");
    let batch = element.select_by_option(&WebSelectOptionInput::Single(&element));
    assert_eq!(batch.run, 0);
    let chinese_option =
        batch.failure.expect("session-backed WebElement select_by_option should fail");
    assert_unsupported(&chinese_option, Language::Chinese, "select_by_option() 仅在 driver 模式可用");
}

#[test]
fn web_element_session_driver_only_cancel_select_errors_follow_language_setting() {
    let element = session_root();
    let english =
        refusal(element.cancel_by_text("A").route, "session-backed WebElement cancel_by_text should fail");
    assert_unsupported(&english, Language::English, "cancel_by_text() is only available in driver mode");

    let chinese_index =
        refusal(element.cancel_by_index(1).route, "session-backed WebElement cancel_by_index should fail");
    assert_unsupported(&chinese_index, Language::Chinese, "cancel_by_index() 仅在 driver 模式可用");
    let batch = element.cancel_by_option(&WebSelectOptionInput::Single(&element));
    assert_eq!(batch.run, 0);
    let chinese_option =
        batch.failure.expect("session-backed WebElement cancel_by_option should fail");
    assert_unsupported(&chinese_option, Language::Chinese, "cancel_by_option() 仅在 driver 模式可用");
}

#[test]
fn web_element_session_driver_only_wait_errors_follow_language_setting() {
    let element = session_root();
    let english = refusal(
        element.wait_until_displayed(100).route,
        "session-backed WebElement wait_until_displayed should fail",
    );
    assert_unsupported(
        &english,
        Language::English,
        "wait_until_displayed() is only available in driver mode",
    );

    let chinese_clickable = refusal(
        element.wait_until_clickable(100).route,
        "session-backed WebElement wait_until_clickable should fail",
    );
    assert_unsupported(&chinese_clickable, Language::Chinese, "wait_until_clickable() 仅在 driver 模式可用");
    let chinese_stop_moving = refusal(
        element.wait_until_stop_moving(100).route,
        "session-backed WebElement wait_until_stop_moving should fail",
    );
    assert_unsupported(
        &chinese_stop_moving,
        Language::Chinese,
        "wait_until_stop_moving() 仅在 driver 模式可用",
    );
}

#[test]
fn web_element_session_driver_only_select_tail_rect_errors_follow_language_setting() {
    let element = session_root();
    let english = refusal(element.select_all(), "session-backed WebElement select_all should fail");
    assert_unsupported(&english, Language::English, "select_all() is only available in driver mode");

    let chinese_rect =
        refusal(element.rect_location(), "session-backed WebElement rect_location should fail");
    assert_unsupported(&chinese_rect, Language::Chinese, "rect_location() 仅在 driver 模式可用");
    let chinese_size = refusal(element.rect_size(), "session-backed WebElement rect_size should fail");
    assert_unsupported(&chinese_size, Language::Chinese, "rect_size() 仅在 driver 模式可用");
}

#[test]
fn web_element_session_driver_only_interaction_errors_follow_language_setting() {
    let element = session_root();
    let english = refusal(element.offset(None::<&str>, Some(1.0), Some(1.0), 0).route, "session-backed WebElement offset should fail");
    assert_unsupported(&english, Language::English, "offset() is only available in driver mode");

    let chinese_click = refusal(element.click(), "session-backed WebElement click should fail");
    assert_unsupported(&chinese_click, Language::Chinese, "click() 仅在 driver 模式可用");
    let chinese_input = refusal(element.input("text").route, "session-backed WebElement input should fail");
    assert_unsupported(&chinese_input, Language::Chinese, "input() 仅在 driver 模式可用");
    let chinese_key = refusal(element.press_key("Enter").route, "session-backed WebElement press_key should fail");
    assert_unsupported(&chinese_key, Language::Chinese, "press_key() 仅在 driver 模式可用");
}

#[test]
fn web_element_session_driver_only_drag_set_errors_follow_language_setting() {
    let element = session_root();
    let english = refusal(element.drag(10.0, 5.0, 0.1).route, "session-backed WebElement drag should fail");
    assert_unsupported(&english, Language::English, "drag() is only available in driver mode");
    let english_drag_to = refusal(
        element.drag_to(&WebElementDragTarget::Element(&element)),
        "session-backed WebElement drag_to should fail",
    );
    assert_unsupported(&english_drag_to, Language::English, "drag_to() is only available in driver mode");

    let chinese_set = refusal(element.set_attr("data-x", "1").route, "session-backed WebElement set_attr should fail");
    assert_unsupported(&chinese_set, Language::Chinese, "set_attr() 仅在 driver 模式可用");
    let chinese_check = refusal(element.check(false, false).route, "session-backed WebElement check should fail");
    assert_unsupported(&chinese_check, Language::Chinese, "check() 仅在 driver 模式可用");
}
