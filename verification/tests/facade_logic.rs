use openpage::element_flow::{
    any_matched, attribute_present, children_counted, ElementRead, first_option_text, LocatorMatch, present_texts, session_link, WebElementDragTarget,
    WebSelectOptionInput,
};
use openpage::error::{ErrorKind, Language, OpenPageError};
use openpage::helpers::LoadMode;
use openpage::mode::WebMode;
use openpage::model::{DisconnectedWebFrame, ElementHandle, FrameHandle, OneOrPlaceholder, TabReference, WebElement, WebFrame, WebPage};
use openpage::page_flow::{elements_loaded, session_wait_locator, ClosePlan, SwitchStep, WaitTarget};
use openpage::route::{Backend, Reply, Route};
use openpage::wait::{
    elements_loaded_step, poll_step, session_condition, session_element_ready, session_find_step, session_gone_step, ElementWaitKind,
    SessionCondition, WaitStep,
};
use openpage::text::{contains_text, driver_navigated, driver_text, non_empty_text, starts_with};

fn page(mode: WebMode) -> WebPage {
    WebPage::new(mode, "TAB-1".to_string())
}

#[test]
fn web_mode_codes_parse_and_toggle() {
    assert_eq!(WebMode::Driver.as_str(), "d");
    assert_eq!(WebMode::Session.as_str(), "s");
    assert!(matches!(WebMode::parse("d"), Ok(WebMode::Driver)));
    assert!(matches!(WebMode::parse("D"), Ok(WebMode::Driver)));
    assert!(matches!(WebMode::parse("s"), Ok(WebMode::Session)));
    assert!(matches!(WebMode::parse("S"), Ok(WebMode::Session)));
    let err = WebMode::parse("driver").unwrap_err();
    assert!(matches!(err, OpenPageError::InvalidMode(ref text) if text == "driver"));
    assert_eq!(err.kind(), ErrorKind::BrowserOperation);
    assert!(WebMode::parse("").is_err());
    assert_eq!(WebMode::Driver.toggled(), WebMode::Session);
    assert_eq!(WebMode::Driver.toggled().toggled(), WebMode::Driver);
    for mode in [WebMode::Driver, WebMode::Session] {
        assert!(matches!(WebMode::parse(mode.as_str()), Ok(m) if m == mode));
    }
}

#[test]
fn driver_only_messages_in_both_languages() {
    let error = OpenPageError::DriverModeOnly("back()");
    assert_eq!(error.message(Language::English), "back() is only available in driver mode");
    assert_eq!(error.message(Language::Chinese), "back() 仅在 driver 模式可用");
    assert_eq!(error.kind(), ErrorKind::UnsupportedOperation);
    let target = OpenPageError::DriverElementRequired("drag_to() target");
    assert_eq!(target.message(Language::English), "drag_to() target must be a driver-backed element");
}

#[test]
fn page_routes_follow_the_mode() {
    let driver = page(WebMode::Driver);
    let session = page(WebMode::Session);
    assert!(matches!(driver.html(), Route::Run(Backend::Driver)));
    assert!(matches!(session.html(), Route::Run(Backend::Session)));
    assert!(matches!(driver.back(0).route, Route::Run(Backend::Driver)));
    assert!(matches!(session.back(0).route, Route::Refuse(OpenPageError::DriverModeOnly("back()"))));
    assert!(matches!(session.is_alive(), Route::Answer(Reply::Bool(true))));
    assert!(matches!(driver.status_code(), Route::Answer(Reply::Absent)));
    assert!(matches!(driver.post("https://example.test/form").route, Route::SyncCookiesThenSession));
    assert!(matches!(session.post("https://example.test/form").route, Route::Run(Backend::Session)));
    assert!(matches!(driver.download_path(), Route::Run(Backend::Browser)));
    assert!(matches!(session.download_path(), Route::Run(Backend::Session)));
    assert!(matches!(session.set_download_path("/tmp/downloads").route, Route::RunBoth(Backend::Browser, Backend::Session)));
    assert!(matches!(session.click("css:#submit").route, Route::Run(Backend::Session)));
    assert!(matches!(driver.fill("css:#name", "Ada").route, Route::Run(Backend::Driver)));
    assert!(matches!(session.scroll().to_top(), Route::Refuse(OpenPageError::DriverModeOnly("scroll_to_top()"))));
    assert!(matches!(driver.tabs_count(), Route::Run(Backend::Browser)));
}

#[test]
fn change_mode_plans_steps_and_toggles() {
    let mut p = page(WebMode::Driver);
    assert!(p.change_mode(Some(WebMode::Driver), true, true).is_none());
    let change = p.change_mode(None, true, true).expect("toggle");
    assert_eq!(change.target, WebMode::Session);
    assert_eq!(change.steps, vec![SwitchStep::CookiesToSession, SwitchStep::SessionFollowsDriver]);
    assert_eq!(p.apply_mode_change(&change, Err::<(), String>("copy failed".to_string())), Err("copy failed".to_string()));
    assert_eq!(p.mode, WebMode::Driver);
    assert!(p.apply_mode_change(&change, Ok::<(), String>(())).is_ok());
    assert_eq!(p.mode(), WebMode::Session);
    let back = p.change_mode(None, false, true).expect("toggle back");
    assert_eq!(back.target, WebMode::Driver);
    assert_eq!(back.steps, vec![SwitchStep::CookiesToBrowser]);
    assert!(p.apply_mode_change(&back, Ok::<(), String>(())).is_ok());
    assert_eq!(p.mode(), WebMode::Driver);
    assert!(p.change_mode(None, false, false).expect("toggle").steps.is_empty());
    let plan = page(WebMode::Session).close_driver();
    assert!(plan.change.is_none());
    assert_eq!(plan.closed, Backend::Driver);
    assert!(!plan.close_failure_counts);
    let plan = page(WebMode::Session).close_session();
    assert_eq!(plan.change.expect("switch").target, WebMode::Driver);
    assert_eq!(plan.closed, Backend::Session);
    assert!(plan.close_failure_counts);
}

#[test]
fn cookie_copies_follow_the_urls() {
    let p = page(WebMode::Driver);
    assert!(p.cookies_to_session(String::new(), Some("a=1".to_string()), true).is_none());
    let copy = p
        .cookies_to_session("https://example.test/".to_string(), Some("a=1".to_string()), true)
        .expect("copy");
    assert_eq!(copy.url, "https://example.test/");
    assert_eq!(copy.cookie_header.as_deref(), Some("a=1"));
    assert!(copy.copy_user_agent);

    assert!(p.cookies_to_browser(None, "about:blank", None).is_none());
    let to_browser = p
        .cookies_to_browser(Some("https://example.test/".to_string()), "about:blank", None)
        .expect("copy");
    assert!(to_browser.navigate_first);
    let already = p
        .cookies_to_browser(Some("https://example.test/".to_string()), "http://other.test/", None)
        .expect("copy");
    assert!(!already.navigate_first);
    let https = p
        .cookies_to_browser(Some("https://example.test/".to_string()), "https://x.test/", Some("b=2".to_string()))
        .expect("copy");
    assert!(!https.navigate_first);
    assert_eq!(https.cookie_header.as_deref(), Some("b=2"));
    assert_eq!(p.session_follow_url(String::new()), None);
    assert_eq!(p.session_follow_url("https://a.test/".to_string()).as_deref(), Some("https://a.test/"));
}

#[test]
fn text_helpers() {
    assert!(contains_text("https://example.test/path", "example"));
    assert!(contains_text("abc", ""));
    assert!(!contains_text("abc", "abcd"));
    assert!(!contains_text("abc", "bd"));
    assert!(contains_text("检索页面", "页面"));
    assert!(starts_with("https://x", "https://"));
    assert!(!starts_with("http", "https://"));
    assert_eq!(non_empty_text(String::new()), None);
    assert_eq!(non_empty_text("t".to_string()).as_deref(), Some("t"));
}

#[test]
fn url_and_title_waits() {
    let p = page(WebMode::Driver);
    assert!(p.wait_for_url_change(Some("https://a.test/done".to_string()), "done", false));
    assert!(!p.wait_for_url_change(Some("https://a.test/done".to_string()), "done", true));
    assert!(p.wait_for_url_change(Some("https://a.test/".to_string()), "done", true));
    assert!(!p.wait_for_url_change(None, "done", true));
    assert!(p.wait_for_title_change(Some("Home page".to_string()), "Home", false));
    assert!(!p.wait_for_title_change(None, "Home", false));
}

#[test]
fn session_elements_loaded_counts() {
    assert!(elements_loaded(&vec![1, 2], false));
    assert!(!elements_loaded(&vec![1, 0], false));
    assert!(elements_loaded(&vec![0, 3], true));
    assert!(!elements_loaded(&vec![0, 0], true));
    assert!(elements_loaded(&vec![], false));
    assert!(!elements_loaded(&vec![], true));
}

#[test]
fn element_waits_need_session_targets_in_session_mode() {
    let session = page(WebMode::Session);
    let driver = page(WebMode::Driver);
    assert!(matches!(
        session.wait_for_ele_displayed(&WaitTarget::BrowserElement),
        Route::Refuse(OpenPageError::SessionWaitNeedsSessionTarget)
    ));
    assert!(matches!(driver.wait_for_ele_displayed(&WaitTarget::BrowserElement), Route::Run(Backend::Driver)));
    assert!(matches!(
        session.wait_for_ele_hidden(&WaitTarget::Locator("#x".to_string())),
        Route::Run(Backend::Session)
    ));
    assert_eq!(
        session_wait_locator(&WaitTarget::SessionElement("/html/body".to_string())).unwrap(),
        "xpath:/html/body"
    );
    assert_eq!(session_wait_locator(&WaitTarget::Locator("#x".to_string())).unwrap(), "#x");
    let err = session_wait_locator(&WaitTarget::BrowserElement).unwrap_err();
    assert_eq!(
        err.message(Language::Chinese),
        "browser-backed element object is not supported for session mode wait_for_ele_*()"
    );
}

#[test]
fn closing_plans() {
    let p = page(WebMode::Driver);
    assert_eq!(p.close(true, false), ClosePlan::CloseOthersThenWait);
    assert_eq!(p.close(false, true), ClosePlan::CloseTab { close_session: true });
    assert_eq!(p.close_with_options(false, false), ClosePlan::CloseTab { close_session: false });
    assert!(p.others_closed(&vec!["TAB-1".to_string()]));
    assert!(!p.others_closed(&vec!["TAB-1".to_string(), "TAB-2".to_string()]));
    assert!(!p.others_closed(&vec!["TAB-2".to_string()]));
}

#[test]
fn option_batches_stop_at_session_options() {
    let select = WebElement::Browser(ElementHandle { id: 1 });
    let a = WebElement::Browser(ElementHandle { id: 2 });
    let b = WebElement::Session(ElementHandle { id: 3 });
    let c = WebElement::Browser(ElementHandle { id: 4 });
    let batch = select.select_by_options(&vec![&a, &b, &c]);
    assert_eq!(batch.run, 1);
    assert!(matches!(
        batch.failure,
        Some(OpenPageError::BrowserBackedOptionRequired("select_by_option()"))
    ));
    let all = select.cancel_by_option(&WebSelectOptionInput::Many(vec![&a, &c]));
    assert_eq!(all.run, 2);
    assert!(all.failure.is_none());
    let none = select.select_by_options(&vec![]);
    assert_eq!(none.run, 0);
    assert!(none.failure.is_none());
    assert!(any_matched(&vec![false, true]));
    assert!(!any_matched(&vec![false, false]));
    assert!(!any_matched(&vec![]));
}

#[test]
fn drag_targets() {
    let mix = WebElement::Mix { element: ElementHandle { id: 1 }, page: Box::new(page(WebMode::Driver)) };
    let session = WebElement::Session(ElementHandle { id: 2 });
    assert!(matches!(mix.drag_to(&WebElementDragTarget::Element(&mix)), Route::Run(Backend::Driver)));
    assert!(matches!(
        mix.drag_to(&WebElementDragTarget::Element(&session)),
        Route::Refuse(OpenPageError::DriverElementRequired("drag_to() target"))
    ));
    assert!(matches!(mix.drag_to(&WebElementDragTarget::Coordinates), Route::Run(Backend::Driver)));
    assert!(matches!(
        session.drag_to(&WebElementDragTarget::Locator),
        Route::Run(Backend::Session)
    ));
    assert!(matches!(
        session.drag_to_located(Ok::<ElementHandle, String>(ElementHandle { id: 3 })),
        Ok(Route::Refuse(OpenPageError::DriverModeOnly("drag_to()")))
    ));
    assert!(matches!(
        session.drag_to_located(Err::<ElementHandle, String>("no match".to_string())),
        Err(ref e) if e == "no match"
    ));
    assert!(matches!(
        mix.drag_to_located(Ok::<ElementHandle, String>(ElementHandle { id: 3 })),
        Ok(Route::Run(Backend::Driver))
    ));
    assert!(matches!(
        mix.drag_to_element(&session),
        Route::Refuse(OpenPageError::DriverElementRequired("drag_to_element() target"))
    ));
    let frame = WebFrame::Browser(FrameHandle { id: 1 });
    assert!(matches!(
        frame.drag_to(&WebElementDragTarget::Element(&session)),
        Route::Refuse(OpenPageError::DriverElementRequired("drag_to() target"))
    ));
}

#[test]
fn session_select_texts() {
    assert_eq!(
        present_texts(vec![Some("A".to_string()), None, Some("C".to_string())]),
        vec!["A".to_string(), "C".to_string()]
    );
    assert_eq!(first_option_text(vec![None, Some("B".to_string())]), None);
    assert_eq!(first_option_text(vec![Some("A".to_string())]).as_deref(), Some("A"));
    assert_eq!(first_option_text(vec![]), None);
    assert_eq!(
        session_link(Some("a.html".to_string()), Some("b.png".to_string())).as_deref(),
        Some("a.html")
    );
    assert_eq!(session_link(Some(String::new()), Some("b.png".to_string())).as_deref(), Some("b.png"));
    assert_eq!(session_link(None, None), None);
    assert_eq!(WebElement::Session(ElementHandle { id: 0 }).selected_options_locator(), "css:option[selected]");
    assert_eq!(WebElement::Browser(ElementHandle { id: 0 }).selected_options_locator(), "css:option:checked");
}

#[test]
fn disconnect_and_reconnect_keep_context() {
    let p = page(WebMode::Session);
    let released = p.clone().disconnect();
    assert_eq!(released.target_id(), "TAB-1");
    assert_eq!(released.reconnect(Err::<(), String>("browser gone".to_string())).unwrap_err(), "browser gone");
    let again = released.reconnect(Ok::<(), String>(())).unwrap();
    assert_eq!(again.mode, WebMode::Session);
    assert_eq!(again.target_id(), "TAB-1");

    let frame = WebFrame::Mix { frame: FrameHandle { id: 1 }, page: Box::new(page(WebMode::Driver)) };
    let released = frame.disconnect(Ok::<FrameHandle, String>(FrameHandle { id: 1 })).unwrap();
    assert!(matches!(released, DisconnectedWebFrame::Mix { .. }));
    let back = released.reconnect(Ok::<FrameHandle, String>(FrameHandle { id: 9 })).unwrap();
    assert!(matches!(back, WebFrame::Mix { frame: FrameHandle { id: 9 }, ref page } if page.mode == WebMode::Driver));
    assert_eq!(released.reconnect(Err::<FrameHandle, String>("gone".to_string())).unwrap_err(), "gone");
    let frame = WebFrame::Browser(FrameHandle { id: 1 });
    assert_eq!(frame.disconnect(Err::<FrameHandle, String>("busy".to_string())).unwrap_err(), "busy");
    let live = page(WebMode::Driver);
    assert_eq!(live.reconnect(Ok(true)).unwrap().target_id(), "TAB-1");
    assert!(matches!(live.reconnect(Ok(false)), Err(OpenPageError::DriverModeOnly("reconnect()"))));
    assert!(matches!(
        live.reconnect(Err(OpenPageError::InvalidMode("x".to_string()))),
        Err(OpenPageError::InvalidMode(_))
    ));
    let found = page(WebMode::Session).found(ElementHandle { id: 5 });
    assert!(matches!(found, WebElement::Session(ElementHandle { id: 5 })));
}

#[test]
fn per_tab_download_settings_name_the_tab() {
    let p = page(WebMode::Session);
    for route in [
        p.set_current_tab_download_path("/tmp/downloads").route,
        p.set_tab_download_filename(None::<&str>, None::<&str>, false).route,
        p.set().download_path("/tmp/downloads").route,
        p.set().download_file_exists("skip").route,
        p.set().when_download_file_exists("skip").route,
        p.set().download_file_name(None::<&str>, None::<&str>).route,
    ] {
        assert!(matches!(route, Route::RunForTab(Backend::Browser, ref id) if id == "TAB-1"));
    }
    assert!(matches!(p.tabs_count(), Route::Run(Backend::Browser)));
}

#[test]
fn frame_lookups_pass_errors_on() {
    let frame = WebFrame::Mix { frame: FrameHandle { id: 1 }, page: Box::new(page(WebMode::Driver)) };
    assert_eq!(frame.get_frame(Err::<FrameHandle, String>("no frame".to_string())).unwrap_err(), "no frame");
    assert_eq!(frame.get_frames(Err::<Vec<FrameHandle>, String>("e".to_string())).unwrap_err(), "e");
    assert_eq!(frame.active_element(Err::<Option<ElementHandle>, String>("a".to_string())).unwrap_err(), "a");
    assert!(matches!(frame.active_element(Ok::<Option<ElementHandle>, String>(None)), Ok(None)));
    assert_eq!(frame.children(Err::<Vec<ElementHandle>, String>("c".to_string())).unwrap_err(), "c");
    assert_eq!(frame.over(Err::<Option<ElementHandle>, String>("o".to_string())).unwrap_err(), "o");
    assert_eq!(frame.find_locators(Err::<Vec<LocatorMatch<ElementHandle>>, String>("l".to_string())).unwrap_err(), "l");
    assert_eq!(
        frame.frame_element_reference(Err::<ElementHandle, String>("unresolved".to_string())).unwrap_err(),
        "unresolved"
    );
    let owner = frame.frame_element_reference(Ok::<ElementHandle, String>(ElementHandle { id: 8 })).unwrap();
    assert!(matches!(owner, WebElement::Mix { element: ElementHandle { id: 8 }, ref page } if page.target_id() == "TAB-1"));
    assert_eq!(frame.reconnect(Err::<FrameHandle, String>("r".to_string())).unwrap_err(), "r");
    assert!(matches!(
        frame.reconnect(Ok::<FrameHandle, String>(FrameHandle { id: 2 })),
        Ok(WebFrame::Mix { frame: FrameHandle { id: 2 }, .. })
    ));
    assert_eq!(frame.parent_level_request(3), (FrameHandle { id: 1 }, 3));
    assert_eq!(frame.ele(Err::<String, String>("bad locator".to_string())).unwrap_err(), "bad locator");
    let call = frame.ele(Ok::<String, String>("css:.does-not-exist".to_string())).unwrap();
    assert_eq!((call.frame, call.args.as_str()), (FrameHandle { id: 1 }, "css:.does-not-exist"));
    assert!(matches!(
        frame.ele_found(Ok::<OneOrPlaceholder<ElementHandle, &str>, String>(OneOrPlaceholder::Found(ElementHandle { id: 4 }))),
        Ok(OneOrPlaceholder::Found(WebElement::Mix { element: ElementHandle { id: 4 }, .. }))
    ));
    assert!(matches!(
        frame.ele_found(Ok::<OneOrPlaceholder<ElementHandle, &str>, String>(OneOrPlaceholder::Missing("missing"))),
        Ok(OneOrPlaceholder::Missing("missing"))
    ));
    assert_eq!(
        frame.ele_found(Err::<OneOrPlaceholder<ElementHandle, &str>, String>("lost".to_string())).unwrap_err(),
        "lost"
    );
    assert!(matches!(frame.drag_to_located(Ok::<ElementHandle, String>(ElementHandle { id: 2 })), Ok(Route::Run(Backend::Driver))));
    assert_eq!(frame.drag_to_located(Err::<ElementHandle, String>("d".to_string())).unwrap_err(), "d");
    let call = frame.set_cookies("a=1; b=2");
    assert_eq!(call.frame, FrameHandle { id: 1 });
    assert_eq!(call.args, "a=1; b=2");
    let call = frame.remove_cookie("a", Some("https://x.test"), Some(".x.test"), Some("/"));
    assert_eq!(call.args, ("a", Some("https://x.test"), Some(".x.test"), Some("/")));
    let call = frame.set_download_path("./downloads/../d");
    assert_eq!(call.args, "./downloads/../d");
    let call = frame.set_download_filename(Some("report"), None::<&str>, true);
    assert_eq!(call.args, (Some("report"), None, true));
    let call = frame.set_when_download_file_exists("not-a-mode");
    assert_eq!(call.args, "not-a-mode");
    let call = frame.set_none_element_value(Some("missing"), true);
    assert_eq!(call.args, (Some("missing"), true));
    let call = frame.attr("id");
    assert_eq!((call.frame, call.args), (FrameHandle { id: 1 }, "id"));
    let call = frame.get("data:text/html,<p>x</p>");
    assert_eq!(call.args, "data:text/html,<p>x</p>");
    assert_eq!(frame.wait_for_doc_loaded(500).args, 500);
    let call = frame.s_ele(Ok::<String, String>("#root".to_string())).unwrap();
    assert_eq!((call.frame, call.args.as_str()), (FrameHandle { id: 1 }, "#root"));
    assert_eq!(frame.s_eles(Err::<String, String>("bad locator".to_string())).unwrap_err(), "bad locator");
    assert_eq!(frame.tab_id(), FrameHandle { id: 1 });
}

#[test]
fn locator_batches_keep_their_flags_and_errors() {
    let p = page(WebMode::Driver);
    let request = p.find_locators(false, true);
    assert!(matches!(request.route, Route::Run(Backend::Driver)));
    assert!(!request.any_one);
    assert!(request.first_match_only);
    let matches = vec![LocatorMatch { locator: "#a".to_string(), elements: vec![ElementHandle { id: 3 }] }];
    let wrapped = p.wrap_locator_matches(Ok::<_, String>(matches)).unwrap();
    assert_eq!(wrapped[0].locator, "#a");
    assert!(matches!(wrapped[0].elements[0], WebElement::Mix { element: ElementHandle { id: 3 }, .. }));
    let session = WebElement::Session(ElementHandle { id: 1 });
    let matches = vec![LocatorMatch { locator: "#b".to_string(), elements: vec![ElementHandle { id: 4 }] }];
    let wrapped = session.wrap_locator_matches(Ok::<_, String>(matches)).unwrap();
    assert!(matches!(wrapped[0].elements[0], WebElement::Session(ElementHandle { id: 4 })));
    assert_eq!(session.wrap_locator_matches(Err::<Vec<LocatorMatch<ElementHandle>>, String>("x".to_string())).unwrap_err(), "x");
}

#[test]
fn waits_decide_each_round() {
    let driver = page(WebMode::Driver);
    assert!(matches!(
        driver.wait_for_step("#go", Ok(ElementHandle { id: 2 }), false),
        WaitStep::Done(Ok(WebElement::Mix { element: ElementHandle { id: 2 }, .. }))
    ));
    assert!(matches!(driver.wait_for_step("#go", Err("no match".to_string()), false), WaitStep::Retry));
    match driver.wait_for_step("#go", Err("no match".to_string()), true) {
        WaitStep::Done(Err(error)) => {
            assert_eq!(error.kind(), ErrorKind::Timeout);
            assert_eq!(error.message(Language::English), "timed out waiting for locator: #go (no match)");
            assert_eq!(error.message(Language::Chinese), "等待定位符超时: #go (no match)");
        }
        _ => panic!("expected a timeout"),
    }
    let session = page(WebMode::Session);
    assert!(matches!(
        session.wait_for_step("#go", Ok(ElementHandle { id: 2 }), true),
        WaitStep::Done(Ok(WebElement::Session(ElementHandle { id: 2 })))
    ));
    assert!(matches!(session_find_step(Some(ElementHandle { id: 1 }), true), WaitStep::Done(ElementHandle { id: 1 })));
    assert!(matches!(session_find_step(None, true), WaitStep::TimedOut));
    assert!(matches!(session_find_step(None, false), WaitStep::Retry));
    assert_eq!(session_element_ready(Ok::<Option<String>, String>(None)), Ok(true));
    assert_eq!(session_element_ready(Ok::<Option<String>, String>(Some(String::new()))), Ok(false));
    assert_eq!(session_element_ready(Err::<Option<String>, String>("e".to_string())), Err("e".to_string()));
    assert!(matches!(session_gone_step(None, false), WaitStep::Done(Ok(true))));
    assert!(matches!(session_gone_step(Some(ElementHandle { id: 1 }), true), WaitStep::TimedOut));
    assert!(matches!(session_gone_step(Some(ElementHandle { id: 1 }), false), WaitStep::Retry));
    assert!(matches!(poll_step(Err(OpenPageError::SessionWaitNeedsSessionTarget), false), WaitStep::Done(Err(_))));
    assert!(matches!(elements_loaded_step(Ok(vec![1, 2]), false, false), WaitStep::Done(Ok(true))));
    assert!(matches!(elements_loaded_step(Ok(vec![1, 0]), false, false), WaitStep::Retry));
    assert!(matches!(elements_loaded_step(Ok(vec![1, 0]), false, true), WaitStep::TimedOut));
    assert!(matches!(elements_loaded_step(Ok(vec![0, 1]), true, true), WaitStep::Done(Ok(true))));
    assert!(matches!(
        elements_loaded_step(Err(OpenPageError::SessionWaitNeedsSessionTarget), true, false),
        WaitStep::Done(Err(OpenPageError::SessionWaitNeedsSessionTarget))
    ));
    assert_eq!(session_condition(ElementWaitKind::Hidden), SessionCondition::Gone);
    assert_eq!(session_condition(ElementWaitKind::Deleted), SessionCondition::Gone);
    assert_eq!(session_condition(ElementWaitKind::Enabled), SessionCondition::Ready);
    assert_eq!(session_condition(ElementWaitKind::Clickable), SessionCondition::Ready);
    assert_eq!(session_condition(ElementWaitKind::Displayed), SessionCondition::Ready);
    let tab = driver.target_id().to_string();
    assert!(matches!(driver.close_others_step(Ok::<Vec<String>, String>(vec![tab.clone()]), true), WaitStep::Done(Ok(()))));
    assert!(matches!(
        driver.close_others_step(Ok::<Vec<String>, String>(vec![tab.clone(), "TAB-2".to_string()]), false),
        WaitStep::Retry
    ));
    assert!(matches!(
        driver.close_others_step(Ok::<Vec<String>, String>(vec![tab, "TAB-2".to_string()]), true),
        WaitStep::TimedOut
    ));
    assert!(matches!(driver.close_others_step(Err::<Vec<String>, String>("x".to_string()), false), WaitStep::Done(Err(_))));
}

#[test]
fn driver_answers_of_a_page() {
    assert_eq!(driver_text(Ok::<String, String>(String::new())), Ok(None));
    assert_eq!(driver_text(Ok::<String, String>("https://x.test/".to_string())), Ok(Some("https://x.test/".to_string())));
    assert_eq!(driver_text(Err::<String, String>("closed".to_string())), Err("closed".to_string()));
    assert_eq!(driver_navigated(Ok::<(), String>(())), Ok(true));
    assert_eq!(driver_navigated(Err::<(), String>("net".to_string())), Err("net".to_string()));
    assert!(matches!(page(WebMode::Session).browser(), Route::Run(Backend::Browser)));
}

#[test]
fn operations_carry_their_arguments() {
    let driver = page(WebMode::Driver);
    let call = driver.remove_cookie("sid", Some("https://x.test"), Some(".x.test"), Some("/"));
    assert!(matches!(call.route, Route::Run(Backend::Driver)));
    assert_eq!(call.args, ("sid", Some("https://x.test"), Some(".x.test"), Some("/")));
    let call = page(WebMode::Session).attr("css:#a", "href");
    assert!(matches!(call.route, Route::Run(Backend::Session)));
    assert_eq!(call.args, ("css:#a", "href"));
    let element = WebElement::Session(ElementHandle { id: 1 });
    let call = element.input("hello");
    assert!(matches!(call.route, Route::Refuse(OpenPageError::DriverModeOnly("input()"))));
    assert_eq!(call.args, "hello");
    let call = element.attr("id");
    assert!(matches!(call.route, Route::Run(Backend::Session)));
    assert_eq!(call.args, "id");
}

#[test]
fn fixed_arguments_of_shorthands() {
    let mix = WebElement::Mix { element: ElementHandle { id: 1 }, page: Box::new(page(WebMode::Driver)) };
    let call = mix.child();
    assert!(matches!(call.route, Route::Run(Backend::Driver)));
    assert_eq!(call.args, (None, 1));
    assert_eq!(mix.next().args, (None, 1));
    assert_eq!(mix.afters().args, None);
    let call = mix.clicker().left();
    assert!(matches!(call.route, Route::Run(Backend::Driver)));
    assert_eq!(call.args, (Some(false), None, true));
    let session = WebElement::Session(ElementHandle { id: 2 });
    assert!(matches!(session.clicker().left().route, Route::Refuse(OpenPageError::DriverModeOnly("click_left_with_options()"))));
    assert_eq!(mix.set().inner_html("<b>x</b>").args, ("innerHTML", "<b>x</b>"));
    assert_eq!(mix.set().value("42").args, ("value", "42"));
    assert_eq!(mix.option_elements().args, "css:option");
    assert_eq!(session.selected_option_elements().args, "css:option[selected]");
    assert_eq!(mix.selected_option_elements().args, "css:option:checked");
    let p = page(WebMode::Session);
    assert_eq!(p.set().retry_times::<f64>(3).args, (Some(3), None));
    assert_eq!(p.set().retry_interval(0.5).args, (None, Some(0.5)));
    let call = p.set().timeout(10.0);
    assert_eq!(call.args, (Some(10.0), None, None));
    assert!(matches!(call.route, Route::Run(Backend::Session)));
    assert_eq!(p.set().load_mode().eager().args, LoadMode::Eager);
    assert_eq!(p.set().load_mode().none().args, LoadMode::NoWait);
    assert_eq!(p.set().load_mode().normal().args, LoadMode::Normal);
}

#[test]
fn session_reads_are_made_from_attributes_and_children() {
    let session = WebElement::Session(ElementHandle { id: 2 });
    assert!(matches!(session.value(), ElementRead::Attribute("value")));
    assert!(matches!(session.is_multi_select(), ElementRead::Attribute("multiple")));
    assert!(matches!(session.child_count(), ElementRead::Children(None)));
    assert!(matches!(session.option_texts(), ElementRead::Children(Some("css:option"))));
    assert!(matches!(session.selected_options(), ElementRead::Children(Some("css:option[selected]"))));
    assert!(matches!(session.link(), ElementRead::Attribute("href")));
    let mix = WebElement::Browser(ElementHandle { id: 1 });
    assert!(matches!(mix.value(), ElementRead::Ask(Route::Run(Backend::Driver))));
    assert_eq!(attribute_present(Ok::<Option<String>, String>(Some(String::new()))), Ok(true));
    assert_eq!(attribute_present(Ok::<Option<String>, String>(None)), Ok(false));
    assert_eq!(attribute_present(Err::<Option<String>, String>("e".to_string())), Err("e".to_string()));
    assert_eq!(children_counted(Ok::<Vec<ElementHandle>, String>(vec![ElementHandle { id: 1 }, ElementHandle { id: 2 }])), Ok(2));
    assert_eq!(children_counted(Err::<Vec<ElementHandle>, String>("e".to_string())), Err("e".to_string()));
}

#[test]
fn tabs_reported_by_the_browser_become_web_pages() {
    let p = page(WebMode::Session);
    let tabs = p
        .wrap_tabs(Ok::<Vec<TabReference>, String>(vec![TabReference::Page("T2".to_string()), TabReference::Id("T3".to_string())]))
        .unwrap();
    assert_eq!(tabs.len(), 2);
    assert!(matches!(&tabs[0], TabReference::WebPage(w) if w.target_id() == "T2" && w.mode == WebMode::Session));
    assert!(matches!(&tabs[1], TabReference::Id(id) if id == "T3"));
    assert_eq!(p.wrap_tabs(Err::<Vec<TabReference>, String>("gone".to_string())).unwrap_err(), "gone");
    assert!(matches!(p.wrap_tab(Ok::<Option<TabReference>, String>(None)), Ok(None)));
    assert!(matches!(
        p.wrap_tab(Ok::<Option<TabReference>, String>(Some(TabReference::Page("T4".to_string())))),
        Ok(Some(TabReference::WebPage(_)))
    ));
}
