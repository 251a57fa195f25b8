use openpage::element_flow::LocatorMatch;
use openpage::error::OpenPageError;
use openpage::mode::WebMode;
use openpage::model::{ElementHandle, FrameHandle, TabReference, WebElement, WebFrame, WebPage};
use openpage::page_flow::{ModeChange, SideClose};
use openpage::route::{Backend, Route};

fn driver_page() -> WebPage {
    WebPage::new(WebMode::Driver, "TAB-1".to_string())
}

fn session_page() -> WebPage {
    WebPage::new(WebMode::Session, "TAB-1".to_string())
}

fn mix_element() -> WebElement {
    WebElement::Mix { element: ElementHandle { id: 7 }, page: Box::new(driver_page()) }
}

fn mix_frame() -> WebFrame {
    WebFrame::Mix { frame: FrameHandle { id: 3 }, page: Box::new(driver_page()) }
}

fn runs_on(route: Route, backend: Backend) -> bool {
    matches!(route, Route::Run(b) if b == backend)
}

fn refused_as(route: Route, op: &str) -> bool {
    matches!(route, Route::Refuse(OpenPageError::DriverModeOnly(name)) if name == op)
}

#[test]
fn webpage_listener_interceptor_alias_signatures_accept_calls() {
    for page in [driver_page(), session_page()] {
        assert!(runs_on(page.listener(), Backend::Driver));
        assert!(runs_on(page.listen(), Backend::Driver));
        assert!(runs_on(page.interceptor(), Backend::Driver));
        assert!(runs_on(page.intercept(), Backend::Driver));
    }
}

#[test]
fn webpage_close_driver_and_close_session_signatures_accept_roundtrip_types() {
    let _ = WebPage::close_driver as fn(&WebPage) -> SideClose;
    let _ = WebPage::close_session as fn(&WebPage) -> SideClose;
    let to_session = driver_page().close_driver();
    assert_eq!(to_session.change.map(|change: ModeChange| change.target), Some(WebMode::Session));
    assert_eq!(to_session.closed, Backend::Driver);
    let to_driver = session_page().close_session();
    assert_eq!(to_driver.change.map(|change: ModeChange| change.target), Some(WebMode::Driver));
    assert_eq!(to_driver.closed, Backend::Session);
}

#[test]
fn snapshot_find_signatures_accept_by_tuples() {
    assert!(runs_on(driver_page().snapshot_find("css:#root").route, Backend::Driver));
    assert!(runs_on(driver_page().snapshot_find_all("css:#root").route, Backend::Driver));
    assert!(runs_on(session_page().snapshot_find("css:#root").route, Backend::Session));
    assert!(runs_on(session_page().snapshot_find_all("css:#root").route, Backend::Session));
    assert!(runs_on(mix_element().snapshot_find("css:#root").route, Backend::Driver));
    assert!(runs_on(mix_element().snapshot_find_all("css:#root").route, Backend::Driver));
}

#[test]
fn page_frame_element_and_web_wrappers_expose_static_find_aliases() {
    assert!(runs_on(driver_page().s_ele(Ok::<String, OpenPageError>("#root".to_string())).unwrap().route, Backend::Driver));
    assert!(runs_on(driver_page().s_eles(Ok::<String, OpenPageError>("#root".to_string())).unwrap().route, Backend::Driver));
    assert!(runs_on(session_page().s_ele(Ok::<String, OpenPageError>("#root".to_string())).unwrap().route, Backend::Session));
    assert!(runs_on(session_page().s_eles(Ok::<String, OpenPageError>("#root".to_string())).unwrap().route, Backend::Session));
    assert!(runs_on(mix_element().s_ele(Ok::<String, OpenPageError>("#root".to_string())).unwrap().route, Backend::Driver));
    assert!(runs_on(mix_element().s_eles(Ok::<String, OpenPageError>("#root".to_string())).unwrap().route, Backend::Driver));
}

#[test]
fn webpage_and_webframe_find_signatures_accept_by_tuples() {
    let page = driver_page();
    assert!(runs_on(page.find("css:#root").route, Backend::Driver));
    assert!(runs_on(page.find_all("css:#root").route, Backend::Driver));
    let frame = mix_frame();
    assert!(matches!(
        frame.find(Ok::<ElementHandle, OpenPageError>(ElementHandle { id: 11 })),
        Ok(WebElement::Mix { element: ElementHandle { id: 11 }, .. })
    ));
    let all = frame
        .find_all(Ok::<Vec<ElementHandle>, OpenPageError>(vec![ElementHandle { id: 1 }, ElementHandle { id: 2 }]))
        .unwrap();
    assert_eq!(all.len(), 2);
    assert!(matches!(all[1], WebElement::Mix { element: ElementHandle { id: 2 }, .. }));
}

#[test]
fn page_frame_element_and_web_wrappers_find_locators_accept_locator_inputs() {
    let request = driver_page().find_locators(true, false);
    assert!(runs_on(request.route, Backend::Driver));
    assert!(request.any_one && !request.first_match_only);
    let request = session_page().find_locators(false, true);
    assert!(runs_on(request.route, Backend::Session));
    assert!(!request.any_one && request.first_match_only);
    let request = mix_element().find_locators(false, true);
    assert!(runs_on(request.route, Backend::Driver));
    assert!(!request.any_one && request.first_match_only);
    let matches = vec![
        LocatorMatch { locator: "#root".to_string(), elements: vec![ElementHandle { id: 1 }] },
        LocatorMatch {
            locator: ".item".to_string(),
            elements: vec![ElementHandle { id: 2 }, ElementHandle { id: 3 }],
        },
    ];
    let wrapped = mix_frame().find_locators(Ok::<_, OpenPageError>(matches)).unwrap();
    assert_eq!(wrapped.len(), 2);
    assert_eq!(wrapped[0].locator, "#root");
    assert_eq!(wrapped[1].locator, ".item");
    assert_eq!(wrapped[1].elements.len(), 2);
    assert!(matches!(wrapped[1].elements[0], WebElement::Mix { element: ElementHandle { id: 2 }, .. }));
}

#[test]
fn page_and_webpage_frame_lookup_signatures_accept_by_tuples_and_object_refs() {
    let page = driver_page();
    assert!(runs_on(page.get_frame("tag:iframe").route, Backend::Driver));
    assert!(runs_on(page.get_frame_with_timeout("tag:iframe", 0).route, Backend::Driver));
    assert!(runs_on(page.get_frame_ele("css:#root").route, Backend::Driver));
    assert!(runs_on(page.get_frame_ele_with_timeout("tag:iframe", 0).route, Backend::Driver));
    assert!(runs_on(page.get_frame_by_index_with_timeout(0, 0).route, Backend::Driver));
    assert!(runs_on(page.get_frame_ele_by_index_with_timeout(0, 0).route, Backend::Driver));
    assert!(runs_on(page.get_frames(None::<&str>).route, Backend::Driver));
    assert!(runs_on(page.get_frames_with_timeout(None::<&str>, 0).route, Backend::Driver));
    assert!(runs_on(page.get_frame_eles(None::<&str>).route, Backend::Driver));
    assert!(runs_on(page.get_frame_eles_with_timeout(None::<&str>, 0).route, Backend::Driver));
    assert!(runs_on(page.get_frame_context("tag:iframe").route, Backend::Driver));
    assert!(runs_on(page.get_frame_contexts(None::<&str>).route, Backend::Driver));
    let session = session_page();
    assert!(refused_as(session.get_frame_context("tag:iframe").route, "get_frame_context()"));
    assert!(refused_as(session.get_frame_contexts(None::<&str>).route, "get_frame_contexts()"));

    let frame = mix_frame();
    assert!(matches!(
        frame.get_frame(Ok::<FrameHandle, OpenPageError>(FrameHandle { id: 4 })),
        Ok(WebFrame::Mix { frame: FrameHandle { id: 4 }, .. })
    ));
    assert!(matches!(
        frame.get_frame_ele(Ok::<ElementHandle, OpenPageError>(ElementHandle { id: 5 })),
        Ok(WebElement::Mix { element: ElementHandle { id: 5 }, .. })
    ));
    let frames = frame.get_frames(Ok::<Vec<FrameHandle>, OpenPageError>(vec![FrameHandle { id: 8 }])).unwrap();
    assert!(matches!(frames[0], WebFrame::Mix { frame: FrameHandle { id: 8 }, .. }));

    let element = mix_element();
    assert!(runs_on(element.get_frame("tag:iframe").route, Backend::Driver));
    assert!(runs_on(element.get_frame_with_timeout("tag:iframe", 0).route, Backend::Driver));
    assert!(runs_on(element.get_frame_by_index_with_timeout(0, 0).route, Backend::Driver));
    assert!(matches!(
        element.wrap_browser_frame(FrameHandle { id: 9 }),
        WebFrame::Mix { frame: FrameHandle { id: 9 }, .. }
    ));
}

#[test]
fn page_and_webpage_actions_signatures_accept_locators_elements_and_coordinates() {
    assert!(runs_on(driver_page().actions(), Backend::Driver));
    assert!(runs_on(driver_page().new_actions(), Backend::Driver));
    assert!(refused_as(session_page().actions(), "actions()"));
    assert!(refused_as(session_page().new_actions(), "new_actions()"));
}

#[test]
fn element_shadow_root_and_webelement_find_signatures_accept_by_tuples() {
    let element = mix_element();
    assert!(runs_on(element.find("css:#root").route, Backend::Driver));
    assert!(runs_on(element.find_all("css:#root").route, Backend::Driver));
    let session = WebElement::Session(ElementHandle { id: 0 });
    assert!(runs_on(session.find("css:#root").route, Backend::Session));
    assert!(runs_on(session.find_all("css:#root").route, Backend::Session));
}

#[test]
fn element_shadow_root_and_webelement_parent_child_signatures_accept_by_tuples() {
    let element = mix_element();
    assert!(runs_on(element.parent_with("tag:div", 0).route, Backend::Driver));
    assert!(runs_on(element.child_with(None::<&str>, 0).route, Backend::Driver));
    assert!(runs_on(element.children_with(None::<&str>).route, Backend::Driver));
    let children = element.wrap_found_elements(&vec![ElementHandle { id: 21 }]);
    assert!(matches!(children[0], WebElement::Mix { element: ElementHandle { id: 21 }, .. }));
}

#[test]
fn element_shadow_root_and_webelement_prev_next_signatures_accept_by_tuples() {
    let element = mix_element();
    assert!(runs_on(element.prev_with(None::<&str>, 0).route, Backend::Driver));
    assert!(runs_on(element.prevs_with(None::<&str>).route, Backend::Driver));
    assert!(runs_on(element.next_with(None::<&str>, 0).route, Backend::Driver));
    assert!(runs_on(element.nexts_with(None::<&str>).route, Backend::Driver));
}

#[test]
fn element_shadow_root_and_webelement_before_after_signatures_accept_by_tuples() {
    let element = mix_element();
    assert!(runs_on(element.before_with(None::<&str>, 0).route, Backend::Driver));
    assert!(runs_on(element.befores_with(None::<&str>).route, Backend::Driver));
    assert!(runs_on(element.after_with(None::<&str>, 0).route, Backend::Driver));
    assert!(runs_on(element.afters_with(None::<&str>).route, Backend::Driver));
}

#[test]
fn element_and_webelement_offset_signatures_accept_by_tuples() {
    assert!(runs_on(mix_element().offset(None::<&str>, Some(1.0), Some(1.0), 0).route, Backend::Driver));
}

#[test]
fn element_and_webelement_visual_direction_signatures_accept_by_tuples() {
    let element = mix_element();
    assert!(runs_on(element.east(None::<&str>, None, 0).route, Backend::Driver));
    assert!(runs_on(element.south(None::<&str>, None, 0).route, Backend::Driver));
    assert!(runs_on(element.west(None::<&str>, None, 0).route, Backend::Driver));
    assert!(runs_on(element.north(None::<&str>, None, 0).route, Backend::Driver));
    let session = WebElement::Session(ElementHandle { id: 0 });
    assert!(refused_as(session.east(None::<&str>, None, 0).route, "east()"));
}

#[test]
fn tab_references_from_mix_objects_are_web_pages() {
    let opened = mix_element().wrap_page("TAB-2".to_string());
    assert!(matches!(opened, TabReference::WebPage(ref p) if p.target_id == "TAB-2" && p.mode == WebMode::Driver));
    let plain = WebElement::Browser(ElementHandle { id: 1 }).wrap_page("TAB-3".to_string());
    assert!(matches!(plain, TabReference::Page(ref id) if id == "TAB-3"));
    let owner = mix_frame().owner_reference("TAB-1".to_string());
    assert!(matches!(owner, TabReference::WebPage(ref p) if p.target_id == "TAB-1"));
}

#[test]
fn page_and_frame_find_signatures_accept_by_tuples() {
    let frame = WebFrame::Browser(FrameHandle { id: 2 });
    let root = frame.find(Ok::<ElementHandle, OpenPageError>(ElementHandle { id: 1 }));
    assert!(matches!(root, Ok(WebElement::Browser(ElementHandle { id: 1 }))));
    let items = frame
        .find_all(Ok::<Vec<ElementHandle>, OpenPageError>(vec![ElementHandle { id: 4 }, ElementHandle { id: 5 }]))
        .unwrap();
    assert_eq!(items.len(), 2);
    assert!(matches!(items[0], WebElement::Browser(ElementHandle { id: 4 })));
    assert!(matches!(items[1], WebElement::Browser(ElementHandle { id: 5 })));
    let missing = frame.find(Err::<ElementHandle, String>("no element for id root".to_string()));
    assert_eq!(missing.unwrap_err(), "no element for id root");
    let none = frame.find_all(Err::<Vec<ElementHandle>, String>("no element for class item".to_string()));
    assert_eq!(none.unwrap_err(), "no element for class item");
}

#[test]
fn frame_and_webframe_element_reader_signatures_accept_common_inputs() {
    for web_frame in [WebFrame::Browser(FrameHandle { id: 6 }), mix_frame()] {
        let driver = web_frame.frame();
        assert_eq!(web_frame.text(), driver);
        assert_eq!(web_frame.raw_text(), driver);
        assert_eq!(web_frame.value(), driver);
        assert_eq!(web_frame.comments(), driver);
        for text_node_only in [false, true] {
            let call = web_frame.texts(text_node_only);
            assert_eq!(call.frame, driver);
            assert_eq!(call.args, text_node_only);
        }
        for base64_to_bytes in [false, true] {
            let call = web_frame.src(500, base64_to_bytes);
            assert_eq!(call.frame, driver);
            assert_eq!(call.args, (500, base64_to_bytes));
        }
        let call = web_frame.save(None::<&std::path::Path>, Some("frame.jpg"), 500, true);
        assert_eq!(call.frame, driver);
        assert_eq!(call.args, (None, Some("frame.jpg"), 500, true));
        let call = web_frame.save(Some(std::path::Path::new("/tmp")), None::<&str>, 500, false);
        assert_eq!(call.args, (Some(std::path::Path::new("/tmp")), None, 500, false));
        assert_eq!(web_frame.pseudo_before(), driver);
        assert_eq!(web_frame.pseudo_after(), driver);
        let call = web_frame.scroll_to_see(Some(true));
        assert_eq!(call.frame, driver);
        assert_eq!(call.args, Some(true));
        assert_eq!(web_frame.scroll_to_center(), driver);
    }
}
