use webviewbuilder_win::ReceiveWebviewMessage;
use webviewbuilder_win::config::{InitStep, ShowWebview, WebViewBuilder, WindowParams};
use webviewbuilder_win::error::Error;
use webviewbuilder_win::handle::{ControllerCall, EngineEvent, Rect, WebViewWrapper, WindowEvent};
use webviewbuilder_win::message::MessageKinds;

type Builder = WebViewBuilder<u8, u16>;

fn two_way() -> Builder {
    let from = MessageKinds::new(vec!["HelloToServer".to_string(), "OpenOptionalWindow".to_string()]).unwrap();
    let to = MessageKinds::new(vec!["HelloToWebview".to_string()]).unwrap();
    Builder::new().msg_from_webview(from).msg_to_webview(to)
}

#[test]
fn default_window_request() {
    let w = Builder::new().window_request();
    assert_eq!(w.title, "");
    assert!(w.resizable);
    assert_eq!(w.inner_size, None);
    assert!(!w.visible);
}

#[test]
fn configured_window_request() {
    let params = WindowParams::new().with_title("Foo".to_string()).with_resizable(false).with_inner_size(600, 600);
    let w = Builder::new().window_builder(params).show_on(ShowWebview::Immediately).window_request();
    assert_eq!(w.title, "Foo");
    assert!(!w.resizable);
    assert_eq!(w.inner_size, Some((600, 600)));
    assert!(w.visible);
}

#[test]
fn content_loading_window_starts_hidden() {
    let w = Builder::new().show_on(ShowWebview::OnContentLoading).window_request();
    assert!(!w.visible);
}

#[test]
fn init_steps_default() {
    let steps = Builder::new().init_steps();
    assert_eq!(
        steps,
        vec![
            InitStep::PutInitialBounds,
            InitStep::ObserveDocumentTitle,
            InitStep::ObserveNavigationCompleted,
            InitStep::ObserveCloseRequested,
            InitStep::ObserveMessages,
            InitStep::StoreController,
        ]
    );
}

#[test]
fn init_steps_full() {
    let steps = Builder::new().settings(1).webview_init(2).show_on(ShowWebview::OnContentLoading).init_steps();
    assert_eq!(
        steps,
        vec![
            InitStep::ApplySettings,
            InitStep::PutInitialBounds,
            InitStep::ObserveDocumentTitle,
            InitStep::ObserveContentLoading,
            InitStep::ObserveCloseRequested,
            InitStep::ObserveMessages,
            InitStep::RunWebviewInit,
            InitStep::StoreController,
        ]
    );
    let immediate = Builder::new().show_on(ShowWebview::Immediately).init_steps();
    assert_eq!(immediate.len(), 5);
    assert_eq!(immediate[4], InitStep::StoreController);
}

#[test]
fn unready_handle_drops_sends_and_reports_geometry() {
    let h: WebViewWrapper<u32> = two_way().build(7);
    assert!(!h.is_ready());
    assert_eq!(h.send_msg(0), Ok(None));
    assert_eq!(
        h.handle_window_event(&WindowEvent::Resized { width: 600, height: 600 }, 7),
        Err(Error::ControllerNotCreated)
    );
    assert_eq!(h.handle_window_event(&WindowEvent::Moved { x: 1, y: 2 }, 7), Err(Error::ControllerNotCreated));
    assert_eq!(h.webview_with(), Err(Error::ControllerNotCreated));
}

#[test]
fn events_of_other_windows_are_ignored() {
    let h: WebViewWrapper<u32> = two_way().build(7);
    assert_eq!(h.handle_window_event(&WindowEvent::Resized { width: 1, height: 1 }, 8), Ok(ControllerCall::Nothing));
    assert!(h.is_window(7));
    assert!(!h.is_window(8));
    assert_eq!(h.window_id(), 7);
}

#[test]
fn ready_handle_resize_sets_bounds() {
    let mut h: WebViewWrapper<u32> = two_way().build(7);
    h.set_controller(42);
    assert!(h.is_ready());
    assert_eq!(
        h.handle_window_event(&WindowEvent::Resized { width: 600, height: 600 }, 7),
        Ok(ControllerCall::PutBounds(Rect { left: 0, top: 0, right: 600, bottom: 600 }))
    );
    assert_eq!(
        h.handle_window_event(&WindowEvent::Resized { width: 800, height: 300 }, 7),
        Ok(ControllerCall::PutBounds(Rect { left: 0, top: 0, right: 800, bottom: 300 }))
    );
    assert_eq!(
        h.handle_window_event(&WindowEvent::Moved { x: 10, y: 20 }, 7),
        Ok(ControllerCall::NotifyParentWindowPositionChanged)
    );
    assert_eq!(h.handle_window_event(&WindowEvent::CloseRequested, 7), Ok(ControllerCall::Nothing));
    assert_eq!(h.handle_window_event(&WindowEvent::Other, 7), Ok(ControllerCall::Nothing));
    assert_eq!(h.webview_with(), Ok(&42));
}

#[test]
fn oversized_resize_is_held_at_largest_coordinate() {
    let mut h: WebViewWrapper<u32> = two_way().build(7);
    h.set_controller(1);
    assert_eq!(
        h.handle_window_event(&WindowEvent::Resized { width: u32::MAX, height: 2147483648 }, 7),
        Ok(ControllerCall::PutBounds(Rect { left: 0, top: 0, right: i32::MAX, bottom: i32::MAX }))
    );
}

#[test]
fn ready_handle_sends_encoded_message() {
    let mut h: WebViewWrapper<u32> = two_way().build(7);
    h.set_controller(1);
    assert_eq!(h.send_msg(0), Ok(Some(r#"{"type":"HelloToWebview"}"#.to_string())));
}

#[test]
fn handle_receives_declared_messages() {
    let h: WebViewWrapper<u32> = two_way().build(7);
    assert_eq!(h.receive(r#"{ "type" : "HelloToServer" }"#), Some(0));
    assert_eq!(h.receive(r#"{"type":"OpenOptionalWindow"}"#), Some(1));
    assert_eq!(h.receive("Garbled!"), None);
    assert_eq!(h.receive(r#"{"type":"HelloToWebview"}"#), None);
}

#[test]
fn immediately_is_visible_without_engine_events() {
    let mut h: WebViewWrapper<u32> = Builder::new().show_on(ShowWebview::Immediately).build(1);
    assert!(h.is_visible());
    assert!(!h.engine_event(EngineEvent::NavigationCompleted));
    assert!(!h.engine_event(EngineEvent::ContentLoading));
    assert!(h.is_visible());
}

#[test]
fn navigation_completed_policy_shows_once() {
    let mut h: WebViewWrapper<u32> = Builder::new().build(1);
    assert!(!h.is_visible());
    assert!(!h.engine_event(EngineEvent::ContentLoading));
    assert!(!h.is_visible());
    assert!(h.engine_event(EngineEvent::NavigationCompleted));
    assert!(h.is_visible());
    assert!(!h.engine_event(EngineEvent::NavigationCompleted));
    assert!(h.is_visible());
}

#[test]
fn content_loading_policy_shows_once() {
    let mut h: WebViewWrapper<u32> = Builder::new().show_on(ShowWebview::OnContentLoading).build(1);
    assert!(!h.is_visible());
    assert!(!h.engine_event(EngineEvent::NavigationCompleted));
    assert!(!h.is_visible());
    assert!(h.engine_event(EngineEvent::ContentLoading));
    assert!(h.is_visible());
    assert!(!h.engine_event(EngineEvent::ContentLoading));
}

#[test]
fn visible_at_creation_per_policy() {
    assert!(ShowWebview::Immediately.visible_at_creation());
    assert!(!ShowWebview::OnNavigationCompleted.visible_at_creation());
    assert!(!ShowWebview::OnContentLoading.visible_at_creation());
}

#[test]
fn send_text_checks_declared_variant() {
    let mut h: WebViewWrapper<u32> = two_way().build(7);
    let text = r#"{"type":"HelloToWebview","n":3}"#.to_string();
    assert_eq!(h.send_text(text.clone()), Ok(None));
    assert!(matches!(h.send_text(r#"{"type":"Unknown"}"#.to_string()), Err(Error::SerializationError(_))));
    assert!(matches!(h.send_text("Garbled!".to_string()), Err(Error::SerializationError(_))));
    h.set_controller(1);
    assert_eq!(h.send_text(text.clone()), Ok(Some(text)));
}

struct Hello;

impl ReceiveWebviewMessage<std::cell::RefCell<Vec<&'static str>>> for Hello {
    fn pass_to_event_loop_proxy(self, proxy: &std::cell::RefCell<Vec<&'static str>>) {
        proxy.borrow_mut().push("hello");
    }
}

#[test]
fn delivered_message_reaches_the_host_queue() {
    let h: WebViewWrapper<u32> = two_way().build(7);
    let queue = std::cell::RefCell::new(Vec::new());
    for raw in ["Garbled!", r#"{"type":"HelloToServer"}"#, r#"{"type":"Nope"}"#] {
        if h.receive(raw) == Some(0) {
            Hello.pass_to_event_loop_proxy(&queue);
        }
    }
    assert_eq!(queue.into_inner(), vec!["hello"]);
}
