use webviewbuilder_win::config::{ShowWebview, WebViewBuilder, WindowParams};
use webviewbuilder_win::error::Error;
use webviewbuilder_win::handle::{ControllerCall, EngineEvent, WindowEvent};
use webviewbuilder_win::message::MessageKinds;
use webviewbuilder_win::optional::{ShowAction, WebViewOptional};

fn optional() -> WebViewOptional<u8, u16, u32> {
    let to = MessageKinds::new(vec!["HelloToWebview".to_string()]).unwrap();
    let from = MessageKinds::new(vec!["HelloToServer".to_string()]).unwrap();
    WebViewBuilder::<u8, u16>::new()
        .msg_to_webview(to)
        .msg_from_webview(from)
        .window_builder(WindowParams::new().with_title("Optional".to_string()))
        .build_optional()
}

#[test]
fn optional_starts_closed() {
    let o = optional();
    assert_eq!(o.send_msg(0), Err(Error::WebviewNotShown));
    assert!(!o.is_window(1));
    assert_eq!(o.webview_with(), Err(Error::WebviewNotShown));
    assert_eq!(o.receive(r#"{"type":"HelloToServer"}"#), None);
}

#[test]
fn optional_closed_event_is_an_error() {
    let mut o = optional();
    assert_eq!(o.handle_window_event(&WindowEvent::CloseRequested, 1), Err(Error::WebviewNotShown));
    assert_eq!(
        o.handle_window_event(&WindowEvent::Resized { width: 10, height: 10 }, 1),
        Err(Error::WebviewNotShown)
    );
}

#[test]
fn optional_show_creates_hidden_window() {
    let o = optional();
    match o.show() {
        ShowAction::Create { window } => {
            assert_eq!(window.title, "Optional");
            assert!(!window.visible);
        }
        other => panic!("expected a window to create, got {:?}", other),
    }
}

#[test]
fn optional_life_cycle() {
    let mut o = optional();
    assert!(o.opened(5));
    assert!(o.is_window(5));
    assert!(!o.is_window(6));
    assert_eq!(o.send_msg(0), Ok(None));
    assert_eq!(o.webview_with(), Err(Error::ControllerNotCreated));
    assert_eq!(o.receive(r#"{"type":"HelloToServer"}"#), Some(0));
    assert_eq!(o.handle_window_event(&WindowEvent::Moved { x: 0, y: 0 }, 5), Err(Error::ControllerNotCreated));
    assert_eq!(o.handle_window_event(&WindowEvent::CloseRequested, 6), Ok(ControllerCall::Nothing));
    assert!(o.is_window(5));
    assert_eq!(o.handle_window_event(&WindowEvent::CloseRequested, 5), Ok(ControllerCall::Nothing));
    assert!(!o.is_window(5));
    assert_eq!(o.send_msg(0), Err(Error::WebviewNotShown));
}

#[test]
fn optional_show_twice_reuses_window() {
    let mut o = optional();
    assert!(o.opened(5));
    assert_eq!(o.show(), ShowAction::Raise { window_id: 5 });
    assert!(!o.opened(9));
    assert!(o.is_window(5));
    assert!(!o.is_window(9));
    assert_eq!(o.show(), ShowAction::Raise { window_id: 5 });
}

#[test]
fn optional_reopen_starts_fresh() {
    let mut o = optional();
    assert!(o.opened(5));
    assert!(o.set_controller(5, 77));
    assert_eq!(o.webview_with(), Ok(&77));
    assert_eq!(o.send_msg(0), Ok(Some(r#"{"type":"HelloToWebview"}"#.to_string())));
    assert_eq!(
        o.handle_window_event(&WindowEvent::Resized { width: 600, height: 600 }, 5),
        Ok(ControllerCall::PutBounds(webviewbuilder_win::handle::Rect { left: 0, top: 0, right: 600, bottom: 600 }))
    );
    assert_eq!(o.handle_window_event(&WindowEvent::CloseRequested, 5), Ok(ControllerCall::Nothing));
    assert!(o.opened(8));
    assert!(o.is_window(8));
    assert_eq!(o.webview_with(), Err(Error::ControllerNotCreated));
    assert_eq!(o.send_msg(0), Ok(None));
}

#[test]
fn late_controller_for_closed_window_is_dropped() {
    let mut o = optional();
    assert!(!o.set_controller(5, 1));
    assert!(o.opened(5));
    assert_eq!(o.handle_window_event(&WindowEvent::CloseRequested, 5), Ok(ControllerCall::Nothing));
    assert!(o.opened(6));
    assert!(!o.set_controller(5, 1));
    assert_eq!(o.webview_with(), Err(Error::ControllerNotCreated));
}

#[test]
fn optional_visibility_follows_policy() {
    let mut o = optional();
    assert!(!o.engine_event(5, EngineEvent::NavigationCompleted));
    assert!(o.opened(5));
    assert!(!o.engine_event(6, EngineEvent::NavigationCompleted));
    assert!(!o.engine_event(5, EngineEvent::ContentLoading));
    assert!(o.engine_event(5, EngineEvent::NavigationCompleted));
    assert!(!o.engine_event(5, EngineEvent::NavigationCompleted));
}

#[test]
fn optional_immediately_window_is_visible() {
    let o = WebViewBuilder::<u8, u16>::new().show_on(ShowWebview::Immediately).build_optional::<u32>();
    match o.show() {
        ShowAction::Create { window } => assert!(window.visible),
        other => panic!("expected a window to create, got {:?}", other),
    }
}

#[test]
fn optional_send_text_needs_open_window() {
    let mut o = optional();
    let text = r#"{"type":"HelloToWebview"}"#.to_string();
    assert_eq!(o.send_text(text.clone()), Err(Error::WebviewNotShown));
    assert!(o.opened(3));
    assert_eq!(o.send_text(text.clone()), Ok(None));
    assert!(matches!(o.send_text("{}".to_string()), Err(Error::SerializationError(_))));
    assert!(o.set_controller(3, 9));
    assert_eq!(o.send_text(text.clone()), Ok(Some(text)));
}
