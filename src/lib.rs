//! A builder for a window that embeds a native webview, and the typed
//! message bridge between the host and the page inside it.
//!
//! The library holds the decisions: how messages are written and read, what
//! a configuration builds, what a window event asks of the controller, when
//! the window becomes visible, and the life cycle of an optional window. The
//! native window and controller are driven by the caller, which performs the
//! actions that these decisions return.
use vstd::prelude::*;

pub mod config;
pub mod error;
pub mod handle;
pub mod message;
pub mod optional;

pub use config::{ShowWebview, WebViewBuilder};
pub use error::Error;
pub use handle::WebViewWrapper;
pub use message::{NoMsg, ReceiveWebviewMessage};
pub use optional::WebViewOptional;

verus! {

} // verus!
