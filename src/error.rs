use vstd::prelude::*;

verus! {

/// What can go wrong with a webview.
#[derive(Clone, Debug, PartialEq, Eq)]
pub enum Error {
    /// The native controller has not been created yet (or never will be).
    ControllerNotCreated,
    /// The optional window is closed.
    WebviewNotShown,
    /// A message could not be written as text; the text says why.
    SerializationError(String),
    /// A call into the browser engine failed with this result code.
    WebView2Error(i32),
    /// The window could not be created; the text says why.
    WindowBuildError(String),
}

} // verus!
