//! The configuration that a webview is built from.
use crate::handle::WebViewWrapper;
use crate::message::MessageKinds;
use crate::optional::WebViewOptional;
use vstd::prelude::*;

verus! {

/// When the window of a newly built webview becomes visible.
#[derive(Clone, Copy, Debug, PartialEq, Eq, Structural)]
pub enum ShowWebview {
    /// Visible from the moment the window is created.
    Immediately,
    /// Visible once the first navigation has completed.
    OnNavigationCompleted,
    /// Visible once the content has started loading.
    OnContentLoading,
}

impl ShowWebview {
    /// Whether a window built under this policy is visible when created.
    pub fn visible_at_creation(&self) -> (r: bool)
        ensures
            r == (*self == ShowWebview::Immediately),
    {
        match self {
            ShowWebview::Immediately => true,
            _ => false,
        }
    }
}

/// What a window is created from.
#[derive(Clone, Debug, PartialEq, Eq)]
pub struct WindowParams {
    pub title: String,
    pub resizable: bool,
    /// The size of the client area, where one is asked for.
    pub inner_size: Option<(u32, u32)>,
    pub visible: bool,
}

impl WindowParams {
    /// A resizable, visible window with an empty title and the platform's
    /// default size.
    pub fn new() -> (r: WindowParams)
        ensures
            r.title@ == Seq::<char>::empty(),
            r.resizable,
            r.inner_size is None,
            r.visible,
    {
        WindowParams { title: String::new(), resizable: true, inner_size: None, visible: true }
    }

    pub fn with_title(self, title: String) -> (r: WindowParams)
        ensures
            r.title@ == title@,
            r.resizable == self.resizable,
            r.inner_size == self.inner_size,
            r.visible == self.visible,
    {
        WindowParams { title, ..self }
    }

    pub fn with_resizable(self, resizable: bool) -> (r: WindowParams)
        ensures
            r.title@ == self.title@,
            r.resizable == resizable,
            r.inner_size == self.inner_size,
            r.visible == self.visible,
    {
        WindowParams { resizable, ..self }
    }

    pub fn with_inner_size(self, width: u32, height: u32) -> (r: WindowParams)
        ensures
            r.title@ == self.title@,
            r.resizable == self.resizable,
            r.inner_size == Some((width, height)),
            r.visible == self.visible,
    {
        WindowParams { inner_size: Some((width, height)), ..self }
    }

    /// A copy of these parameters.
    pub fn duplicate(&self) -> (r: WindowParams)
        ensures
            r.title@ == self.title@,
            r.resizable == self.resizable,
            r.inner_size == self.inner_size,
            r.visible == self.visible,
    {
        WindowParams {
            title: self.title.clone(),
            resizable: self.resizable,
            inner_size: self.inner_size,
            visible: self.visible,
        }
    }
}

/// Whether `r` is the window to create for the window parameters `window`,
/// if any are set, under the policy `show_on`: the parameters as set, or a
/// resizable window with an empty title and the default size; visible at
/// once only under `ShowWebview::Immediately`.
pub open spec fn is_window_request(r: WindowParams, window: Option<WindowParams>, show_on: ShowWebview) -> bool {
    &&& r.visible == (show_on == ShowWebview::Immediately)
    &&& match window {
        Some(w) => r.title@ == w.title@ && r.resizable == w.resizable && r.inner_size
            == w.inner_size,
        None => r.title@ == Seq::<char>::empty() && r.resizable && r.inner_size is None,
    }
}

/// One step of the set-up that runs once the native controller exists.
#[derive(Clone, Copy, Debug, PartialEq, Eq, Structural)]
pub enum InitStep {
    /// Run the settings function.
    ApplySettings,
    /// Fit the controller to the window's client area.
    PutInitialBounds,
    /// Follow the document title in the window title.
    ObserveDocumentTitle,
    /// Show the window when a navigation completes.
    ObserveNavigationCompleted,
    /// Show the window when content starts loading.
    ObserveContentLoading,
    /// Listen for the page asking to close.
    ObserveCloseRequested,
    /// Route messages from the page to the host.
    ObserveMessages,
    /// Run the webview function.
    RunWebviewInit,
    /// Store the controller in the handle, which is then ready.
    StoreController,
}

/// The set-up steps, in order, for a configuration with or without a
/// settings function and a webview function, under the policy `show_on`.
pub open spec fn init_plan(settings: bool, show_on: ShowWebview, webview_init: bool) -> Seq<
    InitStep,
> {
    (if settings {
        seq![InitStep::ApplySettings]
    } else {
        Seq::empty()
    }) + seq![InitStep::PutInitialBounds, InitStep::ObserveDocumentTitle] + (match show_on {
        ShowWebview::Immediately => Seq::empty(),
        ShowWebview::OnNavigationCompleted => seq![InitStep::ObserveNavigationCompleted],
        ShowWebview::OnContentLoading => seq![InitStep::ObserveContentLoading],
    }) + seq![InitStep::ObserveCloseRequested, InitStep::ObserveMessages] + (if webview_init {
        seq![InitStep::RunWebviewInit]
    } else {
        Seq::empty()
    }) + seq![InitStep::StoreController]
}

/// The controller is stored last, after every other step, and only once:
/// nothing outside can see a controller that is only partly set up.
pub proof fn lemma_controller_stored_last(settings: bool, show_on: ShowWebview, webview_init: bool)
    ensures
        init_plan(settings, show_on, webview_init).len() > 0,
        init_plan(settings, show_on, webview_init).last() == InitStep::StoreController,
        forall|i: int|
            0 <= i < init_plan(settings, show_on, webview_init).len() - 1 ==> #[trigger] init_plan(
                settings,
                show_on,
                webview_init,
            )[i] != InitStep::StoreController,
{
    let p = init_plan(settings, show_on, webview_init);
    assert forall|i: int| 0 <= i < p.len() - 1 implies #[trigger] p[i]
        != InitStep::StoreController by {
        let a: Seq<InitStep> = if settings {
            seq![InitStep::ApplySettings]
        } else {
            Seq::empty()
        };
        let b: Seq<InitStep> = match show_on {
            ShowWebview::Immediately => Seq::empty(),
            ShowWebview::OnNavigationCompleted => seq![InitStep::ObserveNavigationCompleted],
            ShowWebview::OnContentLoading => seq![InitStep::ObserveContentLoading],
        };
        let c: Seq<InitStep> = if webview_init {
            seq![InitStep::RunWebviewInit]
        } else {
            Seq::empty()
        };
        let q = a + seq![InitStep::PutInitialBounds, InitStep::ObserveDocumentTitle] + b + seq![
            InitStep::ObserveCloseRequested,
            InitStep::ObserveMessages,
        ] + c;
        assert(p == q + seq![InitStep::StoreController]);
        assert(p[i] == q[i]);
    }
}

/// The configuration of a webview: the message channels, the window, the
/// visibility policy, and the two one-shot set-up functions. `S` is the type
/// of the settings function, `W` that of the webview function.
pub struct WebViewBuilder<S, W> {
    msg_to_webview: MessageKinds,
    msg_from_webview: MessageKinds,
    window_builder: Option<WindowParams>,
    show_on: ShowWebview,
    settings_fn: Option<S>,
    webview_fn: Option<W>,
}

impl<S, W> WebViewBuilder<S, W> {
    pub closed spec fn spec_to(&self) -> Seq<Seq<char>> {
        self.msg_to_webview@
    }

    pub closed spec fn spec_from(&self) -> Seq<Seq<char>> {
        self.msg_from_webview@
    }

    pub closed spec fn spec_window(&self) -> Option<WindowParams> {
        self.window_builder
    }

    pub closed spec fn spec_show_on(&self) -> ShowWebview {
        self.show_on
    }

    pub closed spec fn spec_settings(&self) -> Option<S> {
        self.settings_fn
    }

    pub closed spec fn spec_webview_fn(&self) -> Option<W> {
        self.webview_fn
    }

    /// An empty configuration: no channel in either direction, the default
    /// window, shown once navigation completes, no set-up functions.
    pub fn new() -> (r: WebViewBuilder<S, W>)
        ensures
            r.spec_to() == Seq::<Seq<char>>::empty(),
            r.spec_from() == Seq::<Seq<char>>::empty(),
            r.spec_window() is None,
            r.spec_show_on() == ShowWebview::OnNavigationCompleted,
            r.spec_settings() is None,
            r.spec_webview_fn() is None,
    {
        WebViewBuilder {
            msg_to_webview: MessageKinds::none(),
            msg_from_webview: MessageKinds::none(),
            window_builder: None,
            show_on: ShowWebview::OnNavigationCompleted,
            settings_fn: None,
            webview_fn: None,
        }
    }

    /// Declares the messages that the page sends.
    pub fn msg_from_webview(self, kinds: MessageKinds) -> (r: WebViewBuilder<S, W>)
        ensures
            r.spec_from() == kinds@,
            r.spec_to() == self.spec_to(),
            r.spec_window() == self.spec_window(),
            r.spec_show_on() == self.spec_show_on(),
            r.spec_settings() == self.spec_settings(),
            r.spec_webview_fn() == self.spec_webview_fn(),
    {
        WebViewBuilder { msg_from_webview: kinds, ..self }
    }

    /// Declares the messages that the host sends into the page.
    pub fn msg_to_webview(self, kinds: MessageKinds) -> (r: WebViewBuilder<S, W>)
        ensures
            r.spec_to() == kinds@,
            r.spec_from() == self.spec_from(),
            r.spec_window() == self.spec_window(),
            r.spec_show_on() == self.spec_show_on(),
            r.spec_settings() == self.spec_settings(),
            r.spec_webview_fn() == self.spec_webview_fn(),
    {
        WebViewBuilder { msg_to_webview: kinds, ..self }
    }

    /// Sets the parameters of the window.
    pub fn window_builder(self, window_builder: WindowParams) -> (r: WebViewBuilder<S, W>)
        ensures
            r.spec_window() == Some(window_builder),
            r.spec_to() == self.spec_to(),
            r.spec_from() == self.spec_from(),
            r.spec_show_on() == self.spec_show_on(),
            r.spec_settings() == self.spec_settings(),
            r.spec_webview_fn() == self.spec_webview_fn(),
    {
        WebViewBuilder { window_builder: Some(window_builder), ..self }
    }

    /// Sets the function that adjusts the engine's settings before the
    /// first paint.
    pub fn settings(self, settings_closure: S) -> (r: WebViewBuilder<S, W>)
        ensures
            r.spec_settings() == Some(settings_closure),
            r.spec_to() == self.spec_to(),
            r.spec_from() == self.spec_from(),
            r.spec_window() == self.spec_window(),
            r.spec_show_on() == self.spec_show_on(),
            r.spec_webview_fn() == self.spec_webview_fn(),
    {
        WebViewBuilder { settings_fn: Some(settings_closure), ..self }
    }

    /// Sets when the window becomes visible.
    pub fn show_on(self, show_on: ShowWebview) -> (r: WebViewBuilder<S, W>)
        ensures
            r.spec_show_on() == show_on,
            r.spec_to() == self.spec_to(),
            r.spec_from() == self.spec_from(),
            r.spec_window() == self.spec_window(),
            r.spec_settings() == self.spec_settings(),
            r.spec_webview_fn() == self.spec_webview_fn(),
    {
        WebViewBuilder { show_on, ..self }
    }

    /// Sets the function that runs once the webview exists, such as the
    /// first navigation.
    pub fn webview_init(self, webview_closure: W) -> (r: WebViewBuilder<S, W>)
        ensures
            r.spec_webview_fn() == Some(webview_closure),
            r.spec_to() == self.spec_to(),
            r.spec_from() == self.spec_from(),
            r.spec_window() == self.spec_window(),
            r.spec_show_on() == self.spec_show_on(),
            r.spec_settings() == self.spec_settings(),
    {
        WebViewBuilder { webview_fn: Some(webview_closure), ..self }
    }

    /// The settings function, if one is set.
    pub fn settings_fn(&self) -> (r: &Option<S>)
        ensures
            *r == self.spec_settings(),
    {
        &self.settings_fn
    }

    /// The webview function, if one is set.
    pub fn webview_fn(&self) -> (r: &Option<W>)
        ensures
            *r == self.spec_webview_fn(),
    {
        &self.webview_fn
    }

    /// The window to create: the configured one, or the default one with an
    /// empty title, visible at once only under `ShowWebview::Immediately`.
    pub fn window_request(&self) -> (r: WindowParams)
        ensures
            is_window_request(r, self.spec_window(), self.spec_show_on()),
    {
        let base = match &self.window_builder {
            Some(w) => w.duplicate(),
            None => WindowParams::new(),
        };
        WindowParams { visible: self.show_on.visible_at_creation(), ..base }
    }

    /// The set-up steps to run, in order, once the native controller exists.
    /// A step that fails ends the set-up: the handle then stays unready.
    pub fn init_steps(&self) -> (r: Vec<InitStep>)
        ensures
            r@ == init_plan(
                self.spec_settings() is Some,
                self.spec_show_on(),
                self.spec_webview_fn() is Some,
            ),
    {
        let mut r: Vec<InitStep> = Vec::new();
        if self.settings_fn.is_some() {
            r.push(InitStep::ApplySettings);
        }
        r.push(InitStep::PutInitialBounds);
        r.push(InitStep::ObserveDocumentTitle);
        match self.show_on {
            ShowWebview::Immediately => {},
            ShowWebview::OnNavigationCompleted => r.push(InitStep::ObserveNavigationCompleted),
            ShowWebview::OnContentLoading => r.push(InitStep::ObserveContentLoading),
        }
        r.push(InitStep::ObserveCloseRequested);
        r.push(InitStep::ObserveMessages);
        if self.webview_fn.is_some() {
            r.push(InitStep::RunWebviewInit);
        }
        r.push(InitStep::StoreController);
        assert(r@ =~= init_plan(
            self.spec_settings() is Some,
            self.spec_show_on(),
            self.spec_webview_fn() is Some,
        ));
        r
    }

    /// The handle of the window `window_id`, just created from
    /// `window_request`. Its controller slot is empty until the set-up
    /// stores one.
    pub fn build<C>(&self, window_id: u64) -> (r: WebViewWrapper<C>)
        ensures
            r.spec_window() == window_id,
            r.spec_controller() is None,
            r.spec_show_on() == self.spec_show_on(),
            r.spec_visible() == (self.spec_show_on() == ShowWebview::Immediately),
            r.spec_to() == self.spec_to(),
            r.spec_from() == self.spec_from(),
    {
        WebViewWrapper::new(
            window_id,
            self.show_on,
            self.msg_to_webview.duplicate(),
            self.msg_from_webview.duplicate(),
        )
    }

    /// An optional window made from this configuration: closed until shown.
    pub fn build_optional<C>(self) -> (r: WebViewOptional<S, W, C>)
        ensures
            r.spec_slot() is None,
            r.spec_builder() == self,
            r.wf(),
    {
        WebViewOptional::new(self)
    }
}

} // verus!
