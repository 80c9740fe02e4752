//! An optional window: created when shown, discarded when closed, and
//! created anew from the same configuration when shown again.
use crate::config::{is_window_request, ShowWebview, WebViewBuilder, WindowParams};
use crate::error::Error;
use crate::handle::{
    event_outcome, send_outcome, shows_now, text_view, ControllerCall, EngineEvent,
    WebViewWrapper, WindowEvent,
};
use crate::message::{encode_spec, parse_spec};
use vstd::prelude::*;

verus! {

/// What showing an optional window asks of the caller.
#[derive(Clone, Debug, PartialEq, Eq)]
pub enum ShowAction {
    /// The window is open: bring it to the foreground.
    Raise { window_id: u64 },
    /// The window is closed: create one from these parameters and hand its
    /// identity to `opened`.
    Create { window: WindowParams },
}

/// The window of a slot after showing it, where showing it when closed
/// creates the window `created`.
pub open spec fn slot_show(slot: Option<u64>, created: u64) -> Option<u64> {
    match slot {
        Some(w) => Some(w),
        None => Some(created),
    }
}

/// The window of a slot after `event` on window `id`: a close request for
/// its own window closes it.
pub open spec fn slot_event(slot: Option<u64>, event: WindowEvent, id: u64) -> Option<u64> {
    if slot == Some(id) && event == WindowEvent::CloseRequested {
        None
    } else {
        slot
    }
}

/// A window with a webview that exists only while it is shown.
pub struct WebViewOptional<S, W, C> {
    builder: WebViewBuilder<S, W>,
    instance: Option<WebViewWrapper<C>>,
}

impl<S, W, C> WebViewOptional<S, W, C> {
    /// The window that is open, if any.
    pub closed spec fn spec_slot(&self) -> Option<u64> {
        match self.instance {
            Some(h) => Some(h.spec_window()),
            None => None,
        }
    }

    /// The open handle, if any.
    pub closed spec fn spec_instance(&self) -> Option<WebViewWrapper<C>> {
        self.instance
    }

    /// The configuration each new window is made from.
    pub closed spec fn spec_builder(&self) -> WebViewBuilder<S, W> {
        self.builder
    }

    /// The open handle, if any, was made from the configuration.
    pub closed spec fn wf(&self) -> bool {
        self.instance matches Some(h) ==> h.spec_to() == self.builder.spec_to() && h.spec_from()
            == self.builder.spec_from()
    }

    pub(crate) fn new(builder: WebViewBuilder<S, W>) -> (r: WebViewOptional<S, W, C>)
        ensures
            r.spec_slot() is None,
            r.spec_instance() is None,
            r.wf(),
            r.spec_builder() == builder,
    {
        WebViewOptional { builder, instance: None }
    }

    /// The configuration each new window is made from.
    pub fn builder(&self) -> (r: &WebViewBuilder<S, W>)
        ensures
            *r == self.spec_builder(),
    {
        &self.builder
    }

    /// Sends the variant `variant` into the page: an error while the window
    /// is closed, else what the open handle answers.
    pub fn send_msg(&self, variant: usize) -> (r: Result<Option<String>, Error>)
        requires
            self.wf(),
            variant < self.spec_builder().spec_to().len(),
        ensures
            self.spec_slot() is None ==> r == Err::<Option<String>, Error>(Error::WebviewNotShown),
            match self.spec_instance() {
                None => r == Err::<Option<String>, Error>(Error::WebviewNotShown),
                Some(h) => r matches Ok(t) && text_view(t) == send_outcome(
                    h.spec_controller() is Some,
                    encode_spec(self.spec_builder().spec_to()[variant as int]),
                ),
            },
    {
        match &self.instance {
            Some(h) => h.send_msg(variant),
            None => Err(Error::WebviewNotShown),
        }
    }

    /// Sends a message already written as text: an error while the window
    /// is closed, else what the open handle answers.
    pub fn send_text(&self, text: String) -> (r: Result<Option<String>, Error>)
        requires
            self.wf(),
        ensures
            self.spec_slot() is None ==> r == Err::<Option<String>, Error>(Error::WebviewNotShown),
            match self.spec_instance() {
                None => r == Err::<Option<String>, Error>(Error::WebviewNotShown),
                Some(h) => {
                    &&& parse_spec(text@, self.spec_builder().spec_to()) is None ==> (r matches Err(
                        Error::SerializationError(_),
                    ))
                    &&& parse_spec(text@, self.spec_builder().spec_to()) is Some ==> (r matches Ok(
                        t,
                    ) && text_view(t) == send_outcome(h.spec_controller() is Some, text@))
                },
            },
    {
        match &self.instance {
            Some(h) => h.send_text(text),
            None => Err(Error::WebviewNotShown),
        }
    }

    /// Whether `window_id` is the open window.
    pub fn is_window(&self, window_id: u64) -> (r: bool)
        ensures
            r == (self.spec_slot() == Some(window_id)),
    {
        match &self.instance {
            Some(h) => h.is_window(window_id),
            None => false,
        }
    }

    /// The controller of the open window; an error while the window is
    /// closed or its controller does not exist yet.
    pub fn webview_with(&self) -> (r: Result<&C, Error>)
        ensures
            match self.spec_instance() {
                None => r == Err::<&C, Error>(Error::WebviewNotShown),
                Some(h) => match h.spec_controller() {
                    Some(c) => r == Ok::<&C, Error>(&c),
                    None => r == Err::<&C, Error>(Error::ControllerNotCreated),
                },
            },
    {
        match &self.instance {
            Some(h) => h.webview_with(),
            None => Err(Error::WebviewNotShown),
        }
    }

    /// What showing the window takes: raising the open window, or creating
    /// one from the configuration. Nothing is created while one is open.
    pub fn show(&self) -> (r: ShowAction)
        ensures
            match self.spec_slot() {
                Some(w) => r == ShowAction::Raise { window_id: w },
                None => r matches ShowAction::Create { window } && is_window_request(
                    window,
                    self.spec_builder().spec_window(),
                    self.spec_builder().spec_show_on(),
                ),
            },
    {
        match &self.instance {
            Some(h) => ShowAction::Raise { window_id: h.window_id() },
            None => ShowAction::Create { window: self.builder.window_request() },
        }
    }

    /// Takes the window `window_id`, created for `show`, as the open one with
    /// a fresh handle; where a window is open already it stays, and `false`
    /// is returned.
    pub fn opened(&mut self, window_id: u64) -> (r: bool)
        requires
            old(self).wf(),
        ensures
            final(self).wf(),
            r == old(self).spec_slot() is None,
            final(self).spec_slot() == slot_show(old(self).spec_slot(), window_id),
            final(self).spec_builder() == old(self).spec_builder(),
            r ==> (final(self).spec_instance() matches Some(h) && h.spec_window() == window_id
                && h.spec_controller() is None && h.spec_show_on() == old(
                self,
            ).spec_builder().spec_show_on() && h.spec_visible() == (old(
                self,
            ).spec_builder().spec_show_on() == ShowWebview::Immediately) && h.spec_to() == old(
                self,
            ).spec_builder().spec_to() && h.spec_from() == old(self).spec_builder().spec_from()),
            !r ==> final(self).spec_instance() == old(self).spec_instance(),
    {
        if self.instance.is_some() {
            return false;
        }
        self.instance = Some(self.builder.build(window_id));
        true
    }

    /// Handles `event` of window `window_id`: an error while closed; a close
    /// request for the open window closes it and discards its handle;
    /// anything else is what the open handle answers.
    pub fn handle_window_event(&mut self, event: &WindowEvent, window_id: u64) -> (r: Result<
        ControllerCall,
        Error,
    >)
        requires
            old(self).wf(),
        ensures
            final(self).wf(),
            final(self).spec_slot() == slot_event(old(self).spec_slot(), *event, window_id),
            final(self).spec_builder() == old(self).spec_builder(),
            match old(self).spec_instance() {
                None => r == Err::<ControllerCall, Error>(Error::WebviewNotShown),
                Some(h) => if h.spec_window() == window_id && *event == WindowEvent::CloseRequested {
                    r == Ok::<ControllerCall, Error>(ControllerCall::Nothing)
                        && final(self).spec_instance() is None
                } else {
                    r == event_outcome(h.spec_window(), h.spec_controller() is Some, *event, window_id)
                        && final(self).spec_instance() == old(self).spec_instance()
                },
            },
    {
        let close = match &self.instance {
            None => return Err(Error::WebviewNotShown),
            Some(h) => h.is_window(window_id) && matches!(event, WindowEvent::CloseRequested),
        };
        if close {
            self.instance = None;
            return Ok(ControllerCall::Nothing);
        }
        match &self.instance {
            Some(h) => h.handle_window_event(event, window_id),
            None => Err(Error::WebviewNotShown),
        }
    }

    /// Stores the controller made for window `window_id`. It is stored only
    /// where that window is still the open one: a controller that arrives
    /// after its window was closed is dropped.
    pub fn set_controller(&mut self, window_id: u64, controller: C) -> (r: bool)
        requires
            old(self).wf(),
        ensures
            final(self).wf(),
            r == (old(self).spec_slot() == Some(window_id)),
            final(self).spec_slot() == old(self).spec_slot(),
            final(self).spec_builder() == old(self).spec_builder(),
            r ==> (final(self).spec_instance() matches Some(h) && h.spec_controller() == Some(
                controller,
            )),
            !r ==> final(self).spec_instance() == old(self).spec_instance(),
    {
        match &mut self.instance {
            Some(h) => {
                if h.is_window(window_id) {
                    h.set_controller(controller);
                    true
                } else {
                    false
                }
            },
            None => false,
        }
    }

    /// Records an engine event of window `window_id`; `true` where the open
    /// window is to be made visible now.
    pub fn engine_event(&mut self, window_id: u64, event: EngineEvent) -> (r: bool)
        requires
            old(self).wf(),
        ensures
            final(self).wf(),
            final(self).spec_slot() == old(self).spec_slot(),
            final(self).spec_builder() == old(self).spec_builder(),
            match old(self).spec_instance() {
                Some(h) => if h.spec_window() == window_id {
                    r == shows_now(h.spec_show_on(), h.spec_visible(), event)
                } else {
                    !r
                },
                None => !r,
            },
    {
        match &mut self.instance {
            Some(h) => {
                if h.is_window(window_id) {
                    h.engine_event(event)
                } else {
                    false
                }
            },
            None => false,
        }
    }

    /// The variant that the text `raw` from the open window's page delivers;
    /// `None` while closed, or for text that delivers nothing.
    pub fn receive(&self, raw: &str) -> (r: Option<usize>)
        ensures
            match self.spec_instance() {
                None => r is None,
                Some(h) => match r {
                    Some(k) => parse_spec(raw@, h.spec_from()) == Some(k as nat),
                    None => parse_spec(raw@, h.spec_from()) is None,
                },
            },
    {
        match &self.instance {
            Some(h) => h.receive(raw),
            None => None,
        }
    }
}

/// The life cycle of an optional window: closed at first, so a send is
/// refused; once shown with the window `created`, that window and no other
/// is its window; a close request for it closes the slot again.
pub proof fn lemma_optional_lifecycle(created: u64, other: u64)
    requires
        other != created,
    ensures
        slot_show(None, created) == Some(created),
        slot_show(None, created) != Some(other),
        slot_event(slot_show(None, created), WindowEvent::CloseRequested, created) is None,
        slot_event(slot_show(None, created), WindowEvent::CloseRequested, other) == Some(created),
{
}

/// Showing twice with no close between keeps the first window: the second
/// show creates nothing.
pub proof fn lemma_show_twice_same_window(slot: Option<u64>, first: u64, second: u64)
    ensures
        slot_show(slot_show(slot, first), second) == slot_show(slot, first),
{
}

} // verus!
