//! A live webview: one window and the slot of its native controller.
//!
//! The controller is created asynchronously after the window; until it has
//! been stored, the slot is empty and the handle answers accordingly.
use crate::config::ShowWebview;
use crate::error::Error;
use crate::message::{encode_spec, parse_spec, MessageKinds};
use vstd::prelude::*;
use vstd::string::*;

verus! {

/// A window event, as far as the webview layer reads it.
#[derive(Clone, Copy, Debug, PartialEq, Eq, Structural)]
pub enum WindowEvent {
    /// The window moved to this position.
    Moved { x: i32, y: i32 },
    /// The client area now has this size.
    Resized { width: u32, height: u32 },
    /// The user asked to close the window.
    CloseRequested,
    /// Any other event.
    Other,
}

/// A rectangle in client coordinates.
#[derive(Clone, Copy, Debug, PartialEq, Eq, Structural)]
pub struct Rect {
    pub left: i32,
    pub top: i32,
    pub right: i32,
    pub bottom: i32,
}

/// What a window event asks of the native controller.
#[derive(Clone, Copy, Debug, PartialEq, Eq, Structural)]
pub enum ControllerCall {
    /// Nothing to do.
    Nothing,
    /// Tell the controller that its parent window moved.
    NotifyParentWindowPositionChanged,
    /// Set the controller's bounds.
    PutBounds(Rect),
}

/// An event of the browser engine that a visibility policy may wait for.
#[derive(Clone, Copy, Debug, PartialEq, Eq, Structural)]
pub enum EngineEvent {
    NavigationCompleted,
    ContentLoading,
}

/// A client size as a coordinate; sizes beyond `i32::MAX` are held at it.
pub open spec fn extent(n: u32) -> i32 {
    if n <= i32::MAX {
        n as i32
    } else {
        i32::MAX
    }
}

/// The bounds that fill a client area of `width` by `height`.
pub open spec fn bounds_for(width: u32, height: u32) -> Rect {
    Rect { left: 0, top: 0, right: extent(width), bottom: extent(height) }
}

/// What the handle of window `window` answers to `event` for window `id`,
/// where `ready` tells whether its controller exists.
pub open spec fn event_outcome(window: u64, ready: bool, event: WindowEvent, id: u64) -> Result<
    ControllerCall,
    Error,
> {
    if id != window {
        Ok(ControllerCall::Nothing)
    } else if !ready {
        Err(Error::ControllerNotCreated)
    } else {
        match event {
            WindowEvent::Moved { .. } => Ok(ControllerCall::NotifyParentWindowPositionChanged),
            WindowEvent::Resized { width, height } => Ok(
                ControllerCall::PutBounds(bounds_for(width, height)),
            ),
            _ => Ok(ControllerCall::Nothing),
        }
    }
}

/// Whether `event` is the one that the policy `show_on` waits for.
pub open spec fn triggers(show_on: ShowWebview, event: EngineEvent) -> bool {
    ||| show_on == ShowWebview::OnNavigationCompleted && event == EngineEvent::NavigationCompleted
    ||| show_on == ShowWebview::OnContentLoading && event == EngineEvent::ContentLoading
}

/// Whether an engine event makes a window visible that is `visible` now.
pub open spec fn shows_now(show_on: ShowWebview, visible: bool, event: EngineEvent) -> bool {
    !visible && triggers(show_on, event)
}

/// The text that `send_msg` hands out for posting: the encoded message where
/// the controller exists, nothing (the message is dropped) where it does not.
pub open spec fn send_outcome(ready: bool, text: Seq<char>) -> Option<Seq<char>> {
    if ready {
        Some(text)
    } else {
        None
    }
}

/// The characters of a text, if there is one.
pub open spec fn text_view(t: Option<String>) -> Option<Seq<char>> {
    match t {
        Some(s) => Some(s@),
        None => None,
    }
}

/// One window with a webview in it. `C` is the native controller.
pub struct WebViewWrapper<C> {
    window: u64,
    controller: Option<C>,
    show_on: ShowWebview,
    visible: bool,
    msg_to_webview: MessageKinds,
    msg_from_webview: MessageKinds,
}

fn extent_of(n: u32) -> (r: i32)
    ensures
        r == extent(n),
{
    if n <= 0x7fff_ffffu32 {
        n as i32
    } else {
        i32::MAX
    }
}

fn policy_triggers(show_on: ShowWebview, event: EngineEvent) -> (r: bool)
    ensures
        r == triggers(show_on, event),
{
    match (show_on, event) {
        (ShowWebview::OnNavigationCompleted, EngineEvent::NavigationCompleted) => true,
        (ShowWebview::OnContentLoading, EngineEvent::ContentLoading) => true,
        _ => false,
    }
}

impl<C> WebViewWrapper<C> {
    /// The identity of the window.
    pub closed spec fn spec_window(&self) -> u64 {
        self.window
    }

    /// The controller slot.
    pub closed spec fn spec_controller(&self) -> Option<C> {
        self.controller
    }

    /// The visibility policy the handle was built with.
    pub closed spec fn spec_show_on(&self) -> ShowWebview {
        self.show_on
    }

    /// Whether the window has been made visible.
    pub closed spec fn spec_visible(&self) -> bool {
        self.visible
    }

    /// The variants that can be sent into the page.
    pub closed spec fn spec_to(&self) -> Seq<Seq<char>> {
        self.msg_to_webview@
    }

    /// The variants that the page can send.
    pub closed spec fn spec_from(&self) -> Seq<Seq<char>> {
        self.msg_from_webview@
    }

    /// A handle for the freshly created window `window`, with an empty
    /// controller slot.
    pub(crate) fn new(
        window: u64,
        show_on: ShowWebview,
        msg_to_webview: MessageKinds,
        msg_from_webview: MessageKinds,
    ) -> (r: WebViewWrapper<C>)
        ensures
            r.spec_window() == window,
            r.spec_controller() is None,
            r.spec_show_on() == show_on,
            r.spec_visible() == (show_on == ShowWebview::Immediately),
            r.spec_to() == msg_to_webview@,
            r.spec_from() == msg_from_webview@,
    {
        let visible = show_on.visible_at_creation();
        WebViewWrapper {
            window,
            controller: None,
            show_on,
            visible,
            msg_to_webview,
            msg_from_webview,
        }
    }

    /// Stores the controller once it is fully set up; from then on the
    /// handle is ready.
    pub fn set_controller(&mut self, controller: C)
        ensures
            final(self).spec_controller() == Some(controller),
            final(self).spec_window() == old(self).spec_window(),
            final(self).spec_show_on() == old(self).spec_show_on(),
            final(self).spec_visible() == old(self).spec_visible(),
            final(self).spec_to() == old(self).spec_to(),
            final(self).spec_from() == old(self).spec_from(),
    {
        self.controller = Some(controller);
    }

    /// Whether the controller exists yet.
    pub fn is_ready(&self) -> (r: bool)
        ensures
            r == self.spec_controller() is Some,
    {
        self.controller.is_some()
    }

    /// Whether the window has been made visible.
    pub fn is_visible(&self) -> (r: bool)
        ensures
            r == self.spec_visible(),
    {
        self.visible
    }

    /// The identity of the window.
    pub fn window_id(&self) -> (r: u64)
        ensures
            r == self.spec_window(),
    {
        self.window
    }

    /// Sends the variant `variant` into the page: the text to post to the
    /// controller, or `None` where the controller does not exist yet, in
    /// which case the message is dropped, not queued.
    pub fn send_msg(&self, variant: usize) -> (r: Result<Option<String>, Error>)
        requires
            variant < self.spec_to().len(),
        ensures
            r matches Ok(t) && text_view(t) == send_outcome(
                self.spec_controller() is Some,
                encode_spec(self.spec_to()[variant as int]),
            ),
    {
        match &self.controller {
            Some(_) => Ok(Some(self.msg_to_webview.encode(variant))),
            None => Ok(None),
        }
    }

    /// Whether `window_id` is this handle's window.
    pub fn is_window(&self, window_id: u64) -> (r: bool)
        ensures
            r == (window_id == self.spec_window()),
    {
        window_id == self.window
    }

    /// The controller, for work this library does not cover; an error while
    /// it does not exist.
    pub fn webview_with(&self) -> (r: Result<&C, Error>)
        ensures
            match self.spec_controller() {
                Some(c) => r == Ok::<&C, Error>(&c),
                None => r == Err::<&C, Error>(Error::ControllerNotCreated),
            },
    {
        match &self.controller {
            Some(c) => Ok(c),
            None => Err(Error::ControllerNotCreated),
        }
    }

    /// What `event`, which happened to window `window_id`, asks of the
    /// controller. Events of other windows ask nothing. A move asks the
    /// controller to follow its parent; a resize sets its bounds to the new
    /// client area with the origin at (0, 0); other events ask nothing.
    pub fn handle_window_event(&self, event: &WindowEvent, window_id: u64) -> (r: Result<
        ControllerCall,
        Error,
    >)
        ensures
            r == event_outcome(self.spec_window(), self.spec_controller() is Some, *event, window_id),
    {
        if !self.is_window(window_id) {
            return Ok(ControllerCall::Nothing);
        }
        if self.controller.is_none() {
            return Err(Error::ControllerNotCreated);
        }
        match event {
            WindowEvent::Moved { .. } => Ok(ControllerCall::NotifyParentWindowPositionChanged),
            WindowEvent::Resized { width, height } => Ok(
                ControllerCall::PutBounds(
                    Rect { left: 0, top: 0, right: extent_of(*width), bottom: extent_of(*height) },
                ),
            ),
            _ => Ok(ControllerCall::Nothing),
        }
    }

    /// Records an engine event; `true` where it is the one the visibility
    /// policy waits for and the window is not visible yet: the controller
    /// and the window are then to be made visible, and this happens once.
    pub fn engine_event(&mut self, event: EngineEvent) -> (r: bool)
        ensures
            r == shows_now(old(self).spec_show_on(), old(self).spec_visible(), event),
            final(self).spec_visible() == (old(self).spec_visible() || r),
            final(self).spec_window() == old(self).spec_window(),
            final(self).spec_controller() == old(self).spec_controller(),
            final(self).spec_show_on() == old(self).spec_show_on(),
            final(self).spec_to() == old(self).spec_to(),
            final(self).spec_from() == old(self).spec_from(),
    {
        if !self.visible && policy_triggers(self.show_on, event) {
            self.visible = true;
            true
        } else {
            false
        }
    }

    /// Sends a message that its type's encoder has already written as text:
    /// an error where the text is not a message of a declared outbound
    /// variant, else the text to post, or `None` (dropped) while the
    /// controller does not exist.
    pub fn send_text(&self, text: String) -> (r: Result<Option<String>, Error>)
        ensures
            parse_spec(text@, self.spec_to()) is None ==> r matches Err(Error::SerializationError(_)),
            parse_spec(text@, self.spec_to()) is Some ==> (r matches Ok(t) && text_view(t)
                == send_outcome(self.spec_controller() is Some, text@)),
    {
        if self.msg_to_webview.parse(text.as_str()).is_none() {
            return Err(Error::SerializationError(String::from_str("not a declared message")));
        }
        match &self.controller {
            Some(_) => Ok(Some(text)),
            None => Ok(None),
        }
    }

    /// The variant that the text `raw`, received from the page, delivers to
    /// the host; `None` for text that is malformed or names no variant.
    pub fn receive(&self, raw: &str) -> (r: Option<usize>)
        ensures
            match r {
                Some(k) => parse_spec(raw@, self.spec_from()) == Some(k as nat),
                None => parse_spec(raw@, self.spec_from()) is None,
            },
    {
        self.msg_from_webview.parse(raw)
    }
}

/// A handle whose controller does not exist yet drops what is sent and
/// reports a move or a resize of its window as an error.
pub proof fn lemma_unready_handle(window: u64, text: Seq<char>, x: i32, y: i32, w: u32, h: u32)
    ensures
        send_outcome(false, text) is None,
        event_outcome(window, false, WindowEvent::Moved { x, y }, window) == Err::<
            ControllerCall,
            Error,
        >(Error::ControllerNotCreated),
        event_outcome(window, false, WindowEvent::Resized { width: w, height: h }, window) == Err::<
            ControllerCall,
            Error,
        >(Error::ControllerNotCreated),
{
}

/// Where a window under the policy `show_on` is visible or not (`visible`)
/// and the engine reports `events` in order: whether it is visible at the
/// end, and how many times it was made visible on the way.
pub open spec fn run_events(show_on: ShowWebview, visible: bool, events: Seq<EngineEvent>) -> (
    bool,
    nat,
)
    decreases events.len(),
{
    if events.len() == 0 {
        (visible, 0)
    } else {
        let now = shows_now(show_on, visible, events[0]);
        let rest = run_events(show_on, visible || now, events.drop_first());
        (rest.0, rest.1 + if now {
            1nat
        } else {
            0nat
        })
    }
}

/// Whether one of `events` is the one that `show_on` waits for.
pub open spec fn any_trigger(show_on: ShowWebview, events: Seq<EngineEvent>) -> bool {
    exists|i: int| 0 <= i < events.len() && #[trigger] triggers(show_on, events[i])
}

proof fn lemma_run_events(show_on: ShowWebview, visible: bool, events: Seq<EngineEvent>)
    ensures
        run_events(show_on, visible, events).0 == (visible || any_trigger(show_on, events)),
        run_events(show_on, visible, events).1 == if !visible && any_trigger(show_on, events) {
            1nat
        } else {
            0nat
        },
    decreases events.len(),
{
    if events.len() > 0 {
        let now = shows_now(show_on, visible, events[0]);
        let tail = events.drop_first();
        lemma_run_events(show_on, visible || now, tail);
        if any_trigger(show_on, tail) {
            let k = choose|k: int| 0 <= k < tail.len() && #[trigger] triggers(show_on, tail[k]);
            assert(triggers(show_on, events[k + 1]));
        }
        if any_trigger(show_on, events) {
            let k = choose|k: int| 0 <= k < events.len() && #[trigger] triggers(show_on, events[k]);
            if k > 0 {
                assert(triggers(show_on, tail[k - 1]));
            }
        }
        if triggers(show_on, events[0]) {
            assert(any_trigger(show_on, events));
        }
    }
}

/// Under `ShowWebview::Immediately` the window is visible from its creation
/// and no engine event is needed; under the two other policies it stays
/// hidden until the event the policy waits for, and is then made visible
/// exactly once, however often the event recurs.
pub proof fn lemma_visibility_policy(show_on: ShowWebview, events: Seq<EngineEvent>)
    ensures
        show_on == ShowWebview::Immediately ==> run_events(
            show_on,
            true,
            events,
        ) == (true, 0nat),
        show_on != ShowWebview::Immediately ==> run_events(show_on, false, events) == if any_trigger(
            show_on,
            events,
        ) {
            (true, 1nat)
        } else {
            (false, 0nat)
        },
{
    lemma_run_events(show_on, show_on == ShowWebview::Immediately, events);
}

} // verus!
