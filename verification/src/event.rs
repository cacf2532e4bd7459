//! The canonical events that reach the application.

use vstd::prelude::*;
use crate::geometry::{PhysicalPosition, Scalar};
use crate::keyboard::{ElementState, KeyCode, ModifiersState};

verus! {

/// Identifies a window; resolved from the native handle by the host glue.
#[derive(Clone, Copy, Debug, PartialEq, Eq, Structural, Hash)]
pub struct WindowId(pub u64);

/// Identifies a logical input device.
#[derive(Clone, Copy, Debug, PartialEq, Eq, Structural, Hash)]
pub struct DeviceId(pub u64);

/// The number of the one logical device that all input of a view is attributed to.
pub const MAIN_DEVICE: u64 = 0;

impl DeviceId {
    /// The one logical device that all input of a view is attributed to.
    pub open spec fn spec_main() -> DeviceId {
        DeviceId(MAIN_DEVICE)
    }

    /// The one logical device that all input of a view is attributed to.
    pub fn main() -> (id: DeviceId)
        ensures
            id == DeviceId::spec_main(),
    {
        DeviceId(MAIN_DEVICE)
    }
}

/// A button of the pointer.
#[derive(Clone, Copy, Debug, PartialEq, Eq, Structural, Hash)]
pub enum MouseButton {
    Left,
    Right,
    Middle,
    Other(u16),
}

/// Where a gesture stands.
#[derive(Clone, Copy, Debug, PartialEq, Eq, Structural, Hash)]
pub enum TouchPhase {
    Started,
    Moved,
    Ended,
    Cancelled,
}

/// How far the wheel or the pad scrolled, in the canonical sign convention.
#[derive(Clone, Copy, Debug, PartialEq, Eq, Structural, Hash)]
pub enum MouseScrollDelta {
    /// A distance in lines or rows, from a device that scrolls in steps.
    LineDelta(Scalar, Scalar),
    /// A distance in pixels, from a device that reports precise deltas.
    PixelDelta(PhysicalPosition),
}

/// A key going down or coming up.
#[derive(Clone, Copy, Debug, PartialEq, Eq, Structural, Hash)]
pub struct KeyEvent {
    pub physical_key: KeyCode,
    pub state: ElementState,
    /// The host repeated the key because it is being held.
    pub repeat: bool,
    /// The press took part in a text composition, so it carries no text of its own.
    pub in_ime: bool,
}

/// Input that is reported for the device, whichever window has the focus.
#[derive(Clone, Copy, Debug, PartialEq, Eq, Structural, Hash)]
pub enum DeviceEvent {
    MouseWheel { delta: MouseScrollDelta },
}

/// Input and lifecycle events of one window.
#[derive(Clone, Debug, PartialEq, Eq)]
pub enum WindowEvent {
    KeyboardInput { device_id: DeviceId, event: KeyEvent, is_synthetic: bool },
    ModifiersChanged(ModifiersState),
    ReceivedImeText(String),
    CursorMoved { device_id: DeviceId, position: PhysicalPosition, modifiers: ModifiersState },
    CursorEntered { device_id: DeviceId },
    CursorLeft { device_id: DeviceId },
    MouseWheel {
        device_id: DeviceId,
        delta: MouseScrollDelta,
        phase: TouchPhase,
        modifiers: ModifiersState,
    },
    MouseInput {
        device_id: DeviceId,
        state: ElementState,
        button: MouseButton,
        modifiers: ModifiersState,
    },
    /// `pressure` is the encoding of a single-precision number between 0 and 1.
    TouchpadPressure { device_id: DeviceId, pressure: u32, stage: i64 },
}

/// Why the loop woke up.
#[allow(inconsistent_fields)]
#[derive(Clone, Copy, Debug, PartialEq, Eq, Structural, Hash)]
pub enum StartCause {
    /// The deadline of a `WaitUntil` was reached.
    ResumeTimeReached { start: u64, requested_resume: u64 },
    /// The loop was woken before it had to be.
    WaitCancelled { start: u64, requested_resume: Option<u64> },
    /// The policy was `Poll`.
    Poll,
    /// The loop runs for the first time.
    Init,
}

/// Everything the application's handler can be called with.
#[allow(inconsistent_fields)]
#[derive(Clone, Debug, PartialEq, Eq)]
pub enum Event<T> {
    NewEvents(StartCause),
    WindowEvent { window_id: WindowId, event: WindowEvent },
    DeviceEvent { device_id: DeviceId, event: DeviceEvent },
    UserEvent(T),
    MainEventsCleared,
    RedrawRequested(WindowId),
    RedrawEventsCleared,
    LoopDestroyed,
}

/// The payload type of an event that cannot carry a payload: no value of it
/// can be made.
#[derive(Clone, Copy, Debug, PartialEq, Eq, Hash)]
pub enum Never {
    Impossible(core::convert::Infallible),
}

impl WindowEvent {
    /// The text of a `ReceivedImeText`, and nothing for any other event.
    pub open spec fn spec_ime_text(self) -> Option<Seq<char>> {
        match self {
            WindowEvent::ReceivedImeText(text) => Some(text@),
            _ => None,
        }
    }
}

impl<T> Event<T> {
    /// Whether this event carries an application payload.
    pub open spec fn spec_is_user_event(self) -> bool {
        self is UserEvent
    }

    /// The same event for another payload type. Only a `UserEvent` has no
    /// counterpart.
    pub open spec fn spec_retyped<U>(self) -> Option<Event<U>> {
        match self {
            Event::NewEvents(cause) => Some(Event::NewEvents(cause)),
            Event::WindowEvent { window_id, event } => Some(
                Event::WindowEvent { window_id, event },
            ),
            Event::DeviceEvent { device_id, event } => Some(
                Event::DeviceEvent { device_id, event },
            ),
            Event::UserEvent(_) => None,
            Event::MainEventsCleared => Some(Event::MainEventsCleared),
            Event::RedrawRequested(window_id) => Some(Event::RedrawRequested(window_id)),
            Event::RedrawEventsCleared => Some(Event::RedrawEventsCleared),
            Event::LoopDestroyed => Some(Event::LoopDestroyed),
        }
    }

    /// Changes the payload type of an event that carries no payload. A
    /// `UserEvent` is handed back untouched.
    pub fn map_nonuser_event<U>(self) -> (mapped: Result<Event<U>, Event<T>>)
        ensures
            self.spec_retyped::<U>() is Some ==> mapped == Ok::<Event<U>, Event<T>>(
                self.spec_retyped::<U>()->0,
            ),
            self.spec_retyped::<U>() is None ==> mapped == Err::<Event<U>, Event<T>>(self),
    {
        match self {
            Event::NewEvents(cause) => Ok(Event::NewEvents(cause)),
            Event::WindowEvent { window_id, event } => Ok(Event::WindowEvent { window_id, event }),
            Event::DeviceEvent { device_id, event } => Ok(Event::DeviceEvent { device_id, event }),
            Event::UserEvent(payload) => Err(Event::UserEvent(payload)),
            Event::MainEventsCleared => Ok(Event::MainEventsCleared),
            Event::RedrawRequested(window_id) => Ok(Event::RedrawRequested(window_id)),
            Event::RedrawEventsCleared => Ok(Event::RedrawEventsCleared),
            Event::LoopDestroyed => Ok(Event::LoopDestroyed),
        }
    }
}

} // verus!
