//! Pointer motion, buttons and scrolling.

use vstd::prelude::*;
use crate::event::{
    DeviceEvent,
    DeviceId,
    Event,
    MouseButton,
    MouseScrollDelta,
    TouchPhase,
    WindowEvent,
};
use crate::geometry::{PhysicalPosition, Scalar};
use crate::key_input::spec_stale_events;
use crate::keyboard::{ElementState, ModifiersState};
use crate::queue::{EventQueue, EventWrapper};
use crate::view::{spec_window_event, spec_window_events, ViewState};

verus! {

/// Where the host saw the pointer.
#[derive(Clone, Copy, Debug, PartialEq, Eq, Structural, Hash)]
pub struct PointerSample {
    /// The pointer in the view's own coordinates, as the host reports them.
    pub view_x: Scalar,
    pub view_y: Scalar,
    /// The size of the view.
    pub view_width: Scalar,
    pub view_height: Scalar,
    /// The buttons that are held, one bit each.
    pub buttons_down: u64,
    /// The same point in physical pixels from the top-left corner, not
    /// clipped to the view.
    pub position: PhysicalPosition,
}

/// The phase of a scroll gesture as the host names it.
#[derive(Clone, Copy, Debug, PartialEq, Eq, Structural, Hash)]
pub enum NativeScrollPhase {
    Idle,
    Began,
    Stationary,
    Changed,
    Ended,
    Cancelled,
    MayBegin,
}

/// What the host reports of one scroll step.
#[derive(Clone, Copy, Debug, PartialEq, Eq, Structural, Hash)]
pub struct ScrollSample {
    /// The deltas in the host's sign convention. Precise deltas are in
    /// physical pixels, others in lines.
    pub delta_x: Scalar,
    pub delta_y: Scalar,
    /// The device reports precise deltas.
    pub precise: bool,
    pub phase: NativeScrollPhase,
}

impl PointerSample {
    /// Whether the pointer is outside the view: left of it or below it, or
    /// beyond its width or its height.
    pub open spec fn spec_is_outside(self) -> bool {
        self.view_x.spec_is_sign_negative() || self.view_y.spec_is_sign_negative()
            || self.view_x.spec_gt(self.view_width) || self.view_y.spec_gt(self.view_height)
    }

    /// Whether the motion is reported: inside the view always, outside only
    /// while a button is held, so that a drag goes on beyond the view.
    pub open spec fn spec_is_reported(self) -> bool {
        !self.spec_is_outside() || self.buttons_down != 0
    }

    /// Whether the pointer is outside the view.
    pub fn is_outside(&self) -> (outside: bool)
        ensures
            outside == self.spec_is_outside(),
    {
        self.view_x.is_sign_negative() || self.view_y.is_sign_negative() || self.view_x.gt(
            self.view_width,
        ) || self.view_y.gt(self.view_height)
    }

    /// Whether the motion is reported.
    pub fn is_reported(&self) -> (reported: bool)
        ensures
            reported == self.spec_is_reported(),
    {
        !self.is_outside() || self.buttons_down != 0
    }
}

impl ScrollSample {
    /// The delta in the canonical sign convention: the horizontal axis is
    /// turned round, the vertical axis is kept.
    pub open spec fn spec_delta(self) -> MouseScrollDelta {
        if self.precise {
            MouseScrollDelta::PixelDelta(
                PhysicalPosition { x: self.delta_x.spec_negated(), y: self.delta_y },
            )
        } else {
            MouseScrollDelta::LineDelta(self.delta_x.spec_negated(), self.delta_y)
        }
    }

    /// The delta in the canonical sign convention.
    pub fn delta(&self) -> (delta: MouseScrollDelta)
        ensures
            delta == self.spec_delta(),
    {
        let x = self.delta_x.negated();
        if self.precise {
            MouseScrollDelta::PixelDelta(PhysicalPosition { x, y: self.delta_y })
        } else {
            MouseScrollDelta::LineDelta(x, self.delta_y)
        }
    }
}

impl NativeScrollPhase {
    /// The canonical phase: a gesture that begins or may begin has started, one
    /// that ended has ended, and everything else is movement.
    pub open spec fn spec_touch_phase(self) -> TouchPhase {
        match self {
            NativeScrollPhase::MayBegin | NativeScrollPhase::Began => TouchPhase::Started,
            NativeScrollPhase::Ended => TouchPhase::Ended,
            _ => TouchPhase::Moved,
        }
    }

    /// The canonical phase.
    pub fn touch_phase(self) -> (phase: TouchPhase)
        ensures
            phase == self.spec_touch_phase(),
    {
        match self {
            NativeScrollPhase::MayBegin | NativeScrollPhase::Began => TouchPhase::Started,
            NativeScrollPhase::Ended => TouchPhase::Ended,
            _ => TouchPhase::Moved,
        }
    }
}

/// The motion event for `sample`.
pub open spec fn spec_cursor_moved(sample: PointerSample, carried: ModifiersState) -> WindowEvent {
    WindowEvent::CursorMoved {
        device_id: DeviceId::spec_main(),
        position: sample.position,
        modifiers: carried,
    }
}

/// What a pointer report emits: nothing if the motion is not reported, else
/// the event that brings the mask up to date, if one is due, and the motion.
pub open spec fn spec_motion_events(
    recorded: ModifiersState,
    sample: PointerSample,
    carried: ModifiersState,
) -> Seq<WindowEvent> {
    if sample.spec_is_reported() {
        spec_stale_events(recorded, carried).push(spec_cursor_moved(sample, carried))
    } else {
        Seq::empty()
    }
}

/// The mask that is recorded after a pointer report.
pub open spec fn spec_mask_after_motion(
    recorded: ModifiersState,
    sample: PointerSample,
    carried: ModifiersState,
) -> ModifiersState {
    if sample.spec_is_reported() {
        carried
    } else {
        recorded
    }
}

/// The queue entry of a wheel event that is reported for the device.
pub open spec fn spec_device_wheel(delta: MouseScrollDelta) -> EventWrapper {
    EventWrapper::StaticEvent(
        Event::DeviceEvent {
            device_id: DeviceId::spec_main(),
            event: DeviceEvent::MouseWheel { delta },
        },
    )
}

/// The wheel event that is reported for the window.
pub open spec fn spec_window_wheel(sample: ScrollSample, carried: ModifiersState) -> WindowEvent {
    WindowEvent::MouseWheel {
        device_id: DeviceId::spec_main(),
        delta: sample.spec_delta(),
        phase: sample.phase.spec_touch_phase(),
        modifiers: carried,
    }
}

impl ViewState {
    /// The pointer moved. Motion outside the view is dropped unless a button
    /// is held. For motion that is reported the mask is brought up to date and
    /// a `CursorMoved` with the unclipped position is queued. The result says
    /// whether the motion was reported.
    pub fn mouse_motion(
        &mut self,
        queue: &mut EventQueue,
        sample: &PointerSample,
        carried: ModifiersState,
    ) -> (reported: bool)
        ensures
            reported == sample.spec_is_reported(),
            *final(self) == (ViewState {
                modifiers: spec_mask_after_motion(old(self).modifiers, *sample, carried),
                ..*old(self)
            }),
            final(queue)@ == old(queue)@ + spec_window_events(
                old(self).window_id,
                spec_motion_events(old(self).modifiers, *sample, carried),
            ),
    {
        if !sample.is_reported() {
            proof {
                assert(old(queue)@ + spec_window_events(
                    self.window_id,
                    Seq::<WindowEvent>::empty(),
                ) =~= old(queue)@);
            }
            return false;
        }
        self.update_potentially_stale_modifiers(queue, carried);
        self.push_window_event(
            queue,
            WindowEvent::CursorMoved {
                device_id: DeviceId::main(),
                position: sample.position,
                modifiers: carried,
            },
        );
        proof {
            let stale = spec_stale_events(old(self).modifiers, carried);
            let moved = spec_cursor_moved(*sample, carried);
            assert(old(queue)@ + spec_window_events(self.window_id, stale) + spec_window_events(
                self.window_id,
                seq![moved],
            ) =~= old(queue)@ + spec_window_events(self.window_id, stale.push(moved)));
        }
        true
    }

    /// A button of the pointer went down or came up. The mask is brought up to
    /// date and the button event is queued.
    pub fn mouse_click(
        &mut self,
        queue: &mut EventQueue,
        button: MouseButton,
        button_state: ElementState,
        carried: ModifiersState,
    )
        ensures
            *final(self) == (ViewState { modifiers: carried, ..*old(self) }),
            final(queue)@ == (old(queue)@ + spec_window_events(
                old(self).window_id,
                spec_stale_events(old(self).modifiers, carried),
            )).push(
                spec_window_event(
                    old(self).window_id,
                    WindowEvent::MouseInput {
                        device_id: DeviceId::spec_main(),
                        state: button_state,
                        button,
                        modifiers: carried,
                    },
                ),
            ),
    {
        self.update_potentially_stale_modifiers(queue, carried);
        self.push_window_event(
            queue,
            WindowEvent::MouseInput {
                device_id: DeviceId::main(),
                state: button_state,
                button,
                modifiers: carried,
            },
        );
    }

    /// The pointer came into the tracking region.
    pub fn mouse_entered(&self, queue: &mut EventQueue)
        ensures
            final(queue)@ == old(queue)@.push(
                spec_window_event(
                    self.window_id,
                    WindowEvent::CursorEntered { device_id: DeviceId::spec_main() },
                ),
            ),
    {
        self.push_window_event(queue, WindowEvent::CursorEntered { device_id: DeviceId::main() });
    }

    /// The pointer left the tracking region.
    pub fn mouse_exited(&self, queue: &mut EventQueue)
        ensures
            final(queue)@ == old(queue)@.push(
                spec_window_event(
                    self.window_id,
                    WindowEvent::CursorLeft { device_id: DeviceId::spec_main() },
                ),
            ),
    {
        self.push_window_event(queue, WindowEvent::CursorLeft { device_id: DeviceId::main() });
    }

    /// The wheel or the pad scrolled. The pointer's position is reported as
    /// for a motion. Then the mask is brought up to date, and the delta is
    /// queued twice: as a wheel event of the device and, with the phase and the
    /// mask, as a wheel event of the window.
    pub fn scroll_wheel(
        &mut self,
        queue: &mut EventQueue,
        pointer: &PointerSample,
        scroll: &ScrollSample,
        carried: ModifiersState,
    )
        ensures
            *final(self) == (ViewState { modifiers: carried, ..*old(self) }),
            final(queue)@ == (old(queue)@ + spec_window_events(
                old(self).window_id,
                spec_motion_events(old(self).modifiers, *pointer, carried),
            ) + spec_window_events(
                old(self).window_id,
                spec_stale_events(
                    spec_mask_after_motion(old(self).modifiers, *pointer, carried),
                    carried,
                ),
            )).push(spec_device_wheel(scroll.spec_delta())).push(
                spec_window_event(old(self).window_id, spec_window_wheel(*scroll, carried)),
            ),
    {
        self.mouse_motion(queue, pointer, carried);
        let delta = scroll.delta();
        let phase = scroll.phase.touch_phase();
        self.update_potentially_stale_modifiers(queue, carried);
        queue.queue_event(
            EventWrapper::StaticEvent(
                Event::DeviceEvent {
                    device_id: DeviceId::main(),
                    event: DeviceEvent::MouseWheel { delta },
                },
            ),
        );
        self.push_window_event(
            queue,
            WindowEvent::MouseWheel { device_id: DeviceId::main(), delta, phase, modifiers: carried },
        );
    }

    /// The pressure on the pad changed. The pointer's position is reported as
    /// for a motion, then the pressure is queued. `pressure` is the encoding
    /// of a single-precision number.
    pub fn pressure_change_with_event(
        &mut self,
        queue: &mut EventQueue,
        pointer: &PointerSample,
        pressure: u32,
        stage: i64,
        carried: ModifiersState,
    )
        ensures
            *final(self) == (ViewState {
                modifiers: spec_mask_after_motion(old(self).modifiers, *pointer, carried),
                ..*old(self)
            }),
            final(queue)@ == (old(queue)@ + spec_window_events(
                old(self).window_id,
                spec_motion_events(old(self).modifiers, *pointer, carried),
            )).push(
                spec_window_event(
                    old(self).window_id,
                    WindowEvent::TouchpadPressure {
                        device_id: DeviceId::spec_main(),
                        pressure,
                        stage,
                    },
                ),
            ),
    {
        self.mouse_motion(queue, pointer, carried);
        self.push_window_event(
            queue,
            WindowEvent::TouchpadPressure { device_id: DeviceId::main(), pressure, stage },
        );
    }
}

} // verus!
