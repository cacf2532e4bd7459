//! Key presses, key releases and the modifier mask that events carry.

use vstd::prelude::*;
use crate::event::{DeviceId, KeyEvent, WindowEvent};
use crate::keyboard::{is_arrow_key, ElementState, KeyCode, ModifiersState};
use crate::queue::EventQueue;
use crate::view::{spec_window_event, spec_window_events, ViewState};

verus! {

/// The event that brings the mask up to date: one `ModifiersChanged` if the
/// mask that an event carries differs from the recorded one, and nothing if
/// the two agree.
pub open spec fn spec_stale_events(recorded: ModifiersState, carried: ModifiersState) -> Seq<
    WindowEvent,
> {
    if recorded != carried {
        seq![WindowEvent::ModifiersChanged(carried)]
    } else {
        Seq::empty()
    }
}

/// The event of `key` going into `state`.
pub open spec fn spec_key_input(
    key: KeyCode,
    state: ElementState,
    repeat: bool,
    in_ime: bool,
) -> WindowEvent {
    WindowEvent::KeyboardInput {
        device_id: DeviceId::spec_main(),
        event: KeyEvent { physical_key: key, state, repeat, in_ime },
        is_synthetic: false,
    }
}

/// Whether a key press is handed to the composition interpreter: a repeat of
/// a key that is held is not, so that it cannot insert its character twice.
pub open spec fn spec_passes_to_interpreter(is_key_down: bool, is_repeat: bool) -> bool {
    !is_repeat || !is_key_down
}

/// Whether a key press ends the composition that is under way: it was handed
/// to the interpreter, the interpreter did not answer it, and it is no
/// arrow key.
pub open spec fn spec_cancels_composition(state: ViewState, key: KeyCode, pass_along: bool) -> bool {
    pass_along && state.in_ime_preedit && !state.key_triggered_ime && !key.spec_is_arrow()
}

/// An arrow key never ends a composition.
pub proof fn lemma_arrow_key_keeps_composition(state: ViewState, key: KeyCode, pass_along: bool)
    requires
        key.spec_is_arrow(),
    ensures
        !spec_cancels_composition(state, key, pass_along),
{
}

impl ViewState {
    /// Whether `other` differs from this state at most in what the
    /// composition and the modifier mask hold.
    pub open spec fn spec_same_window(self, other: ViewState) -> bool {
        &&& other.window_id == self.window_id
        &&& other.cursor_state == self.cursor_state
        &&& other.ime_spot == self.ime_spot
        &&& other.phys_modifiers == self.phys_modifiers
        &&& other.tracking_rect == self.tracking_rect
        &&& other.traffic_light_inset == self.traffic_light_inset
    }

    /// Brings the recorded mask up to date with the mask `carried` that the
    /// host attached to an event. A `ModifiersChanged` is queued if and only if
    /// the two differ.
    pub fn update_potentially_stale_modifiers(
        &mut self,
        queue: &mut EventQueue,
        carried: ModifiersState,
    )
        ensures
            *final(self) == (ViewState { modifiers: carried, ..*old(self) }),
            final(queue)@ == old(queue)@ + spec_window_events(
                old(self).window_id,
                spec_stale_events(old(self).modifiers, carried),
            ),
            old(self).modifiers == carried ==> final(queue)@ == old(queue)@,
            old(self).modifiers != carried ==> final(queue)@ == old(queue)@.push(
                spec_window_event(old(self).window_id, WindowEvent::ModifiersChanged(carried)),
            ),
    {
        if self.modifiers != carried {
            self.modifiers = carried;
            self.push_window_event(queue, WindowEvent::ModifiersChanged(carried));
        } else {
            proof {
                assert(old(queue)@ + spec_window_events(
                    self.window_id,
                    Seq::<WindowEvent>::empty(),
                ) =~= old(queue)@);
            }
        }
    }

    /// A key went down: the first half of the press, before the composition
    /// interpreter sees it. The mask is brought up to date. If the press is to
    /// be interpreted, the text under composition is dropped and the mark that
    /// the interpreter answered is cleared. The result says whether the caller
    /// hands the press to the interpreter before it goes on with
    /// [`ViewState::key_down_interpreted`].
    pub fn key_down(&mut self, queue: &mut EventQueue, is_repeat: bool, carried: ModifiersState) -> (pass_along:
        bool)
        ensures
            pass_along == spec_passes_to_interpreter(old(self).is_key_down, is_repeat),
            final(queue)@ == old(queue)@ + spec_window_events(
                old(self).window_id,
                spec_stale_events(old(self).modifiers, carried),
            ),
            old(self).spec_same_window(*final(self)),
            final(self).modifiers == carried,
            final(self).is_key_down == old(self).is_key_down,
            final(self).in_ime_preedit == old(self).in_ime_preedit,
            pass_along ==> final(self).marked_text@ == Seq::<char>::empty() && !final(self).key_triggered_ime,
            !pass_along ==> final(self).marked_text == old(self).marked_text && final(self).key_triggered_ime == old(self).key_triggered_ime,
    {
        self.update_potentially_stale_modifiers(queue, carried);
        let pass_along = !is_repeat || !self.is_key_down;
        if pass_along {
            self.marked_text = String::new();
            self.key_triggered_ime = false;
        }
        pass_along
    }

    /// The second half of a key press, after the interpreter had its chance.
    /// The key event is queued; it is marked as part of a composition if the
    /// interpreter answered the press. A press that the interpreter was given
    /// and did not answer ends the composition under way, unless the key is an
    /// arrow key. The result says whether it did: the caller then tells the
    /// host's input context to discard its text.
    pub fn key_down_interpreted(
        &mut self,
        queue: &mut EventQueue,
        key: KeyCode,
        is_repeat: bool,
        pass_along: bool,
    ) -> (cancel: bool)
        ensures
            cancel == spec_cancels_composition(*old(self), key, pass_along),
            key.spec_is_arrow() ==> !cancel,
            final(queue)@ == old(queue)@.push(
                spec_window_event(
                    old(self).window_id,
                    spec_key_input(
                        key,
                        ElementState::Pressed,
                        is_repeat,
                        old(self).key_triggered_ime,
                    ),
                ),
            ),
            old(self).spec_same_window(*final(self)),
            final(self).modifiers == old(self).modifiers,
            final(self).is_key_down == old(self).is_key_down,
            final(self).key_triggered_ime == old(self).key_triggered_ime,
            final(self).in_ime_preedit == (old(self).in_ime_preedit && !cancel),
            cancel ==> final(self).marked_text@ == Seq::<char>::empty(),
            !cancel ==> final(self).marked_text == old(self).marked_text,
    {
        let in_ime = self.key_triggered_ime;
        let cancel = pass_along && self.in_ime_preedit && !self.key_triggered_ime && !is_arrow_key(
            key,
        );
        if cancel {
            self.unmark_text();
            self.in_ime_preedit = false;
        }
        self.push_window_event(
            queue,
            WindowEvent::KeyboardInput {
                device_id: DeviceId::main(),
                event: KeyEvent {
                    physical_key: key,
                    state: ElementState::Pressed,
                    repeat: is_repeat,
                    in_ime,
                },
                is_synthetic: false,
            },
        );
        cancel
    }

    /// A key came up. No key counts as held after it, the mask is brought up to
    /// date and the key event is queued.
    pub fn key_up(&mut self, queue: &mut EventQueue, key: KeyCode, carried: ModifiersState)
        ensures
            *final(self) == (ViewState { modifiers: carried, is_key_down: false, ..*old(self) }),
            final(queue)@ == (old(queue)@ + spec_window_events(
                old(self).window_id,
                spec_stale_events(old(self).modifiers, carried),
            )).push(
                spec_window_event(
                    old(self).window_id,
                    spec_key_input(key, ElementState::Released, false, false),
                ),
            ),
    {
        self.is_key_down = false;
        self.update_potentially_stale_modifiers(queue, carried);
        self.push_window_event(
            queue,
            WindowEvent::KeyboardInput {
                device_id: DeviceId::main(),
                event: KeyEvent {
                    physical_key: key,
                    state: ElementState::Released,
                    repeat: false,
                    in_ime: false,
                },
                is_synthetic: false,
            },
        );
    }

    /// The host asks to cancel the operation at hand, which is how it reports
    /// the command-period shortcut. The mask is brought up to date and a press
    /// of the key with the scan code 0x2F, the period key, is queued.
    pub fn cancel_operation(&mut self, queue: &mut EventQueue, carried: ModifiersState)
        ensures
            *final(self) == (ViewState { modifiers: carried, ..*old(self) }),
            final(queue)@ == (old(queue)@ + spec_window_events(
                old(self).window_id,
                spec_stale_events(old(self).modifiers, carried),
            )).push(
                spec_window_event(
                    old(self).window_id,
                    spec_key_input(KeyCode::Period, ElementState::Pressed, false, false),
                ),
            ),
    {
        self.update_potentially_stale_modifiers(queue, carried);
        self.push_window_event(
            queue,
            WindowEvent::KeyboardInput {
                device_id: DeviceId::main(),
                event: KeyEvent {
                    physical_key: KeyCode::from_scancode(0x2F),
                    state: ElementState::Pressed,
                    repeat: false,
                    in_ime: false,
                },
                is_synthetic: false,
            },
        );
    }
}

} // verus!
