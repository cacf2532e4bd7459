//! The per-window input state machine.
//!
//! The host reports input through callbacks that do not say what changed: a
//! modifier report carries flags but no press or release, a key press may or
//! may not be taken by the composition interpreter, the pointer is reported
//! outside the view. Each callback is a method of [`ViewState`] that updates the
//! state and appends the canonical events to the queue.

use vstd::prelude::*;
use crate::event::{DeviceId, Event, KeyEvent, WindowEvent, WindowId};
use crate::geometry::Scalar;
use crate::keyboard::{ElementState, KeyCode, ModifiersState};
use crate::queue::{EventQueue, EventWrapper};

verus! {

/// Which of the eight physical modifier keys are held.
#[derive(Clone, Copy, Debug, PartialEq, Eq, Structural, Hash)]
pub struct PhysicalModifiers {
    pub shift_left: bool,
    pub shift_right: bool,
    pub control_left: bool,
    pub control_right: bool,
    pub alt_left: bool,
    pub alt_right: bool,
    pub super_left: bool,
    pub super_right: bool,
}

/// The shape of the pointer, by the name under which the host keeps it.
#[derive(Clone, Copy, Debug)]
pub enum Cursor {
    Native(&'static str),
    Undocumented(&'static str),
    WebKit(&'static str),
}

/// Whether the pointer is shown over the view, and in which shape.
pub struct CursorState {
    pub visible: bool,
    pub cursor: Cursor,
}

/// The input state of one window. It lives as long as the window's view.
pub struct ViewState {
    pub window_id: WindowId,
    pub cursor_state: CursorState,
    /// Where the composition window is anchored, once the application has said so.
    pub ime_spot: Option<(Scalar, Scalar)>,
    /// The text that is being composed; empty outside a composition.
    pub marked_text: String,
    /// A composition is under way.
    pub in_ime_preedit: bool,
    /// The key press that is being handled reached the composition interpreter.
    pub key_triggered_ime: bool,
    /// A key is held, so that a repeated press is not interpreted again.
    pub is_key_down: bool,
    pub modifiers: ModifiersState,
    pub phys_modifiers: PhysicalModifiers,
    /// The region in which the host tracks the pointer.
    pub tracking_rect: Option<i64>,
    pub traffic_light_inset: Option<(Scalar, Scalar)>,
}

impl PhysicalModifiers {
    /// No key held.
    pub open spec fn spec_empty() -> PhysicalModifiers {
        PhysicalModifiers {
            shift_left: false,
            shift_right: false,
            control_left: false,
            control_right: false,
            alt_left: false,
            alt_right: false,
            super_left: false,
            super_right: false,
        }
    }

    /// Whether `key` is recorded as held. Only modifier keys ever are.
    pub open spec fn spec_contains(self, key: KeyCode) -> bool {
        match key {
            KeyCode::ShiftLeft => self.shift_left,
            KeyCode::ShiftRight => self.shift_right,
            KeyCode::ControlLeft => self.control_left,
            KeyCode::ControlRight => self.control_right,
            KeyCode::AltLeft => self.alt_left,
            KeyCode::AltRight => self.alt_right,
            KeyCode::SuperLeft => self.super_left,
            KeyCode::SuperRight => self.super_right,
            _ => false,
        }
    }

    /// The record with `key` set to `down`; unchanged where `key` is no modifier key.
    pub open spec fn spec_with(self, key: KeyCode, down: bool) -> PhysicalModifiers {
        match key {
            KeyCode::ShiftLeft => PhysicalModifiers { shift_left: down, ..self },
            KeyCode::ShiftRight => PhysicalModifiers { shift_right: down, ..self },
            KeyCode::ControlLeft => PhysicalModifiers { control_left: down, ..self },
            KeyCode::ControlRight => PhysicalModifiers { control_right: down, ..self },
            KeyCode::AltLeft => PhysicalModifiers { alt_left: down, ..self },
            KeyCode::AltRight => PhysicalModifiers { alt_right: down, ..self },
            KeyCode::SuperLeft => PhysicalModifiers { super_left: down, ..self },
            KeyCode::SuperRight => PhysicalModifiers { super_right: down, ..self },
            _ => self,
        }
    }

    /// No key held.
    pub fn empty() -> (keys: PhysicalModifiers)
        ensures
            keys == PhysicalModifiers::spec_empty(),
    {
        PhysicalModifiers {
            shift_left: false,
            shift_right: false,
            control_left: false,
            control_right: false,
            alt_left: false,
            alt_right: false,
            super_left: false,
            super_right: false,
        }
    }

    /// Whether `key` is recorded as held.
    pub fn contains(&self, key: KeyCode) -> (down: bool)
        ensures
            down == self.spec_contains(key),
    {
        match key {
            KeyCode::ShiftLeft => self.shift_left,
            KeyCode::ShiftRight => self.shift_right,
            KeyCode::ControlLeft => self.control_left,
            KeyCode::ControlRight => self.control_right,
            KeyCode::AltLeft => self.alt_left,
            KeyCode::AltRight => self.alt_right,
            KeyCode::SuperLeft => self.super_left,
            KeyCode::SuperRight => self.super_right,
            _ => false,
        }
    }

    /// Records `key` as held or released. A key that is no modifier key is not recorded.
    pub fn set(&mut self, key: KeyCode, down: bool)
        ensures
            *final(self) == old(self).spec_with(key, down),
    {
        match key {
            KeyCode::ShiftLeft => {
                self.shift_left = down;
            },
            KeyCode::ShiftRight => {
                self.shift_right = down;
            },
            KeyCode::ControlLeft => {
                self.control_left = down;
            },
            KeyCode::ControlRight => {
                self.control_right = down;
            },
            KeyCode::AltLeft => {
                self.alt_left = down;
            },
            KeyCode::AltRight => {
                self.alt_right = down;
            },
            KeyCode::SuperLeft => {
                self.super_left = down;
            },
            KeyCode::SuperRight => {
                self.super_right = down;
            },
            _ => {},
        }
    }
}

impl Default for Cursor {
    fn default() -> (cursor: Cursor)
        ensures
            cursor matches Cursor::Native(name) && name@ == "arrowCursor"@,
    {
        Cursor::Native("arrowCursor")
    }
}

impl Default for CursorState {
    fn default() -> (state: CursorState)
        ensures
            state.visible,
            state.cursor matches Cursor::Native(name) && name@ == "arrowCursor"@,
    {
        CursorState { visible: true, cursor: Cursor::default() }
    }
}

/// The queue entry for `event` of the window `window_id`.
pub open spec fn spec_window_event(window_id: WindowId, event: WindowEvent) -> EventWrapper {
    EventWrapper::StaticEvent(Event::WindowEvent { window_id, event })
}

/// The queue entries for `events` of the window `window_id`, in their order.
pub open spec fn spec_window_events(window_id: WindowId, events: Seq<WindowEvent>) -> Seq<
    EventWrapper,
> {
    events.map(|i: int, event: WindowEvent| spec_window_event(window_id, event))
}

/// The key event that a modifier report stands for.
pub open spec fn spec_modifier_key_event(key: KeyCode, down: bool) -> WindowEvent {
    WindowEvent::KeyboardInput {
        device_id: DeviceId::spec_main(),
        event: KeyEvent {
            physical_key: key,
            state: if down {
                ElementState::Pressed
            } else {
                ElementState::Released
            },
            repeat: false,
            in_ime: false,
        },
        is_synthetic: false,
    }
}

/// Whether `target` is held after a report that names `reported`, where `flag`
/// says whether the report has the flag of the key's modifier set and `was`
/// whether the key was held before.
///
/// A report that names the key itself is a press if the key was up and the flag
/// is set; if the key was down it is the key's release, whatever the flag says,
/// since a second press cannot be reported for a key that is held. A report from
/// a layout switch follows the flag. Any other report leaves the key as it was.
pub open spec fn spec_key_after(reported: KeyCode, target: KeyCode, flag: bool, was: bool) -> bool {
    if reported == KeyCode::KeyA {
        flag
    } else if reported == target {
        flag && !was
    } else {
        was
    }
}

/// The keys held after a report that names `reported` and carries `flags`.
pub open spec fn spec_phys_after(
    phys: PhysicalModifiers,
    reported: KeyCode,
    flags: ModifiersState,
) -> PhysicalModifiers {
    PhysicalModifiers {
        shift_left: spec_key_after(reported, KeyCode::ShiftLeft, flags.shift, phys.shift_left),
        shift_right: spec_key_after(reported, KeyCode::ShiftRight, flags.shift, phys.shift_right),
        control_left: spec_key_after(
            reported,
            KeyCode::ControlLeft,
            flags.control,
            phys.control_left,
        ),
        control_right: spec_key_after(
            reported,
            KeyCode::ControlRight,
            flags.control,
            phys.control_right,
        ),
        alt_left: spec_key_after(reported, KeyCode::AltLeft, flags.alt, phys.alt_left),
        alt_right: spec_key_after(reported, KeyCode::AltRight, flags.alt, phys.alt_right),
        super_left: spec_key_after(reported, KeyCode::SuperLeft, flags.super_key, phys.super_left),
        super_right: spec_key_after(
            reported,
            KeyCode::SuperRight,
            flags.super_key,
            phys.super_right,
        ),
    }
}

/// Whether a modifier is in effect after a report: it follows the report's flag
/// if one of its two keys changed, and stays as it was otherwise.
pub open spec fn spec_family_after(on: bool, flag: bool, left_changed: bool, right_changed: bool) -> bool {
    if left_changed || right_changed {
        flag
    } else {
        on
    }
}

/// The modifier mask after a report that took the keys from `phys` to `next`.
pub open spec fn spec_mask_between(
    mask: ModifiersState,
    phys: PhysicalModifiers,
    next: PhysicalModifiers,
    flags: ModifiersState,
) -> ModifiersState {
    ModifiersState {
        shift: spec_family_after(
            mask.shift,
            flags.shift,
            next.shift_left != phys.shift_left,
            next.shift_right != phys.shift_right,
        ),
        control: spec_family_after(
            mask.control,
            flags.control,
            next.control_left != phys.control_left,
            next.control_right != phys.control_right,
        ),
        alt: spec_family_after(
            mask.alt,
            flags.alt,
            next.alt_left != phys.alt_left,
            next.alt_right != phys.alt_right,
        ),
        super_key: spec_family_after(
            mask.super_key,
            flags.super_key,
            next.super_left != phys.super_left,
            next.super_right != phys.super_right,
        ),
    }
}

/// The modifier mask after a report that names `reported` and carries `flags`.
pub open spec fn spec_mask_after(
    mask: ModifiersState,
    phys: PhysicalModifiers,
    reported: KeyCode,
    flags: ModifiersState,
) -> ModifiersState {
    spec_mask_between(mask, phys, spec_phys_after(phys, reported, flags), flags)
}

/// The key event for `target`, if the key changed from `was` to `now`.
#[verifier::opaque]
pub open spec fn spec_key_events(target: KeyCode, was: bool, now: bool) -> Seq<WindowEvent> {
    if was != now {
        seq![spec_modifier_key_event(target, now)]
    } else {
        Seq::empty()
    }
}

/// The key events that take the keys from `phys` to `next`: one for each key
/// that changed, shift before control before alt before super and left before
/// right.
#[verifier::opaque]
pub open spec fn spec_key_changes(phys: PhysicalModifiers, next: PhysicalModifiers) -> Seq<
    WindowEvent,
> {
    spec_key_events(KeyCode::ShiftLeft, phys.shift_left, next.shift_left) + spec_key_events(
        KeyCode::ShiftRight,
        phys.shift_right,
        next.shift_right,
    ) + spec_key_events(KeyCode::ControlLeft, phys.control_left, next.control_left)
        + spec_key_events(KeyCode::ControlRight, phys.control_right, next.control_right)
        + spec_key_events(KeyCode::AltLeft, phys.alt_left, next.alt_left) + spec_key_events(
        KeyCode::AltRight,
        phys.alt_right,
        next.alt_right,
    ) + spec_key_events(KeyCode::SuperLeft, phys.super_left, next.super_left) + spec_key_events(
        KeyCode::SuperRight,
        phys.super_right,
        next.super_right,
    )
}

/// Everything a modifier report emits: the key events, then one
/// `ModifiersChanged` with the mask that results.
pub open spec fn spec_flags_events(
    mask: ModifiersState,
    phys: PhysicalModifiers,
    reported: KeyCode,
    flags: ModifiersState,
) -> Seq<WindowEvent> {
    spec_key_changes(phys, spec_phys_after(phys, reported, flags)).push(
        WindowEvent::ModifiersChanged(spec_mask_after(mask, phys, reported, flags)),
    )
}

/// Anchors the composition window of `state` at the point (`x`, `y`) of the
/// screen. The caller tells the host's input context that its coordinates
/// are out of date.
pub fn set_ime_position(state: &mut ViewState, x: Scalar, y: Scalar)
    ensures
        *final(state) == (ViewState { ime_spot: Some((x, y)), ..*old(state) }),
{
    state.ime_spot = Some((x, y));
}

/// The state of a view that has seen no input yet.
pub fn new_view(window_id: WindowId) -> (state: ViewState)
    ensures
        state.window_id == window_id,
        state.cursor_state.visible,
        state.cursor_state.cursor matches Cursor::Native(name) && name@ == "arrowCursor"@,
        state.ime_spot is None,
        state.marked_text@ == Seq::<char>::empty(),
        !state.in_ime_preedit,
        !state.key_triggered_ime,
        !state.is_key_down,
        state.modifiers == ModifiersState::spec_empty(),
        state.phys_modifiers == PhysicalModifiers::spec_empty(),
        state.tracking_rect is None,
        state.traffic_light_inset is None,
{
    ViewState {
        window_id,
        cursor_state: CursorState::default(),
        ime_spot: None,
        marked_text: String::new(),
        in_ime_preedit: false,
        key_triggered_ime: false,
        is_key_down: false,
        modifiers: ModifiersState::empty(),
        phys_modifiers: PhysicalModifiers::empty(),
        tracking_rect: None,
        traffic_light_inset: None,
    }
}

impl ViewState {
    /// Appends `event` to the queue as an event of this view's window.
    pub(crate) fn push_window_event(&self, queue: &mut EventQueue, event: WindowEvent)
        ensures
            final(queue)@ == old(queue)@.push(spec_window_event(self.window_id, event)),
            final(queue)@ == old(queue)@ + spec_window_events(self.window_id, seq![event]),
    {
        queue.queue_event(EventWrapper::StaticEvent(Event::WindowEvent { window_id: self.window_id, event }));
        proof {
            assert(old(queue)@.push(spec_window_event(self.window_id, event)) =~= old(queue)@
                + spec_window_events(self.window_id, seq![event]));
        }
    }

    /// The view has to be drawn. The result is what the caller needs for it:
    /// the inset to apply to the title-bar buttons, if the application set
    /// one, and the window for which a redraw is then requested.
    pub fn draw_rect(&self) -> (request: (Option<(Scalar, Scalar)>, WindowId))
        ensures
            request == (self.traffic_light_inset, self.window_id),
    {
        (self.traffic_light_inset, self.window_id)
    }

    /// The view moved to a window or changed its frame, so the host has to
    /// track the pointer in a new region. The result is the region to give up,
    /// if one was tracked; the caller gives it up, registers the new one and
    /// records it with [`ViewState::set_tracking_rect`].
    pub fn take_tracking_rect(&mut self) -> (previous: Option<i64>)
        ensures
            previous == old(self).tracking_rect,
            *final(self) == (ViewState { tracking_rect: None, ..*old(self) }),
    {
        self.tracking_rect.take()
    }

    /// Records the region in which the host tracks the pointer from now on.
    pub fn set_tracking_rect(&mut self, tracking_rect: i64)
        ensures
            *final(self) == (ViewState { tracking_rect: Some(tracking_rect), ..*old(self) }),
    {
        self.tracking_rect = Some(tracking_rect);
    }

    /// The cursor that the host shows over the view: the shape that was set
    /// while the cursor is visible, and none while it is hidden.
    pub fn reset_cursor_rects(&self) -> (shown: Option<Cursor>)
        ensures
            self.cursor_state.visible ==> shown == Some(self.cursor_state.cursor),
            !self.cursor_state.visible ==> shown is None,
    {
        if self.cursor_state.visible {
            Some(self.cursor_state.cursor)
        } else {
            None
        }
    }

    /// Where the host puts the composition window: at the spot that the
    /// application set, or at `window_origin` as long as it has set none.
    pub fn first_rect_for_character_range(&self, window_origin: (Scalar, Scalar)) -> (origin: (
        Scalar,
        Scalar,
    ))
        ensures
            origin == (match self.ime_spot {
                Some(spot) => spot,
                None => window_origin,
            }),
    {
        match self.ime_spot {
            Some(spot) => spot,
            None => window_origin,
        }
    }

    /// Appends the key event for `target` if the key changed from `was` to `now`.
    fn push_key_change(&self, queue: &mut EventQueue, target: KeyCode, was: bool, now: bool)
        ensures
            final(queue)@ == old(queue)@ + spec_window_events(
                self.window_id,
                spec_key_events(target, was, now),
            ),
    {
        reveal(spec_key_events);
        if was != now {
            let event = KeyEvent {
                physical_key: target,
                state: if now {
                    ElementState::Pressed
                } else {
                    ElementState::Released
                },
                repeat: false,
                in_ime: false,
            };
            self.push_window_event(
                queue,
                WindowEvent::KeyboardInput { device_id: DeviceId::main(), event, is_synthetic: false },
            );
        } else {
            proof {
                assert(old(queue)@ + spec_window_events(
                    self.window_id,
                    Seq::<WindowEvent>::empty(),
                ) =~= old(queue)@);
            }
        }
    }

    /// Appends the key events that take the keys from `phys` to `next`, and
    /// one `ModifiersChanged` with `mask` behind them.
    fn push_flag_events(
        &self,
        queue: &mut EventQueue,
        phys: PhysicalModifiers,
        next: PhysicalModifiers,
        mask: ModifiersState,
    )
        ensures
            final(queue)@ == old(queue)@ + spec_window_events(
                self.window_id,
                spec_key_changes(phys, next).push(WindowEvent::ModifiersChanged(mask)),
            ),
    {
        let ghost q0 = queue@;
        self.push_key_change(queue, KeyCode::ShiftLeft, phys.shift_left, next.shift_left);
        self.push_key_change(queue, KeyCode::ShiftRight, phys.shift_right, next.shift_right);
        self.push_key_change(queue, KeyCode::ControlLeft, phys.control_left, next.control_left);
        self.push_key_change(queue, KeyCode::ControlRight, phys.control_right, next.control_right);
        self.push_key_change(queue, KeyCode::AltLeft, phys.alt_left, next.alt_left);
        self.push_key_change(queue, KeyCode::AltRight, phys.alt_right, next.alt_right);
        self.push_key_change(queue, KeyCode::SuperLeft, phys.super_left, next.super_left);
        self.push_key_change(queue, KeyCode::SuperRight, phys.super_right, next.super_right);
        self.push_window_event(queue, WindowEvent::ModifiersChanged(mask));
        proof {
            reveal(spec_key_changes);
            let p1 = spec_key_events(KeyCode::ShiftLeft, phys.shift_left, next.shift_left);
            let p2 = spec_key_events(KeyCode::ShiftRight, phys.shift_right, next.shift_right);
            let p3 = spec_key_events(KeyCode::ControlLeft, phys.control_left, next.control_left);
            let p4 = spec_key_events(KeyCode::ControlRight, phys.control_right, next.control_right);
            let p5 = spec_key_events(KeyCode::AltLeft, phys.alt_left, next.alt_left);
            let p6 = spec_key_events(KeyCode::AltRight, phys.alt_right, next.alt_right);
            let p7 = spec_key_events(KeyCode::SuperLeft, phys.super_left, next.super_left);
            let p8 = spec_key_events(KeyCode::SuperRight, phys.super_right, next.super_right);
            let id = self.window_id;
            lemma_append_events(q0, id, p1, p2);
            lemma_append_events(q0, id, p1 + p2, p3);
            lemma_append_events(q0, id, p1 + p2 + p3, p4);
            lemma_append_events(q0, id, p1 + p2 + p3 + p4, p5);
            lemma_append_events(q0, id, p1 + p2 + p3 + p4 + p5, p6);
            lemma_append_events(q0, id, p1 + p2 + p3 + p4 + p5 + p6, p7);
            lemma_append_events(q0, id, p1 + p2 + p3 + p4 + p5 + p6 + p7, p8);
            let keys = p1 + p2 + p3 + p4 + p5 + p6 + p7 + p8;
            lemma_append_events(q0, id, keys, seq![WindowEvent::ModifiersChanged(mask)]);
            lemma_push_is_append(keys, WindowEvent::ModifiersChanged(mask));
        }
    }

    /// The host reports that the modifier flags changed. `reported` is the key
    /// that the report names and `flags` the modifiers that it has set.
    ///
    /// The report is held against the eight modifier keys. Each key that changed
    /// gets a key event, and one `ModifiersChanged` with the resulting mask
    /// closes the report.
    pub fn flags_changed(&mut self, queue: &mut EventQueue, reported: KeyCode, flags: ModifiersState)
        ensures
            *final(self) == (ViewState {
                phys_modifiers: spec_phys_after(old(self).phys_modifiers, reported, flags),
                modifiers: spec_mask_after(
                    old(self).modifiers,
                    old(self).phys_modifiers,
                    reported,
                    flags,
                ),
                ..*old(self)
            }),
            final(queue)@ == old(queue)@ + spec_window_events(
                old(self).window_id,
                spec_flags_events(old(self).modifiers, old(self).phys_modifiers, reported, flags),
            ),
    {
        let phys = self.phys_modifiers;
        let next = phys_after(phys, reported, flags);
        let mask = mask_after(self.modifiers, phys, next, flags);
        proof {
            lemma_flags_events(self.modifiers, phys, reported, flags, next, mask);
        }
        self.push_flag_events(queue, phys, next, mask);
        self.phys_modifiers = next;
        self.modifiers = mask;
    }
}

/// The events of a report, given the keys and the mask that result from it.
proof fn lemma_flags_events(
    mask: ModifiersState,
    phys: PhysicalModifiers,
    reported: KeyCode,
    flags: ModifiersState,
    next: PhysicalModifiers,
    after: ModifiersState,
)
    requires
        next == spec_phys_after(phys, reported, flags),
        after == spec_mask_between(mask, phys, next, flags),
    ensures
        after == spec_mask_after(mask, phys, reported, flags),
        spec_flags_events(mask, phys, reported, flags) == spec_key_changes(phys, next).push(
            WindowEvent::ModifiersChanged(after),
        ),
{
}

/// Appending a run of one event is pushing that event.
proof fn lemma_push_is_append(events: Seq<WindowEvent>, last: WindowEvent)
    ensures
        events + seq![last] == events.push(last),
{
    assert(events + seq![last] =~= events.push(last));
}

/// Whether `target` is held after a report that names `reported`.
fn key_after(reported: KeyCode, target: KeyCode, flag: bool, was: bool) -> (now: bool)
    ensures
        now == spec_key_after(reported, target, flag, was),
{
    if reported == KeyCode::KeyA {
        // A switch of the input layout is reported under this key code: the
        // report speaks of every modifier key, and its flags decide.
        flag
    } else if reported == target {
        // A report for a key that is held can only be its release.
        flag && !was
    } else {
        was
    }
}

/// The keys held after a report that names `reported` and carries `flags`.
fn phys_after(phys: PhysicalModifiers, reported: KeyCode, flags: ModifiersState) -> (next:
    PhysicalModifiers)
    ensures
        next == spec_phys_after(phys, reported, flags),
{
    PhysicalModifiers {
        shift_left: key_after(reported, KeyCode::ShiftLeft, flags.shift, phys.shift_left),
        shift_right: key_after(reported, KeyCode::ShiftRight, flags.shift, phys.shift_right),
        control_left: key_after(reported, KeyCode::ControlLeft, flags.control, phys.control_left),
        control_right: key_after(
            reported,
            KeyCode::ControlRight,
            flags.control,
            phys.control_right,
        ),
        alt_left: key_after(reported, KeyCode::AltLeft, flags.alt, phys.alt_left),
        alt_right: key_after(reported, KeyCode::AltRight, flags.alt, phys.alt_right),
        super_left: key_after(reported, KeyCode::SuperLeft, flags.super_key, phys.super_left),
        super_right: key_after(reported, KeyCode::SuperRight, flags.super_key, phys.super_right),
    }
}

/// The mask after a report that took the keys from `phys` to `next`.
fn mask_after(
    mask: ModifiersState,
    phys: PhysicalModifiers,
    next: PhysicalModifiers,
    flags: ModifiersState,
) -> (after: ModifiersState)
    ensures
        after == spec_mask_between(mask, phys, next, flags),
{
    ModifiersState {
        shift: if next.shift_left != phys.shift_left || next.shift_right != phys.shift_right {
            flags.shift
        } else {
            mask.shift
        },
        control: if next.control_left != phys.control_left || next.control_right
            != phys.control_right {
            flags.control
        } else {
            mask.control
        },
        alt: if next.alt_left != phys.alt_left || next.alt_right != phys.alt_right {
            flags.alt
        } else {
            mask.alt
        },
        super_key: if next.super_left != phys.super_left || next.super_right != phys.super_right {
            flags.super_key
        } else {
            mask.super_key
        },
    }
}

/// Queueing a run of events and then another is queueing the two runs as one.
proof fn lemma_append_events(
    queue: Seq<EventWrapper>,
    window_id: WindowId,
    first: Seq<WindowEvent>,
    second: Seq<WindowEvent>,
)
    ensures
        queue + spec_window_events(window_id, first) + spec_window_events(window_id, second)
            == queue + spec_window_events(window_id, first + second),
{
    assert(queue + spec_window_events(window_id, first) + spec_window_events(window_id, second)
        =~= queue + spec_window_events(window_id, first + second));
}

} // verus!
