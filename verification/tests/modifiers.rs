use tao_core::event::{DeviceId, Event, KeyEvent, WindowEvent, WindowId};
use tao_core::keyboard::{ElementState, KeyCode, Modifier, ModifiersState};
use tao_core::queue::{EventQueue, EventWrapper};
use tao_core::view::{new_view, PhysicalModifiers};

fn mask(shift: bool, control: bool, alt: bool, super_key: bool) -> ModifiersState {
    ModifiersState { shift, control, alt, super_key }
}

fn key_event(id: u64, key: KeyCode, state: ElementState) -> EventWrapper {
    EventWrapper::StaticEvent(Event::WindowEvent {
        window_id: WindowId(id),
        event: WindowEvent::KeyboardInput {
            device_id: DeviceId(0),
            event: KeyEvent { physical_key: key, state, repeat: false, in_ime: false },
            is_synthetic: false,
        },
    })
}

fn changed(id: u64, mask: ModifiersState) -> EventWrapper {
    EventWrapper::StaticEvent(Event::WindowEvent {
        window_id: WindowId(id),
        event: WindowEvent::ModifiersChanged(mask),
    })
}

fn drain(queue: &mut EventQueue) -> Vec<EventWrapper> {
    let mut out = Vec::new();
    while let Some(event) = queue.pop() {
        out.push(event);
    }
    out
}

fn count(events: &[EventWrapper], key: KeyCode, state: ElementState) -> usize {
    events.iter().filter(|e| **e == key_event(3, key, state)).count()
}

#[test]
fn a_new_view_holds_nothing() {
    let view = new_view(WindowId(3));
    assert_eq!(view.window_id, WindowId(3));
    assert_eq!(view.modifiers, ModifiersState::empty());
    assert_eq!(view.phys_modifiers, PhysicalModifiers::empty());
    assert!(view.cursor_state.visible);
    assert!(!view.in_ime_preedit);
    assert!(!view.key_triggered_ime);
    assert!(!view.is_key_down);
    assert_eq!(view.marked_text, "");
    assert_eq!(view.tracking_rect, None);
    assert_eq!(view.ime_spot, None);
}

#[test]
fn a_flag_that_is_newly_set_is_a_press() {
    let mut view = new_view(WindowId(3));
    let mut queue = EventQueue::new();
    view.flags_changed(&mut queue, KeyCode::ShiftLeft, mask(true, false, false, false));
    assert_eq!(
        drain(&mut queue),
        vec![
            key_event(3, KeyCode::ShiftLeft, ElementState::Pressed),
            changed(3, mask(true, false, false, false)),
        ]
    );
    assert!(view.phys_modifiers.contains(KeyCode::ShiftLeft));
    assert!(!view.phys_modifiers.contains(KeyCode::ShiftRight));
    assert!(view.modifiers.contains(Modifier::Shift));
}

#[test]
fn a_cleared_flag_is_a_release() {
    let mut view = new_view(WindowId(3));
    let mut queue = EventQueue::new();
    view.flags_changed(&mut queue, KeyCode::ControlRight, mask(false, true, false, false));
    view.flags_changed(&mut queue, KeyCode::ControlRight, mask(false, false, false, false));
    assert_eq!(
        drain(&mut queue),
        vec![
            key_event(3, KeyCode::ControlRight, ElementState::Pressed),
            changed(3, mask(false, true, false, false)),
            key_event(3, KeyCode::ControlRight, ElementState::Released),
            changed(3, mask(false, false, false, false)),
        ]
    );
    assert_eq!(view.phys_modifiers, PhysicalModifiers::empty());
    assert_eq!(view.modifiers, ModifiersState::empty());
}

#[test]
fn a_second_report_for_a_held_key_is_its_release() {
    // Both shift keys are held, then the left one comes up: the flag is still
    // set, because the right one is held.
    let mut view = new_view(WindowId(3));
    let mut queue = EventQueue::new();
    let shift = mask(true, false, false, false);
    view.flags_changed(&mut queue, KeyCode::ShiftLeft, shift);
    view.flags_changed(&mut queue, KeyCode::ShiftRight, shift);
    view.flags_changed(&mut queue, KeyCode::ShiftLeft, shift);
    assert_eq!(
        drain(&mut queue),
        vec![
            key_event(3, KeyCode::ShiftLeft, ElementState::Pressed),
            changed(3, shift),
            key_event(3, KeyCode::ShiftRight, ElementState::Pressed),
            changed(3, shift),
            key_event(3, KeyCode::ShiftLeft, ElementState::Released),
            changed(3, shift),
        ]
    );
    assert!(!view.phys_modifiers.contains(KeyCode::ShiftLeft));
    assert!(view.phys_modifiers.contains(KeyCode::ShiftRight));
    assert!(view.modifiers.shift);
}

#[test]
fn a_report_without_a_change_emits_the_mask_alone() {
    let mut view = new_view(WindowId(3));
    let mut queue = EventQueue::new();
    view.flags_changed(&mut queue, KeyCode::Other(57), ModifiersState::empty());
    assert_eq!(drain(&mut queue), vec![changed(3, ModifiersState::empty())]);
    assert_eq!(view.phys_modifiers, PhysicalModifiers::empty());
}

#[test]
fn a_report_for_another_key_leaves_a_modifier_as_it_was() {
    let mut view = new_view(WindowId(3));
    let mut queue = EventQueue::new();
    view.flags_changed(&mut queue, KeyCode::AltLeft, mask(false, false, true, false));
    drain(&mut queue);
    view.flags_changed(&mut queue, KeyCode::SuperLeft, mask(false, false, true, true));
    assert_eq!(
        drain(&mut queue),
        vec![
            key_event(3, KeyCode::SuperLeft, ElementState::Pressed),
            changed(3, mask(false, false, true, true)),
        ]
    );
    assert!(view.phys_modifiers.contains(KeyCode::AltLeft));
    assert!(view.phys_modifiers.contains(KeyCode::SuperLeft));
}

#[test]
fn a_layout_switch_report_follows_the_flags() {
    // Control is held and the layout is switched: the release of control is
    // reported under the key code of the letter A.
    let mut view = new_view(WindowId(3));
    let mut queue = EventQueue::new();
    view.flags_changed(&mut queue, KeyCode::ControlLeft, mask(false, true, false, false));
    drain(&mut queue);
    view.flags_changed(&mut queue, KeyCode::KeyA, ModifiersState::empty());
    assert_eq!(
        drain(&mut queue),
        vec![
            key_event(3, KeyCode::ControlLeft, ElementState::Released),
            changed(3, ModifiersState::empty()),
        ]
    );
    assert_eq!(view.phys_modifiers, PhysicalModifiers::empty());
}

#[test]
fn a_layout_switch_report_does_not_press_a_held_key_again() {
    let mut view = new_view(WindowId(3));
    let mut queue = EventQueue::new();
    let control = mask(false, true, false, false);
    view.flags_changed(&mut queue, KeyCode::ControlLeft, control);
    drain(&mut queue);
    view.flags_changed(&mut queue, KeyCode::KeyA, control);
    assert_eq!(
        drain(&mut queue),
        vec![key_event(3, KeyCode::ControlRight, ElementState::Pressed), changed(3, control)]
    );
}

#[test]
fn key_events_come_in_the_order_of_the_modifiers() {
    let mut view = new_view(WindowId(3));
    let mut queue = EventQueue::new();
    let all = mask(true, true, true, true);
    view.flags_changed(&mut queue, KeyCode::KeyA, all);
    let pressed = |key| key_event(3, key, ElementState::Pressed);
    assert_eq!(
        drain(&mut queue),
        vec![
            pressed(KeyCode::ShiftLeft),
            pressed(KeyCode::ShiftRight),
            pressed(KeyCode::ControlLeft),
            pressed(KeyCode::ControlRight),
            pressed(KeyCode::AltLeft),
            pressed(KeyCode::AltRight),
            pressed(KeyCode::SuperLeft),
            pressed(KeyCode::SuperRight),
            changed(3, all),
        ]
    );
}

#[test]
fn presses_and_releases_balance_over_a_sequence() {
    let mut view = new_view(WindowId(3));
    let mut queue = EventQueue::new();
    let reports = [
        (KeyCode::ShiftLeft, mask(true, false, false, false)),
        (KeyCode::ControlLeft, mask(true, true, false, false)),
        (KeyCode::ShiftRight, mask(true, true, false, false)),
        (KeyCode::ShiftLeft, mask(true, true, false, false)),
        (KeyCode::KeyA, mask(true, false, false, false)),
        (KeyCode::ShiftRight, mask(false, false, false, false)),
        (KeyCode::AltRight, mask(false, false, true, false)),
        (KeyCode::AltRight, mask(false, false, false, false)),
        (KeyCode::ShiftLeft, mask(false, false, false, false)),
    ];
    for (key, flags) in reports {
        view.flags_changed(&mut queue, key, flags);
    }
    let events = drain(&mut queue);
    let keys = [
        KeyCode::ShiftLeft,
        KeyCode::ShiftRight,
        KeyCode::ControlLeft,
        KeyCode::ControlRight,
        KeyCode::AltLeft,
        KeyCode::AltRight,
        KeyCode::SuperLeft,
        KeyCode::SuperRight,
    ];
    for key in keys {
        let held = if view.phys_modifiers.contains(key) { 1 } else { 0 };
        assert_eq!(
            count(&events, key, ElementState::Pressed),
            count(&events, key, ElementState::Released) + held
        );
    }
    assert_eq!(view.phys_modifiers, PhysicalModifiers::empty());
    // The left shift key goes down at the start and again with the layout switch.
    assert_eq!(count(&events, KeyCode::ShiftLeft, ElementState::Pressed), 2);
    assert_eq!(count(&events, KeyCode::ShiftLeft, ElementState::Released), 2);
    assert_eq!(count(&events, KeyCode::ShiftRight, ElementState::Pressed), 1);
    assert_eq!(count(&events, KeyCode::ControlLeft, ElementState::Released), 1);
    assert_eq!(count(&events, KeyCode::SuperLeft, ElementState::Pressed), 0);
}

#[test]
fn the_mask_has_four_independent_modifiers() {
    let mut m = ModifiersState::empty();
    assert!(m.is_empty());
    m.insert(Modifier::Alt);
    assert_eq!(m, mask(false, false, true, false));
    m.insert(Modifier::Super);
    m.remove(Modifier::Alt);
    assert_eq!(m, mask(false, false, false, true));
    assert!(m.contains(Modifier::Super));
    assert!(!m.contains(Modifier::Shift));
    m.set(Modifier::Shift, true);
    m.set(Modifier::Control, true);
    m.set(Modifier::Super, false);
    assert_eq!(m, mask(true, true, false, false));
    assert_eq!(ModifiersState::default(), ModifiersState::empty());
}

#[test]
fn only_modifier_keys_are_recorded_as_held() {
    let mut keys = PhysicalModifiers::empty();
    keys.set(KeyCode::KeyA, true);
    keys.set(KeyCode::Other(4), true);
    assert_eq!(keys, PhysicalModifiers::empty());
    keys.set(KeyCode::SuperRight, true);
    assert!(keys.contains(KeyCode::SuperRight));
    assert!(!keys.contains(KeyCode::KeyA));
    assert_eq!(KeyCode::SuperRight.family(), Some(Modifier::Super));
    assert_eq!(KeyCode::ShiftLeft.family(), Some(Modifier::Shift));
    assert_eq!(KeyCode::ControlRight.family(), Some(Modifier::Control));
    assert_eq!(KeyCode::AltLeft.family(), Some(Modifier::Alt));
    assert_eq!(KeyCode::Period.family(), None);
}

#[test]
fn presses_and_releases_of_a_key_take_turns() {
    let mut view = new_view(WindowId(3));
    let mut queue = EventQueue::new();
    let reports = [
        (KeyCode::ShiftLeft, mask(true, false, false, false)),
        (KeyCode::ShiftLeft, mask(true, false, false, false)),
        (KeyCode::KeyA, mask(true, true, false, false)),
        (KeyCode::KeyA, mask(true, true, false, false)),
        (KeyCode::ShiftRight, mask(true, true, false, false)),
        (KeyCode::ControlLeft, mask(false, false, false, false)),
        (KeyCode::Other(9), mask(false, false, false, true)),
        (KeyCode::SuperLeft, mask(false, false, false, true)),
        (KeyCode::KeyA, mask(false, false, false, false)),
        (KeyCode::ShiftLeft, mask(true, false, false, false)),
    ];
    for (key, flags) in reports {
        view.flags_changed(&mut queue, key, flags);
    }
    let events = drain(&mut queue);
    let keys = [
        KeyCode::ShiftLeft,
        KeyCode::ShiftRight,
        KeyCode::ControlLeft,
        KeyCode::ControlRight,
        KeyCode::AltLeft,
        KeyCode::AltRight,
        KeyCode::SuperLeft,
        KeyCode::SuperRight,
    ];
    for key in keys {
        let mut held = false;
        for event in &events {
            if *event == key_event(3, key, ElementState::Pressed) {
                assert!(!held, "{:?} was pressed twice in a row", key);
                held = true;
            } else if *event == key_event(3, key, ElementState::Released) {
                assert!(held, "{:?} was released while it was up", key);
                held = false;
            }
        }
        assert_eq!(held, view.phys_modifiers.contains(key));
    }
    assert!(view.phys_modifiers.contains(KeyCode::ShiftLeft));
    assert_eq!(count(&events, KeyCode::ShiftLeft, ElementState::Pressed), 3);
}

#[test]
fn a_key_can_stay_held_after_its_flag_is_cleared_for_the_other_key() {
    // Both shift keys go down, then the host reports the left one with the flag
    // cleared: the right one was not named and stays held.
    let mut view = new_view(WindowId(3));
    let mut queue = EventQueue::new();
    view.flags_changed(&mut queue, KeyCode::ShiftLeft, mask(true, false, false, false));
    view.flags_changed(&mut queue, KeyCode::ShiftRight, mask(true, false, false, false));
    view.flags_changed(&mut queue, KeyCode::ShiftLeft, mask(false, false, false, false));
    let events = drain(&mut queue);
    assert!(!view.phys_modifiers.contains(KeyCode::ShiftLeft));
    assert!(view.phys_modifiers.contains(KeyCode::ShiftRight));
    assert_eq!(count(&events, KeyCode::ShiftRight, ElementState::Pressed), 1);
    assert_eq!(count(&events, KeyCode::ShiftRight, ElementState::Released), 0);
    assert_eq!(count(&events, KeyCode::ShiftLeft, ElementState::Pressed), 1);
    assert_eq!(count(&events, KeyCode::ShiftLeft, ElementState::Released), 1);
}
