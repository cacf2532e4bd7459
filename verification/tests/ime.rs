use tao_core::event::{DeviceId, Event, KeyEvent, WindowEvent, WindowId};
use tao_core::ime::{
    deliverable_text, empty_range, is_corporate_character, utf16_len, TextRange, NOT_FOUND,
};
use tao_core::keyboard::{is_arrow_key, ElementState, KeyCode, ModifiersState};
use tao_core::queue::{EventQueue, EventWrapper};
use tao_core::view::new_view;

fn window_event(event: WindowEvent) -> EventWrapper {
    EventWrapper::StaticEvent(Event::WindowEvent { window_id: WindowId(1), event })
}

fn key_input(key: KeyCode, state: ElementState, repeat: bool, in_ime: bool) -> EventWrapper {
    window_event(WindowEvent::KeyboardInput {
        device_id: DeviceId(0),
        event: KeyEvent { physical_key: key, state, repeat, in_ime },
        is_synthetic: false,
    })
}

fn drain(queue: &mut EventQueue) -> Vec<EventWrapper> {
    let mut out = Vec::new();
    while let Some(event) = queue.pop() {
        out.push(event);
    }
    out
}

#[test]
fn the_reserved_ranges_are_told_apart_at_their_borders() {
    let reserved = [
        '\u{F700}', '\u{F720}', '\u{F747}', '\u{F802}', '\u{F84F}', '\u{F850}', '\u{F85C}',
        '\u{F85D}', '\u{F85F}', '\u{F860}', '\u{F86B}', '\u{F870}', '\u{F8FF}',
    ];
    for c in reserved {
        assert!(is_corporate_character(c), "{:x}", c as u32);
    }
    let free = [
        'a', '\u{0}', '\u{F6FF}', '\u{F748}', '\u{F801}', '\u{F851}', '\u{F85B}', '\u{F85E}',
        '\u{F86C}', '\u{F86F}', '\u{F900}', '\u{E000}', '\u{10FFFF}',
    ];
    for c in free {
        assert!(!is_corporate_character(c), "{:x}", c as u32);
    }
}

#[test]
fn reserved_characters_are_taken_out_of_committed_text() {
    assert_eq!(deliverable_text("abc"), "abc");
    assert_eq!(deliverable_text(""), "");
    assert_eq!(deliverable_text("a\u{F700}b\u{F8FF}c"), "abc");
    assert_eq!(deliverable_text("\u{F704}"), "");
    assert_eq!(deliverable_text("\u{F850}\u{65E5}\u{672C}\u{F85C}\u{8A9E}"), "\u{65E5}\u{672C}\u{8A9E}");
    assert_eq!(deliverable_text("\u{F801}\u{1F600}"), "\u{F801}\u{1F600}");
}

#[test]
fn text_is_counted_in_utf16_code_units() {
    assert_eq!(utf16_len(""), 0);
    assert_eq!(utf16_len("abc"), 3);
    assert_eq!(utf16_len("\u{65E5}\u{672C}"), 2);
    assert_eq!(utf16_len("a\u{1F600}"), 3);
    assert_eq!(utf16_len("\u{FFFF}\u{10000}"), 3);
    assert_eq!(utf16_len("a\u{1F600}") as usize, "a\u{1F600}".encode_utf16().count());
}

#[test]
fn committed_text_is_delivered_without_reserved_characters() {
    let mut view = new_view(WindowId(1));
    let mut queue = EventQueue::new();
    view.insert_text(&mut queue, "o\u{F700}k");
    assert_eq!(
        drain(&mut queue),
        vec![window_event(WindowEvent::ReceivedImeText(String::from("ok")))]
    );
    assert!(view.is_key_down);
    assert!(!view.in_ime_preedit);
    assert!(!view.key_triggered_ime);
}

#[test]
fn a_commit_ends_the_composition() {
    let mut view = new_view(WindowId(1));
    let mut queue = EventQueue::new();
    view.set_marked_text("ni");
    assert!(view.in_ime_preedit);
    assert!(view.key_triggered_ime);
    assert_eq!(view.marked_text, "ni");
    assert!(view.has_marked_text());
    view.key_triggered_ime = false;
    view.insert_text(&mut queue, "\u{4F60}");
    assert!(!view.in_ime_preedit);
    assert!(view.key_triggered_ime);
    assert_eq!(view.marked_text, "ni");
    assert_eq!(
        drain(&mut queue),
        vec![window_event(WindowEvent::ReceivedImeText(String::from("\u{4F60}")))]
    );
}

#[test]
fn new_composition_text_replaces_the_old() {
    let mut view = new_view(WindowId(1));
    view.set_marked_text("n");
    view.set_marked_text("ni");
    assert_eq!(view.marked_text, "ni");
    view.unmark_text();
    assert_eq!(view.marked_text, "");
    assert!(!view.has_marked_text());
    assert!(view.in_ime_preedit);
}

#[test]
fn the_marked_range_is_one_short_of_the_text() {
    let mut view = new_view(WindowId(1));
    assert_eq!(view.marked_range(), TextRange { location: NOT_FOUND, length: 0 });
    assert_eq!(view.marked_range(), empty_range());
    assert_eq!(view.selected_range(), empty_range());
    view.set_marked_text("abc");
    assert_eq!(view.marked_range(), TextRange { location: 0, length: 2 });
    view.set_marked_text("\u{1F600}");
    assert_eq!(view.marked_range(), TextRange { location: 0, length: 1 });
    assert_eq!(NOT_FOUND, i64::MAX as u64);
}

#[test]
fn an_arrow_key_does_not_cancel_a_composition() {
    for key in [KeyCode::ArrowUp, KeyCode::ArrowDown, KeyCode::ArrowLeft, KeyCode::ArrowRight] {
        let mut view = new_view(WindowId(1));
        let mut queue = EventQueue::new();
        view.set_marked_text("ni");
        // The press is handed to the interpreter, which does not answer it.
        let pass_along = view.key_down(&mut queue, false, ModifiersState::empty());
        assert!(pass_along);
        assert!(!view.key_triggered_ime);
        assert_eq!(view.marked_text, "");
        let cancel = view.key_down_interpreted(&mut queue, key, false, pass_along);
        assert!(!cancel);
        assert!(view.in_ime_preedit);
        assert_eq!(drain(&mut queue), vec![key_input(key, ElementState::Pressed, false, false)]);
    }
}

#[test]
fn another_key_that_the_interpreter_ignores_cancels_the_composition() {
    let mut view = new_view(WindowId(1));
    let mut queue = EventQueue::new();
    view.set_marked_text("ni");
    let pass_along = view.key_down(&mut queue, false, ModifiersState::empty());
    let cancel = view.key_down_interpreted(&mut queue, KeyCode::Period, false, pass_along);
    assert!(cancel);
    assert!(!view.in_ime_preedit);
    assert_eq!(view.marked_text, "");
    assert_eq!(
        drain(&mut queue),
        vec![key_input(KeyCode::Period, ElementState::Pressed, false, false)]
    );
}

#[test]
fn a_key_that_the_interpreter_answers_keeps_the_composition() {
    let mut view = new_view(WindowId(1));
    let mut queue = EventQueue::new();
    view.set_marked_text("n");
    let pass_along = view.key_down(&mut queue, false, ModifiersState::empty());
    view.set_marked_text("ni");
    let cancel = view.key_down_interpreted(&mut queue, KeyCode::Other(34), false, pass_along);
    assert!(!cancel);
    assert!(view.in_ime_preedit);
    assert_eq!(view.marked_text, "ni");
    assert_eq!(
        drain(&mut queue),
        vec![key_input(KeyCode::Other(34), ElementState::Pressed, false, true)]
    );
}

#[test]
fn a_repeat_of_a_held_key_is_not_interpreted_again() {
    let mut view = new_view(WindowId(1));
    let mut queue = EventQueue::new();
    assert!(view.key_down(&mut queue, false, ModifiersState::empty()));
    view.insert_text(&mut queue, "a");
    assert!(view.is_key_down);
    assert!(!view.key_down_interpreted(&mut queue, KeyCode::KeyA, false, true));
    // The host repeats the key.
    let pass_along = view.key_down(&mut queue, true, ModifiersState::empty());
    assert!(!pass_along);
    assert!(!view.key_down_interpreted(&mut queue, KeyCode::KeyA, true, pass_along));
    assert_eq!(
        drain(&mut queue),
        vec![
            window_event(WindowEvent::ReceivedImeText(String::from("a"))),
            key_input(KeyCode::KeyA, ElementState::Pressed, false, false),
            key_input(KeyCode::KeyA, ElementState::Pressed, true, false),
        ]
    );
    // A repeat of a key that is not held is interpreted.
    view.key_up(&mut queue, KeyCode::KeyA, ModifiersState::empty());
    assert!(!view.is_key_down);
    assert!(view.key_down(&mut queue, true, ModifiersState::empty()));
}

#[test]
fn a_repeat_does_not_cancel_a_composition() {
    let mut view = new_view(WindowId(1));
    let mut queue = EventQueue::new();
    view.set_marked_text("ni");
    view.key_triggered_ime = false;
    view.is_key_down = true;
    let pass_along = view.key_down(&mut queue, true, ModifiersState::empty());
    assert!(!pass_along);
    assert_eq!(view.marked_text, "ni");
    assert!(!view.key_down_interpreted(&mut queue, KeyCode::Period, true, pass_along));
    assert!(view.in_ime_preedit);
}

#[test]
fn the_mask_is_announced_only_when_it_differs() {
    let mut view = new_view(WindowId(1));
    let mut queue = EventQueue::new();
    let shift = ModifiersState { shift: true, control: false, alt: false, super_key: false };
    view.update_potentially_stale_modifiers(&mut queue, ModifiersState::empty());
    assert!(queue.is_empty());
    view.update_potentially_stale_modifiers(&mut queue, shift);
    assert_eq!(view.modifiers, shift);
    view.update_potentially_stale_modifiers(&mut queue, shift);
    assert_eq!(drain(&mut queue), vec![window_event(WindowEvent::ModifiersChanged(shift))]);
}

#[test]
fn a_key_release_brings_the_mask_up_to_date_first() {
    let mut view = new_view(WindowId(1));
    let mut queue = EventQueue::new();
    let alt = ModifiersState { shift: false, control: false, alt: true, super_key: false };
    view.is_key_down = true;
    view.key_up(&mut queue, KeyCode::Other(12), alt);
    assert!(!view.is_key_down);
    assert_eq!(view.modifiers, alt);
    assert_eq!(
        drain(&mut queue),
        vec![
            window_event(WindowEvent::ModifiersChanged(alt)),
            key_input(KeyCode::Other(12), ElementState::Released, false, false),
        ]
    );
}

#[test]
fn cancel_operation_is_a_press_of_the_period_key() {
    let mut view = new_view(WindowId(1));
    let mut queue = EventQueue::new();
    let command = ModifiersState { shift: false, control: false, alt: false, super_key: true };
    view.cancel_operation(&mut queue, command);
    assert_eq!(
        drain(&mut queue),
        vec![
            window_event(WindowEvent::ModifiersChanged(command)),
            key_input(KeyCode::Period, ElementState::Pressed, false, false),
        ]
    );
}

#[test]
fn the_four_arrow_keys_are_arrow_keys() {
    assert!(is_arrow_key(KeyCode::ArrowUp));
    assert!(is_arrow_key(KeyCode::ArrowDown));
    assert!(is_arrow_key(KeyCode::ArrowLeft));
    assert!(is_arrow_key(KeyCode::ArrowRight));
    assert!(!is_arrow_key(KeyCode::KeyA));
    assert!(!is_arrow_key(KeyCode::ShiftLeft));
    assert!(!is_arrow_key(KeyCode::Other(123)));
}

#[test]
fn scan_codes_name_the_keys_of_the_state_machine() {
    assert_eq!(KeyCode::from_scancode(0x00), KeyCode::KeyA);
    assert_eq!(KeyCode::from_scancode(0x2f), KeyCode::Period);
    assert_eq!(KeyCode::from_scancode(0x38), KeyCode::ShiftLeft);
    assert_eq!(KeyCode::from_scancode(0x3c), KeyCode::ShiftRight);
    assert_eq!(KeyCode::from_scancode(0x3b), KeyCode::ControlLeft);
    assert_eq!(KeyCode::from_scancode(0x3e), KeyCode::ControlRight);
    assert_eq!(KeyCode::from_scancode(0x3a), KeyCode::AltLeft);
    assert_eq!(KeyCode::from_scancode(0x3d), KeyCode::AltRight);
    assert_eq!(KeyCode::from_scancode(0x37), KeyCode::SuperLeft);
    assert_eq!(KeyCode::from_scancode(0x36), KeyCode::SuperRight);
    assert_eq!(KeyCode::from_scancode(0x7b), KeyCode::ArrowLeft);
    assert_eq!(KeyCode::from_scancode(0x7c), KeyCode::ArrowRight);
    assert_eq!(KeyCode::from_scancode(0x7d), KeyCode::ArrowDown);
    assert_eq!(KeyCode::from_scancode(0x7e), KeyCode::ArrowUp);
    assert_eq!(KeyCode::from_scancode(0x01), KeyCode::Other(1));
    assert_eq!(KeyCode::from_scancode(0xffff), KeyCode::Other(0xffff));
}
