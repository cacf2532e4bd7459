//! What holds of every sequence of modifier reports.

use vstd::prelude::*;
use crate::event::WindowEvent;
use crate::keyboard::{ElementState, KeyCode, ModifiersState};
use crate::view::{
    spec_flags_events,
    spec_key_changes,
    spec_key_events,
    spec_mask_after,
    spec_phys_after,
    PhysicalModifiers,
};

verus! {

/// One report of the host that the modifier flags changed.
#[derive(Clone, Copy, Debug, PartialEq, Eq, Structural, Hash)]
pub struct ModifierReport {
    /// The key that the report names.
    pub reported: KeyCode,
    /// The modifiers that the report has set.
    pub flags: ModifiersState,
}

/// Whether `event` is the key event of `key` going into `state`.
pub open spec fn spec_is_key_event(event: WindowEvent, key: KeyCode, state: ElementState) -> bool {
    match event {
        WindowEvent::KeyboardInput { event, .. } => event.physical_key == key && event.state
            == state,
        _ => false,
    }
}

/// How many events of `events` are the key event of `key` going into `state`.
#[verifier::opaque]
pub open spec fn spec_count_key_events(
    events: Seq<WindowEvent>,
    key: KeyCode,
    state: ElementState,
) -> int
    decreases events.len(),
{
    if events.len() == 0 {
        0
    } else {
        spec_count_key_events(events.drop_last(), key, state) + if spec_is_key_event(
            events.last(),
            key,
            state,
        ) {
            1int
        } else {
            0int
        }
    }
}

/// The keys held after `reports` were handled in their order, starting from `phys`.
pub open spec fn spec_replay_keys(
    phys: PhysicalModifiers,
    reports: Seq<ModifierReport>,
) -> PhysicalModifiers
    decreases reports.len(),
{
    if reports.len() == 0 {
        phys
    } else {
        spec_phys_after(
            spec_replay_keys(phys, reports.drop_last()),
            reports.last().reported,
            reports.last().flags,
        )
    }
}

/// The mask after `reports` were handled in their order.
pub open spec fn spec_replay_mask(
    mask: ModifiersState,
    phys: PhysicalModifiers,
    reports: Seq<ModifierReport>,
) -> ModifiersState
    decreases reports.len(),
{
    if reports.len() == 0 {
        mask
    } else {
        spec_mask_after(
            spec_replay_mask(mask, phys, reports.drop_last()),
            spec_replay_keys(phys, reports.drop_last()),
            reports.last().reported,
            reports.last().flags,
        )
    }
}

/// Everything that is emitted while `reports` are handled in their order.
pub open spec fn spec_replay_events(
    mask: ModifiersState,
    phys: PhysicalModifiers,
    reports: Seq<ModifierReport>,
) -> Seq<WindowEvent>
    decreases reports.len(),
{
    if reports.len() == 0 {
        Seq::empty()
    } else {
        spec_replay_events(mask, phys, reports.drop_last()) + spec_flags_events(
            spec_replay_mask(mask, phys, reports.drop_last()),
            spec_replay_keys(phys, reports.drop_last()),
            reports.last().reported,
            reports.last().flags,
        )
    }
}

/// 1 if the key is held and 0 if it is not.
pub open spec fn spec_held(phys: PhysicalModifiers, key: KeyCode) -> int {
    if phys.spec_contains(key) {
        1
    } else {
        0
    }
}

/// Counting over two runs is counting over each and adding up.
pub proof fn lemma_count_concat(
    first: Seq<WindowEvent>,
    second: Seq<WindowEvent>,
    key: KeyCode,
    state: ElementState,
)
    ensures
        spec_count_key_events(first + second, key, state) == spec_count_key_events(
            first,
            key,
            state,
        ) + spec_count_key_events(second, key, state),
    decreases second.len(),
{
    reveal_with_fuel(spec_count_key_events, 2);
    if second.len() == 0 {
        assert(first + second =~= first);
    } else {
        assert((first + second).drop_last() =~= first + second.drop_last());
        assert((first + second).last() == second.last());
        lemma_count_concat(first, second.drop_last(), key, state);
    }
}

/// How often the run for `target` holds the event of `key` going into `state`:
/// once if `target` is that key and changed into that state.
#[verifier::opaque]
pub open spec fn spec_change_count(
    target: KeyCode,
    was: bool,
    now: bool,
    key: KeyCode,
    state: ElementState,
) -> int {
    if target == key && was != now && now == (state == ElementState::Pressed) {
        1
    } else {
        0
    }
}

/// The run for one key holds one event if the key changed, and it is the
/// key's own event into its new state.
proof fn lemma_count_one_key(
    target: KeyCode,
    was: bool,
    now: bool,
    key: KeyCode,
    state: ElementState,
)
    ensures
        spec_count_key_events(spec_key_events(target, was, now), key, state) == spec_change_count(
            target,
            was,
            now,
            key,
            state,
        ),
{
    reveal(spec_key_events);
    reveal(spec_change_count);
    reveal_with_fuel(spec_count_key_events, 2);
    let run = spec_key_events(target, was, now);
    if was != now {
        assert(run.drop_last() =~= Seq::<WindowEvent>::empty());
        assert(spec_count_key_events(run.drop_last(), key, state) == 0);
    }
}

/// 1 if `key` went into `state` between `phys` and `next`, and 0 otherwise.
#[verifier::opaque]
pub open spec fn spec_transition_count(
    phys: PhysicalModifiers,
    next: PhysicalModifiers,
    key: KeyCode,
    state: ElementState,
) -> int {
    if phys.spec_contains(key) != next.spec_contains(key) && next.spec_contains(key) == (state
        == ElementState::Pressed) {
        1
    } else {
        0
    }
}

/// Among the key events of one report, `key` is pressed once if it went down,
/// released once if it came up, and does not occur otherwise.
proof fn lemma_count_changes(
    phys: PhysicalModifiers,
    next: PhysicalModifiers,
    key: KeyCode,
    state: ElementState,
)
    ensures
        spec_count_key_events(spec_key_changes(phys, next), key, state) == spec_transition_count(phys, next, key, state),
{
    lemma_count_by_key(phys, next, key, state);
    lemma_count_one_key(KeyCode::ShiftLeft, phys.shift_left, next.shift_left, key, state);
    lemma_count_one_key(KeyCode::ShiftRight, phys.shift_right, next.shift_right, key, state);
    lemma_count_one_key(KeyCode::ControlLeft, phys.control_left, next.control_left, key, state);
    lemma_count_one_key(KeyCode::ControlRight, phys.control_right, next.control_right, key, state);
    lemma_count_one_key(KeyCode::AltLeft, phys.alt_left, next.alt_left, key, state);
    lemma_count_one_key(KeyCode::AltRight, phys.alt_right, next.alt_right, key, state);
    lemma_count_one_key(KeyCode::SuperLeft, phys.super_left, next.super_left, key, state);
    lemma_count_one_key(KeyCode::SuperRight, phys.super_right, next.super_right, key, state);
    lemma_sum_of_changes(phys, next, key, state);
}

/// Of the eight keys only `key` itself can count, and it counts if it changed
/// into `state`.
proof fn lemma_sum_of_changes(
    phys: PhysicalModifiers,
    next: PhysicalModifiers,
    key: KeyCode,
    state: ElementState,
)
    ensures
        (spec_change_count(KeyCode::ShiftLeft, phys.shift_left, next.shift_left, key, state)
            + spec_change_count(KeyCode::ShiftRight, phys.shift_right, next.shift_right, key, state))
            + (spec_change_count(
            KeyCode::ControlLeft,
            phys.control_left,
            next.control_left,
            key,
            state,
        ) + spec_change_count(
            KeyCode::ControlRight,
            phys.control_right,
            next.control_right,
            key,
            state,
        )) + (spec_change_count(KeyCode::AltLeft, phys.alt_left, next.alt_left, key, state)
            + spec_change_count(KeyCode::AltRight, phys.alt_right, next.alt_right, key, state)) + (
        spec_change_count(KeyCode::SuperLeft, phys.super_left, next.super_left, key, state)
            + spec_change_count(KeyCode::SuperRight, phys.super_right, next.super_right, key, state))
            == spec_transition_count(phys, next, key, state),
{
    reveal(spec_change_count);
    reveal(spec_transition_count);
}

/// The count over the key events of one report, key by key.
proof fn lemma_count_by_key(
    phys: PhysicalModifiers,
    next: PhysicalModifiers,
    key: KeyCode,
    state: ElementState,
)
    ensures
        spec_count_key_events(spec_key_changes(phys, next), key, state) == (spec_count_key_events(
            spec_key_events(KeyCode::ShiftLeft, phys.shift_left, next.shift_left),
            key,
            state,
        ) + spec_count_key_events(
            spec_key_events(KeyCode::ShiftRight, phys.shift_right, next.shift_right),
            key,
            state,
        )) + (spec_count_key_events(
            spec_key_events(KeyCode::ControlLeft, phys.control_left, next.control_left),
            key,
            state,
        ) + spec_count_key_events(
            spec_key_events(KeyCode::ControlRight, phys.control_right, next.control_right),
            key,
            state,
        )) + (spec_count_key_events(
            spec_key_events(KeyCode::AltLeft, phys.alt_left, next.alt_left),
            key,
            state,
        ) + spec_count_key_events(
            spec_key_events(KeyCode::AltRight, phys.alt_right, next.alt_right),
            key,
            state,
        )) + (spec_count_key_events(
            spec_key_events(KeyCode::SuperLeft, phys.super_left, next.super_left),
            key,
            state,
        ) + spec_count_key_events(
            spec_key_events(KeyCode::SuperRight, phys.super_right, next.super_right),
            key,
            state,
        )),
{
    reveal(spec_key_changes);
    lemma_count_eight(
        spec_key_events(KeyCode::ShiftLeft, phys.shift_left, next.shift_left),
        spec_key_events(KeyCode::ShiftRight, phys.shift_right, next.shift_right),
        spec_key_events(KeyCode::ControlLeft, phys.control_left, next.control_left),
        spec_key_events(KeyCode::ControlRight, phys.control_right, next.control_right),
        spec_key_events(KeyCode::AltLeft, phys.alt_left, next.alt_left),
        spec_key_events(KeyCode::AltRight, phys.alt_right, next.alt_right),
        spec_key_events(KeyCode::SuperLeft, phys.super_left, next.super_left),
        spec_key_events(KeyCode::SuperRight, phys.super_right, next.super_right),
        key,
        state,
    );
}

/// Counting over eight runs joined in their order is adding up the eight counts.
proof fn lemma_count_eight(
    r1: Seq<WindowEvent>,
    r2: Seq<WindowEvent>,
    r3: Seq<WindowEvent>,
    r4: Seq<WindowEvent>,
    r5: Seq<WindowEvent>,
    r6: Seq<WindowEvent>,
    r7: Seq<WindowEvent>,
    r8: Seq<WindowEvent>,
    key: KeyCode,
    state: ElementState,
)
    ensures
        spec_count_key_events(r1 + r2 + r3 + r4 + r5 + r6 + r7 + r8, key, state) == (
        spec_count_key_events(r1, key, state) + spec_count_key_events(r2, key, state)) + (
        spec_count_key_events(r3, key, state) + spec_count_key_events(r4, key, state)) + (
        spec_count_key_events(r5, key, state) + spec_count_key_events(r6, key, state)) + (
        spec_count_key_events(r7, key, state) + spec_count_key_events(r8, key, state)),
{
    lemma_count_concat(r1, r2, key, state);
    lemma_count_concat(r1 + r2, r3, key, state);
    lemma_count_concat(r1 + r2 + r3, r4, key, state);
    lemma_count_concat(r1 + r2 + r3 + r4, r5, key, state);
    lemma_count_concat(r1 + r2 + r3 + r4 + r5, r6, key, state);
    lemma_count_concat(r1 + r2 + r3 + r4 + r5 + r6, r7, key, state);
    lemma_count_concat(r1 + r2 + r3 + r4 + r5 + r6 + r7, r8, key, state);
}

/// One report presses a key at most once and releases it at most once, and
/// the two counts differ by what the report did to the key: for every key,
/// presses plus whether it was held before equals releases plus whether it is
/// held after.
pub proof fn lemma_report_balances(
    mask: ModifiersState,
    phys: PhysicalModifiers,
    report: ModifierReport,
    key: KeyCode,
)
    ensures
        spec_count_key_events(
            spec_flags_events(mask, phys, report.reported, report.flags),
            key,
            ElementState::Pressed,
        ) + spec_held(phys, key) == spec_count_key_events(
            spec_flags_events(mask, phys, report.reported, report.flags),
            key,
            ElementState::Released,
        ) + spec_held(spec_phys_after(phys, report.reported, report.flags), key),
{
    let next = spec_phys_after(phys, report.reported, report.flags);
    let keys = spec_key_changes(phys, next);
    let events = spec_flags_events(mask, phys, report.reported, report.flags);
    let closing = WindowEvent::ModifiersChanged(
        spec_mask_after(mask, phys, report.reported, report.flags),
    );
    reveal_with_fuel(spec_count_key_events, 2);
    assert(events == keys.push(closing));
    assert(events.drop_last() =~= keys);
    assert(events.last() == closing);
    lemma_count_changes(phys, next, key, ElementState::Pressed);
    lemma_count_changes(phys, next, key, ElementState::Released);
    reveal(spec_transition_count);
}

/// Every report closes with one `ModifiersChanged` that carries the mask
/// which the report leaves behind, and the events before it are key events.
pub proof fn lemma_report_closes_with_mask(
    mask: ModifiersState,
    phys: PhysicalModifiers,
    report: ModifierReport,
)
    ensures
        spec_flags_events(mask, phys, report.reported, report.flags).len() >= 1,
        spec_flags_events(mask, phys, report.reported, report.flags).last()
            == WindowEvent::ModifiersChanged(
            spec_mask_after(mask, phys, report.reported, report.flags),
        ),
        spec_flags_events(mask, phys, report.reported, report.flags).drop_last()
            == spec_key_changes(phys, spec_phys_after(phys, report.reported, report.flags)),
{
    let keys = spec_key_changes(phys, spec_phys_after(phys, report.reported, report.flags));
    let closing = WindowEvent::ModifiersChanged(
        spec_mask_after(mask, phys, report.reported, report.flags),
    );
    assert(keys.push(closing).drop_last() =~= keys);
}

/// However many reports the host delivers and whatever they say, no modifier
/// key is left stuck: for every key, the presses that were emitted plus whether
/// the key was held at the start equal the releases that were emitted plus
/// whether the key is held at the end.
pub proof fn lemma_presses_balance_releases(
    mask: ModifiersState,
    phys: PhysicalModifiers,
    reports: Seq<ModifierReport>,
    key: KeyCode,
)
    ensures
        spec_count_key_events(spec_replay_events(mask, phys, reports), key, ElementState::Pressed)
            + spec_held(phys, key) == spec_count_key_events(
            spec_replay_events(mask, phys, reports),
            key,
            ElementState::Released,
        ) + spec_held(spec_replay_keys(phys, reports), key),
    decreases reports.len(),
{
    if reports.len() == 0 {
        reveal_with_fuel(spec_count_key_events, 2);
    } else {
        let before = reports.drop_last();
        lemma_presses_balance_releases(mask, phys, before, key);
        lemma_report_balances(
            spec_replay_mask(mask, phys, before),
            spec_replay_keys(phys, before),
            reports.last(),
            key,
        );
        let head = spec_replay_events(mask, phys, before);
        let tail = spec_flags_events(
            spec_replay_mask(mask, phys, before),
            spec_replay_keys(phys, before),
            reports.last().reported,
            reports.last().flags,
        );
        lemma_count_concat(head, tail, key, ElementState::Pressed);
        lemma_count_concat(head, tail, key, ElementState::Released);
    }
}

/// Starting with no key held: whenever a key is up again after a sequence of
/// reports, it was pressed exactly as often as it was released.
pub proof fn lemma_no_stuck_modifier(
    mask: ModifiersState,
    reports: Seq<ModifierReport>,
    key: KeyCode,
)
    requires
        !spec_replay_keys(PhysicalModifiers::spec_empty(), reports).spec_contains(key),
    ensures
        spec_count_key_events(
            spec_replay_events(mask, PhysicalModifiers::spec_empty(), reports),
            key,
            ElementState::Pressed,
        ) == spec_count_key_events(
            spec_replay_events(mask, PhysicalModifiers::spec_empty(), reports),
            key,
            ElementState::Released,
        ),
{
    lemma_presses_balance_releases(mask, PhysicalModifiers::spec_empty(), reports, key);
}

/// A report that names a key, or that comes from a layout switch, and has
/// the flag of the key's modifier cleared leaves that key up, whatever went
/// before.
pub proof fn lemma_cleared_flag_releases(
    phys: PhysicalModifiers,
    report: ModifierReport,
    key: KeyCode,
)
    requires
        key.spec_is_modifier(),
        report.reported == key || report.reported == KeyCode::KeyA,
        !report.flags.spec_contains(key.spec_family()->0),
    ensures
        !spec_phys_after(phys, report.reported, report.flags).spec_contains(key),
{
}

/// Starting with no key held: once the host reports a modifier key with its
/// flag cleared, that key has been pressed exactly as often as it has been
/// released, whatever the reports before said.
pub proof fn lemma_balanced_once_flag_is_cleared(
    mask: ModifiersState,
    reports: Seq<ModifierReport>,
    key: KeyCode,
)
    requires
        reports.len() > 0,
        key.spec_is_modifier(),
        reports.last().reported == key || reports.last().reported == KeyCode::KeyA,
        !reports.last().flags.spec_contains(key.spec_family()->0),
    ensures
        spec_count_key_events(
            spec_replay_events(mask, PhysicalModifiers::spec_empty(), reports),
            key,
            ElementState::Pressed,
        ) == spec_count_key_events(
            spec_replay_events(mask, PhysicalModifiers::spec_empty(), reports),
            key,
            ElementState::Released,
        ),
{
    let before = spec_replay_keys(PhysicalModifiers::spec_empty(), reports.drop_last());
    lemma_cleared_flag_releases(before, reports.last(), key);
    lemma_no_stuck_modifier(mask, reports, key);
}

/// Where `key` stands after one more event, if the event is in turn: a press
/// of a key that is up takes it down, a release of a key that is down takes it
/// up, and an event of another kind leaves it. A press of a key that is down
/// and a release of a key that is up are out of turn.
pub open spec fn spec_step_key(event: WindowEvent, key: KeyCode, held: bool) -> Option<bool> {
    if spec_is_key_event(event, key, ElementState::Pressed) {
        if held {
            None
        } else {
            Some(true)
        }
    } else if spec_is_key_event(event, key, ElementState::Released) {
        if held {
            Some(false)
        } else {
            None
        }
    } else {
        Some(held)
    }
}

/// Whether `key` is held after `events`, for a key that was held or not as
/// `held` says, if the presses and releases of the key take turns in `events`;
/// and nothing if somewhere a press follows a press or a release a release.
pub open spec fn spec_follow_key(events: Seq<WindowEvent>, key: KeyCode, held: bool) -> Option<
    bool,
>
    decreases events.len(),
{
    if events.len() == 0 {
        Some(held)
    } else {
        match spec_follow_key(events.drop_last(), key, held) {
            Some(before) => spec_step_key(events.last(), key, before),
            None => None,
        }
    }
}

/// Following a key through two runs is following it through the first and
/// going on from there through the second.
pub proof fn lemma_follow_concat(
    first: Seq<WindowEvent>,
    second: Seq<WindowEvent>,
    key: KeyCode,
    held: bool,
)
    ensures
        spec_follow_key(first + second, key, held) == (match spec_follow_key(first, key, held) {
            Some(between) => spec_follow_key(second, key, between),
            None => None,
        }),
    decreases second.len(),
{
    if second.len() == 0 {
        assert(first + second =~= first);
    } else {
        assert((first + second).drop_last() =~= first + second.drop_last());
        assert((first + second).last() == second.last());
        lemma_follow_concat(first, second.drop_last(), key, held);
    }
}

/// Nothing is counted below zero.
proof fn lemma_count_nonnegative(events: Seq<WindowEvent>, key: KeyCode, state: ElementState)
    ensures
        spec_count_key_events(events, key, state) >= 0,
    decreases events.len(),
{
    reveal_with_fuel(spec_count_key_events, 2);
    if events.len() > 0 {
        lemma_count_nonnegative(events.drop_last(), key, state);
    }
}

/// A run without an event of `key` leaves the key as it was; a run with one
/// press of it and no release takes a key that is up down; a run with one
/// release and no press takes a key that is down up.
proof fn lemma_follow_by_count(events: Seq<WindowEvent>, key: KeyCode, held: bool)
    ensures
        spec_count_key_events(events, key, ElementState::Pressed) == 0 && spec_count_key_events(
            events,
            key,
            ElementState::Released,
        ) == 0 ==> spec_follow_key(events, key, held) == Some(held),
        spec_count_key_events(events, key, ElementState::Pressed) == 1 && spec_count_key_events(
            events,
            key,
            ElementState::Released,
        ) == 0 && !held ==> spec_follow_key(events, key, held) == Some(true),
        spec_count_key_events(events, key, ElementState::Pressed) == 0 && spec_count_key_events(
            events,
            key,
            ElementState::Released,
        ) == 1 && held ==> spec_follow_key(events, key, held) == Some(false),
    decreases events.len(),
{
    reveal_with_fuel(spec_count_key_events, 2);
    if events.len() > 0 {
        lemma_follow_by_count(events.drop_last(), key, held);
        lemma_count_nonnegative(events.drop_last(), key, ElementState::Pressed);
        lemma_count_nonnegative(events.drop_last(), key, ElementState::Released);
    }
}

/// Within one report the presses and releases of a key take turns: the key
/// events of the report take every key from where it stood to where it
/// stands after the report.
pub proof fn lemma_report_alternates(
    mask: ModifiersState,
    phys: PhysicalModifiers,
    report: ModifierReport,
    key: KeyCode,
)
    ensures
        spec_follow_key(
            spec_flags_events(mask, phys, report.reported, report.flags),
            key,
            phys.spec_contains(key),
        ) == Some(spec_phys_after(phys, report.reported, report.flags).spec_contains(key)),
{
    let next = spec_phys_after(phys, report.reported, report.flags);
    let keys = spec_key_changes(phys, next);
    let events = spec_flags_events(mask, phys, report.reported, report.flags);
    let closing = WindowEvent::ModifiersChanged(
        spec_mask_after(mask, phys, report.reported, report.flags),
    );
    assert(events == keys.push(closing));
    assert(events.drop_last() =~= keys);
    assert(events.last() == closing);
    lemma_keys_alternate(phys, next, key);
}

/// The key events that lead from `phys` to `next` take every key from where
/// it stood in `phys` to where it stands in `next`.
proof fn lemma_keys_alternate(phys: PhysicalModifiers, next: PhysicalModifiers, key: KeyCode)
    ensures
        spec_follow_key(spec_key_changes(phys, next), key, phys.spec_contains(key)) == Some(
            next.spec_contains(key),
        ),
{
    lemma_count_changes(phys, next, key, ElementState::Pressed);
    lemma_count_changes(phys, next, key, ElementState::Released);
    lemma_follow_by_count(spec_key_changes(phys, next), key, phys.spec_contains(key));
    reveal(spec_transition_count);
}

/// However many reports the host delivers and whatever they say, the presses
/// and releases of every key take turns: a press is emitted only for a key
/// that is up and a release only for a key that is down. For a key that is up
/// at the start, so for every key of a new view, the first event is a press.
pub proof fn lemma_presses_and_releases_alternate(
    mask: ModifiersState,
    phys: PhysicalModifiers,
    reports: Seq<ModifierReport>,
    key: KeyCode,
)
    ensures
        spec_follow_key(spec_replay_events(mask, phys, reports), key, phys.spec_contains(key))
            == Some(spec_replay_keys(phys, reports).spec_contains(key)),
    decreases reports.len(),
{
    if reports.len() > 0 {
        let before = reports.drop_last();
        lemma_presses_and_releases_alternate(mask, phys, before, key);
        lemma_report_alternates(
            spec_replay_mask(mask, phys, before),
            spec_replay_keys(phys, before),
            reports.last(),
            key,
        );
        lemma_follow_concat(
            spec_replay_events(mask, phys, before),
            spec_flags_events(
                spec_replay_mask(mask, phys, before),
                spec_replay_keys(phys, before),
                reports.last().reported,
                reports.last().flags,
            ),
            key,
            phys.spec_contains(key),
        );
    }
}

} // verus!
