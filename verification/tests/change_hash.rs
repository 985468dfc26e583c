use bevy_state_ui::change_hash::{ui_state_changed, RenderedHash};
use std::cell::Cell;
use std::hash::{Hash, Hasher};

/// A state whose `Hash` impl counts how often it runs.
struct Counted {
    value: u32,
    calls: Cell<u32>,
}

impl Hash for Counted {
    fn hash<H: Hasher>(&self, state: &mut H) {
        self.calls.set(self.calls.get() + 1);
        self.value.hash(state);
    }
}

#[derive(Hash)]
struct Counter {
    count: u128,
}

#[test]
fn observe_without_state_says_no() {
    let mut record: RenderedHash<Counter> = RenderedHash::new();
    assert!(!record.observe(5, None));
    // The record still holds hash zero: a zero hash in a new frame is no.
    assert!(!record.observe(6, Some(0)));
}

#[test]
fn observe_in_the_frame_of_the_record_says_yes() {
    let mut record: RenderedHash<Counter> = RenderedHash::new();
    // The fresh record belongs to frame zero.
    assert!(record.observe(0, Some(0)));
    assert!(record.observe(0, Some(99)));
}

#[test]
fn observe_new_hash_is_recorded() {
    let mut record: RenderedHash<Counter> = RenderedHash::new();
    assert!(record.observe(3, Some(17)));
    // Same frame: yes for any hash.
    assert!(record.observe(3, Some(18)));
    // Later frame, same hash as recorded: no.
    assert!(!record.observe(4, Some(17)));
    // Later frame, the other hash: yes, then no in the next frame.
    assert!(record.observe(5, Some(18)));
    assert!(!record.observe(6, Some(18)));
}

#[test]
fn observe_twice_in_a_frame_agrees() {
    let mut record: RenderedHash<Counter> = RenderedHash::new();
    assert!(record.observe(1, Some(10)));
    assert!(!record.observe(2, Some(10)));
    assert!(!record.observe(2, Some(10)));
    assert!(record.observe(3, Some(11)));
    assert!(record.observe(3, Some(11)));
}

#[test]
fn changed_state_rerenders_once() {
    let mut record = RenderedHash::new();
    let mut state = Counter { count: 0 };
    assert!(ui_state_changed(1, &mut record, Some(&state)));
    assert!(ui_state_changed(1, &mut record, Some(&state)));
    assert!(!ui_state_changed(2, &mut record, Some(&state)));
    state.count += 1;
    assert!(ui_state_changed(3, &mut record, Some(&state)));
    assert!(!ui_state_changed(4, &mut record, Some(&state)));
    state.count = 0;
    assert!(ui_state_changed(5, &mut record, Some(&state)));
}

#[test]
fn changed_without_state_says_no() {
    let mut record: RenderedHash<Counter> = RenderedHash::new();
    assert!(!ui_state_changed(0, &mut record, None));
    assert!(!ui_state_changed(7, &mut record, None));
}

#[test]
fn equal_states_hash_alike() {
    let mut record = RenderedHash::new();
    assert!(ui_state_changed(1, &mut record, Some(&Counter { count: 9 })));
    // Another value that is equal: its hash is the recorded one.
    assert!(!ui_state_changed(2, &mut record, Some(&Counter { count: 9 })));
}

#[test]
fn frame_of_last_yes_answers_without_hashing() {
    let state = Counted { value: 3, calls: Cell::new(0) };
    let mut record = RenderedHash::new();
    // Frame zero is the frame of the fresh record: yes, not hashed.
    assert!(ui_state_changed(0, &mut record, Some(&state)));
    assert_eq!(state.calls.get(), 0);
    // A new frame: hashed once, and the new hash gives yes.
    assert!(ui_state_changed(1, &mut record, Some(&state)));
    assert_eq!(state.calls.get(), 1);
    // Same frame again: yes, not hashed.
    assert!(ui_state_changed(1, &mut record, Some(&state)));
    assert!(ui_state_changed(1, &mut record, Some(&state)));
    assert_eq!(state.calls.get(), 1);
    // Next frame: hashed, unchanged, no.
    assert!(!ui_state_changed(2, &mut record, Some(&state)));
    assert_eq!(state.calls.get(), 2);
}
