use platform_fighter::movement::CharacterRuntimeState;
use platform_fighter::touch::{classify, touch_class_for, touch_for, ContactEvent, TouchClass};
use platform_fighter::vec2::Vec2;

const CHAR_A: u64 = 1;
const CHAR_B: u64 = 2;
const STAGE: u64 = 100;

fn characters() -> Vec<u64> {
    vec![CHAR_A, CHAR_B]
}

fn stages() -> Vec<u64> {
    vec![STAGE]
}

fn ev(a: u64, b: u64, x: i64, y: i64) -> ContactEvent {
    ContactEvent { body_a: a, body_b: b, force: Vec2 { x, y } }
}

#[test]
fn no_events_means_no_contact() {
    let events: Vec<ContactEvent> = Vec::new();
    let f = touch_for(&events, CHAR_A, &characters(), &stages());
    assert_eq!((f.x, f.y), (0, 0));
    let c = touch_class_for(&events, CHAR_A, &characters(), &stages());
    assert_eq!(c, TouchClass::NoContact);
}

#[test]
fn character_stage_event_sets_the_force_either_way_round() {
    let events = vec![ev(CHAR_A, STAGE, 0, 9)];
    let f = touch_for(&events, CHAR_A, &characters(), &stages());
    assert_eq!((f.x, f.y), (0, 9));
    let events = vec![ev(STAGE, CHAR_A, 3, 0)];
    let f = touch_for(&events, CHAR_A, &characters(), &stages());
    assert_eq!((f.x, f.y), (3, 0));
}

#[test]
fn signal_is_rebuilt_every_tick_not_kept() {
    let mut s = CharacterRuntimeState::default();
    s.apply_touch(Vec2 { x: 0, y: 9 });
    assert!(s.is_on_stage());
    // the next tick reports no events: the signal resets to no contact
    let events: Vec<ContactEvent> = Vec::new();
    let f = touch_for(&events, CHAR_A, &characters(), &stages());
    s.apply_touch(f);
    assert!(s.is_not_touching_stage());
}

#[test]
fn character_vs_character_is_ignored() {
    let events = vec![ev(CHAR_A, CHAR_B, 5, 5)];
    let f = touch_for(&events, CHAR_A, &characters(), &stages());
    assert_eq!((f.x, f.y), (0, 0));
}

#[test]
fn stage_vs_stage_and_untracked_pairs_are_ignored() {
    let events = vec![ev(STAGE, STAGE, 5, 5), ev(777, CHAR_A, 1, 1), ev(888, 999, 2, 2)];
    let f = touch_for(&events, CHAR_A, &characters(), &stages());
    assert_eq!((f.x, f.y), (0, 0));
}

#[test]
fn events_for_another_character_do_not_leak() {
    let events = vec![ev(CHAR_B, STAGE, 0, 9)];
    let f = touch_for(&events, CHAR_A, &characters(), &stages());
    assert_eq!((f.x, f.y), (0, 0));
    let f = touch_for(&events, CHAR_B, &characters(), &stages());
    assert_eq!((f.x, f.y), (0, 9));
}

#[test]
fn last_qualifying_event_wins() {
    let events = vec![ev(CHAR_A, STAGE, 0, 9), ev(CHAR_A, CHAR_B, 4, 4), ev(CHAR_A, STAGE, 6, 0)];
    let f = touch_for(&events, CHAR_A, &characters(), &stages());
    assert_eq!((f.x, f.y), (6, 0));
}

#[test]
fn zero_force_contact_is_explicitly_unknown() {
    let events = vec![ev(CHAR_A, STAGE, 0, 0)];
    let c = touch_class_for(&events, CHAR_A, &characters(), &stages());
    assert_eq!(c, TouchClass::Unknown);
}

#[test]
fn classification_by_force_signs() {
    assert_eq!(classify(Vec2 { x: 0, y: 8 }), TouchClass::Floor);
    assert_eq!(classify(Vec2 { x: 3, y: 8 }), TouchClass::Floor); // slopes count as floor
    assert_eq!(classify(Vec2 { x: 0, y: -8 }), TouchClass::Below);
    assert_eq!(classify(Vec2 { x: 5, y: 0 }), TouchClass::WallRight);
    assert_eq!(classify(Vec2 { x: -5, y: 0 }), TouchClass::WallLeft);
    assert_eq!(classify(Vec2 { x: 0, y: 0 }), TouchClass::NoContact);
}

#[test]
fn class_of_the_last_qualifying_event_is_reported() {
    let events = vec![ev(CHAR_A, STAGE, 6, 0), ev(CHAR_A, STAGE, 0, 9)];
    let c = touch_class_for(&events, CHAR_A, &characters(), &stages());
    assert_eq!(c, TouchClass::Floor);
}

#[test]
fn landing_clears_the_fastfall_flag_at_once() {
    let mut s = CharacterRuntimeState::default();
    s.is_fastfalling = true;
    s.apply_touch(Vec2 { x: 0, y: 9 });
    assert!(!s.is_fastfalling);
    // a wall touch does not
    s.is_fastfalling = true;
    s.apply_touch(Vec2 { x: 4, y: 0 });
    assert!(s.is_fastfalling);
}
