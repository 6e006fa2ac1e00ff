use platform_fighter::attack::{
    apply_knockback, AttackState, Character, ATTACK_DAMAGE, ATTACK_KNOCKBACK_Y, ATTACK_LIFETIME,
};
use platform_fighter::movement::CharacterRuntimeState;
use platform_fighter::vec2::Vec2;

#[test]
fn attack_starts_from_a_queued_intent() {
    let mut a = AttackState::default();
    assert!(!a.is_attacking());
    a.forward_air();
    a.attack_tick(7, 16);
    assert!(a.is_attacking());
    assert!(!a.wants_attack);
    let active = a.active.as_ref().unwrap();
    assert_eq!(active.remaining, ATTACK_LIFETIME);
    assert_eq!(active.hitbox.owner, 7);
    assert_eq!(active.hitbox.damage, ATTACK_DAMAGE);
    assert_eq!(active.hitbox.knockback.y, ATTACK_KNOCKBACK_Y);
    assert!(active.hitbox.already_hit.is_empty());
    assert!(a.hit_targets.is_empty());
}

#[test]
fn intents_are_ignored_while_attacking() {
    let mut a = AttackState::default();
    a.forward_air();
    a.attack_tick(7, 16);
    a.forward_air();
    a.attack_tick(7, 16);
    assert!(!a.wants_attack); // swallowed, not buffered
    let active = a.active.as_ref().unwrap();
    assert_eq!(active.remaining, ATTACK_LIFETIME - 16);
}

#[test]
fn attack_expires_when_its_clock_elapses() {
    let mut a = AttackState::default();
    a.forward_air();
    a.attack_tick(7, 16);
    a.attack_tick(7, ATTACK_LIFETIME - 16);
    assert!(a.is_attacking()); // 16 ms left
    a.attack_tick(7, 16);
    assert!(!a.is_attacking()); // hitbox destroyed with the attack
}

#[test]
fn expired_attack_keeps_its_hit_list_until_the_next_start() {
    let mut a = AttackState::default();
    a.forward_air();
    a.attack_tick(7, 16);
    a.record_target(42);
    a.attack_tick(7, ATTACK_LIFETIME);
    assert!(!a.is_attacking());
    assert_eq!(a.hit_targets, vec![42]);
    // a new attack clears it
    a.forward_air();
    a.attack_tick(7, 16);
    assert!(a.hit_targets.is_empty());
}

#[test]
fn hit_damage_credits_each_target_once() {
    let mut a = AttackState::default();
    a.forward_air();
    a.attack_tick(7, 16);
    let (dmg, kb) = a.hit_damage(42).unwrap();
    assert_eq!(dmg, ATTACK_DAMAGE);
    assert_eq!((kb.x, kb.y), (0, ATTACK_KNOCKBACK_Y));
    a.record_target(42);
    assert!(a.hit_damage(42).is_none());
    // another target is still creditable
    assert!(a.hit_damage(43).is_some());
}

#[test]
fn idle_controller_credits_nothing() {
    let a = AttackState::default();
    assert!(a.hit_damage(42).is_none());
}

#[test]
fn apply_knockback_accumulates_damage_and_impulse() {
    let mut ch = Character::default();
    let mut st = CharacterRuntimeState::default();
    apply_knockback(&mut ch, &mut st, 20, Vec2 { x: 0, y: 1000 });
    apply_knockback(&mut ch, &mut st, 20, Vec2 { x: 0, y: 1000 });
    assert_eq!(ch.percentage, 40);
    assert_eq!(st.pending_knockback.x, 0);
    assert_eq!(st.pending_knockback.y, 2000);
}
