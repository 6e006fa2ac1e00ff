use platform_fighter::movement::{CharacterRuntimeState, CharacterTunables};
use platform_fighter::vec2::Vec2;

fn tunables() -> CharacterTunables {
    CharacterTunables {
        speed_air: 20,
        speed_floor: 500,
        max_speed_air: 500,
        fastfall_initial_speed: 300,
        normal_gravity: 20,
        fastfalling_gravity: 175,
        jump_boost: 1000,
        max_air_jumps: 1,
        min_air_time_to_fastfall: 200,
        can_walljump: true,
    }
}

fn grounded() -> CharacterRuntimeState {
    let mut s = CharacterRuntimeState::default();
    s.touch = Vec2 { x: 0, y: 5 };
    s.current_air_jumps = 1;
    s
}

#[test]
fn floor_speed_is_immediate() {
    let t = tunables();
    let mut s = grounded();
    s.set_desired_x(1000);
    let (v, _g) = s.movement_tick(&t, Vec2 { x: 0, y: 0 }, 20, 16);
    assert_eq!(v.x, 500);
}

#[test]
fn air_control_accumulates_and_clamps() {
    let t = tunables();
    let mut s = grounded();
    s.set_desired_x(1000);
    let (v1, _) = s.movement_tick(&t, Vec2 { x: 0, y: 0 }, 20, 16);
    assert_eq!(v1.x, 500);
    // next tick the character has left the floor and pushes the other way
    s.touch = Vec2 { x: 0, y: 0 };
    s.set_desired_x(-1000);
    let (v2, _) = s.movement_tick(&t, Vec2 { x: 500, y: 0 }, 20, 16);
    assert_eq!(v2.x, 480);
}

#[test]
fn air_control_respects_cap() {
    let t = tunables();
    let mut s = CharacterRuntimeState::default();
    s.set_desired_x(1000);
    let (v, _) = s.movement_tick(&t, Vec2 { x: 495, y: 0 }, 20, 16);
    assert_eq!(v.x, 500); // 495 + 20 clamped to max_speed_air
}

#[test]
fn half_axis_gives_half_floor_speed() {
    let t = tunables();
    let mut s = grounded();
    s.set_desired_x(500);
    let (v, _) = s.movement_tick(&t, Vec2 { x: 0, y: 0 }, 20, 16);
    assert_eq!(v.x, 250);
}

#[test]
fn air_jump_spends_one_and_boosts() {
    let t = tunables();
    let mut s = CharacterRuntimeState::default();
    s.current_air_jumps = 1;
    s.jump();
    let (v, _) = s.movement_tick(&t, Vec2 { x: 0, y: -50 }, 20, 16);
    assert_eq!(v.y, 1000);
    assert_eq!(s.current_air_jumps, 0);
    // a second jump intent with an empty pool changes nothing
    s.jump();
    let (v2, _) = s.movement_tick(&t, Vec2 { x: 0, y: -50 }, 20, 16);
    assert_eq!(v2.x, 0);
    assert_eq!(v2.y, -50);
    assert_eq!(s.current_air_jumps, 0);
}

#[test]
fn landing_refills_air_jumps_and_lock() {
    let t = tunables();
    let mut s = CharacterRuntimeState::default();
    s.current_air_jumps = 0;
    s.walljump_lock_direction = 1;
    s.touch = Vec2 { x: 0, y: 3 };
    s.movement_tick(&t, Vec2 { x: 0, y: 0 }, 20, 16);
    assert_eq!(s.current_air_jumps, t.max_air_jumps);
    assert_eq!(s.walljump_lock_direction, 0);
    assert_eq!(s.air_time_clock, 0);
}

#[test]
fn floor_jump_does_not_spend_the_pool() {
    let t = tunables();
    let mut s = grounded();
    s.jump();
    let (v, _) = s.movement_tick(&t, Vec2 { x: 0, y: 0 }, 20, 16);
    assert_eq!(v.y, 1000);
    // refilled at end of tick, and nothing was spent in the air
    assert_eq!(s.current_air_jumps, t.max_air_jumps);
}

#[test]
fn intents_are_one_shot() {
    let t = tunables();
    let mut s = grounded();
    s.jump();
    s.fastfall();
    s.movement_tick(&t, Vec2 { x: 0, y: 0 }, 20, 16);
    assert!(!s.wants_jump);
    assert!(!s.wants_fastfall);
}

#[test]
fn fastfall_blocked_before_min_air_time() {
    let t = tunables();
    let mut s = CharacterRuntimeState::default();
    s.air_time_clock = 199;
    s.fastfall();
    let (v, g) = s.movement_tick(&t, Vec2 { x: 0, y: -10 }, 20, 16);
    assert!(!s.is_fastfalling);
    assert_eq!(v.y, -10);
    assert_eq!(g, 20);
}

#[test]
fn fastfall_starts_after_min_air_time() {
    let t = tunables();
    let mut s = CharacterRuntimeState::default();
    s.air_time_clock = 200;
    s.fastfall();
    let (v, g) = s.movement_tick(&t, Vec2 { x: 0, y: 10 }, 20, 16);
    assert!(s.is_fastfalling);
    assert!(s.was_fastfalling_last_frame);
    assert_eq!(v.y, -300); // rising: set to exactly the negative boost
    assert_eq!(g, 175);
}

#[test]
fn fastfall_compounds_a_fall() {
    let t = tunables();
    let mut s = CharacterRuntimeState::default();
    s.air_time_clock = 500;
    s.fastfall();
    let (v, g) = s.movement_tick(&t, Vec2 { x: 0, y: -120 }, 20, 16);
    assert!(s.is_fastfalling);
    assert_eq!(v.y, -420); // already falling: the boost is added on top
    assert_eq!(g, 175);
}

#[test]
fn fastfall_held_from_liftoff_waits_for_the_clock() {
    let t = tunables();
    let mut s = grounded();
    // leave the floor, holding the fastfall intent every tick
    s.touch = Vec2 { x: 0, y: 0 };
    let mut started_at = None;
    for tick in 0..30 {
        s.fastfall();
        s.movement_tick(&t, Vec2 { x: 0, y: -10 }, 20, 16);
        if s.is_fastfalling {
            started_at = Some(tick);
            break;
        }
        assert!(s.air_time_clock <= 208, "cooldown overran: {}", s.air_time_clock);
    }
    // clock advances 16 ms per tick starting at 0; 200 ms is reached
    // during tick 13, and only then may the fastfall start
    assert_eq!(started_at, Some(13));
}

#[test]
fn landing_ends_fastfall_and_restores_gravity() {
    let t = tunables();
    let mut s = CharacterRuntimeState::default();
    s.is_fastfalling = true;
    s.was_fastfalling_last_frame = true;
    s.air_time_clock = 900;
    s.touch = Vec2 { x: 0, y: 4 };
    let (_v, g) = s.movement_tick(&t, Vec2 { x: 0, y: -200 }, 175, 16);
    assert!(!s.is_fastfalling);
    assert_eq!(g, 20);
    assert_eq!(s.air_time_clock, 0);
}

#[test]
fn walljump_triggers_against_right_wall() {
    let t = tunables();
    let mut s = CharacterRuntimeState::default();
    s.touch = Vec2 { x: 7, y: 0 };
    s.set_desired_x(1000);
    let (v, _) = s.movement_tick(&t, Vec2 { x: 0, y: -40 }, 20, 16);
    assert_eq!(v.y, 1000);
    assert_eq!(v.x, 500); // floor-speed boost on jump, even off a wall
    assert_eq!(s.walljump_lock_direction, 1);
    // hanging on the wall is not "in the air": the pool is untouched
    assert_eq!(s.current_air_jumps, 0);
}

#[test]
fn walljump_same_side_locked_until_intent_reverses() {
    let t = tunables();
    let mut s = CharacterRuntimeState::default();
    s.touch = Vec2 { x: 7, y: 0 };
    s.set_desired_x(1000);
    let (v1, _) = s.movement_tick(&t, Vec2 { x: 0, y: 0 }, 20, 16);
    assert_eq!(v1.y, 1000);
    // same wall, unchanged intent: rejected
    s.touch = Vec2 { x: 7, y: 0 };
    let (v2, _) = s.movement_tick(&t, Vec2 { x: 0, y: -30 }, 20, 16);
    assert_eq!(v2.y, -30);
    // intent lets go for one tick: the lock is released
    s.touch = Vec2 { x: 7, y: 0 };
    s.set_desired_x(0);
    s.movement_tick(&t, Vec2 { x: 0, y: -30 }, 20, 16);
    assert_eq!(s.walljump_lock_direction, 0);
    // and the same wall works again
    s.touch = Vec2 { x: 7, y: 0 };
    s.set_desired_x(1000);
    let (v4, _) = s.movement_tick(&t, Vec2 { x: 0, y: -30 }, 20, 16);
    assert_eq!(v4.y, 1000);
}

#[test]
fn walljump_disabled_by_tunable() {
    let mut t = tunables();
    t.can_walljump = false;
    let mut s = CharacterRuntimeState::default();
    s.touch = Vec2 { x: 7, y: 0 };
    s.set_desired_x(1000);
    let (v, _) = s.movement_tick(&t, Vec2 { x: 0, y: -30 }, 20, 16);
    assert_eq!(v.y, -30);
}

#[test]
fn knockback_drains_exactly_once() {
    let t = tunables();
    let mut s = CharacterRuntimeState::default();
    s.pending_knockback = Vec2 { x: 30, y: 2000 };
    let (v, _) = s.movement_tick(&t, Vec2 { x: 100, y: -5 }, 20, 16);
    assert_eq!(v.x, 130); // 100 + 0 axis, then +30 knockback
    assert_eq!(v.y, 1995);
    assert_eq!(s.pending_knockback.x, 0);
    assert_eq!(s.pending_knockback.y, 0);
    // the next tick adds nothing more
    let (v2, _) = s.movement_tick(&t, Vec2 { x: 0, y: 0 }, 20, 16);
    assert_eq!(v2.x, 0);
    assert_eq!(v2.y, 0);
}

#[test]
fn airborne_clock_advances_only_off_the_floor() {
    let t = tunables();
    let mut s = CharacterRuntimeState::default();
    s.movement_tick(&t, Vec2 { x: 0, y: 0 }, 20, 16);
    assert_eq!(s.air_time_clock, 16);
    s.movement_tick(&t, Vec2 { x: 0, y: 0 }, 20, 16);
    assert_eq!(s.air_time_clock, 32);
    s.touch = Vec2 { x: 0, y: 9 };
    s.movement_tick(&t, Vec2 { x: 0, y: 0 }, 20, 16);
    assert_eq!(s.air_time_clock, 0);
}

#[test]
fn jump_resets_the_airborne_clock() {
    let t = tunables();
    let mut s = CharacterRuntimeState::default();
    s.current_air_jumps = 1;
    s.air_time_clock = 500;
    s.jump();
    s.movement_tick(&t, Vec2 { x: 0, y: 0 }, 20, 16);
    assert_eq!(s.air_time_clock, 16); // zeroed by the jump, then one tick
}

#[test]
fn default_tunables_match_the_stock_character() {
    let t = CharacterTunables::default();
    assert_eq!(t.speed_air, 20);
    assert_eq!(t.speed_floor, 500);
    assert_eq!(t.max_speed_air, 650);
    assert_eq!(t.fastfall_initial_speed, 0);
    assert_eq!(t.normal_gravity, 20);
    assert_eq!(t.fastfalling_gravity, 175);
    assert_eq!(t.jump_boost, 1000);
    assert_eq!(t.max_air_jumps, 1);
    assert_eq!(t.min_air_time_to_fastfall, 200);
    assert!(t.can_walljump);
}

#[test]
fn touch_predicates_distinguish_floor_wall_air() {
    let mut s = CharacterRuntimeState::default();
    s.touch = Vec2 { x: 0, y: 5 };
    assert!(s.is_on_stage());
    assert!(!s.is_on_stage_wall());
    assert!(!s.is_not_touching_stage());
    s.touch = Vec2 { x: -4, y: 0 };
    assert!(!s.is_on_stage());
    assert!(s.is_on_stage_wall());
    assert!(!s.is_not_touching_stage());
    s.touch = Vec2 { x: 0, y: 0 };
    assert!(s.is_not_touching_stage());
    // contact from below is neither floor nor wall
    s.touch = Vec2 { x: 2, y: -6 };
    assert!(s.is_not_touching_stage());
}
