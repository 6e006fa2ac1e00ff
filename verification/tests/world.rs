use platform_fighter::movement::CharacterTunables;
use platform_fighter::touch::ContactEvent;
use platform_fighter::vec2::Vec2;
use platform_fighter::world::{
    apply_hit_events, find_index, world_tick, Fighter, HitEvent,
};

const STAGE: u64 = 100;

fn roster() -> Vec<Fighter> {
    vec![
        Fighter::new(1, CharacterTunables::default()),
        Fighter::new(2, CharacterTunables::default()),
    ]
}

fn floor_contact(body: u64) -> ContactEvent {
    ContactEvent { body_a: body, body_b: STAGE, force: Vec2 { x: 0, y: 9 } }
}

#[test]
fn spawn_is_well_formed_and_at_rest() {
    let f = Fighter::new(5, CharacterTunables::default());
    assert_eq!(f.id, 5);
    assert_eq!(f.character.percentage, 0);
    assert_eq!((f.velocity.x, f.velocity.y), (0, 0));
    assert_eq!(f.gravity_scale, 20);
    assert!(!f.attack.is_attacking());
    assert!(f.state.is_not_touching_stage());
}

#[test]
fn find_index_matches_ids() {
    let fighters = roster();
    assert_eq!(find_index(&fighters, 1), Some(0));
    assert_eq!(find_index(&fighters, 2), Some(1));
    assert_eq!(find_index(&fighters, 3), None);
}

#[test]
fn duplicate_overlap_events_credit_once() {
    let mut fighters = roster();
    fighters[0].attack.forward_air();
    fighters[0].attack.attack_tick(1, 16);
    let events = vec![
        HitEvent { attacker: 1, target: 2 },
        HitEvent { attacker: 1, target: 2 },
        HitEvent { attacker: 1, target: 2 },
    ];
    apply_hit_events(&mut fighters, &events);
    assert_eq!(fighters[1].character.percentage, 20);
    assert_eq!(fighters[1].state.pending_knockback.y, 1000);
    assert_eq!(fighters[0].attack.hit_targets, vec![2]);
}

#[test]
fn two_attackers_accumulate_on_one_target() {
    let mut fighters = roster();
    fighters.push(Fighter::new(3, CharacterTunables::default()));
    fighters[0].attack.forward_air();
    fighters[0].attack.attack_tick(1, 16);
    fighters[2].attack.forward_air();
    fighters[2].attack.attack_tick(3, 16);
    let events = vec![HitEvent { attacker: 1, target: 2 }, HitEvent { attacker: 3, target: 2 }];
    apply_hit_events(&mut fighters, &events);
    assert_eq!(fighters[1].character.percentage, 40);
    assert_eq!(fighters[1].state.pending_knockback.y, 2000);
}

#[test]
fn idle_attacker_and_unknown_bodies_credit_nothing() {
    let mut fighters = roster();
    let events = vec![
        HitEvent { attacker: 1, target: 2 },  // idle attacker
        HitEvent { attacker: 9, target: 2 },  // unknown attacker
        HitEvent { attacker: 1, target: 9 },  // unknown target
    ];
    apply_hit_events(&mut fighters, &events);
    assert_eq!(fighters[1].character.percentage, 0);
    assert_eq!(fighters[1].state.pending_knockback.y, 0);
}

#[test]
fn whole_tick_runs_classify_move_attack_hits_in_order() {
    let mut fighters = roster();
    let stages = vec![STAGE];
    // tick 1: both on the floor; the first wants to attack and lands a hit
    fighters[0].attack.forward_air();
    let contacts = vec![floor_contact(1), floor_contact(2)];
    let hits = vec![HitEvent { attacker: 1, target: 2 }];
    world_tick(&mut fighters, &contacts, &stages, &hits, 16);
    assert!(fighters[0].attack.is_attacking());
    assert_eq!(fighters[1].character.percentage, 20);
    // the knockback is queued, not yet applied to the velocity
    assert_eq!(fighters[1].state.pending_knockback.y, 1000);
    assert_eq!(fighters[1].velocity.y, 0);
    // tick 2: the movement integrator drains the queued knockback
    let no_hits: Vec<HitEvent> = Vec::new();
    world_tick(&mut fighters, &contacts, &stages, &no_hits, 16);
    assert_eq!(fighters[1].velocity.y, 1000);
    assert_eq!(fighters[1].state.pending_knockback.y, 0);
    // tick 3: the accumulator stays empty, so nothing more is added to
    // the velocity the physics engine handed back
    world_tick(&mut fighters, &contacts, &stages, &no_hits, 16);
    assert_eq!(fighters[1].velocity.y, 1000);
    assert_eq!(fighters[1].state.pending_knockback.y, 0);
}

#[test]
fn wall_contact_forces_a_walljump_through_the_whole_tick() {
    let mut fighters = roster();
    let stages = vec![STAGE];
    fighters[0].state.set_desired_x(1000);
    let wall = ContactEvent { body_a: 1, body_b: STAGE, force: Vec2 { x: 5, y: 0 } };
    let contacts = vec![wall];
    let no_hits: Vec<HitEvent> = Vec::new();
    world_tick(&mut fighters, &contacts, &stages, &no_hits, 16);
    assert_eq!(fighters[0].velocity.y, 1000);
    assert_eq!(fighters[0].velocity.x, 500); // floor-speed boost on jump
    assert_eq!(fighters[0].state.walljump_lock_direction, 1);
}

#[test]
fn floor_contact_refills_air_jumps_through_the_whole_tick() {
    let mut fighters = roster();
    let stages = vec![STAGE];
    fighters[0].state.current_air_jumps = 0;
    let contacts = vec![floor_contact(1)];
    let no_hits: Vec<HitEvent> = Vec::new();
    world_tick(&mut fighters, &contacts, &stages, &no_hits, 16);
    assert_eq!(fighters[0].state.current_air_jumps, 1);
    // the second fighter had no contact event: its signal is no contact
    assert!(fighters[1].state.is_not_touching_stage());
}
