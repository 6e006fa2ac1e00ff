//! The whole-roster tick: every character's touch signal is rebuilt first,
//! then every character moves, then attack cooldowns advance and this
//! tick's hitbox overlaps are credited.

use vstd::prelude::*;

use crate::attack::{
    attack_tick_model, hit_credits, record_model, AttackState, AttackView, Character,
};
use crate::bounds::{clamp_state, STATE_LIMIT};
use crate::movement::{movement_model, CharacterRuntimeState, CharacterTunables, StateView};
use crate::touch::{apply_touch_model, touch_from_events, ContactEvent};
use crate::vec2::{Vec2, Vec2View};

verus! {

/// One simulated character: identity, configuration, damage accumulator,
/// movement state, attack state, and the velocity and gravity scale the
/// physics engine currently holds for it.
#[derive(Debug)]
pub struct Fighter {
    /// The character's body identifier in the physics world.
    pub id: u64,
    /// Immutable per-character configuration.
    pub tunables: CharacterTunables,
    /// Accumulated damage.
    pub character: Character,
    /// Movement runtime state.
    pub state: CharacterRuntimeState,
    /// Attack bookkeeping.
    pub attack: AttackState,
    /// Current linear velocity.
    pub velocity: Vec2,
    /// Current gravity scale.
    pub gravity_scale: i64,
}

/// The mathematical value of a [`Fighter`].
pub struct FighterView {
    pub id: u64,
    pub tunables: crate::movement::TunablesView,
    pub character: int,
    pub state: StateView,
    pub attack: AttackView,
    pub velocity: Vec2View,
    pub gravity_scale: int,
}

impl View for Fighter {
    type V = FighterView;

    open spec fn view(&self) -> FighterView {
        FighterView {
            id: self.id,
            tunables: self.tunables@,
            character: self.character@,
            state: self.state@,
            attack: self.attack@,
            velocity: self.velocity@,
            gravity_scale: self.gravity_scale as int,
        }
    }
}

impl FighterView {
    /// Well-formedness of the whole record.
    pub open spec fn valid(self) -> bool {
        &&& self.tunables.valid()
        &&& self.state.valid(self.tunables)
        &&& 0 <= self.character <= STATE_LIMIT
        &&& self.attack.valid()
    }
}

impl Fighter {
    /// Spawn a fighter: fresh runtime state, no damage, idle attack
    /// controller, at rest under normal gravity.
    pub fn new(id: u64, tunables: CharacterTunables) -> (r: Fighter)
        requires
            tunables@.valid(),
        ensures
            r@.id == id,
            r@.tunables == tunables@,
            r@.state == (StateView {
                touch: Vec2View { x: 0, y: 0 },
                desired_x: 0,
                wants_jump: false,
                wants_fastfall: false,
                is_fastfalling: false,
                was_fastfalling_last_frame: false,
                air_time_clock: 0,
                current_air_jumps: 0,
                walljump_lock_direction: 0,
                pending_knockback: Vec2View { x: 0, y: 0 },
            }),
            r@.character == 0,
            r@.attack.active is None,
            r@.attack.hit_targets == Seq::<u64>::empty(),
            !r@.attack.wants_attack,
            r@.velocity == (Vec2View { x: 0, y: 0 }),
            r@.gravity_scale == tunables@.normal_gravity,
            r@.valid(),
    {
        Fighter {
            id,
            tunables,
            character: Character::default(),
            state: CharacterRuntimeState::default(),
            attack: AttackState::default(),
            velocity: Vec2 { x: 0, y: 0 },
            gravity_scale: tunables.normal_gravity,
        }
    }
}

/// The mathematical roster behind a vector of fighters.
pub open spec fn roster_view(v: Seq<Fighter>) -> Seq<FighterView> {
    v.map_values(|f: Fighter| f@)
}

/// The body identifiers of a roster, in order.
pub open spec fn roster_ids(w: Seq<FighterView>) -> Seq<u64> {
    w.map_values(|f: FighterView| f.id)
}

/// Every fighter of the roster is well formed.
pub open spec fn roster_valid(w: Seq<FighterView>) -> bool {
    forall|k: int| 0 <= k < w.len() ==> (#[trigger] w[k]).valid()
}

/// Every velocity the physics engine handed over is within the
/// accumulator range; the engine owns velocities between ticks, so this
/// is asked of it anew each tick.
pub open spec fn roster_vel_bounded(w: Seq<FighterView>) -> bool {
    forall|k: int| 0 <= k < w.len() ==> (#[trigger] w[k]).velocity.bounded(STATE_LIMIT as int)
}

/// An overlap reported between the hitbox owned by the character
/// `attacker` and the body of the character `target`.
#[derive(Clone, Copy, Debug)]
pub struct HitEvent {
    /// The character whose hitbox overlapped.
    pub attacker: u64,
    /// The character that was overlapped.
    pub target: u64,
}

/// The position of the first fighter with identifier `id`, scanning from
/// `from`; `-1` if there is none.
pub open spec fn id_index_from(w: Seq<FighterView>, id: u64, from: int) -> int
    decreases w.len() - from,
{
    if from < 0 || from >= w.len() {
        -1
    } else if w[from].id == id {
        from
    } else {
        id_index_from(w, id, from + 1)
    }
}

/// The position of the first fighter with identifier `id`, or `-1`.
pub open spec fn id_index(w: Seq<FighterView>, id: u64) -> int {
    id_index_from(w, id, 0)
}

/// Find the first fighter with identifier `id`, as the physics engine
/// names bodies in its events.
pub fn find_index(fighters: &Vec<Fighter>, id: u64) -> (r: Option<usize>)
    ensures
        (match r {
            Option::Some(j) => j < fighters@.len() && id_index(roster_view(fighters@), id)
                == j as int,
            Option::None => id_index(roster_view(fighters@), id) == -1,
        }),
{
    let ghost w = roster_view(fighters@);
    let mut i: usize = 0;
    while i < fighters.len()
        invariant
            0 <= i <= fighters@.len(),
            w == roster_view(fighters@),
            w.len() == fighters@.len(),
            id_index(w, id) == id_index_from(w, id, i as int),
        decreases fighters@.len() - i,
    {
        if fighters[i].id == id {
            return Option::Some(i);
        }
        i = i + 1;
    }
    Option::None
}

/// The roster after the contact classifier ran: each fighter gets the
/// touch force of its last qualifying contact event, and landing clears
/// its fastfall flag.
pub open spec fn classify_model(
    w: Seq<FighterView>,
    events: Seq<ContactEvent>,
    stages: Seq<u64>,
) -> Seq<FighterView> {
    w.map(
        |k: int, f: FighterView|
            FighterView {
                state: apply_touch_model(
                    f.state,
                    touch_from_events(events, f.id, roster_ids(w), stages),
                ),
                ..f
            },
    )
}

/// The touch force a tick's events yield is zero or one of the forces the
/// events carry, so it stays within any bound the events respect.
pub proof fn lemma_touch_from_events_bounded(
    events: Seq<ContactEvent>,
    me: u64,
    characters: Seq<u64>,
    stages: Seq<u64>,
    limit: int,
)
    requires
        0 <= limit,
        forall|k: int| 0 <= k < events.len() ==> (#[trigger] events[k]).force@.bounded(limit),
    ensures
        touch_from_events(events, me, characters, stages).bounded(limit),
    decreases events.len(),
{
    if events.len() > 0 {
        assert(events[events.len() - 1].force@.bounded(limit));
        assert(forall|k: int|
            0 <= k < events.drop_last().len() ==> (#[trigger] events.drop_last()[k])
                == events[k]);
        lemma_touch_from_events_bounded(events.drop_last(), me, characters, stages, limit);
    }
}

/// Gather the roster's body identifiers, for membership checks against
/// contact events.
fn collect_ids(fighters: &Vec<Fighter>) -> (r: Vec<u64>)
    ensures
        r@ == roster_ids(roster_view(fighters@)),
{
    let mut r: Vec<u64> = Vec::new();
    let mut i: usize = 0;
    while i < fighters.len()
        invariant
            0 <= i <= fighters@.len(),
            r@.len() == i,
            forall|k: int| 0 <= k < i ==> r@[k] == fighters@[k]@.id,
        decreases fighters@.len() - i,
    {
        let id: u64 = fighters[i].id;
        r.push(id);
        i = i + 1;
    }
    proof {
        assert(r@ =~= roster_ids(roster_view(fighters@)));
    }
    r
}

/// Run the contact classifier over the whole roster: every touch signal
/// is reset and rebuilt from this tick's events alone.
pub fn classify_touches(
    fighters: &mut Vec<Fighter>,
    events: &Vec<ContactEvent>,
    stages: &Vec<u64>,
)
    requires
        forall|k: int|
            0 <= k < events@.len() ==> (#[trigger] events@[k]).force@.bounded(STATE_LIMIT as int),
    ensures
        roster_view(final(fighters)@) == classify_model(roster_view(old(fighters)@), events@, stages@),
{
    let ids = collect_ids(fighters);
    let ghost orig = roster_view(fighters@);
    let ghost target = classify_model(orig, events@, stages@);
    let n: usize = fighters.len();
    let mut i: usize = 0;
    while i < n
        invariant
            0 <= i <= n,
            n == fighters@.len(),
            n == orig.len(),
            target == classify_model(orig, events@, stages@),
            target.len() == n,
            ids@ == roster_ids(orig),
            forall|k: int| i <= k < n ==> fighters@[k]@ == orig[k],
            forall|k: int| 0 <= k < i ==> fighters@[k]@ == target[k],
            forall|k: int|
                0 <= k < events@.len() ==> (#[trigger] events@[k]).force@.bounded(
                    STATE_LIMIT as int,
                ),
        decreases n - i,
    {
        let id: u64 = fighters[i].id;
        let force = crate::touch::touch_for(events, id, &ids, stages);
        let f = &mut fighters[i];
        f.state.apply_touch(force);
        proof {
            assert(target[i as int] == (FighterView {
                state: apply_touch_model(
                    orig[i as int].state,
                    touch_from_events(events@, orig[i as int].id, roster_ids(orig), stages@),
                ),
                ..orig[i as int]
            }));
        }
        i = i + 1;
    }
    proof {
        assert(roster_view(fighters@) =~= target);
    }
}

/// What one movement tick does to a whole fighter record.
pub open spec fn fighter_move_model(f: FighterView, dt: int) -> FighterView {
    let tick = movement_model(f.tunables, f.state, f.velocity, f.gravity_scale, dt);
    FighterView {
        state: tick.state,
        velocity: tick.velocity,
        gravity_scale: tick.gravity_scale,
        ..f
    }
}

/// The roster after every fighter ran its movement tick.
pub open spec fn movement_all_model(w: Seq<FighterView>, dt: int) -> Seq<FighterView> {
    w.map(|k: int, f: FighterView| fighter_move_model(f, dt))
}

/// Run the movement integrator over the whole roster.
pub fn movement_all(fighters: &mut Vec<Fighter>, dt: i64)
    requires
        roster_valid(roster_view(old(fighters)@)),
        roster_vel_bounded(roster_view(old(fighters)@)),
        0 <= dt,
    ensures
        roster_view(final(fighters)@) == movement_all_model(roster_view(old(fighters)@), dt as int),
        roster_valid(roster_view(final(fighters)@)),
{
    let ghost orig = roster_view(fighters@);
    let ghost target = movement_all_model(orig, dt as int);
    let n: usize = fighters.len();
    let mut i: usize = 0;
    while i < n
        invariant
            0 <= i <= n,
            n == fighters@.len(),
            n == orig.len(),
            target == movement_all_model(orig, dt as int),
            target.len() == n,
            roster_valid(orig),
            roster_vel_bounded(orig),
            0 <= dt,
            forall|k: int| i <= k < n ==> fighters@[k]@ == orig[k],
            forall|k: int| 0 <= k < i ==> fighters@[k]@ == target[k],
            forall|k: int| 0 <= k < i ==> (#[trigger] fighters@[k]@).valid(),
        decreases n - i,
    {
        assert(orig[i as int].valid());
        assert(orig[i as int].velocity.bounded(STATE_LIMIT as int));
        let ghost prev = fighters@;
        let f = &mut fighters[i];
        let t = f.tunables;
        let vel = f.velocity;
        let grav = f.gravity_scale;
        let (v2, g2) = f.state.movement_tick(&t, vel, grav, dt);
        f.velocity = v2;
        f.gravity_scale = g2;
        proof {
            assert(forall|k: int| 0 <= k < n && k != i ==> fighters@[k] == prev[k]);
            assert(fighters@[i as int]@ == target[i as int]);
            assert forall|k: int| 0 <= k < i + 1 implies (#[trigger] fighters@[k]@).valid() by {
                if k == i as int {
                    assert(fighters@[k]@.state.valid(t@));
                } else {
                    assert(fighters@[k]@ == prev[k]@);
                }
            }
        }
        i = i + 1;
    }
    proof {
        assert(roster_view(fighters@) =~= target);
    }
}

/// The roster after every fighter ran its attack-controller tick.
pub open spec fn attack_all_model(w: Seq<FighterView>, dt: int) -> Seq<FighterView> {
    w.map(
        |k: int, f: FighterView| FighterView { attack: attack_tick_model(f.attack, f.id, dt), ..f },
    )
}

/// Run the attack controller over the whole roster: cooldowns advance,
/// elapsed attacks end, and queued intents start new attacks.
pub fn attack_all(fighters: &mut Vec<Fighter>, dt: i64)
    requires
        roster_valid(roster_view(old(fighters)@)),
        0 <= dt,
    ensures
        roster_view(final(fighters)@) == attack_all_model(roster_view(old(fighters)@), dt as int),
        roster_valid(roster_view(final(fighters)@)),
{
    let ghost orig = roster_view(fighters@);
    let ghost target = attack_all_model(orig, dt as int);
    let n: usize = fighters.len();
    let mut i: usize = 0;
    while i < n
        invariant
            0 <= i <= n,
            n == fighters@.len(),
            n == orig.len(),
            target == attack_all_model(orig, dt as int),
            target.len() == n,
            roster_valid(orig),
            0 <= dt,
            forall|k: int| i <= k < n ==> fighters@[k]@ == orig[k],
            forall|k: int| 0 <= k < i ==> fighters@[k]@ == target[k],
            forall|k: int| 0 <= k < i ==> (#[trigger] fighters@[k]@).valid(),
        decreases n - i,
    {
        assert(orig[i as int].valid());
        let ghost prev = fighters@;
        let f = &mut fighters[i];
        let id: u64 = f.id;
        f.attack.attack_tick(id, dt);
        proof {
            assert(forall|k: int| 0 <= k < n && k != i ==> fighters@[k] == prev[k]);
            assert(fighters@[i as int]@ == target[i as int]);
            assert forall|k: int| 0 <= k < i + 1 implies (#[trigger] fighters@[k]@).valid() by {
                if k == i as int {
                    assert(fighters@[k]@.attack.valid());
                } else {
                    assert(fighters@[k]@ == prev[k]@);
                }
            }
        }
        i = i + 1;
    }
    proof {
        assert(roster_view(fighters@) =~= target);
    }
}

/// The roster after one overlap event: if both bodies name fighters and
/// the attacker's running hitbox has not credited the target yet, the
/// target's damage and pending knockback grow and the pair is recorded in
/// both hit lists; otherwise nothing changes.
pub open spec fn apply_event_model(w: Seq<FighterView>, e: HitEvent) -> Seq<FighterView> {
    let ai = id_index(w, e.attacker);
    let ti = id_index(w, e.target);
    if ai < 0 || ti < 0 {
        w
    } else {
        match hit_credits(w[ai].attack, e.target) {
            Option::Some((dmg, kb)) => {
                let w1 = w.update(ai, FighterView { attack: record_model(w[ai].attack, e.target), ..w[ai] });
                let t1 = w1[ti];
                w1.update(
                    ti,
                    FighterView {
                        character: clamp_state(t1.character + dmg),
                        state: StateView {
                            pending_knockback: Vec2View {
                                x: clamp_state(t1.state.pending_knockback.x + kb.x),
                                y: clamp_state(t1.state.pending_knockback.y + kb.y),
                            },
                            ..t1.state
                        },
                        ..t1
                    },
                )
            },
            Option::None => w,
        }
    }
}

/// The roster after a tick's overlap events, credited in report order.
pub open spec fn hits_model(w: Seq<FighterView>, events: Seq<HitEvent>) -> Seq<FighterView>
    decreases events.len(),
{
    if events.len() == 0 {
        w
    } else {
        apply_event_model(hits_model(w, events.drop_last()), events.last())
    }
}

/// Credit one overlap event.
fn apply_one_hit(fighters: &mut Vec<Fighter>, e: HitEvent)
    requires
        roster_valid(roster_view(old(fighters)@)),
    ensures
        roster_view(final(fighters)@) == apply_event_model(roster_view(old(fighters)@), e),
        roster_valid(roster_view(final(fighters)@)),
{
    let ghost orig = roster_view(fighters@);
    let ai_opt = find_index(fighters, e.attacker);
    let ti_opt = find_index(fighters, e.target);
    let ai = match ai_opt {
        Option::Some(j) => j,
        Option::None => {
            return;
        },
    };
    let ti = match ti_opt {
        Option::Some(j) => j,
        Option::None => {
            return;
        },
    };
    assert(orig[ai as int].valid());
    assert(orig[ti as int].valid());
    let hd = fighters[ai].attack.hit_damage(e.target);
    match hd {
        Option::Some((dmg, kb)) => {
            proof {
                assert(orig[ai as int].attack.valid());
            }
            let tf = &mut fighters[ti];
            crate::attack::apply_knockback(&mut tf.character, &mut tf.state, dmg, kb);
            let af = &mut fighters[ai];
            af.attack.record_target(e.target);
            proof {
                assert(roster_view(fighters@) =~= apply_event_model(orig, e));
            }
        },
        Option::None => {
            proof {
                assert(roster_view(fighters@) =~= apply_event_model(orig, e));
            }
        },
    }
}

/// Credit a tick's overlap events in the order the physics engine
/// reported them.
pub fn apply_hit_events(fighters: &mut Vec<Fighter>, events: &Vec<HitEvent>)
    requires
        roster_valid(roster_view(old(fighters)@)),
    ensures
        roster_view(final(fighters)@) == hits_model(roster_view(old(fighters)@), events@),
        roster_valid(roster_view(final(fighters)@)),
{
    let ghost orig = roster_view(fighters@);
    let mut i: usize = 0;
    while i < events.len()
        invariant
            0 <= i <= events@.len(),
            roster_view(fighters@) == hits_model(orig, events@.take(i as int)),
            roster_valid(roster_view(fighters@)),
        decreases events@.len() - i,
    {
        let e = events[i];
        apply_one_hit(fighters, e);
        proof {
            assert(events@.take(i + 1).drop_last() =~= events@.take(i as int));
            assert(events@.take(i + 1).last() == events@[i as int]);
        }
        i = i + 1;
    }
    proof {
        assert(events@.take(events@.len() as int) =~= events@);
    }
}

/// The roster after one whole simulation tick: contact classification,
/// then movement, then attack cooldowns, then this tick's hitbox
/// overlaps, whose knockback the next movement tick will drain.
pub open spec fn world_model(
    w: Seq<FighterView>,
    contacts: Seq<ContactEvent>,
    stages: Seq<u64>,
    hits: Seq<HitEvent>,
    dt: int,
) -> Seq<FighterView> {
    hits_model(
        attack_all_model(movement_all_model(classify_model(w, contacts, stages), dt), dt),
        hits,
    )
}

/// Run one whole simulation tick over the roster.
pub fn world_tick(
    fighters: &mut Vec<Fighter>,
    contacts: &Vec<ContactEvent>,
    stages: &Vec<u64>,
    hits: &Vec<HitEvent>,
    dt: i64,
)
    requires
        roster_valid(roster_view(old(fighters)@)),
        roster_vel_bounded(roster_view(old(fighters)@)),
        0 <= dt,
        forall|k: int|
            0 <= k < contacts@.len() ==> (#[trigger] contacts@[k]).force@.bounded(
                STATE_LIMIT as int,
            ),
    ensures
        roster_view(final(fighters)@) == world_model(
            roster_view(old(fighters)@),
            contacts@,
            stages@,
            hits@,
            dt as int,
        ),
        roster_valid(roster_view(final(fighters)@)),
{
    classify_touches(fighters, contacts, stages);
    proof {
        let w1 = classify_model(roster_view(old(fighters)@), contacts@, stages@);
        assert forall|k: int| 0 <= k < w1.len() implies (#[trigger] w1[k]).valid() by {
            assert(roster_view(old(fighters)@)[k].valid());
            lemma_touch_from_events_bounded(
                contacts@,
                roster_view(old(fighters)@)[k].id,
                roster_ids(roster_view(old(fighters)@)),
                stages@,
                STATE_LIMIT as int,
            );
        }
    }
    movement_all(fighters, dt);
    attack_all(fighters, dt);
    apply_hit_events(fighters, hits);
}

} // verus!
