//! The guarantees the state machine gives across whole ticks and whole
//! runs: air-jump conservation, the fastfall cooldown, walljump lockout,
//! the single-hit guarantee and the once-per-tick knockback drain.

use vstd::prelude::*;

use crate::attack::{attack_tick_model, hit_credits, record_model, AttackView};
use crate::bounds::{clamp_state, sign_spec, AXIS_UNIT, STATE_LIMIT};
use crate::movement::{
    fastfall_starts, jump_applies, movement_model, on_floor, walljump_triggers, StateView,
    TunablesView,
};
use crate::vec2::Vec2View;
use crate::world::{apply_event_model, hits_model, id_index, id_index_from, FighterView, HitEvent};

verus! {

/// Everything the other components may hand the movement core between two
/// of its ticks: a fresh touch signal, fresh intents, knockback queued by
/// attacks, and the velocity, gravity scale and elapsed time from the
/// physics engine.
pub struct TickInput {
    pub touch: Vec2View,
    pub desired_x: int,
    pub wants_jump: bool,
    pub wants_fastfall: bool,
    pub queued_knockback: Vec2View,
    pub velocity: Vec2View,
    pub gravity_scale: int,
    pub dt: int,
}

/// The input is within the ranges the outside collaborators are held to.
pub open spec fn input_valid(i: TickInput) -> bool {
    &&& i.touch.bounded(STATE_LIMIT as int)
    &&& -AXIS_UNIT <= i.desired_x <= AXIS_UNIT
    &&& i.queued_knockback.bounded(STATE_LIMIT as int)
    &&& i.velocity.bounded(STATE_LIMIT as int)
    &&& 0 <= i.dt
}

/// Install one tick's outside-owned fields on the runtime state; the
/// movement-owned bookkeeping (fastfall phase, clocks, jumps, lock) is
/// carried over untouched.
pub open spec fn with_inputs(s: StateView, i: TickInput) -> StateView {
    StateView {
        touch: i.touch,
        desired_x: i.desired_x,
        wants_jump: i.wants_jump,
        wants_fastfall: i.wants_fastfall,
        pending_knockback: i.queued_knockback,
        ..s
    }
}

/// The runtime state after a whole run: each tick installs its inputs and
/// then runs the movement state machine.
pub open spec fn run_model(t: TunablesView, s0: StateView, inputs: Seq<TickInput>) -> StateView
    decreases inputs.len(),
{
    if inputs.len() == 0 {
        s0
    } else {
        let s = run_model(t, s0, inputs.drop_last());
        let i = inputs.last();
        movement_model(t, with_inputs(s, i), i.velocity, i.gravity_scale, i.dt).state
    }
}

/// One movement tick keeps the runtime state well formed.
pub proof fn lemma_movement_preserves_valid(
    t: TunablesView,
    s: StateView,
    v: Vec2View,
    g: int,
    dt: int,
)
    requires
        t.valid(),
        s.valid(t),
    ensures
        movement_model(t, s, v, g, dt).state.valid(t),
{
}

/// Air-jump conservation, one tick: the pool never leaves
/// `[0, max_air_jumps]`, it refills exactly on the tick floor contact
/// holds, and it never grows on any other tick.
pub proof fn lemma_air_jump_conservation(
    t: TunablesView,
    s: StateView,
    v: Vec2View,
    g: int,
    dt: int,
)
    requires
        t.valid(),
        s.valid(t),
    ensures
        ({
            let post = movement_model(t, s, v, g, dt).state;
            &&& 0 <= post.current_air_jumps <= t.max_air_jumps
            &&& on_floor(s.touch) ==> post.current_air_jumps == t.max_air_jumps
            &&& post.current_air_jumps > s.current_air_jumps ==> on_floor(s.touch)
        }),
{
}

/// Air-jump conservation, whole runs: however the outside collaborators
/// drive it, after any sequence of ticks the pool is within
/// `[0, max_air_jumps]` and the state is still well formed.
pub proof fn lemma_air_jump_conservation_run(
    t: TunablesView,
    s0: StateView,
    inputs: Seq<TickInput>,
)
    requires
        t.valid(),
        s0.valid(t),
        forall|k: int| 0 <= k < inputs.len() ==> input_valid(#[trigger] inputs[k]),
    ensures
        run_model(t, s0, inputs).valid(t),
        0 <= run_model(t, s0, inputs).current_air_jumps <= t.max_air_jumps,
    decreases inputs.len(),
{
    if inputs.len() > 0 {
        lemma_air_jump_conservation_run(t, s0, inputs.drop_last());
        let s = run_model(t, s0, inputs.drop_last());
        let i = inputs.last();
        assert(input_valid(inputs[inputs.len() - 1]));
        lemma_movement_preserves_valid(t, with_inputs(s, i), i.velocity, i.gravity_scale, i.dt);
    }
}

/// Fastfall cooldown: while the airborne clock is below the threshold a
/// fastfall cannot start, however hard the intent is held — the fastfall
/// flag can only be carried over or cleared, never raised.
pub proof fn lemma_fastfall_cooldown(t: TunablesView, s: StateView, v: Vec2View, g: int, dt: int)
    requires
        t.valid(),
        s.valid(t),
        s.air_time_clock < t.min_air_time_to_fastfall,
    ensures
        !fastfall_starts(t, s),
        movement_model(t, s, v, g, dt).state.is_fastfalling ==> s.is_fastfalling,
        !s.is_fastfalling ==> !movement_model(t, s, v, g, dt).state.was_fastfalling_last_frame,
{
}

/// The simulated time a run spans.
pub open spec fn total_time(inputs: Seq<TickInput>) -> int
    decreases inputs.len(),
{
    if inputs.len() == 0 {
        0
    } else {
        total_time(inputs.drop_last()) + inputs.last().dt
    }
}

/// Fastfall cooldown over whole runs: from the moment the character is off
/// the floor, no fastfall can start before `min_air_time_to_fastfall` of
/// simulated time has passed — whatever the intents do, held or hammered.
pub proof fn lemma_fastfall_cooldown_run(t: TunablesView, s0: StateView, inputs: Seq<TickInput>)
    requires
        t.valid(),
        s0.valid(t),
        forall|k: int| 0 <= k < inputs.len() ==> input_valid(#[trigger] inputs[k]),
        forall|k: int| 0 <= k < inputs.len() ==> !on_floor((#[trigger] inputs[k]).touch),
        !s0.is_fastfalling,
        s0.air_time_clock + total_time(inputs) < t.min_air_time_to_fastfall,
    ensures
        !run_model(t, s0, inputs).is_fastfalling,
        run_model(t, s0, inputs).air_time_clock <= s0.air_time_clock + total_time(inputs),
    decreases inputs.len(),
{
    if inputs.len() > 0 {
        let rest = inputs.drop_last();
        let i = inputs.last();
        assert(input_valid(inputs[inputs.len() - 1]));
        assert(!on_floor(inputs[inputs.len() - 1].touch));
        assert(forall|k: int| 0 <= k < rest.len() ==> input_valid(#[trigger] rest[k]));
        assert(forall|k: int| 0 <= k < rest.len() ==> !on_floor((#[trigger] rest[k]).touch));
        lemma_fastfall_cooldown_run(t, s0, rest);
        lemma_air_jump_conservation_run(t, s0, rest);
        let s = run_model(t, s0, rest);
        assert(s.air_time_clock < t.min_air_time_to_fastfall);
        assert(!fastfall_starts(t, with_inputs(s, i)));
    }
}

/// Walljump lockout: a walljump locks its direction, so the same-side
/// wall with the unchanged intent cannot trigger again on the next tick.
pub proof fn lemma_walljump_locks_direction(
    t: TunablesView,
    s: StateView,
    v: Vec2View,
    g: int,
    dt: int,
    i: TickInput,
)
    requires
        t.valid(),
        s.valid(t),
        walljump_triggers(t, s),
        !on_floor(s.touch),
        sign_spec(i.desired_x) == sign_spec(s.desired_x),
    ensures
        !walljump_triggers(t, with_inputs(movement_model(t, s, v, g, dt).state, i)),
{
}

/// Walljump release: once the horizontal intent's sign differs from the
/// lock for a tick spent off the floor, the lock is released, and the
/// same wall can force a walljump again.
pub proof fn lemma_walljump_releases(
    t: TunablesView,
    s: StateView,
    v: Vec2View,
    g: int,
    dt: int,
    i: TickInput,
)
    requires
        t.valid(),
        s.valid(t),
        sign_spec(s.desired_x) != s.walljump_lock_direction,
        !walljump_triggers(t, s),
        !on_floor(s.touch),
        t.can_walljump,
        i.touch.x > 0,
        i.desired_x > 0,
    ensures
        walljump_triggers(t, with_inputs(movement_model(t, s, v, g, dt).state, i)),
{
    assert(movement_model(t, s, v, g, dt).state.walljump_lock_direction == 0);
    assert(i.touch.x * i.desired_x > 0) by (nonlinear_arith)
        requires
            i.touch.x > 0,
            i.desired_x > 0,
    ;
}

/// Single-hit guarantee, within a tick: once a hit on a target is
/// recorded, the same hitbox credits that target nothing more, no matter
/// how many further overlap events are reported.
pub proof fn lemma_single_hit(a: AttackView, target: u64)
    requires
        a.valid(),
    ensures
        hit_credits(record_model(a, target), target) is None,
        record_model(a, target).valid(),
{
    if a.active is Some {
        let grown = a.hit_targets.push(target);
        assert(grown[a.hit_targets.len() as int] == target);
        assert(grown.contains(target));
    }
}

/// Single-hit guarantee, across ticks: as long as the hitbox outlives the
/// tick, controller ticks keep every recorded target uncreditable. (Once
/// it expires, a freshly started attack owns a new hitbox and may hit the
/// target once more.)
pub proof fn lemma_single_hit_persists(a: AttackView, owner: u64, dt: int, target: u64)
    requires
        a.valid(),
        0 <= dt,
        a.hit_targets.contains(target),
        (a.active matches Option::Some(act) && act.remaining > dt),
    ensures
        hit_credits(attack_tick_model(a, owner, dt), target) is None,
{
    match a.active {
        Option::Some(act) => {
            if act.remaining <= dt {
            } else {
                assert(attack_tick_model(a, owner, dt).hit_targets == a.hit_targets);
            }
        },
        Option::None => {},
    }
}

/// Positions found by identifier depend on the identifiers alone.
proof fn lemma_id_index_same_ids(w1: Seq<FighterView>, w2: Seq<FighterView>, id: u64, from: int)
    requires
        w1.len() == w2.len(),
        forall|k: int| 0 <= k < w1.len() ==> w1[k].id == (#[trigger] w2[k]).id,
    ensures
        id_index_from(w1, id, from) == id_index_from(w2, id, from),
    decreases w1.len() - from,
{
    if 0 <= from < w1.len() {
        lemma_id_index_same_ids(w1, w2, id, from + 1);
    }
}

/// A position found by identifier is a real position: `-1` or an index
/// into the roster holding that identifier.
proof fn lemma_id_index_in_range(w: Seq<FighterView>, id: u64, from: int)
    ensures
        id_index_from(w, id, from) == -1 || (from <= id_index_from(w, id, from) < w.len()
            && w[id_index_from(w, id, from)].id == id),
    decreases w.len() - from,
{
    if 0 <= from < w.len() {
        lemma_id_index_in_range(w, id, from + 1);
    }
}

/// Crediting the same overlap a second time changes nothing: the first
/// credit recorded the target, so the pair is no longer creditable.
pub proof fn lemma_hit_event_idempotent(w: Seq<FighterView>, e: HitEvent)
    ensures
        apply_event_model(apply_event_model(w, e), e) == apply_event_model(w, e),
{
    let ai = id_index(w, e.attacker);
    let ti = id_index(w, e.target);
    lemma_id_index_in_range(w, e.attacker, 0);
    lemma_id_index_in_range(w, e.target, 0);
    if 0 <= ai < w.len() && 0 <= ti < w.len() {
        match hit_credits(w[ai].attack, e.target) {
            Option::Some((dmg, kb)) => {
                let w2 = apply_event_model(w, e);
                assert(w2.len() == w.len());
                assert(forall|k: int| 0 <= k < w.len() ==> (#[trigger] w2[k]).id == w[k].id);
                lemma_id_index_same_ids(w2, w, e.attacker, 0);
                lemma_id_index_same_ids(w2, w, e.target, 0);
                assert(w2[ai].attack == record_model(w[ai].attack, e.target));
                let grown = w[ai].attack.hit_targets.push(e.target);
                assert(grown[w[ai].attack.hit_targets.len() as int] == e.target);
                assert(grown.contains(e.target));
                assert(w2[ai].attack.hit_targets == grown);
                assert(hit_credits(w2[ai].attack, e.target) is None);
            },
            Option::None => {},
        }
    }
}

/// Single-hit guarantee over a whole tick's event batch: however many
/// duplicate overlap events the physics engine reports for one pair, the
/// batch credits the pair exactly once.
pub proof fn lemma_duplicate_overlaps_credit_once(
    w: Seq<FighterView>,
    events: Seq<HitEvent>,
    e: HitEvent,
)
    requires
        events.len() >= 1,
        forall|k: int| 0 <= k < events.len() ==> (#[trigger] events[k]) == e,
    ensures
        hits_model(w, events) == apply_event_model(w, e),
    decreases events.len(),
{
    assert(events.last() == events[events.len() - 1]);
    assert(events[events.len() - 1] == e);
    if events.len() == 1 {
        assert(events.drop_last() =~= Seq::<HitEvent>::empty());
        assert(hits_model(w, events.drop_last()) == w);
        assert(hits_model(w, events) == apply_event_model(w, e));
    } else {
        assert(forall|k: int|
            0 <= k < events.drop_last().len() ==> (#[trigger] events.drop_last()[k]) == e);
        lemma_duplicate_overlaps_credit_once(w, events.drop_last(), e);
        lemma_hit_event_idempotent(w, e);
        assert(hits_model(w, events) == apply_event_model(
            hits_model(w, events.drop_last()),
            events.last(),
        ));
    }
}

/// Knockback is drained exactly once per tick: whatever was queued is
/// added to the velocity in full, and the accumulator leaves the tick
/// exactly zero.
pub proof fn lemma_knockback_drains_once(
    t: TunablesView,
    s: StateView,
    v: Vec2View,
    g: int,
    dt: int,
)
    requires
        t.valid(),
        s.valid(t),
        v.bounded(STATE_LIMIT as int),
    ensures
        movement_model(t, s, v, g, dt).state.pending_knockback == (Vec2View { x: 0, y: 0 }),
        !jump_applies(t, s) ==> movement_model(t, s, v, g, dt).velocity.x == (if on_floor(s.touch) {
            crate::movement::scale_axis_spec(s.desired_x, t.speed_floor)
        } else {
            crate::bounds::clamp_spec(
                v.x + crate::movement::scale_axis_spec(s.desired_x, t.speed_air),
                -t.max_speed_air,
                t.max_speed_air,
            )
        }) + s.pending_knockback.x,
        (!jump_applies(t, s) && !fastfall_starts(t, s)) ==> movement_model(
            t,
            s,
            v,
            g,
            dt,
        ).velocity.y == v.y + s.pending_knockback.y,
{
}

/// Two hits landing on the same target in the same tick accumulate: the
/// pending knockback afterwards is exactly the sum of both, as long as
/// the accumulator stays inside its clamp range.
pub proof fn lemma_two_hits_accumulate(p0: Vec2View, kb1: Vec2View, kb2: Vec2View)
    requires
        -STATE_LIMIT <= p0.x + kb1.x + kb2.x <= STATE_LIMIT,
        -STATE_LIMIT <= p0.y + kb1.y + kb2.y <= STATE_LIMIT,
        -STATE_LIMIT <= p0.x + kb1.x <= STATE_LIMIT,
        -STATE_LIMIT <= p0.y + kb1.y <= STATE_LIMIT,
    ensures
        clamp_state(clamp_state(p0.x + kb1.x) + kb2.x) == p0.x + kb1.x + kb2.x,
        clamp_state(clamp_state(p0.y + kb1.y) + kb2.y) == p0.y + kb1.y + kb2.y,
{
}

} // verus!
