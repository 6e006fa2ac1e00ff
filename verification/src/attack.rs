//! The melee attack lifecycle: cooldown-gated attack starts, hitbox
//! lifetime, single-hit-per-target bookkeeping and knockback queuing.

use vstd::prelude::*;

use crate::bounds::{accumulate, clamp_state, contains_id, STATE_LIMIT, TUNABLE_LIMIT};
use crate::movement::{CharacterRuntimeState, StateView};
use crate::vec2::{Vec2, Vec2View};

verus! {

/// Lifetime of an attack's hitbox, in milliseconds; also the cooldown
/// before the next attack may start.
pub const ATTACK_LIFETIME: i64 = 1000;

/// Damage points credited per landed hit.
pub const ATTACK_DAMAGE: i64 = 20;

/// Horizontal knockback queued per landed hit.
pub const ATTACK_KNOCKBACK_X: i64 = 0;

/// Vertical knockback queued per landed hit.
pub const ATTACK_KNOCKBACK_Y: i64 = 1000;

/// A character's accumulated damage.
#[derive(Clone, Copy, Debug)]
pub struct Character {
    /// Damage percentage points taken so far; grows with each hit.
    pub percentage: i64,
}

impl View for Character {
    type V = int;

    open spec fn view(&self) -> int {
        self.percentage as int
    }
}

impl Character {
    /// The accumulator is in range.
    pub open spec fn valid(self) -> bool {
        0 <= self.percentage <= STATE_LIMIT
    }
}

impl Default for Character {
    /// A fresh character has taken no damage.
    fn default() -> (r: Character)
        ensures
            r@ == 0,
    {
        Character { percentage: 0 }
    }
}

/// A transient attack volume: it lives as long as its owner's attack and
/// credits each target at most once.
#[derive(Debug)]
pub struct HitboxState {
    /// The attacking character's body identifier.
    pub owner: u64,
    /// Damage credited per target.
    pub damage: i64,
    /// Knockback queued per target.
    pub knockback: Vec2,
    /// Targets already credited by this hitbox; a safety copy of the
    /// owner's own hit list, so duplicate overlap events change nothing.
    pub already_hit: Vec<u64>,
}

/// The mathematical value of [`HitboxState`].
pub struct HitboxView {
    pub owner: u64,
    pub damage: int,
    pub knockback: Vec2View,
    pub already_hit: Seq<u64>,
}

impl View for HitboxState {
    type V = HitboxView;

    open spec fn view(&self) -> HitboxView {
        HitboxView {
            owner: self.owner,
            damage: self.damage as int,
            knockback: self.knockback@,
            already_hit: self.already_hit@,
        }
    }
}

impl HitboxView {
    /// Damage and knockback are within the tunable range.
    pub open spec fn valid(self) -> bool {
        &&& 0 <= self.damage <= TUNABLE_LIMIT
        &&& self.knockback.bounded(TUNABLE_LIMIT as int)
    }
}

/// A running attack: the remaining lifetime and the hitbox it owns.
#[derive(Debug)]
pub struct ActiveAttack {
    /// Milliseconds until the attack ends and the hitbox is destroyed.
    pub remaining: i64,
    /// The attack's hitbox.
    pub hitbox: HitboxState,
}

/// The mathematical value of [`ActiveAttack`].
pub struct ActiveView {
    pub remaining: int,
    pub hitbox: HitboxView,
}

impl View for ActiveAttack {
    type V = ActiveView;

    open spec fn view(&self) -> ActiveView {
        ActiveView { remaining: self.remaining as int, hitbox: self.hitbox@ }
    }
}

/// Per-character attack bookkeeping: either idle or attacking, plus the
/// list of targets hit by the current attack and the queued intent.
#[derive(Debug)]
pub struct AttackState {
    /// The running attack, if any; its presence refuses new attack starts.
    pub active: Option<ActiveAttack>,
    /// Targets hit by the current attack; cleared when a new attack
    /// starts, never between attacks.
    pub hit_targets: Vec<u64>,
    /// Queued attack intent, ignored while an attack is running.
    pub wants_attack: bool,
}

/// The mathematical value of [`AttackState`].
pub struct AttackView {
    pub active: Option<ActiveView>,
    pub hit_targets: Seq<u64>,
    pub wants_attack: bool,
}

impl View for AttackState {
    type V = AttackView;

    open spec fn view(&self) -> AttackView {
        AttackView {
            active: match self.active {
                Option::Some(a) => Option::Some(a@),
                Option::None => Option::None,
            },
            hit_targets: self.hit_targets@,
            wants_attack: self.wants_attack,
        }
    }
}

impl AttackView {
    /// Well-formedness: a running attack has lifetime left, a well-formed
    /// hitbox, and its hitbox's hit list mirrors the owner's.
    pub open spec fn valid(self) -> bool {
        match self.active {
            Option::Some(a) => {
                &&& 0 < a.remaining <= ATTACK_LIFETIME
                &&& a.hitbox.valid()
                &&& a.hitbox.already_hit == self.hit_targets
            },
            Option::None => true,
        }
    }
}

impl Default for AttackState {
    /// A fresh character is idle with nothing queued and nobody hit.
    fn default() -> (r: AttackState)
        ensures
            r@.active is None,
            r@.hit_targets == Seq::<u64>::empty(),
            !r@.wants_attack,
    {
        AttackState { active: Option::None, hit_targets: Vec::new(), wants_attack: false }
    }
}

/// The hitbox a new attack spawns for `owner`.
pub open spec fn fresh_hitbox(owner: u64) -> HitboxView {
    HitboxView {
        owner,
        damage: ATTACK_DAMAGE as int,
        knockback: Vec2View { x: ATTACK_KNOCKBACK_X as int, y: ATTACK_KNOCKBACK_Y as int },
        already_hit: Seq::empty(),
    }
}

/// One attack-controller tick: advance the clock and destroy the hitbox
/// when it elapses; while attacking, ignore intents; when idle with a
/// queued intent, start a new attack with a cleared hit list.
pub open spec fn attack_tick_model(a: AttackView, owner: u64, dt: int) -> AttackView {
    let a1 = match a.active {
        Option::Some(act) => {
            if act.remaining <= dt {
                AttackView { active: Option::None, ..a }
            } else {
                AttackView {
                    active: Option::Some(ActiveView { remaining: act.remaining - dt, ..act }),
                    ..a
                }
            }
        },
        Option::None => a,
    };
    if a1.active is Some {
        AttackView { wants_attack: false, ..a1 }
    } else if a1.wants_attack {
        AttackView {
            active: Option::Some(
                ActiveView { remaining: ATTACK_LIFETIME as int, hitbox: fresh_hitbox(owner) },
            ),
            hit_targets: Seq::empty(),
            wants_attack: false,
        }
    } else {
        a1
    }
}

/// Whether an overlap of this attack's hitbox with `target` credits a hit,
/// and with which damage and knockback: only while attacking, and only if
/// neither hit list already holds the target.
pub open spec fn hit_credits(a: AttackView, target: u64) -> Option<(int, Vec2View)> {
    match a.active {
        Option::Some(act) => {
            if act.hitbox.already_hit.contains(target) || a.hit_targets.contains(target) {
                Option::None
            } else {
                Option::Some((act.hitbox.damage, act.hitbox.knockback))
            }
        },
        Option::None => Option::None,
    }
}

/// The attack state after a credited hit on `target`: both hit lists grow
/// by the target.
pub open spec fn record_model(a: AttackView, target: u64) -> AttackView {
    match a.active {
        Option::Some(act) => AttackView {
            active: Option::Some(
                ActiveView {
                    hitbox: HitboxView {
                        already_hit: act.hitbox.already_hit.push(target),
                        ..act.hitbox
                    },
                    ..act
                },
            ),
            hit_targets: a.hit_targets.push(target),
            ..a
        },
        Option::None => a,
    }
}

impl AttackState {
    /// Queue an attack intent for the next controller tick.
    pub fn forward_air(&mut self)
        ensures
            final(self)@ == (AttackView { wants_attack: true, ..old(self)@ }),
    {
        self.wants_attack = true;
    }

    /// An attack is currently running.
    pub fn is_attacking(&self) -> (r: bool)
        ensures
            r == (self@.active is Some),
    {
        self.active.is_some()
    }

    /// Run one attack-controller tick for the character `owner`.
    pub fn attack_tick(&mut self, owner: u64, dt: i64)
        requires
            old(self)@.valid(),
            0 <= dt,
        ensures
            final(self)@ == attack_tick_model(old(self)@, owner, dt as int),
            final(self)@.valid(),
    {
        let mut finished = false;
        match &mut self.active {
            Option::Some(act) => {
                if act.remaining <= dt {
                    finished = true;
                } else {
                    act.remaining = act.remaining - dt;
                }
            },
            Option::None => {},
        }
        if finished {
            self.active = Option::None;
        }
        if self.is_attacking() {
            self.wants_attack = false;
        } else if self.wants_attack {
            self.active = Option::Some(
                ActiveAttack {
                    remaining: ATTACK_LIFETIME,
                    hitbox: HitboxState {
                        owner,
                        damage: ATTACK_DAMAGE,
                        knockback: Vec2 { x: ATTACK_KNOCKBACK_X, y: ATTACK_KNOCKBACK_Y },
                        already_hit: Vec::new(),
                    },
                },
            );
            self.hit_targets = Vec::new();
            self.wants_attack = false;
        }
    }

    /// Whether an overlap with `target` would credit a hit now, and with
    /// which damage and knockback.
    pub fn hit_damage(&self, target: u64) -> (r: Option<(i64, Vec2)>)
        requires
            self@.valid(),
        ensures
            (match r {
                Option::Some((d, kb)) => hit_credits(self@, target) == Option::Some(
                    (d as int, kb@),
                ),
                Option::None => hit_credits(self@, target) is None,
            }),
    {
        match &self.active {
            Option::Some(act) => {
                if contains_id(&act.hitbox.already_hit, target) || contains_id(
                    &self.hit_targets,
                    target,
                ) {
                    Option::None
                } else {
                    Option::Some((act.hitbox.damage, act.hitbox.knockback))
                }
            },
            Option::None => Option::None,
        }
    }

    /// Record a credited hit on `target` in both hit lists.
    pub fn record_target(&mut self, target: u64)
        requires
            old(self)@.valid(),
        ensures
            final(self)@ == record_model(old(self)@, target),
            final(self)@.valid(),
    {
        match &mut self.active {
            Option::Some(act) => {
                act.hitbox.already_hit.push(target);
            },
            Option::None => {},
        }
        if self.active.is_some() {
            self.hit_targets.push(target);
        }
    }
}

/// Apply a credited hit to the target's accumulators: damage points and
/// queued knockback, both clamped into the accumulator range.
pub fn apply_knockback(
    ch: &mut Character,
    st: &mut CharacterRuntimeState,
    damage: i64,
    knockback: Vec2,
)
    requires
        old(ch).valid(),
        old(st)@.pending_knockback.bounded(STATE_LIMIT as int),
        0 <= damage <= TUNABLE_LIMIT,
        knockback@.bounded(TUNABLE_LIMIT as int),
    ensures
        final(ch)@ == clamp_state(old(ch)@ + damage),
        final(st)@ == (StateView {
            pending_knockback: Vec2View {
                x: clamp_state(old(st)@.pending_knockback.x + knockback@.x),
                y: clamp_state(old(st)@.pending_knockback.y + knockback@.y),
            },
            ..old(st)@
        }),
        final(ch).valid(),
{
    ch.percentage = accumulate(ch.percentage, damage);
    st.pending_knockback = Vec2 {
        x: accumulate(st.pending_knockback.x, knockback.x),
        y: accumulate(st.pending_knockback.y, knockback.y),
    };
}

} // verus!
