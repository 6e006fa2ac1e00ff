//! The per-tick movement state machine: horizontal control, knockback
//! drain, fastfall start and end, walljump direction locking, jump
//! application and end-of-tick bookkeeping.

use vstd::prelude::*;

use crate::bounds::{
    clamp_i64, clamp_spec, sign_i64, sign_spec, AXIS_UNIT, STATE_LIMIT, TUNABLE_LIMIT,
};
use crate::vec2::{Vec2, Vec2View};

verus! {

/// Immutable per-character configuration, set at spawn and edited only by
/// the external tuning UI.
#[derive(Clone, Copy, Debug)]
pub struct CharacterTunables {
    /// Horizontal acceleration per tick while airborne.
    pub speed_air: i64,
    /// Horizontal speed while standing on the floor.
    pub speed_floor: i64,
    /// Cap on horizontal speed gained through air control.
    pub max_speed_air: i64,
    /// Downward boost applied when a fastfall starts.
    pub fastfall_initial_speed: i64,
    /// Gravity scale outside of a fastfall.
    pub normal_gravity: i64,
    /// Gravity scale while fastfalling.
    pub fastfalling_gravity: i64,
    /// Upward velocity applied by a jump.
    pub jump_boost: i64,
    /// Size of the pool of extra airborne jumps.
    pub max_air_jumps: i64,
    /// Airborne milliseconds required before a fastfall may start.
    pub min_air_time_to_fastfall: i64,
    /// Whether pushing into a wall forces a walljump.
    pub can_walljump: bool,
}

/// The mathematical value of [`CharacterTunables`].
pub struct TunablesView {
    pub speed_air: int,
    pub speed_floor: int,
    pub max_speed_air: int,
    pub fastfall_initial_speed: int,
    pub normal_gravity: int,
    pub fastfalling_gravity: int,
    pub jump_boost: int,
    pub max_air_jumps: int,
    pub min_air_time_to_fastfall: int,
    pub can_walljump: bool,
}

impl View for CharacterTunables {
    type V = TunablesView;

    open spec fn view(&self) -> TunablesView {
        TunablesView {
            speed_air: self.speed_air as int,
            speed_floor: self.speed_floor as int,
            max_speed_air: self.max_speed_air as int,
            fastfall_initial_speed: self.fastfall_initial_speed as int,
            normal_gravity: self.normal_gravity as int,
            fastfalling_gravity: self.fastfalling_gravity as int,
            jump_boost: self.jump_boost as int,
            max_air_jumps: self.max_air_jumps as int,
            min_air_time_to_fastfall: self.min_air_time_to_fastfall as int,
            can_walljump: self.can_walljump,
        }
    }
}

impl TunablesView {
    /// Every tunable is nonnegative and within the tunable range.
    pub open spec fn valid(self) -> bool {
        &&& 0 <= self.speed_air <= TUNABLE_LIMIT
        &&& 0 <= self.speed_floor <= TUNABLE_LIMIT
        &&& 0 <= self.max_speed_air <= TUNABLE_LIMIT
        &&& 0 <= self.fastfall_initial_speed <= TUNABLE_LIMIT
        &&& 0 <= self.normal_gravity <= TUNABLE_LIMIT
        &&& 0 <= self.fastfalling_gravity <= TUNABLE_LIMIT
        &&& 0 <= self.jump_boost <= TUNABLE_LIMIT
        &&& 0 <= self.max_air_jumps <= TUNABLE_LIMIT
        &&& 0 <= self.min_air_time_to_fastfall <= TUNABLE_LIMIT
    }
}

impl Default for CharacterTunables {
    /// The stock character: moderate air control, a strong jump, one extra
    /// air jump, walljumps enabled and a short fastfall cooldown.
    fn default() -> (r: CharacterTunables)
        ensures
            r@ == (TunablesView {
                speed_air: 20,
                speed_floor: 500,
                max_speed_air: 650,
                fastfall_initial_speed: 0,
                normal_gravity: 20,
                fastfalling_gravity: 175,
                jump_boost: 1000,
                max_air_jumps: 1,
                min_air_time_to_fastfall: 200,
                can_walljump: true,
            }),
            r@.valid(),
    {
        CharacterTunables {
            speed_air: 20,
            speed_floor: 500,
            max_speed_air: 650,
            fastfall_initial_speed: 0,
            normal_gravity: 20,
            fastfalling_gravity: 175,
            jump_boost: 1000,
            max_air_jumps: 1,
            min_air_time_to_fastfall: 200,
            can_walljump: true,
        }
    }
}

/// Per-character runtime state, owned by the movement core and mutated once
/// per tick.
#[derive(Clone, Copy, Debug)]
pub struct CharacterRuntimeState {
    /// Stage contact force computed this tick; the zero vector means no
    /// contact. Positive `y` is the floor pushing up, a nonzero `x` with
    /// zero `y` is a wall.
    pub touch: Vec2,
    /// Horizontal intent in `[-AXIS_UNIT, AXIS_UNIT]`.
    pub desired_x: i64,
    /// One-shot jump intent, cleared by the tick that consumes it.
    pub wants_jump: bool,
    /// One-shot fastfall intent, cleared by the tick that consumes it.
    pub wants_fastfall: bool,
    /// Whether the character is currently fastfalling.
    pub is_fastfalling: bool,
    /// The previous tick's `is_fastfalling`, updated last in the tick.
    pub was_fastfalling_last_frame: bool,
    /// Milliseconds since the character left the ground; zero on the floor.
    pub air_time_clock: i64,
    /// Extra jumps still available; refilled on floor contact.
    pub current_air_jumps: i64,
    /// Sign of the intent that triggered the last walljump, or zero once
    /// the intent has pointed elsewhere; blocks same-side retriggers.
    pub walljump_lock_direction: i64,
    /// Knockback queued by attacks, drained exactly once per tick.
    pub pending_knockback: Vec2,
}

/// The mathematical value of [`CharacterRuntimeState`].
pub struct StateView {
    pub touch: Vec2View,
    pub desired_x: int,
    pub wants_jump: bool,
    pub wants_fastfall: bool,
    pub is_fastfalling: bool,
    pub was_fastfalling_last_frame: bool,
    pub air_time_clock: int,
    pub current_air_jumps: int,
    pub walljump_lock_direction: int,
    pub pending_knockback: Vec2View,
}

impl View for CharacterRuntimeState {
    type V = StateView;

    open spec fn view(&self) -> StateView {
        StateView {
            touch: self.touch@,
            desired_x: self.desired_x as int,
            wants_jump: self.wants_jump,
            wants_fastfall: self.wants_fastfall,
            is_fastfalling: self.is_fastfalling,
            was_fastfalling_last_frame: self.was_fastfalling_last_frame,
            air_time_clock: self.air_time_clock as int,
            current_air_jumps: self.current_air_jumps as int,
            walljump_lock_direction: self.walljump_lock_direction as int,
            pending_knockback: self.pending_knockback@,
        }
    }
}

impl Default for CharacterRuntimeState {
    /// A freshly spawned character: no contact, no intents, no fastfall,
    /// empty clocks and pools, nothing locked, nothing queued.
    fn default() -> (r: CharacterRuntimeState)
        ensures
            r@ == (StateView {
                touch: Vec2View { x: 0, y: 0 },
                desired_x: 0,
                wants_jump: false,
                wants_fastfall: false,
                is_fastfalling: false,
                was_fastfalling_last_frame: false,
                air_time_clock: 0,
                current_air_jumps: 0,
                walljump_lock_direction: 0,
                pending_knockback: Vec2View { x: 0, y: 0 },
            }),
    {
        CharacterRuntimeState {
            touch: Vec2 { x: 0, y: 0 },
            desired_x: 0,
            wants_jump: false,
            wants_fastfall: false,
            is_fastfalling: false,
            was_fastfalling_last_frame: false,
            air_time_clock: 0,
            current_air_jumps: 0,
            walljump_lock_direction: 0,
            pending_knockback: Vec2 { x: 0, y: 0 },
        }
    }
}

/// The character is resting on the floor: the stage pushes it upward.
pub open spec fn on_floor(touch: Vec2View) -> bool {
    touch.y > 0
}

/// The character is pressed against a wall: sideways force, no vertical one.
pub open spec fn on_wall(touch: Vec2View) -> bool {
    touch.x != 0 && touch.y == 0
}

/// The character touches neither floor nor wall.
pub open spec fn in_air(touch: Vec2View) -> bool {
    !on_floor(touch) && !on_wall(touch)
}

impl StateView {
    /// Well-formedness of the runtime state under the character's tunables.
    pub open spec fn valid(self, t: TunablesView) -> bool {
        &&& self.touch.bounded(STATE_LIMIT as int)
        &&& -AXIS_UNIT <= self.desired_x <= AXIS_UNIT
        &&& 0 <= self.air_time_clock <= STATE_LIMIT
        &&& 0 <= self.current_air_jumps <= t.max_air_jumps
        &&& -1 <= self.walljump_lock_direction <= 1
        &&& self.pending_knockback.bounded(STATE_LIMIT as int)
    }
}

/// Horizontal target speed from an axis intent: `axis` thousandths of the
/// full speed, rounded toward zero.
pub open spec fn scale_axis_spec(axis: int, speed: int) -> int {
    if axis >= 0 {
        (axis * speed) / AXIS_UNIT as int
    } else {
        -(((-axis) * speed) / AXIS_UNIT as int)
    }
}

/// Everything one movement tick produces: the new runtime state plus the
/// velocity and gravity scale handed back to the physics engine.
pub struct TickView {
    pub state: StateView,
    pub velocity: Vec2View,
    pub gravity_scale: int,
}

/// A fastfall starts this tick: fresh intent, airborne, and past the
/// minimum air time.
pub open spec fn fastfall_starts(t: TunablesView, s: StateView) -> bool {
    &&& !s.was_fastfalling_last_frame
    &&& s.wants_fastfall
    &&& !on_floor(s.touch)
    &&& s.air_time_clock >= t.min_air_time_to_fastfall
}

/// A walljump is forced this tick: the character pushes into a wall whose
/// force has the same sign as its intent, and that sign is not locked.
pub open spec fn walljump_triggers(t: TunablesView, s: StateView) -> bool {
    &&& t.can_walljump
    &&& s.touch.x * s.desired_x > 0
    &&& sign_spec(s.desired_x) != s.walljump_lock_direction
}

/// A jump is applied this tick: a jump intent with air jumps left, or a
/// forced walljump.
pub open spec fn jump_applies(t: TunablesView, s: StateView) -> bool {
    (s.wants_jump && s.current_air_jumps > 0) || walljump_triggers(t, s)
}

/// One movement tick. The steps run in this order:
/// horizontal control, knockback drain, fastfall start, fastfall end,
/// intent reset, walljump pre-check, jump application, end-of-tick
/// bookkeeping.
pub open spec fn movement_model(
    t: TunablesView,
    s: StateView,
    v: Vec2View,
    gravity_scale: int,
    dt: int,
) -> TickView {
    // Horizontal control: immediate on the floor, accumulating and capped
    // in the air.
    let vx1 = if on_floor(s.touch) {
        scale_axis_spec(s.desired_x, t.speed_floor)
    } else {
        clamp_spec(v.x + scale_axis_spec(s.desired_x, t.speed_air), -t.max_speed_air, t.max_speed_air)
    };
    // Knockback drain: added exactly once, then zeroed.
    let vx2 = vx1 + s.pending_knockback.x;
    let vy2 = v.y + s.pending_knockback.y;
    // Fastfall start.
    let ff = fastfall_starts(t, s);
    let vy3 = if ff {
        if vy2 < 0 {
            vy2 - t.fastfall_initial_speed
        } else {
            -t.fastfall_initial_speed
        }
    } else {
        vy2
    };
    // Landing on the floor ends a fastfall at once.
    let is_ff_mid = if on_floor(s.touch) {
        false
    } else if ff {
        true
    } else {
        s.is_fastfalling
    };
    // Fastfall end: restore gravity, reset the airborne clock.
    let stopped = s.was_fastfalling_last_frame && !is_ff_mid;
    let g1 = if ff {
        t.fastfalling_gravity
    } else if stopped {
        t.normal_gravity
    } else {
        gravity_scale
    };
    let clock1 = if stopped {
        0
    } else {
        s.air_time_clock
    };
    // Walljump pre-check: lock the triggering sign, or release the lock
    // once the intent points elsewhere.
    let wj = walljump_triggers(t, s);
    let lock1 = if wj {
        sign_spec(s.desired_x)
    } else if sign_spec(s.desired_x) != s.walljump_lock_direction {
        0
    } else {
        s.walljump_lock_direction
    };
    // Jump application.
    let jump = jump_applies(t, s);
    let jumps1 = if jump && in_air(s.touch) && s.current_air_jumps > 0 {
        s.current_air_jumps - 1
    } else {
        s.current_air_jumps
    };
    let vx3 = if jump {
        scale_axis_spec(s.desired_x, t.speed_floor)
    } else {
        vx2
    };
    let vy4 = if jump {
        t.jump_boost
    } else {
        vy3
    };
    let is_ff_end = if jump {
        false
    } else {
        is_ff_mid
    };
    let clock2 = if jump {
        0
    } else {
        clock1
    };
    // End-of-tick bookkeeping: refill on the floor, advance the airborne
    // clock otherwise.
    let jumps2 = if on_floor(s.touch) {
        t.max_air_jumps
    } else {
        jumps1
    };
    let lock2 = if on_floor(s.touch) {
        0
    } else {
        lock1
    };
    let clock3 = if on_floor(s.touch) {
        0
    } else {
        clamp_spec(clock2 + dt, 0, STATE_LIMIT as int)
    };
    TickView {
        state: StateView {
            touch: s.touch,
            desired_x: s.desired_x,
            wants_jump: false,
            wants_fastfall: false,
            is_fastfalling: is_ff_end,
            was_fastfalling_last_frame: is_ff_mid,
            air_time_clock: clock3,
            current_air_jumps: jumps2,
            walljump_lock_direction: lock2,
            pending_knockback: Vec2View { x: 0, y: 0 },
        },
        velocity: Vec2View { x: vx3, y: vy4 },
        gravity_scale: g1,
    }
}

/// Horizontal target speed from an axis intent.
fn scale_axis(axis: i64, speed: i64) -> (r: i64)
    requires
        -AXIS_UNIT <= axis <= AXIS_UNIT,
        0 <= speed <= TUNABLE_LIMIT,
    ensures
        r == scale_axis_spec(axis as int, speed as int),
        -speed <= r <= speed,
{
    let mag: i64 = if axis >= 0 {
        axis
    } else {
        -axis
    };
    proof {
        assert(0 <= mag * speed <= AXIS_UNIT * speed) by (nonlinear_arith)
            requires
                0 <= mag <= AXIS_UNIT,
                0 <= speed,
        ;
        assert((AXIS_UNIT * speed) / (AXIS_UNIT as int) == speed) by (nonlinear_arith)
            requires
                0 <= speed,
        ;
        vstd::arithmetic::div_mod::lemma_div_is_ordered(
            mag * speed,
            AXIS_UNIT * speed,
            AXIS_UNIT as int,
        );
        vstd::arithmetic::div_mod::lemma_div_is_ordered(0, mag * speed, AXIS_UNIT as int);
    }
    let q: i64 = (mag * speed) / AXIS_UNIT;
    if axis >= 0 {
        q
    } else {
        -q
    }
}

impl CharacterRuntimeState {
    /// The character is resting on the floor.
    pub fn is_on_stage(&self) -> (r: bool)
        ensures
            r == on_floor(self@.touch),
    {
        self.touch.y > 0
    }

    /// The character is pressed against a stage wall (zero vertical force,
    /// so slopes count as floor instead).
    pub fn is_on_stage_wall(&self) -> (r: bool)
        ensures
            r == on_wall(self@.touch),
    {
        self.touch.x != 0 && self.touch.y == 0
    }

    /// The character touches neither floor nor wall. Unlike the negation of
    /// [`Self::is_on_stage`], this is false while hanging on a wall.
    pub fn is_not_touching_stage(&self) -> (r: bool)
        ensures
            r == in_air(self@.touch),
    {
        !self.is_on_stage() && !self.is_on_stage_wall()
    }

    /// Queue a fastfall intent for the next movement tick.
    pub fn fastfall(&mut self)
        ensures
            *final(self) == (CharacterRuntimeState { wants_fastfall: true, ..*old(self) }),
    {
        self.wants_fastfall = true;
    }

    /// Queue a jump intent for the next movement tick.
    pub fn jump(&mut self)
        ensures
            *final(self) == (CharacterRuntimeState { wants_jump: true, ..*old(self) }),
    {
        self.wants_jump = true;
    }

    /// Set the horizontal intent, a per-mille axis value.
    pub fn set_desired_x(&mut self, axis: i64)
        requires
            -AXIS_UNIT <= axis <= AXIS_UNIT,
        ensures
            *final(self) == (CharacterRuntimeState { desired_x: axis, ..*old(self) }),
    {
        self.desired_x = axis;
    }

    /// Run one movement tick: consume the stage touch signal and the queued
    /// intents, drain pending knockback, and produce the new velocity and
    /// gravity scale for the physics engine.
    pub fn movement_tick(
        &mut self,
        t: &CharacterTunables,
        velocity: Vec2,
        gravity_scale: i64,
        dt: i64,
    ) -> (r: (Vec2, i64))
        requires
            t@.valid(),
            old(self)@.valid(t@),
            velocity@.bounded(STATE_LIMIT as int),
            0 <= dt,
        ensures
            final(self)@ == movement_model(t@, old(self)@, velocity@, gravity_scale as int, dt as int).state,
            r.0@ == movement_model(t@, old(self)@, velocity@, gravity_scale as int, dt as int).velocity,
            r.1 == movement_model(t@, old(self)@, velocity@, gravity_scale as int, dt as int).gravity_scale,
            final(self)@.valid(t@),
    {
        let mut vel = velocity;
        let mut gravity = gravity_scale;

        // Horizontal control.
        if self.is_on_stage() {
            vel.x = scale_axis(self.desired_x, t.speed_floor);
        } else {
            vel.x = clamp_i64(
                vel.x + scale_axis(self.desired_x, t.speed_air),
                -t.max_speed_air,
                t.max_speed_air,
            );
        }

        // Knockback drain.
        vel.x = vel.x + self.pending_knockback.x;
        vel.y = vel.y + self.pending_knockback.y;
        self.pending_knockback = Vec2::zero();

        // Fastfall start.
        let just_started_fastfalling = !self.was_fastfalling_last_frame && self.wants_fastfall
            && !self.is_on_stage() && self.air_time_clock >= t.min_air_time_to_fastfall;
        if just_started_fastfalling {
            if vel.y < 0 {
                vel.y = vel.y - t.fastfall_initial_speed;
            } else {
                vel.y = -t.fastfall_initial_speed;
            }
            gravity = t.fastfalling_gravity;
            self.is_fastfalling = true;
        }

        // Landing ends a fastfall at once.
        if self.is_on_stage() {
            self.is_fastfalling = false;
        }

        // Fastfall end.
        let just_stopped_fastfalling = self.was_fastfalling_last_frame && !self.is_fastfalling;
        if just_stopped_fastfalling {
            gravity = t.normal_gravity;
            self.air_time_clock = 0;
        }

        // Intent reset: the fastfall intent is consumed, and the fastfall
        // phase of this tick becomes next tick's "last frame" flag.
        self.wants_fastfall = false;
        self.was_fastfalling_last_frame = self.is_fastfalling;

        // Walljump pre-check.
        let intent_sign: i64 = sign_i64(self.desired_x);
        proof {
            assert(-(STATE_LIMIT * AXIS_UNIT) <= self.touch.x * self.desired_x <= STATE_LIMIT
                * AXIS_UNIT) by (nonlinear_arith)
                requires
                    -STATE_LIMIT <= self.touch.x <= STATE_LIMIT,
                    -AXIS_UNIT <= self.desired_x <= AXIS_UNIT,
            ;
        }
        let gonna_walljump = t.can_walljump && self.touch.x * self.desired_x > 0
            && intent_sign != self.walljump_lock_direction;
        if gonna_walljump {
            self.walljump_lock_direction = intent_sign;
        } else if intent_sign != self.walljump_lock_direction {
            // The intent points away from the locked side: release the lock
            // so that wall can be jumped again.
            self.walljump_lock_direction = 0;
        }

        // Jump application.
        if (self.wants_jump && self.current_air_jumps > 0) || gonna_walljump {
            if self.is_not_touching_stage() && self.current_air_jumps > 0 {
                self.current_air_jumps = self.current_air_jumps - 1;
            }
            vel.y = t.jump_boost;
            vel.x = scale_axis(self.desired_x, t.speed_floor);
            self.is_fastfalling = false;
            self.air_time_clock = 0;
        }

        // End-of-tick bookkeeping.
        self.wants_jump = false;
        if self.is_on_stage() {
            self.current_air_jumps = t.max_air_jumps;
            self.walljump_lock_direction = 0;
            self.air_time_clock = 0;
        } else {
            if dt > STATE_LIMIT - self.air_time_clock {
                self.air_time_clock = STATE_LIMIT;
            } else {
                self.air_time_clock = self.air_time_clock + dt;
            }
        }

        (vel, gravity)
    }
}

} // verus!
