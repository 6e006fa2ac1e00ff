//! The contact classifier: per-tick contact-force events between bodies
//! become a per-character stage touch signal.

use vstd::prelude::*;

use crate::bounds::contains_id;
use crate::movement::{on_floor, CharacterRuntimeState, StateView};
use crate::vec2::{Vec2, Vec2View};

verus! {

/// A contact-force event reported by the physics engine for one tick:
/// two colliding bodies and the resultant force on the first.
#[derive(Clone, Copy, Debug)]
pub struct ContactEvent {
    /// One colliding body.
    pub body_a: u64,
    /// The other colliding body.
    pub body_b: u64,
    /// The total contact force of this event.
    pub force: Vec2,
}

/// The categorical reading of a touch signal.
#[derive(Clone, Copy, Debug, PartialEq, Eq, Structural)]
pub enum TouchClass {
    /// No qualifying contact this tick.
    NoContact,
    /// The stage pushes the character up: standing on the floor.
    Floor,
    /// The stage pushes the character down: contact from below a platform.
    Below,
    /// A wall on the character's left.
    WallLeft,
    /// A wall on the character's right.
    WallRight,
    /// A qualifying contact with a degenerate zero force; callers must not
    /// apply any stage-contact movement rule on it.
    Unknown,
}

/// Categorical reading of a nonzero contact force: vertical sign first,
/// then horizontal side; the zero vector means no contact.
pub open spec fn classify_spec(f: Vec2View) -> TouchClass {
    if f.y > 0 {
        TouchClass::Floor
    } else if f.y < 0 {
        TouchClass::Below
    } else if f.x > 0 {
        TouchClass::WallRight
    } else if f.x < 0 {
        TouchClass::WallLeft
    } else {
        TouchClass::NoContact
    }
}

/// Categorical reading of a touch force.
pub fn classify(f: Vec2) -> (r: TouchClass)
    ensures
        r == classify_spec(f@),
{
    if f.y > 0 {
        TouchClass::Floor
    } else if f.y < 0 {
        TouchClass::Below
    } else if f.x > 0 {
        TouchClass::WallRight
    } else if f.x < 0 {
        TouchClass::WallLeft
    } else {
        TouchClass::NoContact
    }
}

/// The event pairs the character `me` with a stage body: exactly one side
/// is a character, that side is `me`, and the other side is the stage.
/// Character-vs-character, stage-vs-stage and untracked pairs never
/// qualify.
pub open spec fn event_concerns(
    e: ContactEvent,
    me: u64,
    characters: Seq<u64>,
    stages: Seq<u64>,
) -> bool {
    ||| (e.body_a == me && characters.contains(e.body_a) && !characters.contains(e.body_b)
        && stages.contains(e.body_b))
    ||| (e.body_b == me && characters.contains(e.body_b) && !characters.contains(e.body_a)
        && stages.contains(e.body_a))
}

/// The touch force for `me` after one tick's events: the force of the last
/// qualifying event, or zero if none qualifies.
pub open spec fn touch_from_events(
    events: Seq<ContactEvent>,
    me: u64,
    characters: Seq<u64>,
    stages: Seq<u64>,
) -> Vec2View
    decreases events.len(),
{
    if events.len() == 0 {
        Vec2View { x: 0, y: 0 }
    } else if event_concerns(events.last(), me, characters, stages) {
        events.last().force@
    } else {
        touch_from_events(events.drop_last(), me, characters, stages)
    }
}

/// Whether any event of the tick qualifies for `me`.
pub open spec fn any_event_concerns(
    events: Seq<ContactEvent>,
    me: u64,
    characters: Seq<u64>,
    stages: Seq<u64>,
) -> bool {
    exists|k: int| 0 <= k < events.len() && event_concerns(events[k], me, characters, stages)
}

/// The event pairs the character `me` with a stage body.
pub fn event_concerns_exec(
    e: &ContactEvent,
    me: u64,
    characters: &Vec<u64>,
    stages: &Vec<u64>,
) -> (r: bool)
    ensures
        r == event_concerns(*e, me, characters@, stages@),
{
    let a_char = contains_id(characters, e.body_a);
    let b_char = contains_id(characters, e.body_b);
    let a_stage = contains_id(stages, e.body_a);
    let b_stage = contains_id(stages, e.body_b);
    (e.body_a == me && a_char && !b_char && b_stage) || (e.body_b == me && b_char && !a_char
        && a_stage)
}

/// Scan one tick's events and produce the touch force for the character
/// `me`: the signal is rebuilt from scratch every tick, and when several
/// events qualify the last one reported wins.
pub fn touch_for(
    events: &Vec<ContactEvent>,
    me: u64,
    characters: &Vec<u64>,
    stages: &Vec<u64>,
) -> (r: Vec2)
    ensures
        r@ == touch_from_events(events@, me, characters@, stages@),
{
    let mut r = Vec2::zero();
    let mut i: usize = 0;
    while i < events.len()
        invariant
            0 <= i <= events@.len(),
            r@ == touch_from_events(events@.take(i as int), me, characters@, stages@),
        decreases events@.len() - i,
    {
        if event_concerns_exec(&events[i], me, characters, stages) {
            r = events[i].force;
        }
        proof {
            assert(events@.take(i + 1).drop_last() =~= events@.take(i as int));
            assert(events@.take(i + 1).last() == events@[i as int]);
        }
        i = i + 1;
    }
    proof {
        assert(events@.take(events@.len() as int) =~= events@);
    }
    r
}

/// The categorical touch signal for `me` this tick: no qualifying event
/// means no contact, a qualifying event with zero force is an explicit
/// unknown, anything else classifies by the force's signs.
pub fn touch_class_for(
    events: &Vec<ContactEvent>,
    me: u64,
    characters: &Vec<u64>,
    stages: &Vec<u64>,
) -> (r: TouchClass)
    ensures
        !any_event_concerns(events@, me, characters@, stages@) ==> r == TouchClass::NoContact,
        any_event_concerns(events@, me, characters@, stages@) ==> ({
            let f = touch_from_events(events@, me, characters@, stages@);
            r == if f.x == 0 && f.y == 0 {
                TouchClass::Unknown
            } else {
                classify_spec(f)
            }
        }),
{
    let mut any = false;
    let mut i: usize = 0;
    while i < events.len()
        invariant
            0 <= i <= events@.len(),
            any == any_event_concerns(events@.take(i as int), me, characters@, stages@),
        decreases events@.len() - i,
    {
        if event_concerns_exec(&events[i], me, characters, stages) {
            any = true;
        }
        proof {
            assert(events@.take(i + 1).drop_last() =~= events@.take(i as int));
            assert(forall|k: int| 0 <= k < i + 1 ==> events@.take(i + 1)[k] == events@[k]);
        }
        i = i + 1;
    }
    proof {
        assert(events@.take(events@.len() as int) =~= events@);
    }
    if !any {
        return TouchClass::NoContact;
    }
    let f = touch_for(events, me, characters, stages);
    if f.x == 0 && f.y == 0 {
        TouchClass::Unknown
    } else {
        classify(f)
    }
}

/// What applying a freshly computed touch force does to the runtime state:
/// the signal is replaced outright, and landing on the floor immediately
/// ends a fastfall.
pub open spec fn apply_touch_model(s: StateView, f: Vec2View) -> StateView {
    StateView {
        touch: f,
        is_fastfalling: if on_floor(f) {
            false
        } else {
            s.is_fastfalling
        },
        ..s
    }
}

impl CharacterRuntimeState {
    /// Install this tick's touch force; landing on the floor clears the
    /// fastfall flag at once.
    pub fn apply_touch(&mut self, f: Vec2)
        ensures
            final(self)@ == apply_touch_model(old(self)@, f@),
    {
        self.touch = f;
        if self.is_on_stage() {
            self.is_fastfalling = false;
        }
    }
}

} // verus!
