//! Movable actors against static platforms.
//!
//! Platforms are solid from above and from the sides and open from below. An actor that comes
//! down on one is snapped onto it and stands; one that runs into its side is stopped there.

use crate::geometry::{classification, classify, Aabb, Collision, Rect, UNIT, WORLD_LIMIT};
use vstd::prelude::*;

verus! {

/// Added to both extents of the actor's box and of the platform's box before they are
/// classified, so that an actor standing exactly on a platform still overlaps it.
pub const COLLISION_MARGIN: i64 = 10 * UNIT;

/// An actor lands only while its vertical speed is below this, in steps per tick.
pub const LANDING_SPEED: i64 = UNIT;

/// Speed in steps per tick, rightwards and upwards positive.
#[derive(Clone, Copy, Debug, PartialEq, Eq, Structural)]
pub struct Velocity {
    pub vx: i64,
    pub vy: i64,
}

/// A movable actor: its box, its velocity, and whether it stands on a platform.
#[derive(Clone, Copy, Debug, PartialEq, Eq, Structural)]
pub struct Actor {
    pub body: Aabb,
    pub velocity: Velocity,
    pub grounded: bool,
}

/// A static solid box.
#[derive(Clone, Copy, Debug, PartialEq, Eq, Structural)]
pub struct Platform {
    pub body: Aabb,
}

/// A movable actor over the integers: what an [`Actor`] stands for in contracts.
pub struct ActorView {
    pub body: Rect,
    pub vx: int,
    pub vy: int,
    pub grounded: bool,
}

impl View for Actor {
    type V = ActorView;

    open spec fn view(&self) -> ActorView {
        ActorView {
            body: self.body@,
            vx: self.velocity.vx as int,
            vy: self.velocity.vy as int,
            grounded: self.grounded,
        }
    }
}

/// A platform stands for its box.
impl View for Platform {
    type V = Rect;

    open spec fn view(&self) -> Rect {
        self.body@
    }
}

impl Platform {
    /// The extents are between zero and [`WORLD_LIMIT`] and the centre is within
    /// [`WORLD_LIMIT`] of the origin.
    pub open spec fn well_formed(self) -> bool {
        self@.fits(WORLD_LIMIT as int)
    }

    /// Tests [`Platform::well_formed`].
    pub fn is_well_formed(&self) -> (ok: bool)
        ensures
            ok == self.well_formed(),
    {
        self.body.check_fits(WORLD_LIMIT)
    }
}

impl ActorView {
    /// The extents are between zero and [`WORLD_LIMIT`] and the centre is within twice
    /// [`WORLD_LIMIT`] of the origin: as far out as a snap against a well-formed platform
    /// can take it.
    pub open spec fn well_formed(self) -> bool {
        self.body.fits(2 * WORLD_LIMIT)
    }
}

impl Actor {
    /// What the actor stands for is well formed.
    pub open spec fn well_formed(self) -> bool {
        self@.well_formed()
    }

    /// Tests [`Actor::well_formed`].
    pub fn is_well_formed(&self) -> (ok: bool)
        ensures
            ok == self.well_formed(),
    {
        self.body.check_fits(2 * WORLD_LIMIT)
    }
}

/// Height of the centre of a box of extents `a` standing on top of `p`.
pub open spec fn rest_y(a: Rect, p: Rect) -> int {
    p.y + p.h / 2 + a.h / 2
}

/// Centre of a box of extents `a` touching `p` from the left.
pub open spec fn left_stop_x(a: Rect, p: Rect) -> int {
    p.x - p.w / 2 - a.w / 2
}

/// Centre of a box of extents `a` touching `p` from the right.
pub open spec fn right_stop_x(a: Rect, p: Rect) -> int {
    p.x + p.w / 2 + a.w / 2
}

/// How the actor's box meets the platform's, both expanded by [`COLLISION_MARGIN`].
pub open spec fn contact(a: ActorView, p: Rect) -> Option<Collision> {
    classification(a.body.expanded(COLLISION_MARGIN as int), p.expanded(COLLISION_MARGIN as int))
}

/// The actor comes to stand on the platform: it meets it from above and is not moving up at
/// [`LANDING_SPEED`] or faster.
pub open spec fn lands(a: ActorView, p: Rect) -> bool {
    contact(a, p) == Some(Collision::Top) && a.vy < LANDING_SPEED
}

/// The actor runs into a side of the platform: it meets the left side while moving right, or
/// the right side while moving left.
pub open spec fn runs_into(a: ActorView, p: Rect) -> bool {
    ||| contact(a, p) == Some(Collision::Left) && a.vx > 0
    ||| contact(a, p) == Some(Collision::Right) && a.vx < 0
}

/// The actor after it has been tested against one platform.
///
/// * No overlap: it is no longer grounded.
/// * From above, below [`LANDING_SPEED`]: grounded, vertical speed zero, set on the platform.
/// * From the left while moving right, or from the right while moving left: horizontal speed
///   zero, set against that side.
/// * Anything else, a contact from below among them: unchanged.
pub open spec fn after_platform(a: ActorView, p: Rect) -> ActorView {
    match contact(a, p) {
        None => ActorView { grounded: false, ..a },
        Some(Collision::Top) => if a.vy < LANDING_SPEED {
            ActorView { body: Rect { y: rest_y(a.body, p), ..a.body }, vy: 0, grounded: true, ..a }
        } else {
            a
        },
        Some(Collision::Left) => if a.vx > 0 {
            ActorView { body: Rect { x: left_stop_x(a.body, p), ..a.body }, vx: 0, ..a }
        } else {
            a
        },
        Some(Collision::Right) => if a.vx < 0 {
            ActorView { body: Rect { x: right_stop_x(a.body, p), ..a.body }, vx: 0, ..a }
        } else {
            a
        },
        Some(_) => a,
    }
}

/// The actor after the platforms from index `i` on, tested in order. The pass ends with the
/// first platform that the actor lands on; until then each platform sees the actor as the
/// one before left it.
pub open spec fn after_platforms_from(a: ActorView, ps: Seq<Rect>, i: int) -> ActorView
    decreases ps.len() - i,
{
    if i < 0 || i >= ps.len() {
        a
    } else if lands(a, ps[i]) {
        after_platform(a, ps[i])
    } else {
        after_platforms_from(after_platform(a, ps[i]), ps, i + 1)
    }
}

/// The index of the platform, from index `i` on, that the actor lands on, if there is one.
pub open spec fn landing_from(a: ActorView, ps: Seq<Rect>, i: int) -> Option<int>
    decreases ps.len() - i,
{
    if i < 0 || i >= ps.len() {
        None
    } else if lands(a, ps[i]) {
        Some(i)
    } else {
        landing_from(after_platform(a, ps[i]), ps, i + 1)
    }
}

/// The actor after one tick's pass over all the platforms, in their order.
pub open spec fn after_platforms(a: ActorView, ps: Seq<Rect>) -> ActorView {
    after_platforms_from(a, ps, 0)
}

/// The index of the platform that the actor lands on in one tick's pass, if there is one.
pub open spec fn landing(a: ActorView, ps: Seq<Rect>) -> Option<int> {
    landing_from(a, ps, 0)
}

/// The boxes that the platforms stand for, in their order.
pub open spec fn boxes(ps: Seq<Platform>) -> Seq<Rect> {
    ps.map_values(|p: Platform| p@)
}

/// Every box of the sequence has extents between zero and [`WORLD_LIMIT`] and its centre
/// within [`WORLD_LIMIT`] of the origin.
pub open spec fn platforms_well_formed(ps: Seq<Rect>) -> bool {
    forall|i: int| 0 <= i < ps.len() ==> (#[trigger] ps[i]).fits(WORLD_LIMIT as int)
}

/// Tests [`platforms_well_formed`] on the boxes of the platforms.
pub fn check_platforms(platforms: &Vec<Platform>) -> (ok: bool)
    ensures
        ok == platforms_well_formed(boxes(platforms@)),
{
    let mut i: usize = 0;
    while i < platforms.len()
        invariant
            i <= platforms.len(),
            forall|j: int| 0 <= j < i ==> (#[trigger] boxes(platforms@)[j]).fits(WORLD_LIMIT as int),
        decreases platforms.len() - i,
    {
        if !platforms[i].is_well_formed() {
            assert(!boxes(platforms@)[i as int].fits(WORLD_LIMIT as int));
            return false;
        }
        i += 1;
    }
    true
}

/// Tests the actor against one platform and corrects it. Returns whether it landed.
pub fn resolve_against(actor: &mut Actor, platform: &Platform) -> (landed: bool)
    requires
        old(actor).well_formed(),
        platform.well_formed(),
    ensures
        final(actor)@ == after_platform(old(actor)@, platform@),
        landed == lands(old(actor)@, platform@),
        final(actor).well_formed(),
{
    let actor_box = actor.body.expand(COLLISION_MARGIN);
    let platform_box = platform.body.expand(COLLISION_MARGIN);
    match classify(&actor_box, &platform_box) {
        None => {
            actor.grounded = false;
            false
        },
        Some(Collision::Top) => {
            if actor.velocity.vy < LANDING_SPEED {
                actor.grounded = true;
                actor.velocity.vy = 0;
                actor.body.y = platform.body.y + platform.body.h / 2 + actor.body.h / 2;
                true
            } else {
                false
            }
        },
        Some(Collision::Left) => {
            if actor.velocity.vx > 0 {
                actor.velocity.vx = 0;
                actor.body.x = platform.body.x - platform.body.w / 2 - actor.body.w / 2;
            }
            false
        },
        Some(Collision::Right) => {
            if actor.velocity.vx < 0 {
                actor.velocity.vx = 0;
                actor.body.x = platform.body.x + platform.body.w / 2 + actor.body.w / 2;
            }
            false
        },
        Some(_) => false,
    }
}

/// One tick's pass of one actor over all the platforms, in their order. Returns the index of
/// the platform that the actor landed on, where it did; the pass ends there.
///
/// A platform that the actor does not overlap clears the grounded flag even where an earlier
/// one in the order holds the actor up: only a landing, which ends the pass, sets it.
pub fn resolve_platforms(
    actor: &mut Actor,
    platforms: &Vec<Platform>,
) -> (landed_on: Option<usize>)
    requires
        old(actor).well_formed(),
        platforms_well_formed(boxes(platforms@)),
    ensures
        final(actor)@ == after_platforms(old(actor)@, boxes(platforms@)),
        final(actor).well_formed(),
        final(actor).body.w == old(actor).body.w,
        final(actor).body.h == old(actor).body.h,
        match landed_on {
            Some(k) => {
                &&& landing(old(actor)@, boxes(platforms@)) == Some(k as int)
                &&& k < platforms.len()
                &&& old(actor).velocity.vy < LANDING_SPEED
                &&& final(actor).grounded
                &&& final(actor).velocity.vy == 0
                &&& final(actor).body.y == rest_y(old(actor).body@, platforms[k as int]@)
            },
            None => {
                &&& landing(old(actor)@, boxes(platforms@)) is None
                &&& final(actor).velocity.vy == old(actor).velocity.vy
                &&& final(actor).body.y == old(actor).body.y
            },
        },
{
    let ghost start = *actor;
    let mut i: usize = 0;
    while i < platforms.len()
        invariant
            i <= platforms.len(),
            start == *old(actor),
            actor.well_formed(),
            platforms_well_formed(boxes(platforms@)),
            after_platforms_from(start@, boxes(platforms@), 0) == after_platforms_from(
                actor@,
                boxes(platforms@),
                i as int,
            ),
            landing_from(start@, boxes(platforms@), 0) == landing_from(
                actor@,
                boxes(platforms@),
                i as int,
            ),
            actor.body.w == start.body.w,
            actor.body.h == start.body.h,
            actor.body.y == start.body.y,
            actor.velocity.vy == start.velocity.vy,
        decreases platforms.len() - i,
    {
        assert(boxes(platforms@)[i as int] == platforms[i as int]@);
        if resolve_against(actor, &platforms[i]) {
            return Some(i);
        }
        i += 1;
    }
    None
}

/// One tick's pass of every actor over all the platforms: each actor on its own, as
/// [`resolve_platforms`] does it.
pub fn collision_with_platform(actors: &mut Vec<Actor>, platforms: &Vec<Platform>)
    requires
        forall|i: int| 0 <= i < old(actors).len() ==> (#[trigger] old(actors)[i]).well_formed(),
        platforms_well_formed(boxes(platforms@)),
    ensures
        final(actors).len() == old(actors).len(),
        forall|i: int|
            0 <= i < old(actors).len() ==> (#[trigger] final(actors)[i])@ == after_platforms(
                old(actors)[i]@,
                boxes(platforms@),
            ),
        forall|i: int| 0 <= i < final(actors).len() ==> (#[trigger] final(actors)[i]).well_formed(),
{
    let ghost start = actors@;
    let mut i: usize = 0;
    while i < actors.len()
        invariant
            i <= actors.len(),
            actors.len() == start.len(),
            start == old(actors)@,
            platforms_well_formed(boxes(platforms@)),
            forall|j: int|
                0 <= j < i ==> (#[trigger] actors[j])@ == after_platforms(
                    start[j]@,
                    boxes(platforms@),
                ),
            forall|j: int| i <= j < actors.len() ==> #[trigger] actors[j] == start[j],
            forall|j: int| 0 <= j < actors.len() ==> (#[trigger] actors[j]).well_formed(),
        decreases actors.len() - i,
    {
        let mut actor = actors[i];
        resolve_platforms(&mut actor, platforms);
        actors.set(i, actor);
        i += 1;
    }
}

} // verus!
