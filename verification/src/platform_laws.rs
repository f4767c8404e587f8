//! What holds of every actor and platform under the platform resolver.

use crate::geometry::{lemma_above_within_is_top, Collision, Rect, WORLD_LIMIT};
use crate::platform::{
    after_platform, after_platforms, after_platforms_from, contact, landing, landing_from, lands,
    platforms_well_formed, rest_y, runs_into, ActorView, COLLISION_MARGIN, LANDING_SPEED,
};
use vstd::prelude::*;

verus! {

/// The actor stands on the platform: grounded, without vertical speed, at the height at which
/// a landing puts it.
pub open spec fn at_rest_on(a: ActorView, p: Rect) -> bool {
    a.grounded && a.vy == 0 && a.body.y == rest_y(a.body, p)
}

/// Horizontally the actor's box lies within the platform's.
pub open spec fn stands_squarely(a: ActorView, p: Rect) -> bool {
    p.left2() <= a.body.left2() && a.body.right2() <= p.right2()
}

/// Horizontally the actor's box lies within the platform's or overlaps it by more than one
/// step: the actor is over the platform and not merely within the margin beside it.
pub open spec fn stands_over(a: ActorView, p: Rect) -> bool {
    ||| stands_squarely(a, p)
    ||| p.left2() + 2 < a.body.right2() && a.body.left2() + 2 < p.right2()
}

/// A test against the platform neither lands the actor nor moves or slows it. The grounded
/// flag may still be cleared.
pub open spec fn undisturbed_by(a: ActorView, p: Rect) -> bool {
    &&& !lands(a, p)
    &&& after_platform(a, p).body == a.body
    &&& after_platform(a, p).vx == a.vx
    &&& after_platform(a, p).vy == a.vy
}

/// An actor and a platform whose boxes, expanded by the margin, are disjoint on an axis have
/// no contact: the test leaves position and velocity alone and is no landing. It does clear
/// the grounded flag, so only an actor that was not grounded comes out as it went in.
pub proof fn lemma_apart_changes_no_motion(a: ActorView, p: Rect)
    requires
        !a.body.expanded(COLLISION_MARGIN as int).overlaps(
            p.expanded(COLLISION_MARGIN as int),
        ),
    ensures
        contact(a, p) is None,
        !lands(a, p),
        after_platform(a, p).body == a.body,
        after_platform(a, p).vx == a.vx,
        after_platform(a, p).vy == a.vy,
        !after_platform(a, p).grounded,
        !a.grounded ==> after_platform(a, p) == a,
{
}

/// An actor that meets a platform from above while its vertical speed is below the landing
/// speed lands: it is grounded, its vertical speed is zero, and it is set on the platform.
/// Nothing else of it changes.
pub proof fn lemma_landing_snaps(a: ActorView, p: Rect)
    requires
        contact(a, p) == Some(Collision::Top),
        a.vy < LANDING_SPEED,
    ensures
        lands(a, p),
        after_platform(a, p).grounded,
        after_platform(a, p).vy == 0,
        after_platform(a, p).body.y == p.y + p.h / 2 + a.body.h / 2,
        after_platform(a, p).body.x == a.body.x,
        after_platform(a, p).body.w == a.body.w,
        after_platform(a, p).body.h == a.body.h,
        after_platform(a, p).vx == a.vx,
        at_rest_on(after_platform(a, p), p),
{
}

/// An actor rising at the landing speed or faster does not land, whatever it meets, and keeps
/// its height and its vertical speed.
pub proof fn lemma_fast_rise_never_lands(a: ActorView, p: Rect)
    requires
        a.vy >= LANDING_SPEED,
    ensures
        !lands(a, p),
        after_platform(a, p).body.y == a.body.y,
        after_platform(a, p).vy == a.vy,
        contact(a, p) == Some(Collision::Top) ==> after_platform(a, p) == a,
{
}

/// An actor horizontally within the platform, whose expanded box reaches over the upper end
/// of the platform's expanded box and not over the lower one, meets it from above.
pub proof fn lemma_directly_above_is_top(a: ActorView, p: Rect)
    requires
        a.well_formed(),
        p.fits(WORLD_LIMIT as int),
        stands_squarely(a, p),
        p.bottom2() < a.body.bottom2(),
        a.body.bottom2() - COLLISION_MARGIN < p.top2() + COLLISION_MARGIN,
        p.top2() < a.body.top2(),
    ensures
        contact(a, p) == Some(Collision::Top),
{
    lemma_above_within_is_top(
        a.body.expanded(COLLISION_MARGIN as int),
        p.expanded(COLLISION_MARGIN as int),
    );
}

/// A platform stops an actor at its side only against the actor's motion. Met from the left,
/// an actor moving right is stopped and set against the left side, and one that is not moving
/// right is left exactly as it was; met from the right, the same with left and right
/// exchanged.
pub proof fn lemma_side_stop_is_one_way(a: ActorView, p: Rect)
    requires
        contact(a, p) == Some(Collision::Left) || contact(a, p) == Some(Collision::Right),
    ensures
        !lands(a, p),
        contact(a, p) == Some(Collision::Left) && a.vx > 0 ==> {
            &&& after_platform(a, p).vx == 0
            &&& after_platform(a, p).body.x == p.x - p.w / 2 - a.body.w / 2
        },
        contact(a, p) == Some(Collision::Left) && a.vx <= 0 ==> after_platform(a, p) == a,
        contact(a, p) == Some(Collision::Right) && a.vx < 0 ==> {
            &&& after_platform(a, p).vx == 0
            &&& after_platform(a, p).body.x == p.x + p.w / 2 + a.body.w / 2
        },
        contact(a, p) == Some(Collision::Right) && a.vx >= 0 ==> after_platform(a, p)
            == a,
        after_platform(a, p).body.y == a.body.y,
        after_platform(a, p).vy == a.vy,
        after_platform(a, p).grounded == a.grounded,
{
}

/// A contact from below or from within the platform changes nothing.
pub proof fn lemma_open_from_below(a: ActorView, p: Rect)
    requires
        contact(a, p) == Some(Collision::Bottom) || contact(a, p) == Some(Collision::Inside),
    ensures
        !lands(a, p),
        after_platform(a, p) == a,
{
}

/// An actor that has landed on a platform and is tested against it again stays grounded,
/// without vertical speed and at the same height. It comes out exactly as it went in unless
/// it is running into a side of the platform.
pub proof fn lemma_rest_is_stable(a: ActorView, p: Rect)
    requires
        a.well_formed(),
        p.fits(WORLD_LIMIT as int),
        lands(a, p),
    ensures
        ({
            let rest = after_platform(a, p);
            let again = after_platform(rest, p);
            &&& contact(rest, p) is Some
            &&& again.grounded
            &&& again.vy == 0
            &&& again.body.y == rest.body.y
            &&& again.body.w == rest.body.w
            &&& again.body.h == rest.body.h
            &&& again == rest || runs_into(rest, p)
        }),
{
    let rest = after_platform(a, p);
    let am = a.body.expanded(COLLISION_MARGIN as int);
    let rm = rest.body.expanded(COLLISION_MARGIN as int);
    let pm = p.expanded(COLLISION_MARGIN as int);
    assert(am.overlaps(pm));
    assert(rm.overlaps(pm));
}

/// An actor at rest over a platform, both at least two steps high, still meets the platform
/// from above, so the next test lands it again where it is.
pub proof fn lemma_rest_over_platform_lands_again(a: ActorView, p: Rect)
    requires
        a.well_formed(),
        p.fits(WORLD_LIMIT as int),
        at_rest_on(a, p),
        stands_over(a, p),
        a.body.h >= 2,
        p.h >= 2,
    ensures
        contact(a, p) == Some(Collision::Top),
        lands(a, p),
        after_platform(a, p) == a,
{
}

/// A pass keeps the actor well formed and its extents as they were. Where it ends in a
/// landing, the actor's vertical speed was below the landing speed and the actor is at rest
/// on the platform it landed on; where it does not, height and vertical speed are untouched.
pub proof fn lemma_pass_lands_at_rest(a: ActorView, ps: Seq<Rect>, i: int)
    requires
        a.well_formed(),
        platforms_well_formed(ps),
        0 <= i,
    ensures
        after_platforms_from(a, ps, i).well_formed(),
        after_platforms_from(a, ps, i).body.w == a.body.w,
        after_platforms_from(a, ps, i).body.h == a.body.h,
        match landing_from(a, ps, i) {
            Some(k) => {
                &&& i <= k < ps.len()
                &&& a.vy < LANDING_SPEED
                &&& at_rest_on(after_platforms_from(a, ps, i), ps[k])
            },
            None => {
                &&& after_platforms_from(a, ps, i).body.y == a.body.y
                &&& after_platforms_from(a, ps, i).vy == a.vy
            },
        },
    decreases ps.len() - i,
{
    if i < ps.len() && !lands(a, ps[i]) {
        lemma_pass_lands_at_rest(after_platform(a, ps[i]), ps, i + 1);
    }
}

/// An actor whose expanded box is disjoint from that of every platform from index `i` on
/// passes them without a landing and unchanged, but for the grounded flag, which the first
/// of them clears.
pub proof fn lemma_apart_from_all(a: ActorView, ps: Seq<Rect>, i: int)
    requires
        0 <= i,
        forall|j: int|
            i <= j < ps.len() ==> !a.body.expanded(COLLISION_MARGIN as int).overlaps(
                (#[trigger] ps[j]).expanded(COLLISION_MARGIN as int),
            ),
    ensures
        landing_from(a, ps, i) is None,
        after_platforms_from(a, ps, i) == if i < ps.len() {
            ActorView { grounded: false, ..a }
        } else {
            a
        },
    decreases ps.len() - i,
{
    if i < ps.len() {
        lemma_apart_from_all(after_platform(a, ps[i]), ps, i + 1);
    }
}

/// An actor that no platform from index `i` up to `k` disturbs, and that lands on the one at
/// `k`, ends the pass landed on that one, whatever its grounded flag was.
pub proof fn lemma_undisturbed_until_landing(a: ActorView, ps: Seq<Rect>, i: int, k: int)
    requires
        0 <= i <= k < ps.len(),
        forall|j: int| i <= j < k ==> undisturbed_by(a, #[trigger] ps[j]),
        lands(a, ps[k]),
    ensures
        landing_from(a, ps, i) == Some(k),
        after_platforms_from(a, ps, i) == after_platform(a, ps[k]),
    decreases k - i,
{
    if i < k {
        let next = after_platform(a, ps[i]);
        assert(undisturbed_by(a, ps[i]));
        assert forall|j: int| i + 1 <= j < k implies undisturbed_by(next, #[trigger] ps[j]) by {
            assert(undisturbed_by(a, ps[j]));
        }
        lemma_undisturbed_until_landing(next, ps, i + 1, k);
    }
}

/// Rest is stable from tick to tick. Take an actor that a pass has landed on the platform at
/// `k`. If, as it now stands, the platforms before `k` do not disturb it and it still lands
/// on the one at `k`, then the next pass over the same platforms lands it there again and
/// leaves it exactly as it is: grounded, and at the same place.
pub proof fn lemma_rest_is_stable_in_pass(a: ActorView, ps: Seq<Rect>, k: int)
    requires
        a.well_formed(),
        platforms_well_formed(ps),
        landing(a, ps) == Some(k),
        forall|j: int| 0 <= j < k ==> undisturbed_by(after_platforms(a, ps), #[trigger] ps[j]),
        0 <= k < ps.len() ==> lands(after_platforms(a, ps), ps[k]),
    ensures
        0 <= k < ps.len(),
        at_rest_on(after_platforms(a, ps), ps[k]),
        landing(after_platforms(a, ps), ps) == Some(k),
        after_platforms(after_platforms(a, ps), ps) == after_platforms(a, ps),
{
    lemma_pass_lands_at_rest(a, ps, 0);
    lemma_undisturbed_until_landing(after_platforms(a, ps), ps, 0, k);
}

/// Rest is stable on a single platform: an actor that has landed over it, at least two steps
/// high on a platform at least two steps high, comes out of every further pass exactly as it
/// is.
pub proof fn lemma_rest_is_stable_on_one(a: ActorView, p: Rect)
    requires
        a.well_formed(),
        p.fits(WORLD_LIMIT as int),
        lands(a, p),
        stands_over(a, p),
        a.body.h >= 2,
        p.h >= 2,
    ensures
        after_platforms(a, seq![p]) == after_platform(a, p),
        after_platforms(after_platforms(a, seq![p]), seq![p]) == after_platforms(a, seq![p]),
        landing(after_platforms(a, seq![p]), seq![p]) == Some(0int),
{
    let ps = seq![p];
    let rest = after_platform(a, p);
    assert(ps[0] == p);
    assert(after_platforms_from(a, ps, 0) == rest);
    lemma_landing_snaps(a, p);
    lemma_rest_over_platform_lands_again(rest, p);
    assert(after_platforms_from(rest, ps, 0) == after_platform(rest, p));
}

} // verus!
