//! Attack hitboxes against bodies: a controlled actor against hostile actors, and back.
//!
//! An attack connects only sideways or from within. Contact from above or below never does:
//! there is no stomping. A hit is final at once: a hostile actor is removed by the first hit,
//! and a removed one takes part in nothing.

use crate::geometry::{classification, classify, Aabb, Collision, Rect};
use vstd::prelude::*;

verus! {

/// Whether an actor is attacking, and the box that its attack covers.
#[derive(Clone, Copy, Debug, PartialEq, Eq, Structural)]
pub struct AttackState {
    pub is_attacking: bool,
    pub hitbox: Aabb,
}

/// The controlled actor as combat sees it.
#[derive(Clone, Copy, Debug, PartialEq, Eq, Structural)]
pub struct Combatant {
    pub body: Aabb,
    pub attack: AttackState,
}

/// A hostile actor as combat sees it. Once `removed` is set the entry only keeps its place,
/// so that the indices of the others stay as they are.
#[derive(Clone, Copy, Debug, PartialEq, Eq, Structural)]
pub struct Hostile {
    pub body: Aabb,
    pub attack: AttackState,
    pub removed: bool,
}

/// What one tick of combat asks of the caller.
#[derive(Clone, Copy, Debug, PartialEq, Eq, Structural)]
pub struct CombatOutcome {
    /// The index of the hostile actor that was removed in this tick, if one was.
    pub removed: Option<usize>,
    /// Whether the controlled actor is to be reset, once.
    pub reset: bool,
}

/// The hitbox reaches the body sideways or from within.
pub open spec fn connects(hitbox: Rect, body: Rect) -> bool {
    ||| classification(hitbox, body) == Some(Collision::Left)
    ||| classification(hitbox, body) == Some(Collision::Right)
    ||| classification(hitbox, body) == Some(Collision::Inside)
}

impl AttackState {
    /// The attack is under way and its hitbox connects with the body.
    pub open spec fn strikes(self, body: Aabb) -> bool {
        self.is_attacking && connects(self.hitbox@, body@)
    }

    /// Whether the attack is under way and its hitbox connects with the body.
    pub fn hits(&self, body: &Aabb) -> (hit: bool)
        ensures
            hit == self.strikes(*body),
    {
        if !self.is_attacking {
            return false;
        }
        match classify(&self.hitbox, body) {
            Some(Collision::Left) => true,
            Some(Collision::Right) => true,
            Some(Collision::Inside) => true,
            _ => false,
        }
    }
}

impl Hostile {
    /// The hostile actor is still there and the controlled actor's attack strikes it.
    pub open spec fn falls_to(self, controlled: Combatant) -> bool {
        !self.removed && controlled.attack.strikes(self.body)
    }

    /// The hostile actor is still there and its attack strikes the controlled actor.
    pub open spec fn fells(self, controlled: Combatant) -> bool {
        !self.removed && self.attack.strikes(controlled.body)
    }

    /// The same entry, removed.
    pub open spec fn gone(self) -> Hostile {
        Hostile { removed: true, ..self }
    }
}

/// The hostile actor at `k` falls to the controlled actor and none before it does.
pub open spec fn first_to_fall(controlled: Combatant, hostiles: Seq<Hostile>, k: int) -> bool {
    &&& 0 <= k < hostiles.len()
    &&& hostiles[k].falls_to(controlled)
    &&& forall|j: int| 0 <= j < k ==> !(#[trigger] hostiles[j]).falls_to(controlled)
}

/// No hostile actor falls to the controlled actor.
pub open spec fn none_falls(controlled: Combatant, hostiles: Seq<Hostile>) -> bool {
    forall|j: int| 0 <= j < hostiles.len() ==> !(#[trigger] hostiles[j]).falls_to(controlled)
}

/// Some hostile actor fells the controlled actor.
pub open spec fn any_fells(controlled: Combatant, hostiles: Seq<Hostile>) -> bool {
    exists|j: int| 0 <= j < hostiles.len() && (#[trigger] hostiles[j]).fells(controlled)
}

/// One tick of combat took the hostile actors from `before` to `after` with this outcome.
///
/// Two checks, neither looking at the other. The first hostile actor, in order, that falls
/// to the controlled actor is removed, and no other. The controlled actor is reset if any
/// hostile actor fells it, the one removed in this tick among them. Nothing else changes.
pub open spec fn combat_tick(
    controlled: Combatant,
    before: Seq<Hostile>,
    after: Seq<Hostile>,
    outcome: CombatOutcome,
) -> bool {
    &&& match outcome.removed {
        Some(k) => {
            &&& first_to_fall(controlled, before, k as int)
            &&& after == before.update(k as int, before[k as int].gone())
        },
        None => none_falls(controlled, before) && after == before,
    }
    &&& outcome.reset == any_fells(controlled, before)
}

/// One tick of combat between the controlled actor and the hostile actors.
///
/// Marks the hostile actor that is removed, and says in the outcome which one it was and
/// whether the controlled actor is to be reset. What a reset does is the caller's business.
pub fn collision_attack(
    controlled: &Combatant,
    hostiles: &mut Vec<Hostile>,
) -> (outcome: CombatOutcome)
    ensures
        combat_tick(*controlled, old(hostiles)@, final(hostiles)@, outcome),
        final(hostiles).len() == old(hostiles).len(),
{
    let mut removed: Option<usize> = None;
    let mut reset = false;
    let mut i: usize = 0;
    while i < hostiles.len()
        invariant
            i <= hostiles.len(),
            hostiles@ == old(hostiles)@,
            match removed {
                Some(k) => k < i && first_to_fall(*controlled, hostiles@, k as int),
                None => forall|j: int|
                    0 <= j < i ==> !(#[trigger] hostiles[j]).falls_to(*controlled),
            },
            reset == exists|j: int| 0 <= j < i && (#[trigger] hostiles[j]).fells(*controlled),
        decreases hostiles.len() - i,
    {
        let hostile = hostiles[i];
        if !hostile.removed {
            if removed.is_none() && controlled.attack.hits(&hostile.body) {
                removed = Some(i);
            }
            if !reset && hostile.attack.hits(&controlled.body) {
                reset = true;
            }
        }
        i += 1;
    }
    match removed {
        Some(k) => {
            let mut fallen = hostiles[k];
            fallen.removed = true;
            hostiles.set(k, fallen);
        },
        None => {},
    }
    CombatOutcome { removed, reset }
}

} // verus!
