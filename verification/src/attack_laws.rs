//! What holds of every tick of combat.

use crate::attack::{
    any_fells, combat_tick, connects, first_to_fall, AttackState, CombatOutcome, Combatant,
    Hostile,
};
use crate::geometry::{classification, lemma_covering_is_inside, Aabb, Collision};
use vstd::prelude::*;

verus! {

/// A hitbox that does not overlap a body strikes nothing, attacking or not.
pub proof fn lemma_apart_never_strikes(attack: AttackState, body: Aabb)
    requires
        !attack.hitbox@.overlaps(body@),
    ensures
        !attack.strikes(body),
{
}

/// Contact from above or below never strikes, attacking or not.
pub proof fn lemma_vertical_contact_never_strikes(attack: AttackState, body: Aabb)
    requires
        classification(attack.hitbox@, body@) == Some(Collision::Top) || classification(
            attack.hitbox@,
            body@,
        ) == Some(Collision::Bottom),
    ensures
        !attack.strikes(body),
{
}

/// A hostile actor that is still there and whose body the hitbox of an attacking controlled
/// actor encloses falls to it.
pub proof fn lemma_enclosed_hostile_falls(controlled: Combatant, hostile: Hostile)
    requires
        controlled.attack.is_attacking,
        !hostile.removed,
        controlled.attack.hitbox@.overlaps(hostile.body@),
        controlled.attack.hitbox@.left2() <= hostile.body@.left2(),
        hostile.body@.right2() <= controlled.attack.hitbox@.right2(),
        controlled.attack.hitbox@.bottom2() <= hostile.body@.bottom2(),
        hostile.body@.top2() <= controlled.attack.hitbox@.top2(),
    ensures
        classification(controlled.attack.hitbox@, hostile.body@) == Some(Collision::Inside),
        hostile.falls_to(controlled),
{
    lemma_covering_is_inside(controlled.attack.hitbox@, hostile.body@);
}

/// A removed hostile actor takes part in nothing: it neither falls to the controlled actor
/// nor fells it, whatever the boxes and attack states are.
pub proof fn lemma_removed_takes_no_part(controlled: Combatant, hostile: Hostile)
    requires
        hostile.removed,
    ensures
        !hostile.falls_to(controlled),
        !hostile.fells(controlled),
{
}

/// A tick of combat has one result: the hostile actors before it and the controlled actor
/// determine the hostile actors after it and the outcome.
pub proof fn lemma_combat_tick_is_determined(
    controlled: Combatant,
    before: Seq<Hostile>,
    after1: Seq<Hostile>,
    outcome1: CombatOutcome,
    after2: Seq<Hostile>,
    outcome2: CombatOutcome,
)
    requires
        combat_tick(controlled, before, after1, outcome1),
        combat_tick(controlled, before, after2, outcome2),
    ensures
        after1 == after2,
        outcome1 == outcome2,
{
    match (outcome1.removed, outcome2.removed) {
        (Some(k1), Some(k2)) => {
            assert(before[k1 as int].falls_to(controlled));
            assert(before[k2 as int].falls_to(controlled));
            assert(k1 == k2);
        },
        (Some(k1), None) => {
            assert(before[k1 as int].falls_to(controlled));
        },
        (None, Some(k2)) => {
            assert(before[k2 as int].falls_to(controlled));
        },
        (None, None) => {},
    }
}

/// A tick removes at most one hostile actor, one that was there and that the controlled
/// actor struck, and changes no other entry. The list keeps its length, and what was removed
/// before stays removed.
pub proof fn lemma_tick_removes_one_struck(
    controlled: Combatant,
    before: Seq<Hostile>,
    after: Seq<Hostile>,
    outcome: CombatOutcome,
)
    requires
        combat_tick(controlled, before, after, outcome),
    ensures
        after.len() == before.len(),
        forall|j: int|
            0 <= j < before.len() && outcome.removed != Some(j as usize) ==> #[trigger] after[j]
                == before[j],
        forall|j: int| 0 <= j < before.len() && before[j].removed ==> (#[trigger] after[j]).removed,
        match outcome.removed {
            Some(k) => {
                &&& k < before.len()
                &&& !before[k as int].removed
                &&& controlled.attack.strikes(before[k as int].body)
                &&& after[k as int].removed
            },
            None => true,
        },
{
}

/// The first hostile actor, in order, that falls to the controlled actor is the one that the
/// tick removes. So a lone hostile actor that falls is removed.
pub proof fn lemma_first_to_fall_is_removed(
    controlled: Combatant,
    before: Seq<Hostile>,
    after: Seq<Hostile>,
    outcome: CombatOutcome,
    k: int,
)
    requires
        combat_tick(controlled, before, after, outcome),
        first_to_fall(controlled, before, k),
    ensures
        outcome.removed == Some(k as usize),
        after[k].removed,
        after[k] == before[k].gone(),
{
    match outcome.removed {
        Some(k1) => {
            assert(before[k1 as int].falls_to(controlled));
            assert(before[k].falls_to(controlled));
            assert(k1 == k);
        },
        None => {
            assert(before[k].falls_to(controlled));
        },
    }
}

/// Removal happens once. The hostile actor that a tick removed is not removed again by any
/// later tick over the same list, against whatever controlled actor: its entry stays as it
/// is, and it neither falls nor fells any more.
pub proof fn lemma_removal_is_once(
    controlled: Combatant,
    before: Seq<Hostile>,
    after: Seq<Hostile>,
    outcome: CombatOutcome,
    next_controlled: Combatant,
    later: Seq<Hostile>,
    next_outcome: CombatOutcome,
)
    requires
        combat_tick(controlled, before, after, outcome),
        combat_tick(next_controlled, after, later, next_outcome),
        outcome.removed is Some,
    ensures
        next_outcome.removed != outcome.removed,
        later[outcome.removed->0 as int] == after[outcome.removed->0 as int],
        later[outcome.removed->0 as int].removed,
        !after[outcome.removed->0 as int].falls_to(next_controlled),
        !after[outcome.removed->0 as int].fells(next_controlled),
{
    let k = outcome.removed->0 as int;
    assert(after[k].removed);
    match next_outcome.removed {
        Some(k2) => {
            assert(after[k2 as int].falls_to(next_controlled));
        },
        None => {},
    }
}

/// Where every hostile actor is removed, a tick does nothing: no removal, no reset, and the
/// list as it was. So it is for a single removed hostile actor tested once more.
pub proof fn lemma_all_removed_is_quiet(
    controlled: Combatant,
    before: Seq<Hostile>,
    after: Seq<Hostile>,
    outcome: CombatOutcome,
)
    requires
        combat_tick(controlled, before, after, outcome),
        forall|j: int| 0 <= j < before.len() ==> (#[trigger] before[j]).removed,
    ensures
        outcome.removed is None,
        !outcome.reset,
        after == before,
{
    match outcome.removed {
        Some(k) => {
            assert(before[k as int].falls_to(controlled));
        },
        None => {},
    }
}

/// A hostile actor that is still there, is attacking, and whose hitbox connects with the
/// controlled actor's body brings a reset; the outcome holds one flag, so one reset a tick
/// however many hostile actors strike.
pub proof fn lemma_struck_controlled_is_reset(
    controlled: Combatant,
    before: Seq<Hostile>,
    after: Seq<Hostile>,
    outcome: CombatOutcome,
    j: int,
)
    requires
        combat_tick(controlled, before, after, outcome),
        0 <= j < before.len(),
        !before[j].removed,
        before[j].attack.is_attacking,
        connects(before[j].attack.hitbox@, controlled.body@),
    ensures
        outcome.reset,
{
    assert(before[j].fells(controlled));
}

/// Where no hostile actor that is still there and attacking has its hitbox connect with the
/// controlled actor's body, there is no reset. Hitboxes that meet the body from above or from
/// below, or not at all, are of that kind, as are those of hostile actors that do not attack.
pub proof fn lemma_no_reset_without_strike(
    controlled: Combatant,
    before: Seq<Hostile>,
    after: Seq<Hostile>,
    outcome: CombatOutcome,
)
    requires
        combat_tick(controlled, before, after, outcome),
        forall|j: int|
            0 <= j < before.len() ==> {
                ||| (#[trigger] before[j]).removed
                ||| !before[j].attack.is_attacking
                ||| classification(before[j].attack.hitbox@, controlled.body@) is None
                ||| classification(before[j].attack.hitbox@, controlled.body@) == Some(
                    Collision::Top,
                )
                ||| classification(before[j].attack.hitbox@, controlled.body@) == Some(
                    Collision::Bottom,
                )
            },
    ensures
        !outcome.reset,
{
    if any_fells(controlled, before) {
        let j = choose|j: int| 0 <= j < before.len() && (#[trigger] before[j]).fells(controlled);
        assert(before[j].fells(controlled));
    }
}

/// The two checks do not look at each other: a hostile actor that falls in a tick and
/// strikes the controlled actor in the same tick still brings the reset.
pub proof fn lemma_removal_and_reset_together(
    controlled: Combatant,
    before: Seq<Hostile>,
    after: Seq<Hostile>,
    outcome: CombatOutcome,
)
    requires
        combat_tick(controlled, before, after, outcome),
        outcome.removed is Some,
        before[outcome.removed->0 as int].attack.strikes(controlled.body),
    ensures
        outcome.reset,
{
    let k = outcome.removed->0 as int;
    assert(before[k].fells(controlled));
}

} // verus!
