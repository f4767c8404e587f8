use collision_core::attack::{collision_attack, AttackState, CombatOutcome, Combatant, Hostile};
use collision_core::geometry::{Aabb, UNIT};

fn u(n: i64) -> i64 {
    n * UNIT
}

fn bx(x: i64, y: i64, w: i64, h: i64) -> Aabb {
    Aabb { x: u(x), y: u(y), w: u(w), h: u(h) }
}

/// A controlled actor at the origin, 20 by 30, whose hitbox covers 30 by 20 to its right.
fn controlled(is_attacking: bool) -> Combatant {
    Combatant {
        body: bx(0, 0, 20, 30),
        attack: AttackState { is_attacking, hitbox: bx(15, 0, 30, 20) },
    }
}

/// A hostile actor, 20 by 30, whose hitbox is a box of 10 by 10 at the given place.
fn hostile(x: i64, y: i64, is_attacking: bool, hit_x: i64, hit_y: i64) -> Hostile {
    Hostile {
        body: bx(x, y, 20, 30),
        attack: AttackState { is_attacking, hitbox: bx(hit_x, hit_y, 10, 10) },
        removed: false,
    }
}

/// A hostile actor that takes no part: far away and not attacking.
fn bystander() -> Hostile {
    hostile(500, 500, false, 500, 500)
}

fn outcome(removed: Option<usize>, reset: bool) -> CombatOutcome {
    CombatOutcome { removed, reset }
}

#[test]
fn attack_hits_sideways() {
    let attack = AttackState { is_attacking: true, hitbox: bx(15, 0, 30, 20) };
    // The body stands over the right end of the hitbox.
    assert!(attack.hits(&bx(32, 0, 20, 30)));
    // The body stands over the left end of the hitbox.
    assert!(attack.hits(&bx(-2, 0, 20, 30)));
}

#[test]
fn attack_hits_from_within() {
    let attack = AttackState { is_attacking: true, hitbox: bx(15, 0, 30, 20) };
    assert!(attack.hits(&bx(15, 0, 10, 10)));
    assert!(attack.hits(&bx(15, 0, 100, 100)));
}

#[test]
fn attack_does_not_hit_from_above_or_below() {
    let attack = AttackState { is_attacking: true, hitbox: bx(0, 20, 10, 20) };
    assert!(!attack.hits(&bx(0, 0, 20, 30)));
    let attack = AttackState { is_attacking: true, hitbox: bx(0, -20, 10, 20) };
    assert!(!attack.hits(&bx(0, 0, 20, 30)));
}

#[test]
fn attack_does_not_hit_what_it_does_not_overlap() {
    let attack = AttackState { is_attacking: true, hitbox: bx(15, 0, 30, 20) };
    assert!(!attack.hits(&bx(100, 0, 20, 30)));
    assert!(!attack.hits(&bx(40, 0, 20, 30)));
}

#[test]
fn idle_attack_hits_nothing() {
    let attack = AttackState { is_attacking: false, hitbox: bx(15, 0, 30, 20) };
    assert!(!attack.hits(&bx(32, 0, 20, 30)));
    assert!(!attack.hits(&bx(15, 0, 10, 10)));
}

#[test]
fn enclosed_hostile_is_removed_once() {
    let player = controlled(true);
    let mut hostiles = vec![Hostile {
        body: bx(15, 0, 10, 10),
        attack: AttackState { is_attacking: false, hitbox: bx(15, 0, 10, 10) },
        removed: false,
    }];
    let first = hostiles[0];
    assert_eq!(collision_attack(&player, &mut hostiles), outcome(Some(0), false));
    assert_eq!(hostiles, vec![Hostile { removed: true, ..first }]);
    let after = hostiles.clone();
    assert_eq!(collision_attack(&player, &mut hostiles), outcome(None, false));
    assert_eq!(hostiles, after);
}

#[test]
fn hostile_struck_sideways_is_removed() {
    let player = controlled(true);
    let mut hostiles = vec![bystander(), hostile(32, 0, false, 500, 500)];
    assert_eq!(collision_attack(&player, &mut hostiles), outcome(Some(1), false));
    assert!(!hostiles[0].removed);
    assert!(hostiles[1].removed);
}

#[test]
fn idle_controlled_actor_removes_nothing() {
    let player = controlled(false);
    let mut hostiles = vec![hostile(32, 0, false, 500, 500)];
    let before = hostiles.clone();
    assert_eq!(collision_attack(&player, &mut hostiles), outcome(None, false));
    assert_eq!(hostiles, before);
}

#[test]
fn hostile_under_the_hitbox_is_not_removed() {
    let player = Combatant {
        body: bx(0, 0, 20, 30),
        attack: AttackState { is_attacking: true, hitbox: bx(0, 20, 10, 20) },
    };
    let mut hostiles = vec![hostile(0, 0, false, 500, 500)];
    let before = hostiles.clone();
    assert_eq!(collision_attack(&player, &mut hostiles), outcome(None, false));
    assert_eq!(hostiles, before);
}

#[test]
fn only_the_first_struck_hostile_is_removed_in_a_tick() {
    let player = controlled(true);
    let mut hostiles = vec![
        bystander(),
        hostile(32, 0, false, 500, 500),
        hostile(30, 2, false, 500, 500),
    ];
    assert_eq!(collision_attack(&player, &mut hostiles), outcome(Some(1), false));
    assert_eq!(
        hostiles.iter().map(|h| h.removed).collect::<Vec<bool>>(),
        vec![false, true, false]
    );
    assert_eq!(collision_attack(&player, &mut hostiles), outcome(Some(2), false));
    assert_eq!(
        hostiles.iter().map(|h| h.removed).collect::<Vec<bool>>(),
        vec![false, true, true]
    );
    assert_eq!(collision_attack(&player, &mut hostiles), outcome(None, false));
}

#[test]
fn vertical_contact_does_not_shield_the_next_hostile() {
    let player = Combatant {
        body: bx(0, 0, 20, 30),
        attack: AttackState { is_attacking: true, hitbox: bx(15, 0, 30, 20) },
    };
    // The first hostile actor is met from above by the hitbox, the second sideways.
    let below = Hostile {
        body: bx(15, -20, 40, 30),
        attack: AttackState { is_attacking: false, hitbox: bx(500, 500, 10, 10) },
        removed: false,
    };
    let mut hostiles = vec![below, hostile(32, 0, false, 500, 500)];
    assert_eq!(collision_attack(&player, &mut hostiles), outcome(Some(1), false));
}

#[test]
fn attacking_hostile_resets_the_controlled_actor() {
    let player = controlled(false);
    // The hostile actor's hitbox stands over the right side of the controlled body.
    let mut hostiles = vec![bystander(), hostile(30, 0, true, 12, 0)];
    let before = hostiles.clone();
    assert_eq!(collision_attack(&player, &mut hostiles), outcome(None, true));
    assert_eq!(hostiles, before);
}

#[test]
fn hostile_hitbox_within_the_body_resets() {
    let player = controlled(false);
    let mut hostiles = vec![hostile(30, 0, true, 1, 1)];
    assert_eq!(collision_attack(&player, &mut hostiles), outcome(None, true));
}

#[test]
fn idle_hostile_resets_nothing() {
    let player = controlled(false);
    let mut hostiles = vec![hostile(30, 0, false, 12, 0)];
    assert_eq!(collision_attack(&player, &mut hostiles), outcome(None, false));
}

#[test]
fn hostile_hitbox_from_above_or_below_resets_nothing() {
    let player = controlled(false);
    let mut hostiles = vec![hostile(30, 0, true, 0, 18), hostile(30, 0, true, 0, -18)];
    assert_eq!(collision_attack(&player, &mut hostiles), outcome(None, false));
}

#[test]
fn several_striking_hostiles_bring_one_reset() {
    let player = controlled(false);
    let mut hostiles = vec![hostile(30, 0, true, 12, 0), hostile(-30, 0, true, -12, 0)];
    assert_eq!(collision_attack(&player, &mut hostiles), outcome(None, true));
}

#[test]
fn removal_and_reset_in_one_tick() {
    let player = controlled(true);
    // One hostile actor both stands in the hitbox and strikes the controlled body.
    let mut hostiles = vec![hostile(32, 0, true, 12, 0)];
    assert_eq!(collision_attack(&player, &mut hostiles), outcome(Some(0), true));
    assert!(hostiles[0].removed);
    // Removed, it strikes no more.
    assert_eq!(collision_attack(&player, &mut hostiles), outcome(None, false));
}

#[test]
fn removal_and_reset_from_different_hostiles() {
    let player = controlled(true);
    let mut hostiles = vec![hostile(-30, 0, true, -12, 0), hostile(32, 0, false, 500, 500)];
    assert_eq!(collision_attack(&player, &mut hostiles), outcome(Some(1), true));
    assert_eq!(
        hostiles.iter().map(|h| h.removed).collect::<Vec<bool>>(),
        vec![false, true]
    );
}

#[test]
fn removed_hostile_takes_no_part() {
    let player = controlled(true);
    let mut gone = hostile(32, 0, true, 12, 0);
    gone.removed = true;
    let mut hostiles = vec![gone, bystander()];
    let before = hostiles.clone();
    assert_eq!(collision_attack(&player, &mut hostiles), outcome(None, false));
    assert_eq!(hostiles, before);
}

#[test]
fn no_hostiles_no_outcome() {
    let mut hostiles: Vec<Hostile> = Vec::new();
    assert_eq!(collision_attack(&controlled(true), &mut hostiles), outcome(None, false));
    assert!(hostiles.is_empty());
}
