use collision_core::geometry::{classify, Aabb, Collision, UNIT, WORLD_LIMIT};

fn bx(x: i64, y: i64, w: i64, h: i64) -> Aabb {
    Aabb { x, y, w, h }
}

#[test]
fn unit_and_limit_values() {
    assert_eq!(UNIT, 1024);
    assert_eq!(WORLD_LIMIT, 1i64 << 40);
}

#[test]
fn disjoint_on_x_is_none() {
    assert_eq!(classify(&bx(0, 0, 10, 10), &bx(11, 0, 10, 10)), None);
    assert_eq!(classify(&bx(11, 0, 10, 10), &bx(0, 0, 10, 10)), None);
}

#[test]
fn disjoint_on_y_is_none() {
    assert_eq!(classify(&bx(0, 0, 10, 10), &bx(0, -25, 10, 10)), None);
    assert_eq!(classify(&bx(0, 40, 10, 10), &bx(0, 0, 100, 10)), None);
}

#[test]
fn touching_edges_do_not_overlap() {
    assert_eq!(classify(&bx(10, 0, 10, 10), &bx(0, 0, 10, 10)), None);
    assert_eq!(classify(&bx(0, 10, 10, 10), &bx(0, 0, 10, 10)), None);
    assert_eq!(classify(&bx(10, 10, 10, 10), &bx(0, 0, 10, 10)), None);
}

#[test]
fn left_side_overlap() {
    assert_eq!(classify(&bx(0, 0, 10, 10), &bx(8, 0, 10, 10)), Some(Collision::Left));
}

#[test]
fn right_side_overlap() {
    assert_eq!(classify(&bx(8, 0, 10, 10), &bx(0, 0, 10, 10)), Some(Collision::Right));
}

#[test]
fn top_side_overlap() {
    assert_eq!(classify(&bx(0, 9, 10, 10), &bx(0, 0, 10, 10)), Some(Collision::Top));
}

#[test]
fn bottom_side_overlap() {
    assert_eq!(classify(&bx(0, -9, 10, 10), &bx(0, 0, 10, 10)), Some(Collision::Bottom));
}

#[test]
fn shallower_axis_decides_at_a_corner() {
    // Horizontal depth 2, vertical depth 1.
    assert_eq!(classify(&bx(8, 9, 10, 10), &bx(0, 0, 10, 10)), Some(Collision::Top));
    // Horizontal depth 1, vertical depth 2.
    assert_eq!(classify(&bx(9, 8, 10, 10), &bx(0, 0, 10, 10)), Some(Collision::Right));
    assert_eq!(classify(&bx(-9, -8, 10, 10), &bx(0, 0, 10, 10)), Some(Collision::Left));
    assert_eq!(classify(&bx(-8, -9, 10, 10), &bx(0, 0, 10, 10)), Some(Collision::Bottom));
}

#[test]
fn equal_depths_go_to_the_horizontal_axis() {
    assert_eq!(classify(&bx(9, 9, 10, 10), &bx(0, 0, 10, 10)), Some(Collision::Right));
    assert_eq!(classify(&bx(-9, 9, 10, 10), &bx(0, 0, 10, 10)), Some(Collision::Left));
    assert_eq!(classify(&bx(9, -9, 10, 10), &bx(0, 0, 10, 10)), Some(Collision::Right));
    assert_eq!(classify(&bx(-9, -9, 10, 10), &bx(0, 0, 10, 10)), Some(Collision::Left));
}

#[test]
fn enclosed_box_is_inside() {
    assert_eq!(classify(&bx(1, -1, 4, 4), &bx(0, 0, 10, 10)), Some(Collision::Inside));
}

#[test]
fn enclosing_box_is_inside() {
    assert_eq!(classify(&bx(0, 0, 20, 20), &bx(1, -1, 10, 10)), Some(Collision::Inside));
}

#[test]
fn equal_boxes_are_inside() {
    assert_eq!(classify(&bx(3, 4, 10, 10), &bx(3, 4, 10, 10)), Some(Collision::Inside));
}

#[test]
fn one_axis_within_leaves_the_other_to_decide() {
    // Vertically within, horizontally over the right side only.
    assert_eq!(classify(&bx(9, 0, 10, 4), &bx(0, 0, 10, 10)), Some(Collision::Right));
    // Horizontally covering, vertically over the upper end only, however deep.
    assert_eq!(classify(&bx(0, 1, 30, 10), &bx(0, 0, 10, 10)), Some(Collision::Top));
}

#[test]
fn odd_extents_keep_their_half_steps() {
    // Edges at -1.5 and 1.5 against 1.5 and 2.5: they touch.
    assert_eq!(classify(&bx(0, 0, 3, 3), &bx(2, 0, 1, 1)), None);
    // Edges at -1.5 and 1.5 against 1 and 3: half a step of overlap.
    assert_eq!(classify(&bx(0, 0, 3, 3), &bx(2, 0, 2, 1)), Some(Collision::Left));
}

#[test]
fn empty_box_counts_as_a_point() {
    assert_eq!(classify(&bx(5, 0, 0, 0), &bx(0, 0, 10, 10)), None);
    assert_eq!(classify(&bx(0, 0, 0, 0), &bx(0, 0, 10, 10)), Some(Collision::Inside));
}

#[test]
fn extreme_coordinates_are_classified() {
    let far_up = bx(i64::MAX, i64::MAX, i64::MAX, i64::MAX);
    let far_down = bx(i64::MIN, i64::MIN, i64::MAX, i64::MAX);
    assert_eq!(classify(&far_up, &far_down), None);
    assert_eq!(classify(&far_up, &far_up), Some(Collision::Inside));
    assert_eq!(
        classify(&bx(0, 0, i64::MAX, i64::MAX), &bx(i64::MAX - 1, 0, i64::MAX, 2)),
        Some(Collision::Left)
    );
}

#[test]
fn expand_adds_the_margin_to_both_extents() {
    assert_eq!(bx(3, -4, 10, 20).expand(7), bx(3, -4, 17, 27));
}

#[test]
fn check_fits_tests_extents_and_reach() {
    assert!(bx(5, -5, 0, WORLD_LIMIT).check_fits(5));
    assert!(!bx(6, 0, 1, 1).check_fits(5));
    assert!(!bx(0, -6, 1, 1).check_fits(5));
    assert!(!bx(0, 0, -1, 1).check_fits(5));
    assert!(!bx(0, 0, 1, WORLD_LIMIT + 1).check_fits(5));
    assert!(!bx(0, 0, 1, 1).check_fits(-1));
}

fn opposite(side: Option<Collision>) -> Option<Collision> {
    match side {
        Some(Collision::Left) => Some(Collision::Right),
        Some(Collision::Right) => Some(Collision::Left),
        Some(Collision::Top) => Some(Collision::Bottom),
        Some(Collision::Bottom) => Some(Collision::Top),
        other => other,
    }
}

#[test]
fn swapped_boxes_see_the_opposite_side() {
    let b = bx(0, 0, 10, 10);
    for a in [
        bx(8, 0, 10, 10),
        bx(-8, 1, 10, 10),
        bx(0, 9, 10, 10),
        bx(3, -9, 10, 10),
        bx(9, 9, 10, 10),
        bx(1, 1, 4, 4),
        bx(40, 0, 10, 10),
    ] {
        assert_eq!(classify(&b, &a), opposite(classify(&a, &b)));
    }
}

#[test]
fn mirrored_boxes_swap_left_and_right() {
    assert_eq!(classify(&bx(8, 3, 10, 10), &bx(1, 0, 10, 10)), Some(Collision::Right));
    assert_eq!(classify(&bx(-8, 3, 10, 10), &bx(-1, 0, 10, 10)), Some(Collision::Left));
    assert_eq!(classify(&bx(8, -3, 10, 10), &bx(1, 0, 10, 10)), Some(Collision::Right));
}

#[test]
fn shifted_boxes_keep_their_side() {
    assert_eq!(classify(&bx(8, 9, 10, 10), &bx(0, 0, 10, 10)), Some(Collision::Top));
    assert_eq!(
        classify(&bx(8 + 1000, 9 - 77, 10, 10), &bx(1000, -77, 10, 10)),
        Some(Collision::Top)
    );
}
