//! Axis-aligned boxes and the overlap classifier.

use vstd::prelude::*;

verus! {

/// Steps per world unit. Lengths and speeds are integers counted in steps.
pub const UNIT: i64 = 1024;

/// Largest extent of a box, and largest distance of a platform's centre from the origin on
/// either axis, in steps.
pub const WORLD_LIMIT: i64 = 1_099_511_627_776;

/// An axis-aligned box: its centre and its full width and height, in steps.
#[derive(Clone, Copy, Debug, PartialEq, Eq, Structural)]
pub struct Aabb {
    pub x: i64,
    pub y: i64,
    pub w: i64,
    pub h: i64,
}

/// The side of the second box on which the first one overlaps it.
#[derive(Clone, Copy, Debug, PartialEq, Eq, Structural)]
pub enum Collision {
    Left,
    Right,
    Top,
    Bottom,
    Inside,
}

/// A box over the integers: what an [`Aabb`] stands for in contracts.
pub struct Rect {
    pub x: int,
    pub y: int,
    pub w: int,
    pub h: int,
}

impl View for Aabb {
    type V = Rect;

    open spec fn view(&self) -> Rect {
        Rect { x: self.x as int, y: self.y as int, w: self.w as int, h: self.h as int }
    }
}

impl Rect {
    /// Twice the coordinate of the left edge. Edges are kept doubled so that a box of odd
    /// width still has its edges on integers.
    pub open spec fn left2(self) -> int {
        2 * self.x - self.w
    }

    /// Twice the coordinate of the right edge.
    pub open spec fn right2(self) -> int {
        2 * self.x + self.w
    }

    /// Twice the coordinate of the lower edge.
    pub open spec fn bottom2(self) -> int {
        2 * self.y - self.h
    }

    /// Twice the coordinate of the upper edge.
    pub open spec fn top2(self) -> int {
        2 * self.y + self.h
    }

    /// The two boxes share a region of positive width and height.
    pub open spec fn overlaps(self, other: Rect) -> bool {
        &&& self.left2() < other.right2()
        &&& self.right2() > other.left2()
        &&& self.bottom2() < other.top2()
        &&& self.top2() > other.bottom2()
    }

    /// Extents are between zero and [`WORLD_LIMIT`], and the centre is at most `reach` steps
    /// from the origin on either axis.
    pub open spec fn fits(self, reach: int) -> bool {
        &&& 0 <= self.w <= WORLD_LIMIT
        &&& 0 <= self.h <= WORLD_LIMIT
        &&& -reach <= self.x <= reach
        &&& -reach <= self.y <= reach
    }

    /// The box with the same centre and both extents longer by `margin`.
    pub open spec fn expanded(self, margin: int) -> Rect {
        Rect { w: self.w + margin, h: self.h + margin, ..self }
    }
}

impl Aabb {
    /// Tests [`Rect::fits`].
    pub fn check_fits(&self, reach: i64) -> (ok: bool)
        ensures
            ok == self@.fits(reach as int),
    {
        0 <= self.w && self.w <= WORLD_LIMIT && 0 <= self.h && self.h <= WORLD_LIMIT
            && reach >= 0 && -reach <= self.x && self.x <= reach && -reach <= self.y
            && self.y <= reach
    }

    /// The box with the same centre and both extents longer by `margin`.
    pub fn expand(&self, margin: i64) -> (grown: Aabb)
        requires
            i64::MIN <= self.w + margin <= i64::MAX,
            i64::MIN <= self.h + margin <= i64::MAX,
        ensures
            grown@ == self@.expanded(margin as int),
    {
        Aabb { x: self.x, y: self.y, w: self.w + margin, h: self.h + margin }
    }
}

/// On one axis, the span `a` reaches over the lower end of the span `b` and ends inside it.
pub open spec fn enters_low(a_lo: int, a_hi: int, b_lo: int, b_hi: int) -> bool {
    a_lo < b_lo && b_lo < a_hi && a_hi < b_hi
}

/// On one axis, the span `a` reaches over the upper end of the span `b` and starts inside it.
pub open spec fn enters_high(a_lo: int, a_hi: int, b_lo: int, b_hi: int) -> bool {
    b_lo < a_lo && a_lo < b_hi && b_hi < a_hi
}

/// How far the span `a` reaches into the span `b` over the one end of `b` that it covers, or
/// `None` where it covers both ends of `b` or neither: then no end of `b` is singled out and
/// the depth counts as unbounded.
pub open spec fn axis_depth(a_lo: int, a_hi: int, b_lo: int, b_hi: int) -> Option<int> {
    if enters_low(a_lo, a_hi, b_lo, b_hi) {
        Some(a_hi - b_lo)
    } else if enters_high(a_lo, a_hi, b_lo, b_hi) {
        Some(b_hi - a_lo)
    } else {
        None
    }
}

/// The side that the horizontal axis alone reports for `a` against `b`.
pub open spec fn horizontal_side(a: Rect, b: Rect) -> Collision {
    if enters_low(a.left2(), a.right2(), b.left2(), b.right2()) {
        Collision::Left
    } else if enters_high(a.left2(), a.right2(), b.left2(), b.right2()) {
        Collision::Right
    } else {
        Collision::Inside
    }
}

/// The side that the vertical axis alone reports for `a` against `b`.
pub open spec fn vertical_side(a: Rect, b: Rect) -> Collision {
    if enters_low(a.bottom2(), a.top2(), b.bottom2(), b.top2()) {
        Collision::Bottom
    } else if enters_high(a.bottom2(), a.top2(), b.bottom2(), b.top2()) {
        Collision::Top
    } else {
        Collision::Inside
    }
}

/// The vertical axis decides: it singles out an end of `b`, and the overlap is strictly
/// shallower there than on the horizontal axis. With equal depths the horizontal axis decides.
pub open spec fn vertical_decides(a: Rect, b: Rect) -> bool {
    match axis_depth(a.bottom2(), a.top2(), b.bottom2(), b.top2()) {
        Some(dy) => match axis_depth(a.left2(), a.right2(), b.left2(), b.right2()) {
            Some(dx) => dy < dx,
            None => true,
        },
        None => false,
    }
}

/// What [`classify`] returns.
///
/// `None` where the boxes do not overlap. Otherwise the side of `b` that `a` has entered by:
/// the axis with the shallower overlap decides, the horizontal one where both are equally
/// deep. `Inside` where neither axis singles out an end of `b`: `a` lies within `b`, or covers
/// it, on both.
pub open spec fn classification(a: Rect, b: Rect) -> Option<Collision> {
    if !a.overlaps(b) {
        None
    } else if vertical_decides(a, b) {
        Some(vertical_side(a, b))
    } else {
        Some(horizontal_side(a, b))
    }
}

/// Classifies the overlap of `a` with `b`. Defined for every pair of boxes, whatever their
/// coordinates: the edges are compared in a wider type and nothing overflows.
pub fn classify(a: &Aabb, b: &Aabb) -> (side: Option<Collision>)
    ensures
        side == classification(a@, b@),
        side is None <==> !a@.overlaps(b@),
{
    let a_left: i128 = 2 * (a.x as i128) - (a.w as i128);
    let a_right: i128 = 2 * (a.x as i128) + (a.w as i128);
    let a_bottom: i128 = 2 * (a.y as i128) - (a.h as i128);
    let a_top: i128 = 2 * (a.y as i128) + (a.h as i128);
    let b_left: i128 = 2 * (b.x as i128) - (b.w as i128);
    let b_right: i128 = 2 * (b.x as i128) + (b.w as i128);
    let b_bottom: i128 = 2 * (b.y as i128) - (b.h as i128);
    let b_top: i128 = 2 * (b.y as i128) + (b.h as i128);
    if !(a_left < b_right && a_right > b_left && a_bottom < b_top && a_top > b_bottom) {
        return None;
    }
    let from_left = a_left < b_left && b_left < a_right && a_right < b_right;
    let from_right = b_left < a_left && a_left < b_right && b_right < a_right;
    let from_below = a_bottom < b_bottom && b_bottom < a_top && a_top < b_top;
    let from_above = b_bottom < a_bottom && a_bottom < b_top && b_top < a_top;
    let across = if from_left {
        Collision::Left
    } else if from_right {
        Collision::Right
    } else {
        Collision::Inside
    };
    if !(from_below || from_above) {
        return Some(across);
    }
    let upright = if from_below {
        Collision::Bottom
    } else {
        Collision::Top
    };
    if !(from_left || from_right) {
        return Some(upright);
    }
    let dx: i128 = if from_left {
        a_right - b_left
    } else {
        b_right - a_left
    };
    let dy: i128 = if from_below {
        a_top - b_bottom
    } else {
        b_top - a_bottom
    };
    if dy < dx {
        Some(upright)
    } else {
        Some(across)
    }
}

/// Boxes whose extents are disjoint on at least one axis, touching edges included, have no
/// overlap to classify.
pub proof fn lemma_disjoint_is_none(a: Rect, b: Rect)
    requires
        a.right2() <= b.left2() || b.right2() <= a.left2() || a.top2() <= b.bottom2()
            || b.top2() <= a.bottom2(),
    ensures
        classification(a, b) is None,
{
}

/// Every overlap is classified, and the side says where `a` lies against `b`: a `Left` or
/// `Right` overlap reaches over that one side of `b` only, a `Top` or `Bottom` overlap over
/// that one end of `b` only, and an `Inside` overlap singles out no end of `b` on either
/// axis.
pub proof fn lemma_side_geometry(a: Rect, b: Rect)
    requires
        a.overlaps(b),
    ensures
        classification(a, b) is Some,
        classification(a, b) == Some(Collision::Left) ==> a.left2() < b.left2() < a.right2()
            < b.right2(),
        classification(a, b) == Some(Collision::Right) ==> b.left2() < a.left2() < b.right2()
            < a.right2(),
        classification(a, b) == Some(Collision::Bottom) ==> a.bottom2() < b.bottom2() < a.top2()
            < b.top2(),
        classification(a, b) == Some(Collision::Top) ==> b.bottom2() < a.bottom2() < b.top2()
            < a.top2(),
        classification(a, b) == Some(Collision::Inside) ==> horizontal_side(a, b)
            == Collision::Inside && vertical_side(a, b) == Collision::Inside,
{
}

/// A box that reaches over the upper end of `b` only, and over both of its sides or neither,
/// is classified `Top`.
pub proof fn lemma_above_within_is_top(a: Rect, b: Rect)
    requires
        a.overlaps(b),
        b.bottom2() < a.bottom2() < b.top2() < a.top2(),
        (b.left2() <= a.left2() && a.right2() <= b.right2()) || (a.left2() <= b.left2()
            && b.right2() <= a.right2()),
    ensures
        classification(a, b) == Some(Collision::Top),
{
}

/// Two overlapping boxes of which, on each axis, one covers the other are classified
/// `Inside`: so is a box enclosed by the other, and one that encloses it.
pub proof fn lemma_covering_is_inside(a: Rect, b: Rect)
    requires
        a.overlaps(b),
        (b.left2() <= a.left2() && a.right2() <= b.right2()) || (a.left2() <= b.left2()
            && b.right2() <= a.right2()),
        (b.bottom2() <= a.bottom2() && a.top2() <= b.top2()) || (a.bottom2() <= b.bottom2()
            && b.top2() <= a.top2()),
    ensures
        classification(a, b) == Some(Collision::Inside),
{
}

/// The side opposite to a given one; `Inside` is its own opposite.
pub open spec fn opposite(side: Collision) -> Collision {
    match side {
        Collision::Left => Collision::Right,
        Collision::Right => Collision::Left,
        Collision::Top => Collision::Bottom,
        Collision::Bottom => Collision::Top,
        Collision::Inside => Collision::Inside,
    }
}

/// Classification treats both boxes alike: seen from `b`, `a` is on the opposite side. This
/// holds for equal depths too, where the horizontal axis decides either way.
pub proof fn lemma_swap_gives_opposite(a: Rect, b: Rect)
    ensures
        classification(b, a) == match classification(a, b) {
            Some(side) => Some(opposite(side)),
            None => None,
        },
{
}

/// Classification treats left and right alike: mirrored at a vertical line, `Left` and
/// `Right` change places and every other result stays.
pub proof fn lemma_mirror_swaps_sides(a: Rect, b: Rect)
    ensures
        classification(Rect { x: -a.x, ..a }, Rect { x: -b.x, ..b }) == match classification(a, b) {
            Some(Collision::Left) => Some(Collision::Right),
            Some(Collision::Right) => Some(Collision::Left),
            other => other,
        },
{
}

/// Classification treats up and down alike: mirrored at a horizontal line, `Top` and `Bottom`
/// change places and every other result stays.
pub proof fn lemma_flip_swaps_ends(a: Rect, b: Rect)
    ensures
        classification(Rect { y: -a.y, ..a }, Rect { y: -b.y, ..b }) == match classification(a, b) {
            Some(Collision::Top) => Some(Collision::Bottom),
            Some(Collision::Bottom) => Some(Collision::Top),
            other => other,
        },
{
}

/// Classification does not depend on where the origin is: moving both boxes by the same
/// amount changes nothing.
pub proof fn lemma_shift_keeps_side(a: Rect, b: Rect, dx: int, dy: int)
    ensures
        classification(
            Rect { x: a.x + dx, y: a.y + dy, ..a },
            Rect { x: b.x + dx, y: b.y + dy, ..b },
        ) == classification(a, b),
{
}

} // verus!
