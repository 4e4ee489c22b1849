//! Overlap of axis-aligned boxes, and the side on which one box meets another.
//!
//! A box is given by its centre and its full extent. Edges are compared at
//! twice their coordinate, so that the half extent of an odd size stays a whole
//! number and no comparison rounds.

use vstd::prelude::*;
use crate::location::{Area, Location};

verus! {

/// The side of the second box that the first box has entered.
#[derive(Clone, Copy, Debug, PartialEq, Eq, Structural)]
pub enum Collision {
    Left,
    Right,
    Top,
    Bottom,
    /// The boxes meet, but no side is entered on either axis.
    Unknown,
}

/// Twice the lower edge of a span with the given centre and extent.
pub open spec fn low_edge(centre: int, extent: int) -> int {
    2 * centre - extent
}

/// Twice the upper edge of a span with the given centre and extent.
pub open spec fn high_edge(centre: int, extent: int) -> int {
    2 * centre + extent
}

/// The spans `[a_min, a_max]` and `[b_min, b_max]` share at least a point.
pub open spec fn spans_meet(a_min: int, a_max: int, b_min: int, b_max: int) -> bool {
    a_min <= b_max && a_max >= b_min
}

/// Span `a` reaches over the lower edge of span `b` and ends inside it.
pub open spec fn enters_low(a_min: int, a_max: int, b_min: int, b_max: int) -> bool {
    a_min < b_min && a_max > b_min && a_max < b_max
}

/// Span `a` reaches over the upper edge of span `b` and begins inside it.
pub open spec fn enters_high(a_min: int, a_max: int, b_min: int, b_max: int) -> bool {
    a_min > b_min && a_min < b_max && a_max > b_max
}

/// One span lies inside the other and touches neither of its edges.
pub open spec fn strictly_nested(a_min: int, a_max: int, b_min: int, b_max: int) -> bool {
    (b_min < a_min && a_max < b_max) || (a_min < b_min && b_max < a_max)
}

/// The spans have an edge in common.
pub open spec fn shares_edge(a_min: int, a_max: int, b_min: int, b_max: int) -> bool {
    a_min == b_min || a_max == b_max || a_max == b_min || a_min == b_max
}

/// The spans touch end to end: they meet, and the overlap has no length.
pub open spec fn touches(a_min: int, a_max: int, b_min: int, b_max: int) -> bool {
    a_max == b_min || a_min == b_max
}

/// How far span `a` has entered span `b`, as a magnitude: zero where it has
/// entered over neither edge.
pub open spec fn penetration(a_min: int, a_max: int, b_min: int, b_max: int) -> int {
    if enters_low(a_min, a_max, b_min, b_max) {
        a_max - b_min
    } else if enters_high(a_min, a_max, b_min, b_max) {
        b_max - a_min
    } else {
        0
    }
}

/// The boxes overlap or touch on both axes.
pub open spec fn boxes_meet(a_pos: Location, a_size: Area, b_pos: Location, b_size: Area) -> bool {
    &&& spans_meet(
        low_edge(a_pos.x as int, a_size.width as int),
        high_edge(a_pos.x as int, a_size.width as int),
        low_edge(b_pos.x as int, b_size.width as int),
        high_edge(b_pos.x as int, b_size.width as int),
    )
    &&& spans_meet(
        low_edge(a_pos.y as int, a_size.height as int),
        high_edge(a_pos.y as int, a_size.height as int),
        low_edge(b_pos.y as int, b_size.height as int),
        high_edge(b_pos.y as int, b_size.height as int),
    )
}

/// The side entered along one axis, where `low` and `high` name the sides of
/// that axis.
pub open spec fn axis_side(
    a_min: int,
    a_max: int,
    b_min: int,
    b_max: int,
    low: Collision,
    high: Collision,
) -> Option<Collision> {
    if enters_low(a_min, a_max, b_min, b_max) {
        Some(low)
    } else if enters_high(a_min, a_max, b_min, b_max) {
        Some(high)
    } else {
        None
    }
}

/// The side entered along the horizontal axis.
pub open spec fn x_side(a_pos: Location, a_size: Area, b_pos: Location, b_size: Area) -> Option<
    Collision,
> {
    axis_side(
        low_edge(a_pos.x as int, a_size.width as int),
        high_edge(a_pos.x as int, a_size.width as int),
        low_edge(b_pos.x as int, b_size.width as int),
        high_edge(b_pos.x as int, b_size.width as int),
        Collision::Left,
        Collision::Right,
    )
}

/// The side entered along the vertical axis.
pub open spec fn y_side(a_pos: Location, a_size: Area, b_pos: Location, b_size: Area) -> Option<
    Collision,
> {
    axis_side(
        low_edge(a_pos.y as int, a_size.height as int),
        high_edge(a_pos.y as int, a_size.height as int),
        low_edge(b_pos.y as int, b_size.height as int),
        high_edge(b_pos.y as int, b_size.height as int),
        Collision::Bottom,
        Collision::Top,
    )
}

/// The horizontal penetration, in doubled units.
pub open spec fn x_depth(a_pos: Location, a_size: Area, b_pos: Location, b_size: Area) -> int {
    penetration(
        low_edge(a_pos.x as int, a_size.width as int),
        high_edge(a_pos.x as int, a_size.width as int),
        low_edge(b_pos.x as int, b_size.width as int),
        high_edge(b_pos.x as int, b_size.width as int),
    )
}

/// The vertical penetration, in doubled units.
pub open spec fn y_depth(a_pos: Location, a_size: Area, b_pos: Location, b_size: Area) -> int {
    penetration(
        low_edge(a_pos.y as int, a_size.height as int),
        high_edge(a_pos.y as int, a_size.height as int),
        low_edge(b_pos.y as int, b_size.height as int),
        high_edge(b_pos.y as int, b_size.height as int),
    )
}

/// What `collide` returns: nothing where the boxes are apart; else the side
/// entered, the shallower one where a side is entered on both axes (the
/// horizontal one on equal depth), and `Unknown` where none is.
pub open spec fn collide_spec(a_pos: Location, a_size: Area, b_pos: Location, b_size: Area)
    -> Option<Collision> {
    if !boxes_meet(a_pos, a_size, b_pos, b_size) {
        None
    } else {
        match (x_side(a_pos, a_size, b_pos, b_size), y_side(a_pos, a_size, b_pos, b_size)) {
            (Some(x), Some(y)) => {
                if y_depth(a_pos, a_size, b_pos, b_size) < x_depth(a_pos, a_size, b_pos, b_size) {
                    Some(y)
                } else {
                    Some(x)
                }
            },
            (Some(x), None) => Some(x),
            (None, Some(y)) => Some(y),
            (None, None) => Some(Collision::Unknown),
        }
    }
}

/// The side entered along one axis and the depth of the entry, from the
/// doubled edges of the two spans.
fn resolve_axis(a_min: i64, a_max: i64, b_min: i64, b_max: i64, low: Collision, high: Collision)
    -> (hit: (Option<Collision>, i64))
    requires
        -0x2_0000_0000 <= a_min <= a_max <= 0x2_0000_0000,
        -0x2_0000_0000 <= b_min <= b_max <= 0x2_0000_0000,
    ensures
        hit.0 == axis_side(a_min as int, a_max as int, b_min as int, b_max as int, low, high),
        hit.1 == penetration(a_min as int, a_max as int, b_min as int, b_max as int),
{
    if a_min < b_min && a_max > b_min && a_max < b_max {
        (Some(low), a_max - b_min)
    } else if a_min > b_min && a_min < b_max && a_max > b_max {
        (Some(high), b_max - a_min)
    } else {
        (None, 0)
    }
}

/// Tests the box at `a_pos` of size `a_size` against the box at `b_pos` of
/// size `b_size`, each given by its centre, and names the side of the second
/// box that the first has entered.
pub fn collide(a_pos: &Location, a_size: &Area, b_pos: &Location, b_size: &Area) -> (hit: Option<
    Collision,
>)
    ensures
        hit == collide_spec(*a_pos, *a_size, *b_pos, *b_size),
        hit is Some <==> boxes_meet(*a_pos, *a_size, *b_pos, *b_size),
{
    let a_min_x: i64 = 2 * (a_pos.x as i64) - (a_size.width as i64);
    let a_max_x: i64 = 2 * (a_pos.x as i64) + (a_size.width as i64);
    let a_min_y: i64 = 2 * (a_pos.y as i64) - (a_size.height as i64);
    let a_max_y: i64 = 2 * (a_pos.y as i64) + (a_size.height as i64);
    let b_min_x: i64 = 2 * (b_pos.x as i64) - (b_size.width as i64);
    let b_max_x: i64 = 2 * (b_pos.x as i64) + (b_size.width as i64);
    let b_min_y: i64 = 2 * (b_pos.y as i64) - (b_size.height as i64);
    let b_max_y: i64 = 2 * (b_pos.y as i64) + (b_size.height as i64);

    if a_min_x <= b_max_x && a_max_x >= b_min_x && a_min_y <= b_max_y && a_max_y >= b_min_y {
        let (x_collision, x_depth) = resolve_axis(
            a_min_x,
            a_max_x,
            b_min_x,
            b_max_x,
            Collision::Left,
            Collision::Right,
        );
        let (y_collision, y_depth) = resolve_axis(
            a_min_y,
            a_max_y,
            b_min_y,
            b_max_y,
            Collision::Bottom,
            Collision::Top,
        );
        match (x_collision, y_collision) {
            (Some(x), Some(y)) => {
                if y_depth < x_depth {
                    Some(y)
                } else {
                    Some(x)
                }
            },
            (Some(x), None) => Some(x),
            (None, Some(y)) => Some(y),
            (None, None) => Some(Collision::Unknown),
        }
    } else {
        None
    }
}

/// Where the vertical spans are strictly nested and the horizontal spans are
/// not, and the horizontal spans share no edge, a collision is reported on the
/// horizontal side that was entered, and never as `Unknown`.
pub proof fn lemma_nested_vertically_gives_horizontal_side(
    a_pos: Location,
    a_size: Area,
    b_pos: Location,
    b_size: Area,
)
    requires
        boxes_meet(a_pos, a_size, b_pos, b_size),
        strictly_nested(
            low_edge(a_pos.y as int, a_size.height as int),
            high_edge(a_pos.y as int, a_size.height as int),
            low_edge(b_pos.y as int, b_size.height as int),
            high_edge(b_pos.y as int, b_size.height as int),
        ),
        !strictly_nested(
            low_edge(a_pos.x as int, a_size.width as int),
            high_edge(a_pos.x as int, a_size.width as int),
            low_edge(b_pos.x as int, b_size.width as int),
            high_edge(b_pos.x as int, b_size.width as int),
        ),
        !shares_edge(
            low_edge(a_pos.x as int, a_size.width as int),
            high_edge(a_pos.x as int, a_size.width as int),
            low_edge(b_pos.x as int, b_size.width as int),
            high_edge(b_pos.x as int, b_size.width as int),
        ),
    ensures
        collide_spec(a_pos, a_size, b_pos, b_size) == Some(
            if low_edge(a_pos.x as int, a_size.width as int) < low_edge(
                b_pos.x as int,
                b_size.width as int,
            ) {
                Collision::Left
            } else {
                Collision::Right
            },
        ),
        collide_spec(a_pos, a_size, b_pos, b_size) != Some(Collision::Unknown),
{
}

/// Where the horizontal spans are strictly nested and the vertical spans are
/// not, and the vertical spans share no edge, a collision is reported on the
/// vertical side that was entered, and never as `Unknown`.
pub proof fn lemma_nested_horizontally_gives_vertical_side(
    a_pos: Location,
    a_size: Area,
    b_pos: Location,
    b_size: Area,
)
    requires
        boxes_meet(a_pos, a_size, b_pos, b_size),
        strictly_nested(
            low_edge(a_pos.x as int, a_size.width as int),
            high_edge(a_pos.x as int, a_size.width as int),
            low_edge(b_pos.x as int, b_size.width as int),
            high_edge(b_pos.x as int, b_size.width as int),
        ),
        !strictly_nested(
            low_edge(a_pos.y as int, a_size.height as int),
            high_edge(a_pos.y as int, a_size.height as int),
            low_edge(b_pos.y as int, b_size.height as int),
            high_edge(b_pos.y as int, b_size.height as int),
        ),
        !shares_edge(
            low_edge(a_pos.y as int, a_size.height as int),
            high_edge(a_pos.y as int, a_size.height as int),
            low_edge(b_pos.y as int, b_size.height as int),
            high_edge(b_pos.y as int, b_size.height as int),
        ),
    ensures
        collide_spec(a_pos, a_size, b_pos, b_size) == Some(
            if low_edge(a_pos.y as int, a_size.height as int) < low_edge(
                b_pos.y as int,
                b_size.height as int,
            ) {
                Collision::Bottom
            } else {
                Collision::Top
            },
        ),
        collide_spec(a_pos, a_size, b_pos, b_size) != Some(Collision::Unknown),
{
}

/// Boxes that touch corner to corner, with no depth on either axis, collide
/// with the side `Unknown`.
pub proof fn lemma_corner_contact_is_unknown(
    a_pos: Location,
    a_size: Area,
    b_pos: Location,
    b_size: Area,
)
    requires
        touches(
            low_edge(a_pos.x as int, a_size.width as int),
            high_edge(a_pos.x as int, a_size.width as int),
            low_edge(b_pos.x as int, b_size.width as int),
            high_edge(b_pos.x as int, b_size.width as int),
        ),
        touches(
            low_edge(a_pos.y as int, a_size.height as int),
            high_edge(a_pos.y as int, a_size.height as int),
            low_edge(b_pos.y as int, b_size.height as int),
            high_edge(b_pos.y as int, b_size.height as int),
        ),
    ensures
        collide_spec(a_pos, a_size, b_pos, b_size) == Some(Collision::Unknown),
{
}

/// A reported side is the shallower of the sides entered: no side is reported
/// whose depth exceeds that of a side entered on the other axis.
pub proof fn lemma_reported_side_is_shallowest(
    a_pos: Location,
    a_size: Area,
    b_pos: Location,
    b_size: Area,
)
    requires
        x_side(a_pos, a_size, b_pos, b_size) is Some,
        y_side(a_pos, a_size, b_pos, b_size) is Some,
        boxes_meet(a_pos, a_size, b_pos, b_size),
    ensures
        collide_spec(a_pos, a_size, b_pos, b_size) == x_side(a_pos, a_size, b_pos, b_size)
            <==> x_depth(a_pos, a_size, b_pos, b_size) <= y_depth(a_pos, a_size, b_pos, b_size),
        collide_spec(a_pos, a_size, b_pos, b_size) == y_side(a_pos, a_size, b_pos, b_size)
            <==> y_depth(a_pos, a_size, b_pos, b_size) < x_depth(a_pos, a_size, b_pos, b_size),
{
}

} // verus!
