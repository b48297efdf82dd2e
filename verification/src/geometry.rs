//! Points, extents and the overlap test for axis-aligned boxes.

use vstd::prelude::*;
use crate::direction::FacingDirection;

verus! {

/// A point of the world plane, in world units.
#[derive(Clone, Copy, Debug, PartialEq, Eq, Structural)]
pub struct Position {
    pub x: i32,
    pub y: i32,
}

/// The extents of an axis-aligned box centred on its position.
#[derive(Clone, Copy, Debug, PartialEq, Eq, Structural)]
pub struct Size {
    pub width: u32,
    pub height: u32,
}

/// On one axis, two centred intervals overlap when the distance of their
/// centres is less than half the sum of their extents. Stated with both sides
/// doubled so that no half is ever rounded.
pub open spec fn axis_overlap(a: int, a_extent: int, b: int, b_extent: int) -> bool {
    2 * vstd::math::abs(a - b) < a_extent + b_extent
}

/// Two boxes collide when they overlap on both axes; touching edges do not count.
pub open spec fn boxes_collide(a_pos: Position, a_size: Size, b_pos: Position, b_size: Size) -> bool {
    &&& axis_overlap(a_pos.x as int, a_size.width as int, b_pos.x as int, b_size.width as int)
    &&& axis_overlap(a_pos.y as int, a_size.height as int, b_pos.y as int, b_size.height as int)
}

/// A coordinate moved by `delta`, stopped at the ends of the `i32` range.
pub open spec fn offset_coordinate(coordinate: i32, delta: int) -> i32 {
    let moved = coordinate + delta;
    if moved > i32::MAX {
        i32::MAX
    } else if moved < i32::MIN {
        i32::MIN
    } else {
        moved as i32
    }
}

/// Moves a coordinate by `delta` and stops at the ends of the `i32` range.
pub fn shifted_coordinate(coordinate: i32, delta: i64) -> (moved: i32)
    ensures
        moved == offset_coordinate(coordinate, delta as int),
{
    let bounded: i64 = if delta > 0x1_0000_0000 {
        0x1_0000_0000
    } else if delta < -0x1_0000_0000 {
        -0x1_0000_0000
    } else {
        delta
    };
    let sum: i64 = coordinate as i64 + bounded;
    if sum > i32::MAX as i64 {
        i32::MAX
    } else if sum < i32::MIN as i64 {
        i32::MIN
    } else {
        sum as i32
    }
}

/// The point `distance` ahead of `from`, the way `facing_direction` points.
/// A coordinate stops at the end of the `i32` range.
pub open spec fn ahead(from: Position, facing_direction: FacingDirection, distance: int) -> Position {
    match facing_direction {
        FacingDirection::Up => Position { x: from.x, y: offset_coordinate(from.y, distance) },
        FacingDirection::Down => Position { x: from.x, y: offset_coordinate(from.y, -distance) },
        FacingDirection::Left => Position { x: offset_coordinate(from.x, -distance), y: from.y },
        FacingDirection::Right => Position { x: offset_coordinate(from.x, distance), y: from.y },
    }
}

/// Moves a point `distance` world units the way `facing_direction` points.
pub fn step_ahead(from: Position, facing_direction: FacingDirection, distance: i32) -> (to: Position)
    ensures
        to == ahead(from, facing_direction, distance as int),
{
    match facing_direction {
        FacingDirection::Up => Position { x: from.x, y: shifted_coordinate(from.y, distance as i64) },
        FacingDirection::Down => Position { x: from.x, y: shifted_coordinate(from.y, -(distance as i64)) },
        FacingDirection::Left => Position { x: shifted_coordinate(from.x, -(distance as i64)), y: from.y },
        FacingDirection::Right => Position { x: shifted_coordinate(from.x, distance as i64), y: from.y },
    }
}

fn axis_hit(a: i32, a_extent: u32, b: i32, b_extent: u32) -> (hit: bool)
    ensures
        hit == axis_overlap(a as int, a_extent as int, b as int, b_extent as int),
{
    let d: i64 = a as i64 - b as i64;
    let dist: i64 = if d < 0 { -d } else { d };
    2 * dist < a_extent as i64 + b_extent as i64
}

/// Tests two axis-aligned boxes, each given by centre and extents, for overlap.
pub fn collide(a_pos: Position, a_size: Size, b_pos: Position, b_size: Size) -> (hit: bool)
    ensures
        hit == boxes_collide(a_pos, a_size, b_pos, b_size),
{
    axis_hit(a_pos.x, a_size.width, b_pos.x, b_size.width)
        && axis_hit(a_pos.y, a_size.height, b_pos.y, b_size.height)
}

} // verus!
