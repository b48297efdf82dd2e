//! What the ranged attacks share: where a shot starts, its footprint, and a
//! frame of flight.

use vstd::prelude::*;
use crate::direction::FacingDirection;
use crate::geometry::{ahead, step_ahead, Position, Size};
use crate::player::{get_manual_movement_speed, manual_distance};
use crate::TILE_SIZE;

verus! {

/// Where a shot starts: half a tile ahead of the indicator.
pub open spec fn muzzle(pdi_translation: Position, facing_direction: FacingDirection) -> Position {
    ahead(pdi_translation, facing_direction, (TILE_SIZE / 2) as int)
}

/// A footprint of the given length along the facing and the given width
/// across it.
pub open spec fn footprint_along(facing_direction: FacingDirection, length: u32, width: u32) -> Size {
    match facing_direction {
        FacingDirection::Up | FacingDirection::Down => Size { width, height: length },
        FacingDirection::Left | FacingDirection::Right => Size { width: length, height: width },
    }
}

/// Where a shot is after `delta` nanoseconds of flight the way it faces, at
/// `speed` thousandths of a tile per second.
pub open spec fn flown(translation: Position, facing_direction: FacingDirection, speed: u32, delta: u64) -> Position {
    ahead(translation, facing_direction, manual_distance(speed, delta))
}

/// The start of a shot fired from the indicator at `pdi_translation`.
pub fn spawn_point(pdi_translation: &Position, facing_direction: FacingDirection) -> (start: Position)
    ensures
        start == muzzle(*pdi_translation, facing_direction),
{
    step_ahead(*pdi_translation, facing_direction, (TILE_SIZE / 2) as i32)
}

/// Lays a footprint out along the facing.
pub fn footprint(facing_direction: FacingDirection, length: u32, width: u32) -> (size: Size)
    ensures
        size == footprint_along(facing_direction, length, width),
{
    match facing_direction {
        FacingDirection::Up | FacingDirection::Down => Size { width, height: length },
        FacingDirection::Left | FacingDirection::Right => Size { width: length, height: width },
    }
}

/// Moves a shot by one frame of flight.
pub fn fly(translation: Position, facing_direction: FacingDirection, speed: u32, delta: u64) -> (next: Position)
    ensures
        next == flown(translation, facing_direction, speed, delta),
{
    let movement_speed = get_manual_movement_speed(speed, delta);
    step_ahead(translation, facing_direction, movement_speed)
}

} // verus!
