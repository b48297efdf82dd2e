//! The test that discards what has left the screen.

use vstd::prelude::*;
use vstd::math::abs;
use crate::{SCREEN_HEIGHT, SCREEN_WIDTH};

verus! {

/// Whether on one axis an entity is further than `extent / 1.9` from the
/// camera, both coordinates taken without their sign. Stated with both sides
/// multiplied by 19 so that nothing is rounded.
pub open spec fn off_axis(camera: int, entity: int, extent: int) -> bool {
    19 * abs(abs(entity) - abs(camera)) > 10 * extent
}

/// Whether an entity at `(entity_x, entity_y)` is off the screen of a camera
/// at `(camera_x, camera_y)`.
pub open spec fn off_screen(camera_x: int, camera_y: int, entity_x: int, entity_y: int) -> bool {
    off_axis(camera_x, entity_x, SCREEN_WIDTH as int) || off_axis(camera_y, entity_y, SCREEN_HEIGHT as int)
}

fn magnitude(coordinate: i32) -> (size: i64)
    ensures
        size == abs(coordinate as int),
{
    if coordinate < 0 {
        -(coordinate as i64)
    } else {
        coordinate as i64
    }
}

fn axis_out(camera: i32, entity: i32, extent: u32) -> (out: bool)
    requires
        extent <= 0x1000_0000,
    ensures
        out == off_axis(camera as int, entity as int, extent as int),
{
    let d: i64 = magnitude(entity) - magnitude(camera);
    let distance: i64 = if d < 0 {
        -d
    } else {
        d
    };
    19 * distance > 10 * extent as i64
}

/// Tells whether an entity has left the screen around the camera and is to be
/// discarded.
pub fn out_of_bounds(camera_x: i32, camera_y: i32, entity_x: i32, entity_y: i32) -> (out: bool)
    ensures
        out == off_screen(camera_x as int, camera_y as int, entity_x as int, entity_y as int),
{
    axis_out(camera_x, entity_x, SCREEN_WIDTH) || axis_out(camera_y, entity_y, SCREEN_HEIGHT)
}

/// The test does not change when camera and entity are mirrored together
/// through the origin, nor when either is mirrored on an axis by itself.
pub proof fn lemma_off_screen_mirrored(camera_x: int, camera_y: int, entity_x: int, entity_y: int)
    ensures
        off_screen(-camera_x, -camera_y, -entity_x, -entity_y) == off_screen(camera_x, camera_y, entity_x, entity_y),
        off_screen(-camera_x, camera_y, entity_x, entity_y) == off_screen(camera_x, camera_y, entity_x, entity_y),
        off_screen(camera_x, -camera_y, entity_x, entity_y) == off_screen(camera_x, camera_y, entity_x, entity_y),
        off_screen(camera_x, camera_y, -entity_x, entity_y) == off_screen(camera_x, camera_y, entity_x, entity_y),
        off_screen(camera_x, camera_y, entity_x, -entity_y) == off_screen(camera_x, camera_y, entity_x, entity_y),
{
}

/// What the camera shows is never discarded: an entity within half the
/// screen's width and height of the camera is not off the screen.
pub proof fn lemma_visible_is_kept(camera_x: int, camera_y: int, entity_x: int, entity_y: int)
    requires
        2 * abs(entity_x - camera_x) <= SCREEN_WIDTH,
        2 * abs(entity_y - camera_y) <= SCREEN_HEIGHT,
    ensures
        !off_screen(camera_x, camera_y, entity_x, entity_y),
{
}

} // verus!
