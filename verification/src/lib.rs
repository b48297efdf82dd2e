//! Movement, collision and ranged-attack rules of a top-down tile-grid game,
//! stated over integer world units and proved with Verus.

use vstd::prelude::*;

pub mod arrows;
pub mod attacks;
pub mod collisions;
pub mod cooldown;
pub mod direction;
pub mod events;
pub mod general_systems;
pub mod geometry;
pub mod hookshot;
pub mod player;
pub mod plugins;
pub mod resources;
pub mod selection;
pub mod skills;
pub mod world;

verus! {

/// Edge length of one grid tile, in world units.
pub const TILE_SIZE: u32 = 100;

/// Width of the screen, in world units: sixteen tiles.
pub const SCREEN_WIDTH: u32 = 1600;

/// Height of the screen, in world units: nine tiles.
pub const SCREEN_HEIGHT: u32 = 900;

} // verus!
