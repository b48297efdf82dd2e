//! The hookshot: one at a time, holding the mover in place while it is out,
//! latching onto what it can grapple, and gone when it is out of range.

use vstd::prelude::*;
use vstd::math::abs;
use crate::attacks::{fly, flown, muzzle, spawn_point};
use crate::collisions::{any_hit, check_collision};
use crate::direction::{FacingDirection, Rotation};
use crate::geometry::{Position, Size};
use crate::selection::{lemma_select_empty, lemma_select_push};

verus! {

/// The speed of the hookshot, in thousandths of a tile per second.
pub const HOOKSHOT_SPEED: u32 = 7500;

/// The side of the square footprint of the hookshot: half a tile.
pub const HOOKSHOT_SIZE: u32 = 50;

/// How far from the mover, on either axis, the hookshot may get: 3.4 tiles.
pub const HOOKSHOT_RANGE: u32 = 340;

/// A hookshot in flight: the way it flies, its speed in thousandths of a tile
/// per second, and the side of its square footprint.
#[derive(Clone, Copy, Debug, PartialEq, Eq, Structural)]
pub struct Hookshot {
    pub facing_direction: FacingDirection,
    pub speed: u32,
    pub size: u32,
}

impl Hookshot {
    pub fn new(facing_direction: FacingDirection, speed: u32, size: u32) -> (hookshot: Self)
        ensures
            hookshot == (Hookshot { facing_direction, speed, size }),
    {
        Self { facing_direction, speed, size }
    }

    pub fn facing_direction(&self) -> (facing: FacingDirection)
        ensures
            facing == self.facing_direction,
    {
        self.facing_direction
    }

    pub fn speed(&self) -> (speed: u32)
        ensures
            speed == self.speed,
    {
        self.speed
    }

    /// The square footprint of the hookshot.
    pub open spec fn extent(self) -> Size {
        Size { width: self.size, height: self.size }
    }
}

/// The hookshot that a shot in the given direction lets fly.
pub open spec fn hookshot_shot(facing_direction: FacingDirection) -> Hookshot {
    Hookshot { facing_direction, speed: HOOKSHOT_SPEED, size: HOOKSHOT_SIZE }
}

/// Fires the hookshot if its key went down and none is out, and marks the
/// mover as firing. The hookshot starts half a tile ahead of the indicator,
/// drawn turned the way the indicator faces.
pub fn fire_hookshot(
    hookshot_pressed: bool,
    hookshot_fired: &mut bool,
    pdi_translation: &Position,
    facing_direction: &FacingDirection,
) -> (spawned: Option<(Position, Rotation, Hookshot)>)
    ensures
        *final(hookshot_fired) == (*old(hookshot_fired) || hookshot_pressed),
        spawned == if hookshot_pressed && !*old(hookshot_fired) {
            Some(
                (
                    muzzle(*pdi_translation, *facing_direction),
                    Rotation::of_turns(facing_direction.heading()),
                    hookshot_shot(*facing_direction),
                ),
            )
        } else {
            None
        },
{
    if hookshot_pressed && !*hookshot_fired {
        *hookshot_fired = true;
        let start = spawn_point(pdi_translation, *facing_direction);
        Some((start, facing_direction.rotation_from_up(), Hookshot::new(*facing_direction, HOOKSHOT_SPEED, HOOKSHOT_SIZE)))
    } else {
        None
    }
}

/// A hookshot with its position, identity and latch after `delta`
/// nanoseconds: it flies on unless it is latched.
pub open spec fn hookshot_flown(hookshot: (Position, u32, Hookshot, bool), delta: u64) -> (
    Position,
    u32,
    Hookshot,
    bool,
) {
    if hookshot.3 {
        hookshot
    } else {
        (flown(hookshot.0, hookshot.2.facing_direction, hookshot.2.speed, delta), hookshot.1, hookshot.2, false)
    }
}

/// Moves every hookshot that is not latched by one frame of flight.
pub fn hookshot_move(hookshots: &mut Vec<(Position, u32, Hookshot, bool)>, delta: u64)
    ensures
        final(hookshots)@ == old(hookshots)@.map_values(
            |hookshot: (Position, u32, Hookshot, bool)| hookshot_flown(hookshot, delta),
        ),
{
    let mut i: usize = 0;
    while i < hookshots.len()
        invariant
            i <= hookshots.len(),
            hookshots@.len() == old(hookshots)@.len(),
            forall|j: int| 0 <= j < i ==> hookshots@[j] == hookshot_flown(old(hookshots)@[j], delta),
            forall|j: int| i <= j < hookshots@.len() ==> hookshots@[j] == old(hookshots)@[j],
        decreases hookshots.len() - i,
    {
        let (translation, entity, hookshot, hit_block) = hookshots[i];
        if !hit_block {
            let next = fly(translation, hookshot.facing_direction(), hookshot.speed(), delta);
            hookshots.set(i, (next, entity, hookshot, false));
        }
        i += 1;
    }
    assert(hookshots@ =~= old(hookshots)@.map_values(
        |hookshot: (Position, u32, Hookshot, bool)| hookshot_flown(hookshot, delta),
    ));
}

/// Whether a hookshot touches something it can grapple.
pub open spec fn grapples(hookshot: (Position, u32, Hookshot, bool), hookshotables: Seq<(Position, u32)>) -> bool {
    any_hit(hookshot.0, hookshot.1, hookshotables, hookshot.2.extent())
}

/// Whether `i` is the place of the first hookshot that grapples.
pub open spec fn first_grapple_at(
    hookshots: Seq<(Position, u32, Hookshot, bool)>,
    hookshotables: Seq<(Position, u32)>,
    i: int,
) -> bool {
    &&& 0 <= i < hookshots.len()
    &&& grapples(hookshots[i], hookshotables)
    &&& forall|j: int| 0 <= j < i ==> !grapples(#[trigger] hookshots[j], hookshotables)
}

/// A hookshot with its latch set.
pub open spec fn latched(hookshot: (Position, u32, Hookshot, bool)) -> (Position, u32, Hookshot, bool) {
    (hookshot.0, hookshot.1, hookshot.2, true)
}

/// The place of the first hookshot that grapples, if any does.
pub open spec fn first_grapple(
    hookshots: Seq<(Position, u32, Hookshot, bool)>,
    hookshotables: Seq<(Position, u32)>,
) -> Option<int> {
    if exists|i: int| first_grapple_at(hookshots, hookshotables, i) {
        Some(choose|i: int| first_grapple_at(hookshots, hookshotables, i))
    } else {
        None
    }
}

/// The first hookshot that grapples is the one before which none does.
pub proof fn lemma_first_grapple(
    hookshots: Seq<(Position, u32, Hookshot, bool)>,
    hookshotables: Seq<(Position, u32)>,
    i: int,
)
    requires
        first_grapple_at(hookshots, hookshotables, i),
    ensures
        first_grapple(hookshots, hookshotables) == Some(i),
{
    let k = choose|k: int| first_grapple_at(hookshots, hookshotables, k);
    assert(k == i);
}

/// The hookshots with the first one that grapples latched.
pub open spec fn hookshots_latched(
    hookshots: Seq<(Position, u32, Hookshot, bool)>,
    hookshotables: Seq<(Position, u32)>,
) -> Seq<(Position, u32, Hookshot, bool)> {
    match first_grapple(hookshots, hookshotables) {
        Some(i) => hookshots.update(i, latched(hookshots[i])),
        None => hookshots,
    }
}

/// The identity of the first hookshot that grapples, if any does.
pub open spec fn grappling(
    hookshots: Seq<(Position, u32, Hookshot, bool)>,
    hookshotables: Seq<(Position, u32)>,
) -> Option<u32> {
    match first_grapple(hookshots, hookshotables) {
        Some(i) => Some(hookshots[i].1),
        None => None,
    }
}

/// Latches the first hookshot that touches something it can grapple, so
/// that it flies no further, and returns its identity. The others are left
/// as they are.
pub fn manage_hookshot_collisions(
    hookshots: &mut Vec<(Position, u32, Hookshot, bool)>,
    hookshotables: &[(Position, u32)],
) -> (hit: Option<u32>)
    ensures
        hit == grappling(old(hookshots)@, hookshotables@),
        final(hookshots)@ == hookshots_latched(old(hookshots)@, hookshotables@),
{
    let mut i: usize = 0;
    while i < hookshots.len()
        invariant
            i <= hookshots.len(),
            hookshots@ == old(hookshots)@,
            forall|j: int| 0 <= j < i ==> !grapples(#[trigger] hookshots@[j], hookshotables@),
        decreases hookshots.len() - i,
    {
        let (translation, entity, hookshot, _) = hookshots[i];
        let size = Size { width: hookshot.size, height: hookshot.size };
        if check_collision(&translation, &entity, hookshotables, size).is_some() {
            proof {
                lemma_first_grapple(old(hookshots)@, hookshotables@, i as int);
            }
            hookshots.set(i, (translation, entity, hookshot, true));
            return Some(entity);
        }
        i += 1;
    }
    proof {
        assert forall|k: int| !first_grapple_at(old(hookshots)@, hookshotables@, k) by {
            if 0 <= k < old(hookshots)@.len() {
                assert(!grapples(hookshots@[k], hookshotables@));
            }
        }
    }
    None
}

/// Whether a hookshot at `hookshot` is out of the range of a mover at
/// `player`: further than the range on either axis.
pub open spec fn out_of_range(player: Position, hookshot: Position) -> bool {
    abs(player.x - hookshot.x) > HOOKSHOT_RANGE || abs(player.y - hookshot.y) > HOOKSHOT_RANGE
}

/// The identities of the hookshots that are out of the mover's range, in
/// their order; none while the mover is not marked as firing.
pub open spec fn hookshots_out_of_range(
    player: Position,
    hookshot_fired: bool,
    hookshots: Seq<(Position, u32, Hookshot, bool)>,
) -> Seq<u32> {
    if hookshot_fired {
        hookshots.filter(|hookshot: (Position, u32, Hookshot, bool)| out_of_range(player, hookshot.0)).map_values(
            |hookshot: (Position, u32, Hookshot, bool)| hookshot.1,
        )
    } else {
        Seq::empty()
    }
}

fn too_far(player: &Position, hookshot: &Position) -> (far: bool)
    ensures
        far == out_of_range(*player, *hookshot),
{
    let dx: i64 = player.x as i64 - hookshot.x as i64;
    let dy: i64 = player.y as i64 - hookshot.y as i64;
    let distance_x: i64 = if dx < 0 {
        -dx
    } else {
        dx
    };
    let distance_y: i64 = if dy < 0 {
        -dy
    } else {
        dy
    };
    distance_x > HOOKSHOT_RANGE as i64 || distance_y > HOOKSHOT_RANGE as i64
}

/// Finds the hookshots that are out of the range of a firing mover and
/// returns their identities: they are to be removed. If there is any, the
/// mover is no longer marked as firing and may move again.
pub fn despawn_hookshot_out_of_range(
    player_translation: &Position,
    hookshot_fired: &mut bool,
    hookshots: &[(Position, u32, Hookshot, bool)],
) -> (despawned: Vec<u32>)
    ensures
        despawned@ == hookshots_out_of_range(*player_translation, *old(hookshot_fired), hookshots@),
        *final(hookshot_fired) == (*old(hookshot_fired) && despawned@.len() == 0),
{
    let mut despawned: Vec<u32> = Vec::new();
    if !*hookshot_fired {
        return despawned;
    }
    let ghost keep = |hookshot: (Position, u32, Hookshot, bool)| out_of_range(*player_translation, hookshot.0);
    let ghost id = |hookshot: (Position, u32, Hookshot, bool)| hookshot.1;
    let mut i: usize = 0;
    proof {
        lemma_select_empty(keep, id);
        assert(hookshots@.take(0) =~= Seq::empty());
    }
    while i < hookshots.len()
        invariant
            i <= hookshots.len(),
            keep == |hookshot: (Position, u32, Hookshot, bool)| out_of_range(*player_translation, hookshot.0),
            id == |hookshot: (Position, u32, Hookshot, bool)| hookshot.1,
            despawned@ == hookshots@.take(i as int).filter(keep).map_values(id),
        decreases hookshots.len() - i,
    {
        let (translation, entity, _, _) = hookshots[i];
        proof {
            lemma_select_push(hookshots@.take(i as int), hookshots@[i as int], keep, id);
            assert(hookshots@.take(i as int + 1) =~= hookshots@.take(i as int).push(hookshots@[i as int]));
        }
        if too_far(player_translation, &translation) {
            despawned.push(entity);
        }
        i += 1;
    }
    proof {
        assert(hookshots@.take(hookshots@.len() as int) =~= hookshots@);
    }
    if despawned.len() > 0 {
        *hookshot_fired = false;
    }
    despawned
}

} // verus!
