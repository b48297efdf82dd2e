//! The collision test of a moving box against tile-sized obstacles, and the
//! hit test of an interaction.

use vstd::prelude::*;
use crate::direction::FacingDirection;
use crate::events::InteractionEvent;
use crate::geometry::{ahead, boxes_collide, collide, step_ahead, Position, Size};
use crate::selection::{lemma_select_empty, lemma_select_push};
use crate::TILE_SIZE;

verus! {

/// The footprint of every obstacle: one tile.
pub open spec fn tile_box() -> Size {
    Size { width: TILE_SIZE, height: TILE_SIZE }
}

/// Whether the mover's box, placed at `mover`, overlaps the tile of the
/// candidate. A candidate that carries the mover's own identity never counts.
pub open spec fn hits(mover: Position, mover_index: u32, mover_size: Size, candidate: (Position, u32)) -> bool {
    mover_index != candidate.1 && boxes_collide(mover, mover_size, candidate.0, tile_box())
}

/// Whether any of the candidates is hit.
pub open spec fn any_hit(
    mover: Position,
    mover_index: u32,
    candidates: Seq<(Position, u32)>,
    mover_size: Size,
) -> bool {
    exists|i: int| 0 <= i < candidates.len() && hits(mover, mover_index, mover_size, #[trigger] candidates[i])
}

/// Whether `i` is the place of the first candidate that is hit.
pub open spec fn first_hit_at(
    mover: Position,
    mover_index: u32,
    candidates: Seq<(Position, u32)>,
    mover_size: Size,
    i: int,
) -> bool {
    &&& 0 <= i < candidates.len()
    &&& hits(mover, mover_index, mover_size, candidates[i])
    &&& forall|j: int| 0 <= j < i ==> !hits(mover, mover_index, mover_size, #[trigger] candidates[j])
}

/// The position of the first candidate that is hit, if any is.
pub open spec fn first_hit(
    mover: Position,
    mover_index: u32,
    candidates: Seq<(Position, u32)>,
    mover_size: Size,
) -> Option<Position> {
    if any_hit(mover, mover_index, candidates, mover_size) {
        Some(candidates[choose|i: int| first_hit_at(mover, mover_index, candidates, mover_size, i)].0)
    } else {
        None
    }
}

/// The first candidate that is hit is the one before which none is hit.
pub proof fn lemma_first_hit(
    mover: Position,
    mover_index: u32,
    candidates: Seq<(Position, u32)>,
    mover_size: Size,
    i: int,
)
    requires
        first_hit_at(mover, mover_index, candidates, mover_size, i),
    ensures
        first_hit(mover, mover_index, candidates, mover_size) == Some(candidates[i].0),
{
    let k = choose|k: int| first_hit_at(mover, mover_index, candidates, mover_size, k);
    assert(k == i);
}

/// Tests a moving box against the tiles of all candidates, each given with
/// its identity, and returns the position of the first one hit. The mover
/// never collides with itself.
pub fn check_collision(
    mover_translation: &Position,
    mover_index: &u32,
    collidables: &[(Position, u32)],
    mover_size: Size,
) -> (hit: Option<Position>)
    ensures
        hit == first_hit(*mover_translation, *mover_index, collidables@, mover_size),
        hit.is_some() == any_hit(*mover_translation, *mover_index, collidables@, mover_size),
{
    let tile = Size { width: TILE_SIZE, height: TILE_SIZE };
    let mut i: usize = 0;
    while i < collidables.len()
        invariant
            i <= collidables.len(),
            tile == tile_box(),
            forall|j: int| 0 <= j < i ==> !hits(*mover_translation, *mover_index, mover_size, #[trigger] collidables@[j]),
        decreases collidables.len() - i,
    {
        let (collidable_translation, collidable_index) = collidables[i];
        if *mover_index != collidable_index && collide(
            *mover_translation,
            mover_size,
            collidable_translation,
            tile,
        ) {
            proof {
                lemma_first_hit(*mover_translation, *mover_index, collidables@, mover_size, i as int);
            }
            return Some(collidable_translation);
        }
        i += 1;
    }
    None
}

/// A mover is never stopped by candidates that all carry its own identity,
/// wherever they stand.
pub proof fn lemma_self_excluded(
    mover: Position,
    mover_index: u32,
    candidates: Seq<(Position, u32)>,
    mover_size: Size,
)
    requires
        forall|i: int| 0 <= i < candidates.len() ==> (#[trigger] candidates[i]).1 == mover_index,
    ensures
        !any_hit(mover, mover_index, candidates, mover_size),
{
}

/// Against a single candidate of another identity, a hit is reported exactly
/// when on both axes twice the distance of the centres is less than the sum
/// of the extents; boxes that only touch do not collide.
pub proof fn lemma_hit_iff_overlap(mover: Position, mover_index: u32, mover_size: Size, candidate: (Position, u32))
    requires
        candidate.1 != mover_index,
    ensures
        any_hit(mover, mover_index, seq![candidate], mover_size) <==> {
            &&& 2 * vstd::math::abs(mover.x - candidate.0.x) < mover_size.width + TILE_SIZE
            &&& 2 * vstd::math::abs(mover.y - candidate.0.y) < mover_size.height + TILE_SIZE
        },
{
    let s = seq![candidate];
    assert(s[0] == candidate);
    if hits(mover, mover_index, mover_size, candidate) {
        assert(hits(mover, mover_index, mover_size, s[0]));
    }
}

/// The side of the hit box of an interaction: half a tile.
pub open spec fn reach() -> u32 {
    TILE_SIZE / 2
}

/// The centre of the hit box of an interaction: half a tile ahead of the
/// indicator, the way it faces.
pub open spec fn interaction_point(pdi_translation: Position, facing_direction: FacingDirection) -> Position {
    ahead(pdi_translation, facing_direction, reach() as int)
}

/// Whether an interaction from `pdi_translation`, facing `facing_direction`,
/// reaches the tile at `interaction_translation`.
pub open spec fn interaction_reaches(
    pdi_translation: Position,
    facing_direction: FacingDirection,
    interaction_translation: Position,
) -> bool {
    boxes_collide(
        interaction_point(pdi_translation, facing_direction),
        Size { width: reach(), height: reach() },
        interaction_translation,
        tile_box(),
    )
}

/// Checks whether the indicator stands in range of an entity, and faces it,
/// so that an interaction reaches it.
pub fn check_interaction(
    pdi_translation: Position,
    facing_direction: FacingDirection,
    interaction_translation: Position,
) -> (reached: bool)
    ensures
        reached == interaction_reaches(pdi_translation, facing_direction, interaction_translation),
{
    let tile = Size { width: TILE_SIZE, height: TILE_SIZE };
    let scaled_tile_size: u32 = TILE_SIZE / 2;
    let interaction_box = Size { width: scaled_tile_size, height: scaled_tile_size };
    let centre = step_ahead(pdi_translation, facing_direction, scaled_tile_size as i32);
    collide(centre, interaction_box, interaction_translation, tile)
}

/// Whether one of the events reaches the tile at `translation`.
pub open spec fn reached_by_any(events: Seq<InteractionEvent>, translation: Position) -> bool {
    exists|k: int| 0 <= k < events.len() && interaction_reaches(
        (#[trigger] events[k]).position(),
        events[k].facing(),
        translation,
    )
}

/// The identities of the interactable entities that some event of this
/// frame reaches, each once, in the order of the entities.
pub open spec fn interacted_with(events: Seq<InteractionEvent>, interactables: Seq<(Position, u32)>) -> Seq<u32> {
    interactables.filter(|e: (Position, u32)| reached_by_any(events, e.0)).map_values(|e: (Position, u32)| e.1)
}

fn reached(events: &[InteractionEvent], translation: Position) -> (found: bool)
    ensures
        found == reached_by_any(events@, translation),
{
    let mut k: usize = 0;
    while k < events.len()
        invariant
            k <= events.len(),
            forall|j: int| 0 <= j < k ==> !interaction_reaches(
                (#[trigger] events@[j]).position(),
                events@[j].facing(),
                translation,
            ),
        decreases events.len() - k,
    {
        let event = events[k];
        if check_interaction(event.pdi_translation(), event.facing_direction(), translation) {
            return true;
        }
        k += 1;
    }
    false
}

/// Matches the interaction events of this frame against the interactable
/// entities, each given by position and identity, and returns the identities
/// of those to mark as interacted with.
pub fn manage_interaction_events(events: &[InteractionEvent], interactables: &[(Position, u32)]) -> (marked: Vec<
    u32,
>)
    ensures
        marked@ == interacted_with(events@, interactables@),
{
    let ghost keep = |e: (Position, u32)| reached_by_any(events@, e.0);
    let ghost id = |e: (Position, u32)| e.1;
    let mut marked: Vec<u32> = Vec::new();
    let mut i: usize = 0;
    proof {
        lemma_select_empty(keep, id);
        assert(interactables@.take(0) =~= Seq::empty());
    }
    while i < interactables.len()
        invariant
            i <= interactables.len(),
            keep == |e: (Position, u32)| reached_by_any(events@, e.0),
            id == |e: (Position, u32)| e.1,
            marked@ == interactables@.take(i as int).filter(keep).map_values(id),
        decreases interactables.len() - i,
    {
        let (translation, entity) = interactables[i];
        proof {
            lemma_select_push(interactables@.take(i as int), interactables@[i as int], keep, id);
            assert(interactables@.take(i as int + 1) =~= interactables@.take(i as int).push(interactables@[i as int]));
        }
        if reached(events, translation) {
            marked.push(entity);
        }
        i += 1;
    }
    proof {
        assert(interactables@.take(interactables@.len() as int) =~= interactables@);
    }
    marked
}

} // verus!
