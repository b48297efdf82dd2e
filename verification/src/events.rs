//! The message that an interact key press sends.

use vstd::prelude::*;
use crate::direction::FacingDirection;
use crate::geometry::Position;

verus! {

/// Says where the indicator stood and which way it faced when the interact
/// key went down.
#[derive(Clone, Copy, Debug, PartialEq, Eq, Structural)]
pub struct InteractionEvent {
    pdi_translation: Position,
    facing_direction: FacingDirection,
}

impl InteractionEvent {
    /// The position that the event carries.
    pub closed spec fn position(self) -> Position {
        self.pdi_translation
    }

    /// The facing that the event carries.
    pub closed spec fn facing(self) -> FacingDirection {
        self.facing_direction
    }

    /// The event that carries the given position and facing.
    pub closed spec fn carrying(position: Position, facing: FacingDirection) -> InteractionEvent {
        InteractionEvent { pdi_translation: position, facing_direction: facing }
    }

    pub fn new(pdi_translation: Position, facing_direction: FacingDirection) -> (event: Self)
        ensures
            event == InteractionEvent::carrying(pdi_translation, facing_direction),
            event.position() == pdi_translation,
            event.facing() == facing_direction,
    {
        Self { pdi_translation, facing_direction }
    }

    pub fn pdi_translation(&self) -> (position: Position)
        ensures
            position == self.position(),
    {
        self.pdi_translation
    }

    pub fn facing_direction(&self) -> (facing: FacingDirection)
        ensures
            facing == self.facing(),
    {
        self.facing_direction
    }

    /// An event is fixed by what it carries.
    pub proof fn lemma_carries(self)
        ensures
            self == InteractionEvent::carrying(self.position(), self.facing()),
    {
    }

    /// An event carries what it was made with.
    pub proof fn lemma_carrying(position: Position, facing: FacingDirection)
        ensures
            InteractionEvent::carrying(position, facing).position() == position,
            InteractionEvent::carrying(position, facing).facing() == facing,
    {
    }
}

} // verus!
