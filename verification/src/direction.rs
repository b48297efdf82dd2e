//! The directions of travel and of facing, and the quarter turns between them.

use vstd::prelude::*;

verus! {

/// The way the indicator points.
#[derive(Clone, Copy, Debug, PartialEq, Eq, Structural)]
pub enum FacingDirection {
    Up,
    Down,
    Left,
    Right,
}

/// What the mover is committed to: one direction of travel, or none.
#[derive(Clone, Copy, Debug, PartialEq, Eq, Structural)]
pub enum MovementDirection {
    Up,
    Down,
    Left,
    Right,
    Neutral,
}

/// A turn about the mover by a whole number of quarter turns, counter-clockwise.
#[derive(Clone, Copy, Debug, PartialEq, Eq, Structural)]
pub enum Rotation {
    Zero,
    Quarter,
    Half,
    ThreeQuarters,
}

impl FacingDirection {
    /// Quarter turns, counter-clockwise, from pointing up to pointing this way.
    pub open spec fn heading(self) -> int {
        match self {
            FacingDirection::Up => 0,
            FacingDirection::Left => 1,
            FacingDirection::Down => 2,
            FacingDirection::Right => 3,
        }
    }

    /// The commitment to travel this way.
    pub open spec fn as_movement(self) -> MovementDirection {
        match self {
            FacingDirection::Up => MovementDirection::Up,
            FacingDirection::Down => MovementDirection::Down,
            FacingDirection::Left => MovementDirection::Left,
            FacingDirection::Right => MovementDirection::Right,
        }
    }

    /// The commitment to travel this way.
    pub fn to_movement(self) -> (movement: MovementDirection)
        ensures
            movement == self.as_movement(),
    {
        match self {
            FacingDirection::Up => MovementDirection::Up,
            FacingDirection::Down => MovementDirection::Down,
            FacingDirection::Left => MovementDirection::Left,
            FacingDirection::Right => MovementDirection::Right,
        }
    }

    /// The turn that a shape pointing up needs to point this way.
    pub fn rotation_from_up(self) -> (rotation: Rotation)
        ensures
            rotation == Rotation::of_turns(self.heading()),
    {
        match self {
            FacingDirection::Up => Rotation::Zero,
            FacingDirection::Left => Rotation::Quarter,
            FacingDirection::Down => Rotation::Half,
            FacingDirection::Right => Rotation::ThreeQuarters,
        }
    }
}

impl MovementDirection {
    /// The direction of a commitment; none for `Neutral`.
    pub open spec fn as_facing(self) -> Option<FacingDirection> {
        match self {
            MovementDirection::Up => Some(FacingDirection::Up),
            MovementDirection::Down => Some(FacingDirection::Down),
            MovementDirection::Left => Some(FacingDirection::Left),
            MovementDirection::Right => Some(FacingDirection::Right),
            MovementDirection::Neutral => None,
        }
    }

    /// The direction of a commitment; none for `Neutral`.
    pub fn to_facing(self) -> (facing: Option<FacingDirection>)
        ensures
            facing == self.as_facing(),
    {
        match self {
            MovementDirection::Up => Some(FacingDirection::Up),
            MovementDirection::Down => Some(FacingDirection::Down),
            MovementDirection::Left => Some(FacingDirection::Left),
            MovementDirection::Right => Some(FacingDirection::Right),
            MovementDirection::Neutral => None,
        }
    }
}

impl Rotation {
    /// The number of quarter turns, from 0 to 3.
    pub open spec fn quarter_turns(self) -> int {
        match self {
            Rotation::Zero => 0,
            Rotation::Quarter => 1,
            Rotation::Half => 2,
            Rotation::ThreeQuarters => 3,
        }
    }

    /// The turn by `turns` quarter turns; whole turns make no difference.
    pub open spec fn of_turns(turns: int) -> Rotation {
        let rest = turns % 4;
        if rest == 0 {
            Rotation::Zero
        } else if rest == 1 {
            Rotation::Quarter
        } else if rest == 2 {
            Rotation::Half
        } else {
            Rotation::ThreeQuarters
        }
    }

    /// The angle in degrees: 0, 90, 180 or 270.
    pub fn degrees(self) -> (angle: u16)
        ensures
            angle == 90 * self.quarter_turns(),
    {
        match self {
            Rotation::Zero => 0,
            Rotation::Quarter => 90,
            Rotation::Half => 180,
            Rotation::ThreeQuarters => 270,
        }
    }

    /// This turn followed by `next`, as one turn.
    pub fn then_turn(self, next: Rotation) -> (sum: Rotation)
        ensures
            sum == Rotation::of_turns(self.quarter_turns() + next.quarter_turns()),
    {
        match (self, next) {
            (Rotation::Zero, r) => r,
            (r, Rotation::Zero) => r,
            (Rotation::Quarter, Rotation::Quarter) => Rotation::Half,
            (Rotation::Quarter, Rotation::Half) => Rotation::ThreeQuarters,
            (Rotation::Quarter, Rotation::ThreeQuarters) => Rotation::Zero,
            (Rotation::Half, Rotation::Quarter) => Rotation::ThreeQuarters,
            (Rotation::Half, Rotation::Half) => Rotation::Zero,
            (Rotation::Half, Rotation::ThreeQuarters) => Rotation::Quarter,
            (Rotation::ThreeQuarters, Rotation::Quarter) => Rotation::Zero,
            (Rotation::ThreeQuarters, Rotation::Half) => Rotation::Quarter,
            (Rotation::ThreeQuarters, Rotation::ThreeQuarters) => Rotation::Half,
        }
    }
}

/// The quarter turns that carry an indicator facing `from` to facing `to`.
pub open spec fn turns_between(from: FacingDirection, to: FacingDirection) -> int {
    (to.heading() - from.heading()) % 4
}

/// Looks up the turn from one facing to another in the table of the sixteen
/// pairs.
pub fn rotation_between(from: FacingDirection, to: FacingDirection) -> (rotation: Rotation)
    ensures
        rotation == Rotation::of_turns(turns_between(from, to)),
        rotation.quarter_turns() == turns_between(from, to),
{
    match to {
        FacingDirection::Up => match from {
            FacingDirection::Up => Rotation::Zero,
            FacingDirection::Down => Rotation::Half,
            FacingDirection::Left => Rotation::ThreeQuarters,
            FacingDirection::Right => Rotation::Quarter,
        },
        FacingDirection::Down => match from {
            FacingDirection::Up => Rotation::Half,
            FacingDirection::Down => Rotation::Zero,
            FacingDirection::Left => Rotation::Quarter,
            FacingDirection::Right => Rotation::ThreeQuarters,
        },
        FacingDirection::Left => match from {
            FacingDirection::Up => Rotation::Quarter,
            FacingDirection::Down => Rotation::ThreeQuarters,
            FacingDirection::Left => Rotation::Zero,
            FacingDirection::Right => Rotation::Half,
        },
        FacingDirection::Right => match from {
            FacingDirection::Up => Rotation::ThreeQuarters,
            FacingDirection::Down => Rotation::Quarter,
            FacingDirection::Left => Rotation::Half,
            FacingDirection::Right => Rotation::Zero,
        },
    }
}

/// A rotation is the turn by its own number of quarter turns, and of no
/// other number from 0 to 3.
pub proof fn lemma_rotation_by_turns(rotation: Rotation, turns: int)
    ensures
        Rotation::of_turns(rotation.quarter_turns()) == rotation,
        0 <= turns < 4 ==> Rotation::of_turns(turns).quarter_turns() == turns,
        Rotation::of_turns(turns).quarter_turns() == turns % 4,
{
}

/// The table of turns is that of the headings: facing the same way takes no
/// turn, facing another way takes a quarter, a half or three quarters of a
/// turn, and turning from `a` to `b` and on to `c` comes to the turn from `a`
/// to `c`.
pub proof fn lemma_table_of_turns(a: FacingDirection, b: FacingDirection, c: FacingDirection)
    ensures
        0 <= turns_between(a, b) < 4,
        turns_between(a, b) == 0 <==> a == b,
        (turns_between(a, b) + turns_between(b, c)) % 4 == turns_between(a, c),
{
}

} // verus!
