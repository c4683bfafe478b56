use vstd::prelude::*;

verus! {

/// The encoder direction is either `Clockwise`, `CounterClockwise`, or
/// `NoMovement`.
#[derive(Clone, Copy, Debug, PartialEq, Eq, Structural)]
pub enum Direction {
    /// A clockwise turn
    Clockwise,
    /// A counterclockwise turn
    CounterClockwise,
    /// No change
    NoMovement,
}

impl Direction {
    /// The opposite turn; no movement is its own opposite.
    pub open spec fn mirror(self) -> Direction {
        match self {
            Direction::Clockwise => Direction::CounterClockwise,
            Direction::CounterClockwise => Direction::Clockwise,
            Direction::NoMovement => Direction::NoMovement,
        }
    }
}

} // verus!
