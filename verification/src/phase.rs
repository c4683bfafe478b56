use vstd::prelude::*;
use crate::direction::Direction;

verus! {

/// Allows customizing which quadrature phases should be considered movements
/// and in which direction, or ignored.
///
/// A phase may keep state of its own between calls.
pub trait Phase {
    /// Whether a call of `direction` on `s` may return `d` and leave the phase
    /// as `after`. An implementation states here what it promises; by default
    /// it promises nothing.
    open spec fn decides(&self, s: u8, d: Direction, after: &Self) -> bool {
        true
    }

    /// Given the current state `s`, return the direction.
    fn direction(&mut self, s: u8) -> (d: Direction)
        ensures
            old(self).decides(s, d, final(self)),
    ;
}

} // verus!
