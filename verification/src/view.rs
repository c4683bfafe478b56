use vstd::prelude::*;

verus! {

/// What a decoder holds: its two inputs, its history byte and its phase.
pub struct RotaryView<A, B, P> {
    /// The input of channel A.
    pub pin_a: A,
    /// The input of channel B.
    pub pin_b: B,
    /// The history byte, zero in a new decoder.
    pub history: u8,
    /// The phase that classifies the history.
    pub phase: P,
}

} // verus!
