use vstd::prelude::*;
use crate::direction::Direction;

verus! {

/// The two-bit code of one sample of the two channels: bit 0 is set when
/// channel A is active, bit 1 when channel B is.
pub open spec fn pair_code(a: bool, b: bool) -> u8 {
    if a {
        if b { 3 } else { 1 }
    } else {
        if b { 2 } else { 0 }
    }
}

/// The sample that a two-bit code stands for; only the low two bits of `code`
/// count.
pub open spec fn sample_of(code: u8) -> (bool, bool) {
    (code % 2 == 1, (code / 2) % 2 == 1)
}

/// Whether exactly one of the two channels differs between two samples.
pub open spec fn single_step(from: (bool, bool), to: (bool, bool)) -> bool {
    (from.0 != to.0) != (from.1 != to.1)
}

/// The turn that a change from one sample to the next stands for: a single
/// step is clockwise when channel A comes to the level that channel B had,
/// and counterclockwise otherwise. A repeated sample and a change of both
/// channels at once are no movement.
pub open spec fn turn(from: (bool, bool), to: (bool, bool)) -> Direction {
    if !single_step(from, to) {
        Direction::NoMovement
    } else if to.0 == from.1 {
        Direction::Clockwise
    } else {
        Direction::CounterClockwise
    }
}

/// A sample with its two channels exchanged.
pub open spec fn exchanged(sample: (bool, bool)) -> (bool, bool) {
    (sample.1, sample.0)
}

/// A sample with both levels inverted.
pub open spec fn inverted(sample: (bool, bool)) -> (bool, bool) {
    (!sample.0, !sample.1)
}

/// The turn from sample `i` of a sequence to the next.
pub open spec fn turn_at(samples: Seq<(bool, bool)>, i: int) -> Direction {
    turn(samples[i], samples[i + 1])
}

/// Whether a sequence of samples is a steady rotation: every sample is one
/// single step in direction `way` from the sample before it.
pub open spec fn is_rotation(samples: Seq<(bool, bool)>, way: Direction) -> bool {
    &&& way != Direction::NoMovement
    &&& forall|i: int| 0 <= i < samples.len() - 1 ==> #[trigger] turn_at(samples, i) == way
}

/// A code and the sample it stands for determine each other.
pub proof fn sample_of_pair_code(a: bool, b: bool, code: u8)
    ensures
        sample_of(pair_code(a, b)) == (a, b),
        pair_code(sample_of(code).0, sample_of(code).1) == code % 4,
{
}

/// A change taken backwards is the opposite turn.
pub proof fn turn_backwards_is_mirror(from: (bool, bool), to: (bool, bool))
    ensures
        turn(to, from) == turn(from, to).mirror(),
{
}

/// With the two channels exchanged, every change is the opposite turn.
pub proof fn turn_exchanged_is_mirror(from: (bool, bool), to: (bool, bool))
    ensures
        turn(exchanged(from), exchanged(to)) == turn(from, to).mirror(),
{
}

/// A turn does not depend on the polarity in which the levels are read.
pub proof fn turn_ignores_polarity(from: (bool, bool), to: (bool, bool))
    ensures
        turn(inverted(from), inverted(to)) == turn(from, to),
{
}

/// A steady rotation taken backwards is a steady rotation the other way.
pub proof fn rotation_backwards_is_mirror(samples: Seq<(bool, bool)>, way: Direction)
    requires
        is_rotation(samples, way),
    ensures
        is_rotation(samples.reverse(), way.mirror()),
{
    let n = samples.len() as int;
    let back = samples.reverse();
    assert forall|j: int| 0 <= j < back.len() - 1 implies #[trigger] turn_at(back, j)
        == way.mirror() by {
        assert(back[j] == samples[n - 1 - j]);
        assert(back[j + 1] == samples[n - 2 - j]);
        assert(turn_at(samples, n - 2 - j) == way);
        turn_backwards_is_mirror(samples[n - 2 - j], samples[n - 1 - j]);
    }
}

} // verus!
