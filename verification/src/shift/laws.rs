//! What holds of the shift-register decoder with its default phase, over
//! single updates and over whole runs.

use vstd::prelude::*;
use crate::direction::Direction;
use crate::quadrature::{exchanged, is_rotation, pair_code, sample_of, turn, turn_at};
use crate::quadrature::{turn_backwards_is_mirror, turn_exchanged_is_mirror};
use crate::phase::Phase;
use crate::shift::{classify, window, DefaultPhase};

verus! {

/// One update with the default phase on a sample of the two "is low" reads:
/// the direction it reports and the history it leaves.
pub open spec fn step(history: u8, sample: (bool, bool)) -> (Direction, u8) {
    (classify(window(history, sample.0, sample.1)), pair_code(sample.0, sample.1))
}

/// Whether `histories` and `directions` are what a decoder with the default
/// phase goes through on `samples`, one update per sample, when its history
/// is `start` before the first: `histories[i]` is the history before update
/// `i`, `directions[i]` what that update reports.
pub open spec fn is_run(
    start: u8,
    samples: Seq<(bool, bool)>,
    histories: Seq<u8>,
    directions: Seq<Direction>,
) -> bool {
    &&& histories.len() == samples.len() + 1
    &&& directions.len() == samples.len()
    &&& histories[0] == start
    &&& forall|i: int|
        0 <= i < samples.len() ==> (directions[i], histories[i + 1]) == step(
            histories[i],
            #[trigger] samples[i],
        )
}

/// On two good reads, what `update` ensures of a decoder with the default
/// phase is `step`: `before` and `after` are the history around the call and
/// `d` the direction that it returns.
pub proof fn update_is_step(
    before: u8,
    after: u8,
    phase: DefaultPhase,
    phase_after: DefaultPhase,
    sample: (bool, bool),
    d: Direction,
)
    requires
        phase.decides(window(before, sample.0, sample.1), d, &phase_after),
        after == pair_code(sample.0, sample.1),
    ensures
        (d, after) == step(before, sample),
{
}

/// Every value is classified, as exactly one of the three directions: the two
/// sets of four values that stand for a turn have no value in common, and
/// none of them is above 15.
pub proof fn classify_is_total(s: u8)
    ensures
        classify(s) == Direction::Clockwise <==> (s == 0b0001 || s == 0b0111 || s == 0b1000 || s
            == 0b1110),
        classify(s) == Direction::CounterClockwise <==> (s == 0b0010 || s == 0b0100 || s == 0b1011
            || s == 0b1101),
        classify(s) == Direction::NoMovement <==> !(s == 0b0001 || s == 0b0111 || s == 0b1000 || s
            == 0b1110 || s == 0b0010 || s == 0b0100 || s == 0b1011 || s == 0b1101),
        s > 15 ==> classify(s) == Direction::NoMovement,
{
}

/// The default phase reports the turn from the previous sample, which the
/// history holds, to the new one: a direction for each single step, and no
/// movement for a repeated sample and for a change of both channels at once.
pub proof fn step_reports_turn(history: u8, sample: (bool, bool))
    ensures
        step(history, sample).0 == turn(sample_of(history), sample),
        sample_of(step(history, sample).1) == sample,
        step(history, sample).1 < 4,
{
}

/// In a run, every update but the first reports the turn from the sample
/// before it to its own, whatever the history was at the start.
pub proof fn run_reports_turns(
    start: u8,
    samples: Seq<(bool, bool)>,
    histories: Seq<u8>,
    directions: Seq<Direction>,
    i: int,
)
    requires
        is_run(start, samples, histories, directions),
        0 <= i < samples.len(),
    ensures
        i == 0 ==> directions[i] == turn(sample_of(start), samples[i]),
        i > 0 ==> directions[i] == turn(samples[i - 1], samples[i]),
{
    step_reports_turn(histories[i], samples[i]);
    if i > 0 {
        step_reports_turn(histories[i - 1], samples[i - 1]);
    }
}

/// A run that is cut short is a run on the samples up to the cut: what was
/// reported before a failed read is what is reported without it.
pub proof fn run_cut_short_is_run(
    start: u8,
    samples: Seq<(bool, bool)>,
    histories: Seq<u8>,
    directions: Seq<Direction>,
    n: int,
)
    requires
        is_run(start, samples, histories, directions),
        0 <= n <= samples.len(),
    ensures
        is_run(start, samples.take(n), histories.take(n + 1), directions.take(n)),
{
    let cut = samples.take(n);
    assert forall|i: int| 0 <= i < cut.len() implies (
        directions.take(n)[i],
        histories.take(n + 1)[i + 1],
    ) == step(histories.take(n + 1)[i], #[trigger] cut[i]) by {
        assert(cut[i] == samples[i]);
    }
}

/// The samples determine the run: two runs on the same samples from the same
/// history report the same directions and go through the same histories.
pub proof fn runs_agree(
    start: u8,
    samples: Seq<(bool, bool)>,
    histories: Seq<u8>,
    directions: Seq<Direction>,
    other_histories: Seq<u8>,
    other_directions: Seq<Direction>,
)
    requires
        is_run(start, samples, histories, directions),
        is_run(start, samples, other_histories, other_directions),
    ensures
        directions == other_directions,
        histories == other_histories,
{
    assert forall|i: int| 0 <= i < histories.len() implies histories[i] == other_histories[i] by {
        if i > 0 {
            let _ = samples[i - 1];
        }
    }
    assert(histories =~= other_histories);
    assert forall|i: int| 0 <= i < directions.len() implies directions[i]
        == other_directions[i] by {
        let _ = samples[i];
    }
    assert(directions =~= other_directions);
}

/// On the samples taken backwards, every update but the first reports the
/// opposite of what the run forwards reported for the same change: update `j`
/// backwards mirrors update `len - j` forwards.
pub proof fn reversed_run_mirrors(
    start: u8,
    samples: Seq<(bool, bool)>,
    histories: Seq<u8>,
    directions: Seq<Direction>,
    back_start: u8,
    back_histories: Seq<u8>,
    back_directions: Seq<Direction>,
    j: int,
)
    requires
        is_run(start, samples, histories, directions),
        is_run(back_start, samples.reverse(), back_histories, back_directions),
        1 <= j < samples.len(),
    ensures
        back_directions[j] == directions[samples.len() - j].mirror(),
{
    let n = samples.len() as int;
    let back = samples.reverse();
    assert(back.len() == n);
    assert(back[j] == samples[n - 1 - j]);
    assert(back[j - 1] == samples[n - j]);
    run_reports_turns(back_start, back, back_histories, back_directions, j);
    run_reports_turns(start, samples, histories, directions, n - j);
    turn_backwards_is_mirror(samples[n - j - 1], samples[n - j]);
}

/// A steady rotation is reported as such: after the first update, every
/// update reports the direction of the rotation.
pub proof fn rotation_is_reported(
    start: u8,
    samples: Seq<(bool, bool)>,
    way: Direction,
    histories: Seq<u8>,
    directions: Seq<Direction>,
    i: int,
)
    requires
        is_rotation(samples, way),
        is_run(start, samples, histories, directions),
        1 <= i < samples.len(),
    ensures
        directions[i] == way,
{
    run_reports_turns(start, samples, histories, directions, i);
    assert(turn_at(samples, i - 1) == way);
}

/// Samples that were reported as a turn one way throughout are reported,
/// taken backwards, as a turn the other way throughout; the first update of
/// either run, which depends on the history at the start, is left aside.
pub proof fn reversed_rotation_mirrors(
    start: u8,
    samples: Seq<(bool, bool)>,
    way: Direction,
    histories: Seq<u8>,
    directions: Seq<Direction>,
    back_start: u8,
    back_histories: Seq<u8>,
    back_directions: Seq<Direction>,
)
    requires
        is_run(start, samples, histories, directions),
        is_run(back_start, samples.reverse(), back_histories, back_directions),
        forall|i: int| 1 <= i < samples.len() ==> directions[i] == way,
    ensures
        forall|j: int| 1 <= j < samples.len() ==> back_directions[j] == way.mirror(),
{
    assert forall|j: int| 1 <= j < samples.len() implies back_directions[j] == way.mirror() by {
        reversed_run_mirrors(
            start,
            samples,
            histories,
            directions,
            back_start,
            back_histories,
            back_directions,
            j,
        );
    }
}

/// With the two channels exchanged, from a history that holds the exchanged
/// sample, every update reports the opposite direction.
pub proof fn exchanged_run_mirrors(
    start: u8,
    samples: Seq<(bool, bool)>,
    histories: Seq<u8>,
    directions: Seq<Direction>,
    other_start: u8,
    other_histories: Seq<u8>,
    other_directions: Seq<Direction>,
    i: int,
)
    requires
        is_run(start, samples, histories, directions),
        is_run(
            other_start,
            samples.map_values(|s: (bool, bool)| exchanged(s)),
            other_histories,
            other_directions,
        ),
        sample_of(other_start) == exchanged(sample_of(start)),
        0 <= i < samples.len(),
    ensures
        other_directions[i] == directions[i].mirror(),
{
    let other = samples.map_values(|s: (bool, bool)| exchanged(s));
    assert(other[i] == exchanged(samples[i]));
    run_reports_turns(start, samples, histories, directions, i);
    run_reports_turns(other_start, other, other_histories, other_directions, i);
    if i == 0 {
        turn_exchanged_is_mirror(sample_of(start), samples[i]);
    } else {
        assert(other[i - 1] == exchanged(samples[i - 1]));
        turn_exchanged_is_mirror(samples[i - 1], samples[i]);
    }
}

} // verus!
