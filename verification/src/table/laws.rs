//! What holds of the table decoder with its default phase, over single
//! updates and over whole runs.

use vstd::prelude::*;
use crate::direction::Direction;
use crate::quadrature::{exchanged, is_rotation, sample_of, single_step, turn, turn_at};
use crate::quadrature::rotation_backwards_is_mirror;
use crate::phase::Phase;
use crate::table::{classify, is_step, keyed, settled, transition, DefaultPhase};

verus! {

/// One update with the default phase on a sample of the two "is high" reads:
/// the direction it reports and the history it leaves.
pub open spec fn step(history: u8, sample: (bool, bool)) -> (Direction, u8) {
    let t = transition(history, sample.0, sample.1);
    if is_step(t) {
        (classify(keyed(history, t)), settled(t))
    } else {
        (Direction::NoMovement, keyed(history, t))
    }
}

/// Whether `histories` and `directions` are what a decoder with the default
/// phase goes through on `samples`, one update per sample, when its history
/// is `start` before the first: `histories[i]` is the history before update
/// `i`, `directions[i]` what that update reports.
pub open spec fn is_run(
    start: u8,
    samples: Seq<(bool, bool)>,
    histories: Seq<u8>,
    directions: Seq<Direction>,
) -> bool {
    &&& histories.len() == samples.len() + 1
    &&& directions.len() == samples.len()
    &&& histories[0] == start
    &&& forall|i: int|
        0 <= i < samples.len() ==> (directions[i], histories[i + 1]) == step(
            histories[i],
            #[trigger] samples[i],
        )
}

/// On two good reads, what `update` ensures of a decoder with the default
/// phase is `step`: `before` and `after` are the history around the call and
/// `d` the direction that it returns.
pub proof fn update_is_step(
    before: u8,
    after: u8,
    phase: DefaultPhase,
    phase_after: DefaultPhase,
    sample: (bool, bool),
    d: Direction,
)
    requires
        ({
            let t = transition(before, sample.0, sample.1);
            &&& is_step(t) ==> phase.decides(keyed(before, t), d, &phase_after) && after == settled(
                t,
            )
            &&& !is_step(t) ==> d == Direction::NoMovement && after == keyed(before, t)
        }),
    ensures
        (d, after) == step(before, sample),
{
}

/// The sample that the history holds as the latest.
pub open spec fn latest(history: u8) -> (bool, bool) {
    sample_of(history)
}

/// The last single step that the history holds, as the sample it left and the
/// sample it reached. In a new decoder both are "both channels low", which is
/// no step.
pub open spec fn last_step(history: u8) -> ((bool, bool), (bool, bool)) {
    (sample_of(history / 64), sample_of(history / 16))
}

/// Every byte is classified, as exactly one of the three directions.
pub proof fn classify_is_total(s: u8)
    ensures
        classify(s) == Direction::CounterClockwise <==> s == 0x17,
        classify(s) == Direction::Clockwise <==> s == 0x2b,
        classify(s) == Direction::NoMovement <==> (s != 0x17 && s != 0x2b),
{
}

/// The table of single steps holds exactly the changes of one channel from
/// the latest sample, and the code of a change fits in four bits.
pub proof fn table_holds_single_steps(history: u8, sample: (bool, bool))
    ensures
        is_step(transition(history, sample.0, sample.1)) <==> single_step(latest(history), sample),
        transition(history, sample.0, sample.1) < 16,
{
}

/// After every update the history holds the sample just taken as the latest,
/// whether the change was a single step or not.
pub proof fn history_follows_sample(history: u8, sample: (bool, bool))
    ensures
        latest(step(history, sample).1) == sample,
{
}

/// After a single step the history holds that step as the last one.
pub proof fn single_step_is_kept(history: u8, sample: (bool, bool))
    requires
        single_step(latest(history), sample),
    ensures
        last_step(step(history, sample).1) == (latest(history), sample),
{
}

/// A repeated sample and a change of both channels at once are dropped: no
/// movement is reported, the last single step stays in the history, and the
/// sample is taken as the latest, so that the next change is measured from
/// it.
pub proof fn bounce_is_dropped(history: u8, sample: (bool, bool))
    requires
        !single_step(latest(history), sample),
    ensures
        step(history, sample).0 == Direction::NoMovement,
        step(history, sample).1 / 16 == history / 16,
        last_step(step(history, sample).1) == last_step(history),
        latest(step(history, sample).1) == sample,
{
}

/// A bounce away and back leaves no trace: when a dropped change is followed
/// by the sample that the history held before it, the decoder goes on as if
/// neither had been taken.
pub proof fn bounce_and_return_leaves_no_trace(
    history: u8,
    bounce: (bool, bool),
    next: (bool, bool),
)
    requires
        !single_step(latest(history), bounce),
    ensures
        ({
            let away = step(history, bounce);
            let back = step(away.1, latest(history));
            &&& away.0 == Direction::NoMovement
            &&& back.0 == Direction::NoMovement
            &&& step(back.1, next) == step(history, next)
        }),
{
}

/// The default phase reports a turn on the second of two single steps one
/// way that ends with both channels high, and on nothing else: the last
/// single step must have reached the latest sample, and the new sample must
/// be one more step the same way.
pub proof fn step_reports_detent(history: u8, sample: (bool, bool))
    ensures
        step(history, sample).0 == ({
            let (from, to) = last_step(history);
            if single_step(from, to) && to == latest(history) && turn(to, sample) == turn(from, to)
                && sample == (true, true) {
                turn(to, sample)
            } else {
                Direction::NoMovement
            }
        }),
{
}

/// Two runs on the same samples from the same history have gone through the
/// same histories up to update `i`.
proof fn histories_agree(
    start: u8,
    samples: Seq<(bool, bool)>,
    histories: Seq<u8>,
    directions: Seq<Direction>,
    other_histories: Seq<u8>,
    other_directions: Seq<Direction>,
    i: int,
)
    requires
        is_run(start, samples, histories, directions),
        is_run(start, samples, other_histories, other_directions),
        0 <= i <= samples.len(),
    ensures
        histories[i] == other_histories[i],
    decreases i,
{
    if i > 0 {
        histories_agree(
            start,
            samples,
            histories,
            directions,
            other_histories,
            other_directions,
            i - 1,
        );
        let _ = samples[i - 1];
    }
}

/// A run that is cut short is a run on the samples up to the cut: what was
/// reported before a failed read is what is reported without it.
pub proof fn run_cut_short_is_run(
    start: u8,
    samples: Seq<(bool, bool)>,
    histories: Seq<u8>,
    directions: Seq<Direction>,
    n: int,
)
    requires
        is_run(start, samples, histories, directions),
        0 <= n <= samples.len(),
    ensures
        is_run(start, samples.take(n), histories.take(n + 1), directions.take(n)),
{
    let cut = samples.take(n);
    assert forall|i: int| 0 <= i < cut.len() implies (
        directions.take(n)[i],
        histories.take(n + 1)[i + 1],
    ) == step(histories.take(n + 1)[i], #[trigger] cut[i]) by {
        assert(cut[i] == samples[i]);
    }
}

/// The samples determine the run: two runs on the same samples from the same
/// history report the same directions and go through the same histories.
pub proof fn runs_agree(
    start: u8,
    samples: Seq<(bool, bool)>,
    histories: Seq<u8>,
    directions: Seq<Direction>,
    other_histories: Seq<u8>,
    other_directions: Seq<Direction>,
)
    requires
        is_run(start, samples, histories, directions),
        is_run(start, samples, other_histories, other_directions),
    ensures
        directions == other_directions,
        histories == other_histories,
{
    assert forall|i: int| 0 <= i < histories.len() implies histories[i] == other_histories[i] by {
        histories_agree(
            start,
            samples,
            histories,
            directions,
            other_histories,
            other_directions,
            i,
        );
    }
    assert(histories =~= other_histories);
    assert forall|i: int| 0 <= i < directions.len() implies directions[i]
        == other_directions[i] by {
        let _ = samples[i];
    }
    assert(directions =~= other_directions);
}

/// In a steady rotation one event is reported per detent: from the third
/// update on, an update reports the direction of the rotation when its sample
/// has both channels high, and no movement otherwise, whatever the history
/// was at the start.
pub proof fn rotation_reports_detents(
    start: u8,
    samples: Seq<(bool, bool)>,
    way: Direction,
    histories: Seq<u8>,
    directions: Seq<Direction>,
    i: int,
)
    requires
        is_rotation(samples, way),
        is_run(start, samples, histories, directions),
        2 <= i < samples.len(),
    ensures
        directions[i] == if samples[i] == (true, true) {
            way
        } else {
            Direction::NoMovement
        },
{
    let before = samples[i - 2];
    let from = samples[i - 1];
    let to = samples[i];
    assert(turn_at(samples, i - 2) == way);
    assert(turn_at(samples, i - 1) == way);
    history_follows_sample(histories[i - 2], before);
    single_step_is_kept(histories[i - 1], from);
    history_follows_sample(histories[i - 1], from);
    step_reports_detent(histories[i], to);
}

/// In a steady rotation that a new decoder takes, every update reports the
/// direction of the rotation when its sample has both channels high, but for
/// the first update, and no movement otherwise.
pub proof fn rotation_reports_detents_from_new(
    samples: Seq<(bool, bool)>,
    way: Direction,
    histories: Seq<u8>,
    directions: Seq<Direction>,
    i: int,
)
    requires
        is_rotation(samples, way),
        is_run(0, samples, histories, directions),
        0 <= i < samples.len(),
    ensures
        directions[i] == if i >= 1 && samples[i] == (true, true) {
            way
        } else {
            Direction::NoMovement
        },
{
    if i >= 2 {
        rotation_reports_detents(0, samples, way, histories, directions, i);
    } else if i == 1 {
        assert(turn_at(samples, 0) == way);
        history_follows_sample(0, samples[0]);
        table_holds_single_steps(0, samples[0]);
        if single_step(latest(0), samples[0]) {
            single_step_is_kept(0, samples[0]);
        } else {
            bounce_is_dropped(0, samples[0]);
        }
        step_reports_detent(histories[1], samples[1]);
    } else {
        step_reports_detent(0, samples[0]);
    }
}

/// A steady rotation taken backwards is reported as the steady rotation the
/// other way, detent for detent: away from the two ends of the run, the
/// update that takes a sample backwards reports the opposite of what the
/// update that took it forwards reported, whatever the histories were at the
/// start.
pub proof fn reversed_rotation_mirrors_midway(
    start: u8,
    samples: Seq<(bool, bool)>,
    way: Direction,
    histories: Seq<u8>,
    directions: Seq<Direction>,
    back_start: u8,
    back_histories: Seq<u8>,
    back_directions: Seq<Direction>,
    i: int,
)
    requires
        is_rotation(samples, way),
        is_run(start, samples, histories, directions),
        is_run(back_start, samples.reverse(), back_histories, back_directions),
        2 <= i < samples.len() - 2,
    ensures
        back_directions[samples.len() - 1 - i] == directions[i].mirror(),
{
    let n = samples.len() as int;
    let back = samples.reverse();
    assert(back.len() == n);
    assert(back[n - 1 - i] == samples[i]);
    rotation_backwards_is_mirror(samples, way);
    rotation_reports_detents(start, samples, way, histories, directions, i);
    rotation_reports_detents(
        back_start,
        back,
        way.mirror(),
        back_histories,
        back_directions,
        n - 1 - i,
    );
}

/// A steady rotation that a new decoder takes is reported, when another new
/// decoder takes it backwards, as the steady rotation the other way, detent
/// for detent: the update that takes a sample backwards reports the opposite
/// of what the update that took it forwards reported. A detent at either end
/// of the run is left out: the run that starts on it cannot report it.
pub proof fn reversed_rotation_mirrors(
    samples: Seq<(bool, bool)>,
    way: Direction,
    histories: Seq<u8>,
    directions: Seq<Direction>,
    back_histories: Seq<u8>,
    back_directions: Seq<Direction>,
    i: int,
)
    requires
        is_rotation(samples, way),
        is_run(0, samples, histories, directions),
        is_run(0, samples.reverse(), back_histories, back_directions),
        0 <= i < samples.len(),
        samples.len() >= 2 && (i == 0 || i == samples.len() - 1) ==> samples[i] != (true, true),
    ensures
        back_directions[samples.len() - 1 - i] == directions[i].mirror(),
{
    let n = samples.len() as int;
    let back = samples.reverse();
    assert(back.len() == n);
    assert(back[n - 1 - i] == samples[i]);
    rotation_backwards_is_mirror(samples, way);
    rotation_reports_detents_from_new(samples, way, histories, directions, i);
    rotation_reports_detents_from_new(
        back,
        way.mirror(),
        back_histories,
        back_directions,
        n - 1 - i,
    );
}

/// A detent at the end of a rotation has no mirror: the run that ends on it
/// reports it, and the run backwards, which starts on it, reports nothing
/// there.
pub proof fn detent_at_the_end_has_no_mirror(
    samples: Seq<(bool, bool)>,
    way: Direction,
    histories: Seq<u8>,
    directions: Seq<Direction>,
    back_histories: Seq<u8>,
    back_directions: Seq<Direction>,
)
    requires
        is_rotation(samples, way),
        is_run(0, samples, histories, directions),
        is_run(0, samples.reverse(), back_histories, back_directions),
        samples.len() >= 2,
        samples.last() == (true, true),
    ensures
        directions.last() == way,
        back_directions[0] == Direction::NoMovement,
{
    let n = samples.len() as int;
    let back = samples.reverse();
    assert(back.len() == n);
    rotation_backwards_is_mirror(samples, way);
    rotation_reports_detents_from_new(samples, way, histories, directions, n - 1);
    rotation_reports_detents_from_new(back, way.mirror(), back_histories, back_directions, 0);
}

/// Whether one history holds what the other holds with the two channels
/// exchanged: the latest sample and the last single step.
pub open spec fn is_exchanged(history: u8, other: u8) -> bool {
    &&& latest(other) == exchanged(latest(history))
    &&& last_step(other) == (exchanged(last_step(history).0), exchanged(last_step(history).1))
}

/// With the two channels exchanged, one update from an exchanged history
/// reports the opposite direction and leaves an exchanged history.
pub proof fn exchanged_step_mirrors(history: u8, other: u8, sample: (bool, bool))
    requires
        is_exchanged(history, other),
    ensures
        step(other, exchanged(sample)).0 == step(history, sample).0.mirror(),
        is_exchanged(step(history, sample).1, step(other, exchanged(sample)).1),
{
    step_reports_detent(history, sample);
    step_reports_detent(other, exchanged(sample));
    history_follows_sample(history, sample);
    history_follows_sample(other, exchanged(sample));
    table_holds_single_steps(history, sample);
    table_holds_single_steps(other, exchanged(sample));
    if single_step(latest(history), sample) {
        single_step_is_kept(history, sample);
        single_step_is_kept(other, exchanged(sample));
    } else {
        bounce_is_dropped(history, sample);
        bounce_is_dropped(other, exchanged(sample));
    }
}

/// Two runs, one on the samples and one on the samples with the channels
/// exchanged, from exchanged histories, are at exchanged histories before
/// update `i`.
proof fn histories_stay_exchanged(
    start: u8,
    samples: Seq<(bool, bool)>,
    histories: Seq<u8>,
    directions: Seq<Direction>,
    other_start: u8,
    other_histories: Seq<u8>,
    other_directions: Seq<Direction>,
    i: int,
)
    requires
        is_run(start, samples, histories, directions),
        is_run(
            other_start,
            samples.map_values(|s: (bool, bool)| exchanged(s)),
            other_histories,
            other_directions,
        ),
        is_exchanged(start, other_start),
        0 <= i <= samples.len(),
    ensures
        is_exchanged(histories[i], other_histories[i]),
    decreases i,
{
    if i > 0 {
        histories_stay_exchanged(
            start,
            samples,
            histories,
            directions,
            other_start,
            other_histories,
            other_directions,
            i - 1,
        );
        let other = samples.map_values(|s: (bool, bool)| exchanged(s));
        assert(other[i - 1] == exchanged(samples[i - 1]));
        exchanged_step_mirrors(histories[i - 1], other_histories[i - 1], samples[i - 1]);
    }
}

/// Two new decoders are at exchanged histories.
pub proof fn new_histories_are_exchanged()
    ensures
        is_exchanged(0, 0),
{
}

/// With the two channels exchanged, from an exchanged history, every update
/// of a run reports the opposite direction.
pub proof fn exchanged_run_mirrors(
    start: u8,
    samples: Seq<(bool, bool)>,
    histories: Seq<u8>,
    directions: Seq<Direction>,
    other_start: u8,
    other_histories: Seq<u8>,
    other_directions: Seq<Direction>,
    i: int,
)
    requires
        is_run(start, samples, histories, directions),
        is_run(
            other_start,
            samples.map_values(|s: (bool, bool)| exchanged(s)),
            other_histories,
            other_directions,
        ),
        is_exchanged(start, other_start),
        0 <= i < samples.len(),
    ensures
        other_directions[i] == directions[i].mirror(),
{
    histories_stay_exchanged(
        start,
        samples,
        histories,
        directions,
        other_start,
        other_histories,
        other_directions,
        i,
    );
    let other = samples.map_values(|s: (bool, bool)| exchanged(s));
    assert(other[i] == exchanged(samples[i]));
    exchanged_step_mirrors(histories[i], other_histories[i], samples[i]);
}

} // verus!
