use std::cell::RefCell;
use std::rc::Rc;

use either::Either;
use embedded_hal::digital::{Error, ErrorKind, ErrorType, InputPin};
use rotary_encoder_hal::table::{DefaultPhase, Rotary};
use rotary_encoder_hal::{Direction, Phase};

/// The error of an input that has no more levels to give.
#[derive(Clone, Copy, Debug, PartialEq, Eq)]
struct Spent;

impl Error for Spent {
    fn kind(&self) -> ErrorKind {
        ErrorKind::Other
    }
}

struct FakePin<I>(I);

impl<I> ErrorType for FakePin<I> {
    type Error = Spent;
}

impl<I: Iterator<Item = u8>> InputPin for FakePin<I> {
    fn is_high(&mut self) -> Result<bool, Self::Error> {
        if let Some(pd) = self.0.next() {
            return Ok(pd == 1);
        }
        Err(Spent)
    }

    fn is_low(&mut self) -> Result<bool, Self::Error> {
        if let Some(pd) = self.0.next() {
            return Ok(pd == 0);
        }
        Err(Spent)
    }
}

type Pin = FakePin<std::vec::IntoIter<u8>>;

fn pin(levels: &[u8]) -> Pin {
    FakePin(levels.to_vec().into_iter())
}

/// Reads both inputs, then updates, as a polling loop would.
fn sample<P: Phase>(rotary: &mut Rotary<Pin, Pin, P>) -> Result<Direction, Either<Spent, Spent>> {
    let (pin_a, pin_b) = rotary.pins();
    let (a_is_high, b_is_high) = (pin_a.is_high(), pin_b.is_high());
    rotary.update(a_is_high, b_is_high)
}

fn trace(v_a: &[u8], v_b: &[u8]) -> Vec<Direction> {
    assert_eq!(v_a.len(), v_b.len());
    let mut rotary = Rotary::new(pin(v_a), pin(v_b));
    let mut seen = Vec::new();
    for _ in 0..v_a.len() {
        seen.push(sample(&mut rotary).unwrap());
    }
    seen
}

fn run_table(v_a: &[u8], v_b: &[u8], expected: &[Direction]) {
    assert_eq!(expected.len(), v_a.len());
    assert_eq!(expected.len(), v_b.len());

    let mut rotary = Rotary::new(pin(v_a), pin(v_b));
    for (i, &dir) in expected.iter().enumerate() {
        assert_eq!(dir, sample(&mut rotary).unwrap(), "index: {}", i);
    }
}

fn opposite(d: Direction) -> Direction {
    match d {
        Direction::Clockwise => Direction::CounterClockwise,
        Direction::CounterClockwise => Direction::Clockwise,
        Direction::NoMovement => Direction::NoMovement,
    }
}

/// A small generator, the same on every run.
struct Lcg(u32);

impl Lcg {
    fn next(&mut self) -> u32 {
        self.0 = self.0.wrapping_mul(1664525).wrapping_add(1013904223);
        self.0 >> 16
    }

    fn levels(&mut self, len: usize) -> Vec<u8> {
        (0..len).map(|_| (self.next() & 1) as u8).collect()
    }
}

const CCW: Direction = Direction::CounterClockwise;
const CW: Direction = Direction::Clockwise;
const NM: Direction = Direction::NoMovement;

#[test]
fn test_test() {
    run_table(
        &[0, 1, 1, 0, 0, 1, 1, 0, 0],
        &[0, 0, 1, 1, 0, 0, 1, 1, 0],
        &[NM, NM, CCW, NM, NM, NM, CCW, NM, NM],
    );
    run_table(
        &[0, 0, 1, 1, 0, 0, 1, 1, 0],
        &[0, 1, 1, 0, 0, 1, 1, 0, 0],
        &[NM, NM, CW, NM, NM, NM, CW, NM, NM],
    );
    run_table(
        &[0, 1, 0, 1, 1, 0, 0, 1, 1, 0, 0],
        &[0, 0, 0, 0, 1, 1, 0, 0, 1, 1, 0],
        &[NM, NM, NM, NM, CCW, NM, NM, NM, CCW, NM, NM],
    );
    run_table(
        &[0, 0, 0, 0, 1, 1, 0, 0, 1, 1, 0],
        &[0, 1, 0, 1, 1, 0, 0, 1, 1, 0, 0],
        &[NM, NM, NM, NM, CW, NM, NM, NM, CW, NM, NM],
    );
    run_table(
        &[0, 1, 1, 1, 1, 0, 0, 1, 1, 0, 0],
        &[0, 0, 1, 0, 1, 1, 0, 0, 1, 1, 0],
        &[NM, NM, CCW, NM, NM, NM, NM, NM, CCW, NM, NM],
    );
    run_table(
        &[0, 0, 1, 0, 1, 1, 0, 0, 1, 1, 0],
        &[0, 1, 1, 1, 1, 0, 0, 1, 1, 0, 0],
        &[NM, NM, CW, NM, NM, NM, NM, NM, CW, NM, NM],
    );
}

#[test]
fn table_phase_classifies_every_byte() {
    let mut phase = DefaultPhase;
    for s in 0..=255u8 {
        let expected = match s {
            0x17 => CCW,
            0x2b => CW,
            _ => NM,
        };
        assert_eq!(phase.direction(s), expected, "s: {}", s);
    }
}

#[test]
fn single_bit_bounce_reports_two_events() {
    let seen = trace(&[0, 1, 1, 1, 1, 0, 0, 1, 1, 0, 0], &[0, 0, 1, 0, 1, 1, 0, 0, 1, 1, 0]);
    assert_eq!(seen, vec![NM, NM, CCW, NM, NM, NM, NM, NM, CCW, NM, NM]);
    assert_eq!(seen.iter().filter(|&&d| d != NM).count(), 2);
}

#[test]
fn diagonal_change_is_dropped() {
    // both channels at once, between two steps of one turn
    let mut rotary = Rotary::new((), ());
    assert_eq!(rotary.update(Ok::<bool, ()>(true), Ok::<bool, ()>(false)), Ok(NM));
    assert_eq!(rotary.update(Ok::<bool, ()>(false), Ok::<bool, ()>(true)), Ok(NM));
    assert_eq!(rotary.update(Ok::<bool, ()>(true), Ok::<bool, ()>(false)), Ok(NM));
    assert_eq!(rotary.update(Ok::<bool, ()>(true), Ok::<bool, ()>(true)), Ok(CCW));
}

#[test]
fn diagonal_change_is_dropped_whatever_surrounds_it() {
    for seed in 0..200u32 {
        let mut lcg = Lcg(seed);
        let a = lcg.levels(30);
        let b = lcg.levels(30);
        let seen = trace(&a, &b);
        let (mut last_a, mut last_b) = (0u8, 0u8);
        for i in 0..30 {
            if a[i] != last_a && b[i] != last_b {
                assert_eq!(seen[i], NM, "seed: {}, index: {}", seed, i);
            }
            if a[i] == last_a && b[i] == last_b {
                assert_eq!(seen[i], NM, "seed: {}, index: {}", seed, i);
            }
            last_a = a[i];
            last_b = b[i];
        }
    }
}

#[test]
fn bounce_and_return_leaves_no_trace() {
    for seed in 0..200u32 {
        let mut lcg = Lcg(seed);
        let a = lcg.levels(20);
        let b = lcg.levels(20);
        let cut = 1 + (lcg.next() as usize) % 18;
        // after sample cut - 1, jump to the opposite corner and back
        let mut with_a = a[..cut].to_vec();
        let mut with_b = b[..cut].to_vec();
        with_a.push(1 - a[cut - 1]);
        with_b.push(1 - b[cut - 1]);
        with_a.push(a[cut - 1]);
        with_b.push(b[cut - 1]);
        with_a.extend_from_slice(&a[cut..]);
        with_b.extend_from_slice(&b[cut..]);
        let plain = trace(&a, &b);
        let bounced = trace(&with_a, &with_b);
        assert_eq!(&bounced[..cut], &plain[..cut], "seed: {}", seed);
        assert_eq!(&bounced[cut..cut + 2], &[NM, NM], "seed: {}", seed);
        assert_eq!(&bounced[cut + 2..], &plain[cut..], "seed: {}", seed);
    }
}

/// A phase that records what it is asked and answers as the default does.
struct Witness(Rc<RefCell<Vec<u8>>>);

impl Phase for Witness {
    fn direction(&mut self, s: u8) -> Direction {
        self.0.borrow_mut().push(s);
        DefaultPhase.direction(s)
    }
}

#[test]
fn phase_is_asked_on_single_steps_only() {
    let asked = Rc::new(RefCell::new(Vec::new()));
    let mut rotary = Rotary::with_phase((), (), Witness(asked.clone()));
    let samples = [
        (false, false), // repeated: history 0x00
        (true, false),  // step 0b0001: asked 0x01, history 0x11
        (true, false),  // repeated 0b0101: history 0x15
        (true, true),   // step 0b0111: asked 0x17, history 0x77
        (false, false), // diagonal 0b1100: history 0x7c
        (false, true),  // step 0b0010: asked 0x72, history 0x22
        (true, true),   // step 0b1011: asked 0x2b, history 0xbb
    ];
    let mut seen = Vec::new();
    for &(a, b) in samples.iter() {
        seen.push(rotary.update(Ok::<bool, ()>(a), Ok::<bool, ()>(b)).unwrap());
    }
    assert_eq!(seen, vec![NM, NM, NM, CCW, NM, NM, CW]);
    assert_eq!(*asked.borrow(), vec![0x01, 0x17, 0x72, 0x2b]);
}

#[test]
fn phase_is_not_asked_after_a_failed_high_read() {
    let asked = Rc::new(RefCell::new(Vec::new()));
    let mut rotary = Rotary::with_phase((), (), Witness(asked.clone()));
    assert_eq!(rotary.update(Err::<bool, u8>(1), Ok::<bool, u8>(true)), Err(Either::Left(1)));
    assert_eq!(rotary.update(Ok::<bool, u8>(true), Err::<bool, u8>(2)), Err(Either::Right(2)));
    assert_eq!(rotary.update(Err::<bool, u8>(3), Err::<bool, u8>(4)), Err(Either::Left(3)));
    assert!(asked.borrow().is_empty());
    assert_eq!(rotary.update(Ok::<bool, u8>(true), Ok::<bool, u8>(false)), Ok(NM));
    assert_eq!(*asked.borrow(), vec![0x01]);
}

#[test]
fn table_runs_report_the_same_every_time() {
    for seed in 0..50u32 {
        let mut lcg = Lcg(seed);
        let a = lcg.levels(40);
        let b = lcg.levels(40);
        assert_eq!(trace(&a, &b), trace(&a, &b), "seed: {}", seed);
    }
}

#[test]
fn table_exchanged_channels_report_the_mirror() {
    for seed in 0..200u32 {
        let mut lcg = Lcg(seed);
        let a = lcg.levels(40);
        let b = lcg.levels(40);
        let plain = trace(&a, &b);
        let exchanged = trace(&b, &a);
        for i in 0..40 {
            assert_eq!(exchanged[i], opposite(plain[i]), "seed: {}, index: {}", seed, i);
        }
    }
}

/// The levels of `len` samples of a steady counterclockwise rotation that
/// starts at place `from` of the cycle, where place 0 has both channels low.
fn rotation(from: usize, len: usize) -> (Vec<u8>, Vec<u8>) {
    let a: [u8; 4] = [0, 1, 1, 0];
    let b: [u8; 4] = [0, 0, 1, 1];
    (
        (0..len).map(|i| a[(from + i) % 4]).collect(),
        (0..len).map(|i| b[(from + i) % 4]).collect(),
    )
}

#[test]
fn rotation_reports_one_event_per_detent() {
    for from in 0..4 {
        let (a, b) = rotation(from, 21);
        let seen = trace(&a, &b);
        for i in 0..21 {
            let expected = if i >= 1 && a[i] == 1 && b[i] == 1 { CCW } else { NM };
            assert_eq!(seen[i], expected, "from: {}, index: {}", from, i);
        }
        let seen = trace(&b, &a);
        for i in 0..21 {
            let expected = if i >= 1 && a[i] == 1 && b[i] == 1 { CW } else { NM };
            assert_eq!(seen[i], expected, "from: {}, index: {}", from, i);
        }
    }
}

#[test]
fn table_reversed_rotation_is_the_rotation_the_other_way() {
    for from in 0..4 {
        for len in 1..30 {
            let (a, b) = rotation(from, len);
            let forwards = trace(&a, &b);
            let mut back_a = a.clone();
            let mut back_b = b.clone();
            back_a.reverse();
            back_b.reverse();
            let backwards = trace(&back_a, &back_b);
            for i in 0..len {
                let at_an_end = len >= 2 && (i == 0 || i == len - 1);
                if at_an_end && a[i] == 1 && b[i] == 1 {
                    assert_ne!(
                        backwards[len - 1 - i],
                        opposite(forwards[i]),
                        "from: {}, len: {}, index: {}",
                        from,
                        len,
                        i
                    );
                } else {
                    assert_eq!(
                        backwards[len - 1 - i],
                        opposite(forwards[i]),
                        "from: {}, len: {}, index: {}",
                        from,
                        len,
                        i
                    );
                }
            }
        }
    }
}

#[test]
fn detent_at_the_end_of_a_run_has_no_mirror() {
    // forwards the run ends on the detent and reports it; backwards it starts
    // there, where a new decoder has seen no step yet
    assert_eq!(trace(&[0, 1, 1], &[0, 0, 1]), vec![NM, NM, CCW]);
    assert_eq!(trace(&[1, 1, 0], &[1, 0, 0]), vec![NM, NM, NM]);
}

#[test]
fn table_exhausted_input_a_fails_as_left() {
    let a: [u8; 2] = [0, 1];
    let b: [u8; 3] = [0, 0, 1];
    let mut rotary = Rotary::new(pin(&a), pin(&b));
    assert_eq!(sample(&mut rotary), Ok(NM));
    assert_eq!(sample(&mut rotary), Ok(NM));
    assert_eq!(sample(&mut rotary), Err(Either::Left(Spent)));
}

#[test]
fn table_exhausted_input_b_fails_as_right() {
    let a: [u8; 3] = [0, 1, 1];
    let b: [u8; 2] = [0, 0];
    let mut rotary = Rotary::new(pin(&a), pin(&b));
    assert_eq!(sample(&mut rotary), Ok(NM));
    assert_eq!(sample(&mut rotary), Ok(NM));
    assert_eq!(sample(&mut rotary), Err(Either::Right(Spent)));
}

#[test]
fn table_failed_update_leaves_the_history() {
    let samples = [(true, false), (true, true), (false, true), (false, false), (false, true)];
    let mut plain = Rotary::new((), ());
    let mut failing = Rotary::new((), ());
    let mut seen = Vec::new();
    for (i, &(a, b)) in samples.iter().enumerate() {
        assert_eq!(
            failing.update(Err::<bool, u8>(1), Ok::<bool, u8>(!b)),
            Err(Either::Left(1)),
            "index: {}",
            i
        );
        assert_eq!(
            failing.update(Ok::<bool, u8>(!a), Err::<bool, u8>(2)),
            Err(Either::Right(2)),
            "index: {}",
            i
        );
        let expected = plain.update(Ok::<bool, u8>(a), Ok::<bool, u8>(b));
        assert_eq!(failing.update(Ok::<bool, u8>(a), Ok::<bool, u8>(b)), expected, "index: {}", i);
        seen.push(expected.unwrap());
    }
    assert_eq!(seen, vec![NM, CCW, NM, NM, NM]);
}

#[test]
fn table_calls_before_a_failure_report_as_without_it() {
    let a: [u8; 9] = [0, 1, 1, 0, 0, 1, 1, 0, 0];
    let b: [u8; 9] = [0, 0, 1, 1, 0, 0, 1, 1, 0];
    let whole = trace(&a, &b);
    for n in 0..9 {
        let mut rotary = Rotary::new(pin(&a[..n]), pin(&b));
        for i in 0..n {
            assert_eq!(sample(&mut rotary), Ok(whole[i]), "cut: {}, index: {}", n, i);
        }
        assert_eq!(sample(&mut rotary), Err(Either::Left(Spent)), "cut: {}", n);
    }
}

#[test]
fn table_pins_are_handed_out_and_back() {
    let mut rotary = Rotary::new(1u8, 2u16);
    assert_eq!(*rotary.pin_a(), 1);
    assert_eq!(*rotary.pin_b(), 2);
    *rotary.pin_a() = 10;
    *rotary.pin_b() = 20;
    {
        let (a, b) = rotary.pins();
        assert_eq!((*a, *b), (10, 20));
        *a += 1;
        *b += 1;
    }
    assert_eq!(rotary.update(Ok::<bool, ()>(true), Ok::<bool, ()>(false)), Ok(NM));
    assert_eq!(rotary.into_inner(), (11, 21));
}

#[derive(Clone, Copy, Debug)]
enum Op {
    Advance,
    Reverse,
    Bounce,
}

/// Builds the levels of a walk of the shaft from `ops`, with the events that
/// a decoder must report on them, and checks a new decoder against them.
fn run_walk(start: (u8, u8, Direction), ops: &[Op]) {
    let (mut a, mut b, mut dir) = start;
    let mut recent_reverse = false;
    let (mut v_a, mut v_b, mut expected) = (Vec::new(), Vec::new(), Vec::new());
    v_a.push(a);
    v_b.push(b);
    expected.push(NM);
    for op in ops {
        match op {
            Op::Advance => {
                let d;
                (a, b, d) = match (a, b, dir) {
                    (0, 0, CCW) => (1, 0, NM), // 0x81
                    (0, 1, CCW) => (0, 0, NM), // 0xE8
                    (1, 0, CCW) => (1, 1, CCW), // 0x17
                    (1, 1, CCW) => (0, 1, NM), // 0x7E
                    (0, 0, CW) => (0, 1, NM), // 0x42
                    (0, 1, CW) => (1, 1, CW), // 0x2B
                    (1, 0, CW) => (0, 0, NM), // 0xD4
                    (1, 1, CW) => (1, 0, NM), // 0xBD
                    _ => unreachable!(),
                };
                v_a.push(a);
                v_b.push(b);
                expected.push(if recent_reverse && expected.len() > 1 { NM } else { d });
                recent_reverse = false;
            }
            Op::Reverse => {
                dir = opposite(dir);
                recent_reverse = !recent_reverse;
            }
            Op::Bounce => {
                if expected.len() <= 1 {
                    continue;
                }
                let d = if recent_reverse { opposite(dir) } else { dir };
                let (a1, a2, b1, b2) = match (a, b, d) {
                    (0, 0, CCW) => (0, 0, 1, 0),
                    (0, 1, CCW) => (1, 0, 1, 1),
                    (1, 0, CCW) => (0, 1, 0, 0),
                    (1, 1, CCW) => (1, 1, 0, 1),
                    (0, 0, CW) => (1, 0, 0, 0),
                    (0, 1, CW) => (0, 0, 0, 1),
                    (1, 0, CW) => (1, 1, 1, 0),
                    (1, 1, CW) => (0, 1, 1, 1),
                    _ => unreachable!(),
                };
                v_a.push(a1);
                v_a.push(a2);
                v_b.push(b1);
                v_b.push(b2);
                expected.push(NM);
                expected.push(NM);
            }
        }
    }
    run_table(v_a.as_slice(), v_b.as_slice(), expected.as_slice());
}

#[test]
fn walks_with_bounces_report_the_detents() {
    let starts = [
        (0, 0, CCW),
        (1, 0, CCW),
        (0, 1, CCW),
        (1, 1, CCW),
        (0, 0, CW),
        (1, 0, CW),
        (0, 1, CW),
        (1, 1, CW),
    ];
    for seed in 0..300u32 {
        let mut lcg = Lcg(seed);
        let start = starts[(lcg.next() as usize) % 8];
        let len = (lcg.next() as usize) % 200;
        let ops: Vec<Op> = (0..len)
            .map(|_| match lcg.next() % 3 {
                0 => Op::Advance,
                1 => Op::Reverse,
                _ => Op::Bounce,
            })
            .collect();
        run_walk(start, &ops);
    }
}

#[test]
fn walk_without_steps_reports_nothing() {
    run_walk((1, 1, CW), &[]);
    run_walk((0, 1, CCW), &[Op::Reverse, Op::Bounce, Op::Reverse]);
}
