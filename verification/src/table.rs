//! The table decoder: every change from the previous sample to the new one is
//! looked up in a table of the single steps of a Gray code. A change that is
//! no single step is taken for contact bounce and dropped. It reports one
//! event per detent, when the shaft comes to rest after two steps one way.

pub mod laws;

use vstd::prelude::*;
use either::Either;
use crate::direction::Direction;
use crate::phase::Phase;
use crate::quadrature::pair_code;
use crate::view::RotaryView;

verus! {

/// The four-bit code of a change: the low two bits of the history, which are
/// the previous sample, in bits 2 and 3, and the new sample below them, bit 0
/// set when channel A is high now and bit 1 when channel B is high now.
pub open spec fn transition(history: u8, a_high: bool, b_high: bool) -> u8 {
    (4 * (history % 4) + pair_code(a_high, b_high)) as u8
}

/// Whether a change is a single step: exactly one channel has changed.
pub open spec fn is_step(t: u8) -> bool {
    t == 1 || t == 2 || t == 4 || t == 7 || t == 8 || t == 11 || t == 13 || t == 14
}

/// The byte that is classified after a single step, and the history that any
/// other change leaves: the high nibble of the history, which is the last
/// single step, above the code of this change.
pub open spec fn keyed(history: u8, t: u8) -> u8 {
    (16 * (history / 16) + t) as u8
}

/// The history that a single step leaves: its code in both nibbles.
pub open spec fn settled(t: u8) -> u8 {
    (17 * t) as u8
}

/// The direction that the default phase gives to a byte `s`.
pub open spec fn classify(s: u8) -> Direction {
    if s == 0x17 {
        Direction::CounterClockwise
    } else if s == 0x2b {
        Direction::Clockwise
    } else {
        Direction::NoMovement
    }
}

/// Default implementation of `Phase`.
///
/// The useful values of `s` are 0x17 and 0x2B: the second of two steps one
/// way, on which both channels are high.
pub struct DefaultPhase;

impl Phase for DefaultPhase {
    open spec fn decides(&self, s: u8, d: Direction, after: &Self) -> bool {
        d == classify(s)
    }

    fn direction(&mut self, s: u8) -> (d: Direction) {
        match s {
            0x17 => Direction::CounterClockwise,
            0x2b => Direction::Clockwise,
            _ => Direction::NoMovement,
        }
    }
}

/// Holds current/old state and both inputs.
#[derive(Clone, Debug, PartialEq, Eq)]
pub struct Rotary<A, B, P> {
    pin_a: A,
    pin_b: B,
    state: u8,
    phase: P,
}

impl<A, B, P> View for Rotary<A, B, P> {
    type V = RotaryView<A, B, P>;

    closed spec fn view(&self) -> RotaryView<A, B, P> {
        RotaryView { pin_a: self.pin_a, pin_b: self.pin_b, history: self.state, phase: self.phase }
    }
}

impl<A, B> Rotary<A, B, DefaultPhase> {
    /// Accepts the two inputs of the encoder. The caller reads them before
    /// every `update()`.
    pub fn new(pin_a: A, pin_b: B) -> (rotary: Self)
        ensures
            rotary@ == (RotaryView { pin_a, pin_b, history: 0, phase: DefaultPhase }),
    {
        Self { pin_a, pin_b, state: 0u8, phase: DefaultPhase }
    }
}

impl<A, B, P: Phase> Rotary<A, B, P> {
    /// Accepts the two inputs of the encoder, while using `phase` to determine
    /// the direction.
    pub fn with_phase(pin_a: A, pin_b: B, phase: P) -> (rotary: Self)
        ensures
            rotary@ == (RotaryView { pin_a, pin_b, history: 0, phase }),
    {
        Self { pin_a, pin_b, state: 0u8, phase }
    }

    /// Returns a reference to the first pin. Can be used to clear interrupt.
    pub fn pin_a(&mut self) -> (pin: &mut A)
        ensures
            *pin == old(self)@.pin_a,
            final(self)@ == (RotaryView { pin_a: *final(pin), ..old(self)@ }),
    {
        &mut self.pin_a
    }

    /// Returns a reference to the second pin. Can be used to clear interrupt.
    pub fn pin_b(&mut self) -> (pin: &mut B)
        ensures
            *pin == old(self)@.pin_b,
            final(self)@ == (RotaryView { pin_b: *final(pin), ..old(self)@ }),
    {
        &mut self.pin_b
    }

    /// Returns a reference to both pins. Can be used to clear interrupt.
    pub fn pins(&mut self) -> (pins: (&mut A, &mut B))
        ensures
            *pins.0 == old(self)@.pin_a,
            *pins.1 == old(self)@.pin_b,
            final(self)@ == (RotaryView {
                pin_a: *final(pins.0),
                pin_b: *final(pins.1),
                ..old(self)@
            }),
    {
        (&mut self.pin_a, &mut self.pin_b)
    }

    /// Consumes this `Rotary`, returning the underlying pins `A` and `B`.
    pub fn into_inner(self) -> (pins: (A, B))
        ensures
            pins == (self@.pin_a, self@.pin_b),
    {
        (self.pin_a, self.pin_b)
    }

    /// Call `update` to evaluate the next state of the encoder from what
    /// reading "is high" on each input returned; propagates the errors of the
    /// reads.
    ///
    /// A failed read of channel A comes back as `Left`, one of channel B as
    /// `Right`, the first before the second, and the decoder is left as it
    /// was. After a single step the phase classifies the last single step
    /// together with this one, and this one fills the history. Any other
    /// change is no movement: the phase is not asked, and the last single
    /// step stays in the history.
    pub fn update<EA, EB>(
        &mut self,
        a_is_high: Result<bool, EA>,
        b_is_high: Result<bool, EB>,
    ) -> (result: Result<Direction, Either<EA, EB>>)
        ensures
            a_is_high matches Err(e) ==> {
                &&& result == Err::<Direction, Either<EA, EB>>(Either::Left(e))
                &&& final(self)@ == old(self)@
            },
            a_is_high is Ok ==> (b_is_high matches Err(e) ==> {
                &&& result == Err::<Direction, Either<EA, EB>>(Either::Right(e))
                &&& final(self)@ == old(self)@
            }),
            a_is_high matches Ok(a) ==> (b_is_high matches Ok(b) ==> {
                let t = transition(old(self)@.history, a, b);
                &&& result matches Ok(d)
                &&& is_step(t) ==> {
                    &&& old(self)@.phase.decides(
                        keyed(old(self)@.history, t),
                        d,
                        &final(self)@.phase,
                    )
                    &&& final(self)@.history == settled(t)
                }
                &&& !is_step(t) ==> {
                    &&& d == Direction::NoMovement
                    &&& final(self)@.phase == old(self)@.phase
                    &&& final(self)@.history == keyed(old(self)@.history, t)
                }
                &&& final(self)@.pin_a == old(self)@.pin_a
                &&& final(self)@.pin_b == old(self)@.pin_b
            }),
    {
        let history: u8 = self.state;
        let mut prev_next: u8 = (history << 2) & 0xF;
        let a: bool = match a_is_high {
            Ok(high) => high,
            Err(e) => {
                return Err(Either::Left(e));
            },
        };
        let b: bool = match b_is_high {
            Ok(high) => high,
            Err(e) => {
                return Err(Either::Right(e));
            },
        };
        let ghost previous: u8 = prev_next;
        assert(previous == 4 * (history % 4)) by (bit_vector)
            requires
                previous == (history << 2) & 0xF,
        ;
        if a {
            prev_next |= 0x01;
        }
        if b {
            prev_next |= 0x02;
        }
        assert(prev_next == transition(history, a, b)) by {
            assert(previous | 0x01 == previous + 1 && (previous | 0x01) | 0x02 == previous + 3
                && previous | 0x02 == previous + 2) by (bit_vector)
                requires
                    previous == 0 || previous == 4 || previous == 8 || previous == 12,
            ;
        }
        assert((history & 0xF0) | prev_next == 16 * (history / 16) + prev_next
            && prev_next << 4 | prev_next == 17 * prev_next) by (bit_vector)
            requires
                prev_next < 16,
        ;

        match prev_next {
            // a single step
            1 | 2 | 4 | 7 | 8 | 11 | 13 | 14 => {
                let result: u8 = (history & 0xF0) | prev_next;
                self.state = prev_next << 4 | prev_next;

                Ok(self.phase.direction(result))
            },
            // a repeated sample, or both channels changed at once
            0 | 3 | 5 | 6 | 9 | 10 | 12 | 15 => {
                self.state = history & 0xF0 | prev_next;

                Ok(Direction::NoMovement)
            },
            // four bits hold no more than 15
            0x10..=0xFF => Ok(Direction::NoMovement),
        }
    }
}

} // verus!
