//! The shift-register decoder: the history holds the last sample, every new
//! sample is shifted in above it, and the four bits together are classified.
//! It reports each single step of the shaft.

pub mod laws;

use vstd::prelude::*;
use either::Either;
use crate::direction::Direction;
use crate::phase::Phase;
use crate::quadrature::pair_code;
use crate::view::RotaryView;

verus! {

/// The four-bit value that is classified: the low two bits of the history are
/// the previous sample, bit 2 is set when channel A is low now and bit 3 when
/// channel B is low now.
pub open spec fn window(history: u8, a_low: bool, b_low: bool) -> u8 {
    (history % 4 + 4 * pair_code(a_low, b_low)) as u8
}

/// The direction that the default phase gives to a value `s`.
pub open spec fn classify(s: u8) -> Direction {
    if s == 0b0001 || s == 0b0111 || s == 0b1000 || s == 0b1110 {
        Direction::Clockwise
    } else if s == 0b0010 || s == 0b0100 || s == 0b1011 || s == 0b1101 {
        Direction::CounterClockwise
    } else {
        Direction::NoMovement
    }
}

/// Default implementation of `Phase`.
///
/// The useful values of `s` are:
/// - 0b0001 | 0b0111 | 0b1000 | 0b1110
/// - 0b0010 | 0b0100 | 0b1011 | 0b1101
pub struct DefaultPhase;

impl Phase for DefaultPhase {
    open spec fn decides(&self, s: u8, d: Direction, after: &Self) -> bool {
        d == classify(s)
    }

    fn direction(&mut self, s: u8) -> (d: Direction) {
        match s {
            0b0001 | 0b0111 | 0b1000 | 0b1110 => Direction::Clockwise,
            0b0010 | 0b0100 | 0b1011 | 0b1101 => Direction::CounterClockwise,
            _ => Direction::NoMovement,
        }
    }
}

/// Holds current/old state and both inputs.
#[derive(Clone, Debug, PartialEq, Eq)]
pub struct Rotary<A, B, P> {
    pin_a: A,
    pin_b: B,
    state: u8,
    phase: P,
}

impl<A, B, P> View for Rotary<A, B, P> {
    type V = RotaryView<A, B, P>;

    closed spec fn view(&self) -> RotaryView<A, B, P> {
        RotaryView { pin_a: self.pin_a, pin_b: self.pin_b, history: self.state, phase: self.phase }
    }
}

impl<A, B> Rotary<A, B, DefaultPhase> {
    /// Accepts the two inputs of the encoder. The caller reads them before
    /// every `update()`.
    pub fn new(pin_a: A, pin_b: B) -> (rotary: Self)
        ensures
            rotary@ == (RotaryView { pin_a, pin_b, history: 0, phase: DefaultPhase }),
    {
        Self { pin_a, pin_b, state: 0u8, phase: DefaultPhase }
    }
}

impl<A, B, P: Phase> Rotary<A, B, P> {
    /// Accepts the two inputs of the encoder, while using `phase` to determine
    /// the direction.
    pub fn with_phase(pin_a: A, pin_b: B, phase: P) -> (rotary: Self)
        ensures
            rotary@ == (RotaryView { pin_a, pin_b, history: 0, phase }),
    {
        Self { pin_a, pin_b, state: 0u8, phase }
    }

    /// Call `update` to evaluate the next state of the encoder from what
    /// reading "is low" on each input returned; propagates the errors of the
    /// reads.
    ///
    /// A failed read of channel A comes back as `Left`, one of channel B as
    /// `Right`, the first before the second, and the decoder is left as it
    /// was. Otherwise the sample becomes the history and the phase classifies
    /// the window of the previous sample and this one.
    pub fn update<EA, EB>(
        &mut self,
        a_is_low: Result<bool, EA>,
        b_is_low: Result<bool, EB>,
    ) -> (result: Result<Direction, Either<EA, EB>>)
        ensures
            a_is_low matches Err(e) ==> {
                &&& result == Err::<Direction, Either<EA, EB>>(Either::Left(e))
                &&& final(self)@ == old(self)@
            },
            a_is_low is Ok ==> (b_is_low matches Err(e) ==> {
                &&& result == Err::<Direction, Either<EA, EB>>(Either::Right(e))
                &&& final(self)@ == old(self)@
            }),
            a_is_low matches Ok(a) ==> (b_is_low matches Ok(b) ==> {
                &&& result matches Ok(d)
                &&& old(self)@.phase.decides(
                    window(old(self)@.history, a, b),
                    d,
                    &final(self)@.phase,
                )
                &&& final(self)@.history == pair_code(a, b)
                &&& final(self)@.pin_a == old(self)@.pin_a
                &&& final(self)@.pin_b == old(self)@.pin_b
            }),
    {
        // use mask to get previous state value
        let history: u8 = self.state;
        let mut s: u8 = history & 0b11;
        let a: bool = match a_is_low {
            Ok(low) => low,
            Err(e) => {
                return Err(Either::Left(e));
            },
        };
        let b: bool = match b_is_low {
            Ok(low) => low,
            Err(e) => {
                return Err(Either::Right(e));
            },
        };
        let ghost previous: u8 = s;
        assert(previous == history % 4) by (bit_vector)
            requires
                previous == history & 0b11,
        ;

        // move in the new state
        if a {
            s |= 0b100;
        }
        if b {
            s |= 0b1000;
        }
        assert(s == window(history, a, b)) by {
            assert(previous | 0b100 == previous + 4 && (previous | 0b100) | 0b1000 == previous + 12
                && previous | 0b1000 == previous + 8) by (bit_vector)
                requires
                    previous < 4,
            ;
        }
        assert(s >> 2 == s / 4) by (bit_vector);
        self.state = s >> 2;
        Ok(self.phase.direction(s))
    }

    /// Returns a reference to the first pin. Can be used to clear interrupt.
    pub fn pin_a(&mut self) -> (pin: &mut A)
        ensures
            *pin == old(self)@.pin_a,
            final(self)@ == (RotaryView { pin_a: *final(pin), ..old(self)@ }),
    {
        &mut self.pin_a
    }

    /// Returns a reference to the second pin. Can be used to clear interrupt.
    pub fn pin_b(&mut self) -> (pin: &mut B)
        ensures
            *pin == old(self)@.pin_b,
            final(self)@ == (RotaryView { pin_b: *final(pin), ..old(self)@ }),
    {
        &mut self.pin_b
    }

    /// Returns a reference to both pins. Can be used to clear interrupt.
    pub fn pins(&mut self) -> (pins: (&mut A, &mut B))
        ensures
            *pins.0 == old(self)@.pin_a,
            *pins.1 == old(self)@.pin_b,
            final(self)@ == (RotaryView {
                pin_a: *final(pins.0),
                pin_b: *final(pins.1),
                ..old(self)@
            }),
    {
        (&mut self.pin_a, &mut self.pin_b)
    }

    /// Consumes this `Rotary`, returning the underlying pins `A` and `B`.
    pub fn into_inner(self) -> (pins: (A, B))
        ensures
            pins == (self@.pin_a, self@.pin_b),
    {
        (self.pin_a, self.pin_b)
    }
}

} // verus!
