//! A platform agnostic decoder for rotary (quadrature) encoders.
//!
//! An encoder drives two channels, A and B, whose levels change one after the
//! other as the shaft turns. A decoder in this crate owns the two inputs,
//! remembers a byte of history, and classifies every pair of samples as a turn
//! in one direction, a turn in the other, or no movement.
//!
//! Two decoders are offered. [`shift::Rotary`], re-exported at the root,
//! reports every single step of the shaft. [`table::Rotary`] reports one event
//! per detent and ignores contact bounce. Both leave the classification of the
//! history byte to a [`Phase`], which callers may replace.
//!
//! Reading an input is left to the caller: `update` takes what the two reads
//! returned.

pub mod direction;
pub mod either_type;
pub mod phase;
pub mod quadrature;
pub mod shift;
pub mod table;
pub mod view;

pub use direction::Direction;
pub use phase::Phase;
pub use shift::{DefaultPhase, Rotary};
pub use view::RotaryView;
