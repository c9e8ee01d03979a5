//! Frequency-synthesis planner and register-programming engine for the
//! Si5351 programmable clock generator: two PLLs feeding three
//! independently dividable output channels.
//!
//! The library computes integer/fractional divider parameters that satisfy
//! the chip's hardware constraints, packs them into the chip's fixed-width
//! register fields, and drives the register writes through a byte-oriented
//! bus abstraction (the [`Transport`] trait), which the surrounding
//! application implements on top of a concrete I2C bus.

pub mod codec;
pub mod device;
pub mod error;
pub mod planner;
pub mod rdiv;
pub mod transport;

pub use codec::{PackedFields, RationalDivider};
pub use device::{CrystalFreq, CrystalLoad, MultisynthDiv, Si5351, PLL};
pub use error::{check, Error};
pub use planner::FreqPlan;
pub use rdiv::RDiv;
pub use transport::{Transport, TransportError};
