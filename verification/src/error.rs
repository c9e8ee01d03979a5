//! Error taxonomy of the planning and programming engine.
//!
//! Every failure is reported immediately to the caller; no component
//! retries or swallows an error.

use vstd::prelude::*;

verus! {

/// The three failure kinds the engine can report.
///
/// - `ParameterOutOfRange`: a multiplier, divider, numerator or denominator
///   lies outside its documented bounds, the required output post-divider
///   exceeds the largest representable power of two, or the multisynth
///   divider exceeds its safety ceiling.
/// - `PrerequisiteNotMet`: an operation was attempted before device
///   bring-up, or a channel operation references a PLL that has never been
///   configured.
/// - `BusTransactionFailed`: an underlying bus write or read failed. The
///   transport reports a single failure signal, so all bus faults collapse
///   into this one kind.
#[derive(Debug, Clone, Copy, PartialEq, Eq, Structural)]
pub enum Error {
    ParameterOutOfRange,
    PrerequisiteNotMet,
    BusTransactionFailed,
}

/// Turns a validated condition into a `Result`, reporting `error` when the
/// condition does not hold.
pub fn check(condition: bool, error: Error) -> (r: Result<(), Error>)
    ensures
        condition <==> r is Ok,
        !condition ==> r == Err::<(), Error>(error),
{
    if condition {
        Ok(())
    } else {
        Err(error)
    }
}

} // verus!
