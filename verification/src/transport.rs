//! The bus transport boundary: a byte-oriented addressable bus
//! abstraction through which every register transaction goes.
//!
//! The engine never inspects transport-specific error detail; any failure
//! is reported uniformly through [`TransportError`]. A transport keeps a
//! ghost log of the transactions it has completed, so the contracts of the
//! programming engine can state exactly which register writes a call
//! issues.

use vstd::prelude::*;

verus! {

/// The single, uniform failure signal of a bus transaction. The engine
/// cannot distinguish address-not-found, no-acknowledge or timeout from
/// the bus abstraction, so neither does this type.
#[derive(Debug, Clone, Copy, PartialEq, Eq, Structural)]
pub struct TransportError;

/// One completed bus transaction, as recorded in the ghost transaction
/// log of a [`Transport`].
pub enum BusOp {
    /// A plain write of `data` to the device at bus address `addr`.
    Write { addr: u8, data: Seq<u8> },
    /// A write of `data` to the device at `addr`, followed in the same
    /// transaction by a read that returned `response`.
    WriteRead { addr: u8, data: Seq<u8>, response: Seq<u8> },
}

/// A byte-oriented addressable bus. The surrounding application supplies
/// the implementation (for the real chip, an I2C bus); the engine only
/// ever calls these two methods.
///
/// A transaction either completes or fails. On failure nothing is
/// promised about the log: the device may or may not have seen part of
/// the transaction, and callers must re-run a full programming sequence
/// to reach a known-good state.
pub trait Transport {
    /// The ghost log of bus transactions completed so far. The log
    /// exists only for specification; an implementation that is not
    /// itself verified can leave the default in place.
    open spec fn ops(&self) -> Seq<BusOp> {
        Seq::empty()
    }

    /// Writes `data` to the device at bus address `addr`.
    fn write(&mut self, addr: u8, data: &[u8]) -> (r: Result<(), TransportError>)
        ensures
            r is Ok ==> final(self).ops() == old(self).ops().push(
                BusOp::Write { addr, data: data@ },
            ),
    ;

    /// Writes `data` to the device at bus address `addr`, then reads
    /// `read_len` bytes in the same transaction.
    fn write_then_read(&mut self, addr: u8, data: &[u8], read_len: usize) -> (r: Result<
        Vec<u8>,
        TransportError,
    >)
        ensures
            r matches Ok(response) ==> response@.len() == read_len && final(self).ops() == old(
                self,
            ).ops().push(BusOp::WriteRead { addr, data: data@, response: response@ }),
    ;
}

/// The byte most recently written to register `reg` by the transactions
/// in `ops`, if any. A write of `[base, v0, ..., vk]` programs registers
/// `base..base+k` in one burst, the chip's register address incrementing
/// after each byte; a write-then-read transaction programs nothing.
pub open spec fn last_write_to(ops: Seq<BusOp>, reg: u8) -> Option<u8>
    decreases ops.len(),
{
    if ops.len() == 0 {
        None
    } else {
        let covered = match ops.last() {
            BusOp::Write { data, .. } => data.len() >= 2 && data[0] <= reg < data[0] + data.len()
                - 1,
            BusOp::WriteRead { .. } => false,
        };
        if covered {
            match ops.last() {
                BusOp::Write { data, .. } => Some(data[reg - data[0] + 1]),
                BusOp::WriteRead { .. } => None,
            }
        } else {
            last_write_to(ops.drop_last(), reg)
        }
    }
}

} // verus!
