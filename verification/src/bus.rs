//! The capabilities the driver consumes from the host platform: a two-wire
//! serial bus transport and an optional power-enable output line.
//!
//! Each transport carries a ghost log of the transactions it has performed,
//! oldest first. The driver's contracts are stated over that log: which
//! transactions an operation appends, and in what order.

use vstd::prelude::*;

verus! {

/// One transaction on the two-wire serial bus, as the device at `addr` sees
/// it.
pub enum Txn {
    /// A single write of `data` to the device at bus address `addr`.
    Write { addr: u8, data: Seq<u8> },
    /// A write of the register index `reg` to the device at bus address
    /// `addr`, followed in the same transaction by a one-byte read that
    /// returned `response`.
    WriteRead { addr: u8, reg: u8, response: u8 },
}

/// A blocking two-wire serial bus transport.
///
/// A transaction either completes, and is appended to the log, or fails with
/// the transport's own error, and leaves the log as it was. What a read
/// returns is the bus's to decide: no implementation promises a particular
/// response byte.
pub trait SerialBus: Sized {
    /// The transport's own error type.
    type BusError;

    /// The transactions this transport has completed, oldest first.
    spec fn txns(&self) -> Seq<Txn>;

    /// Write `data` to the device at bus address `addr` as one transaction.
    fn bus_write(&mut self, addr: u8, data: &[u8]) -> (r: Result<(), Self::BusError>)
        ensures
            match r {
                Ok(()) => final(self).txns() == old(self).txns().push(
                    Txn::Write { addr, data: data@ },
                ),
                Err(_) => final(self).txns() == old(self).txns(),
            },
    ;

    /// Write the register index `reg` to the device at bus address `addr`,
    /// then read one byte back, as one transaction.
    fn bus_write_read(&mut self, addr: u8, reg: u8) -> (r: Result<u8, Self::BusError>)
        ensures
            match r {
                Ok(v) => final(self).txns() == old(self).txns().push(
                    Txn::WriteRead { addr, reg, response: v },
                ),
                Err(_) => final(self).txns() == old(self).txns(),
            },
    ;
}

/// A digital output line that controls power to the device. Infallible by
/// contract.
pub trait EnablePin: Sized {
    /// Whether the line is currently driven high.
    spec fn is_set_high(&self) -> bool;

    /// Drive the line high.
    fn set_high(&mut self)
        ensures
            final(self).is_set_high(),
    ;

    /// Drive the line low.
    fn set_low(&mut self)
        ensures
            !final(self).is_set_high(),
    ;
}

} // verus!
