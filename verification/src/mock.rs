//! In-memory stand-ins for the bus transport and the power pin, for
//! exercising the driver without hardware.
//!
//! [`MockBus`] records every completed transaction, hands out programmed
//! response bytes for reads, and can be told to fail one upcoming
//! transaction. It is verified against the same [`SerialBus`] contract the
//! driver relies on, so what a test observes in its record is exactly what
//! the driver's contracts speak of.

use vstd::prelude::*;

use crate::bus::{EnablePin, SerialBus, Txn};

verus! {

/// One recorded bus transaction, the executable counterpart of [`Txn`].
#[derive(Debug, PartialEq, Eq)]
pub enum BusRecord {
    /// A single write of `data` to the device at bus address `addr`.
    Write { addr: u8, data: Vec<u8> },
    /// A write of register index `reg` followed by a one-byte read that
    /// returned `response`.
    WriteRead { addr: u8, reg: u8, response: u8 },
}

impl View for BusRecord {
    type V = Txn;

    open spec fn view(&self) -> Txn {
        match self {
            BusRecord::Write { addr, data } => Txn::Write { addr: *addr, data: data@ },
            BusRecord::WriteRead { addr, reg, response } => Txn::WriteRead {
                addr: *addr,
                reg: *reg,
                response: *response,
            },
        }
    }
}

/// The error the mock transport reports for a transaction it was told to
/// fail.
#[derive(Debug, Clone, Copy, PartialEq, Eq, Structural)]
pub struct MockFault;

/// How a planned failure advances on each transaction attempt: it counts
/// down, fires at zero, and is spent once it has fired.
pub open spec fn step_failure_plan(plan: Option<usize>) -> Option<usize> {
    match plan {
        None => None,
        Some(n) => if n == 0 {
            None
        } else {
            Some((n - 1) as usize)
        },
    }
}

/// An in-memory bus transport: it completes every transaction by recording
/// it, answers reads from a programmed queue of response bytes (zero once the
/// queue is empty), and fails exactly one transaction when told to.
pub struct MockBus {
    /// Every completed transaction, oldest first.
    pub log: Vec<BusRecord>,
    /// Response bytes for upcoming reads, consumed front first.
    pub responses: Vec<u8>,
    /// `Some(n)`: the next `n` transactions complete, the one after fails
    /// with [`MockFault`], and later ones complete again.
    pub fail_in: Option<usize>,
}

impl MockBus {
    /// A fresh transport with an empty record, no programmed responses and no
    /// planned failure.
    pub fn new() -> (r: MockBus)
        ensures
            r.txns() == Seq::<Txn>::empty(),
            r.responses@ == Seq::<u8>::empty(),
            r.fail_in is None,
    {
        let r = MockBus { log: Vec::new(), responses: Vec::new(), fail_in: None };
        proof {
            assert(r.log@.map_values(|b: BusRecord| b@) =~= Seq::<Txn>::empty());
        }
        r
    }

    /// Queue `v` as the response byte of an upcoming read.
    pub fn push_response(&mut self, v: u8)
        ensures
            final(self).responses@ == old(self).responses@.push(v),
            final(self).txns() == old(self).txns(),
            final(self).fail_in == old(self).fail_in,
    {
        self.responses.push(v);
    }

    /// Let the next `n` transactions complete and fail the one after.
    pub fn fail_after(&mut self, n: usize)
        ensures
            final(self).fail_in == Some(n),
            final(self).txns() == old(self).txns(),
            final(self).responses@ == old(self).responses@,
    {
        self.fail_in = Some(n);
    }

    /// Whether the current transaction attempt fails, stepping the planned
    /// failure forward.
    fn step_failure(&mut self) -> (fails: bool)
        ensures
            final(self).log == old(self).log,
            final(self).responses == old(self).responses,
            fails == (old(self).fail_in == Some(0usize)),
            final(self).fail_in == step_failure_plan(old(self).fail_in),
    {
        match self.fail_in {
            Some(n) => {
                if n == 0 {
                    self.fail_in = None;
                    true
                } else {
                    self.fail_in = Some(n - 1);
                    false
                }
            },
            None => false,
        }
    }
}

impl SerialBus for MockBus {
    type BusError = MockFault;

    open spec fn txns(&self) -> Seq<Txn> {
        self.log@.map_values(|b: BusRecord| b@)
    }

    fn bus_write(&mut self, addr: u8, data: &[u8]) -> (r: Result<(), MockFault>)
        ensures
            (r is Err) == (old(self).fail_in == Some(0usize)),
            final(self).responses == old(self).responses,
            final(self).fail_in == step_failure_plan(old(self).fail_in),
    {
        if self.step_failure() {
            return Err(MockFault);
        }
        let rec = BusRecord::Write { addr, data: vstd::slice::slice_to_vec(data) };
        self.log.push(rec);
        proof {
            assert(self.log@.map_values(|b: BusRecord| b@) =~= old(self).log@.map_values(
                |b: BusRecord| b@,
            ).push(Txn::Write { addr, data: data@ }));
        }
        Ok(())
    }

    fn bus_write_read(&mut self, addr: u8, reg: u8) -> (r: Result<u8, MockFault>)
        ensures
            (r is Err) == (old(self).fail_in == Some(0usize)),
            final(self).fail_in == step_failure_plan(old(self).fail_in),
            r matches Ok(v) ==> v == (if old(self).responses@.len() > 0 {
                old(self).responses@[0]
            } else {
                0u8
            }),
            r matches Ok(_) ==> final(self).responses@ == (if old(self).responses@.len() > 0 {
                old(self).responses@.subrange(1, old(self).responses@.len() as int)
            } else {
                old(self).responses@
            }),
            r is Err ==> final(self).responses == old(self).responses,
    {
        if self.step_failure() {
            return Err(MockFault);
        }
        let v: u8 = if self.responses.len() > 0 {
            self.responses.remove(0)
        } else {
            0
        };
        self.log.push(BusRecord::WriteRead { addr, reg, response: v });
        proof {
            assert(self.log@.map_values(|b: BusRecord| b@) =~= old(self).log@.map_values(
                |b: BusRecord| b@,
            ).push(Txn::WriteRead { addr, reg, response: v }));
        }
        Ok(v)
    }
}

/// An in-memory power-enable line that remembers its level.
pub struct MockPin {
    /// Whether the line is driven high.
    pub high: bool,
}

impl MockPin {
    /// A fresh line, driven low.
    pub fn new() -> (r: MockPin)
        ensures
            !r.is_set_high(),
    {
        MockPin { high: false }
    }

    /// The level the line is driven at.
    pub fn is_high(&self) -> (r: bool)
        ensures
            r == self.is_set_high(),
    {
        self.high
    }
}

impl EnablePin for MockPin {
    open spec fn is_set_high(&self) -> bool {
        self.high
    }

    fn set_high(&mut self) {
        self.high = true;
    }

    fn set_low(&mut self) {
        self.high = false;
    }
}

} // verus!
