//! Driver for the TI LP55231 nine-channel LED controller.
//!
//! The driver turns high-level intents (enable the device, set a channel's
//! brightness, switch a channel between linear and logarithmic dimming) into
//! ordered sequences of register reads and writes on a two-wire serial bus.
//! The bus transport and the optional power-enable line are supplied by the
//! caller through the [`bus::SerialBus`] and [`bus::EnablePin`] traits; every
//! contract in this crate is stated over the transaction log those traits
//! expose.

use vstd::prelude::*;

pub mod bus;
pub mod mock;
pub mod registers;

use crate::bus::{EnablePin, SerialBus, Txn};
use crate::registers as reg;

verus! {

/// Error conditions returned by the LP55231 driver.
#[derive(Debug)]
pub enum Error<I> {
    /// A register operation was attempted before the device was enabled.
    NotEnabled,
    /// The bus transport reported a failure, propagated verbatim.
    I2cError(I),
}

/// Available bus addresses for the part, selected by how its two
/// address-select pins are tied.
#[derive(Debug, Copy, Clone)]
pub enum Addr {
    /// ASEL1=GND, ASEL2=GND
    _0x32,
    /// ASEL1=GND, ASEL2=VEN
    _0x33,
    /// ASEL1=VEN, ASEL2=GND
    _0x34,
    /// ASEL1=VEN, ASEL2=VEN
    _0x35,
}

/// The seven-bit address a selector stands for.
pub open spec fn addr_value(a: Addr) -> u8 {
    match a {
        Addr::_0x32 => 0x32,
        Addr::_0x33 => 0x33,
        Addr::_0x34 => 0x34,
        Addr::_0x35 => 0x35,
    }
}

impl vstd::std_specs::convert::FromSpecImpl<Addr> for u8 {
    open spec fn obeys_from_spec() -> bool {
        true
    }

    open spec fn from_spec(v: Addr) -> u8 {
        addr_value(v)
    }
}

impl From<Addr> for u8 {
    fn from(a: Addr) -> (r: u8) {
        match a {
            Addr::_0x32 => 0x32u8,
            Addr::_0x33 => 0x33u8,
            Addr::_0x34 => 0x34u8,
            Addr::_0x35 => 0x35u8,
        }
    }
}

/// Enumeration of the 9 LED lines of the chip.
#[derive(Debug, Copy, Clone)]
pub enum D {
    /// LED line D1
    D1,
    /// LED line D2
    D2,
    /// LED line D3
    D3,
    /// LED line D4
    D4,
    /// LED line D5
    D5,
    /// LED line D6
    D6,
    /// LED line D7
    D7,
    /// LED line D8
    D8,
    /// LED line D9
    D9,
}

/// The zero-based channel index of an LED line, used to offset into the
/// per-channel register bases.
pub open spec fn d_index(d: D) -> u8 {
    match d {
        D::D1 => 0,
        D::D2 => 1,
        D::D3 => 2,
        D::D4 => 3,
        D::D5 => 4,
        D::D6 => 5,
        D::D7 => 6,
        D::D8 => 7,
        D::D9 => 8,
    }
}

impl vstd::std_specs::convert::FromSpecImpl<D> for u8 {
    open spec fn obeys_from_spec() -> bool {
        true
    }

    open spec fn from_spec(v: D) -> u8 {
        d_index(v)
    }
}

impl From<D> for u8 {
    fn from(d: D) -> (r: u8) {
        match d {
            D::D1 => 0,
            D::D2 => 1,
            D::D3 => 2,
            D::D4 => 3,
            D::D5 => 4,
            D::D6 => 5,
            D::D7 => 6,
            D::D8 => 7,
            D::D9 => 8,
        }
    }
}

/// The first write of the enable sequence: the CNTRL1 register with only the
/// chip-enable bit set.
pub open spec fn cntrl1_enable_txn(dev: u8) -> Txn {
    Txn::Write { addr: dev, data: seq![reg::CNTRL1, reg::CNTRL1_CHIP_EN] }
}

/// The configuration byte of the second write of the enable sequence:
/// internal clock, clock detection, 1.5x charge-pump boost and address
/// auto-increment, all set in one OR-combined byte.
pub open spec fn misc_config_value() -> u8 {
    reg::MISC_INT_CLK_EN | reg::MISC_CLK_DET_EN | reg::MISC_CP_MODE_1_5X | reg::MISC_EN_AUTO_INCR
}

/// The second write of the enable sequence: the MISC register with
/// `misc_config_value`.
pub open spec fn misc_config_txn(dev: u8) -> Txn {
    Txn::Write { addr: dev, data: seq![reg::MISC, misc_config_value()] }
}

/// The soft-reset write: the magic all-bits-set byte to the RESET register.
pub open spec fn reset_txn(dev: u8) -> Txn {
    Txn::Write { addr: dev, data: seq![reg::RESET, reg::RESET_NOW] }
}

/// The PWM register address of an LED line: the PWM base plus the channel
/// index.
pub open spec fn pwm_addr(d: D) -> u8 {
    (reg::D_PWM_BASE + d_index(d)) as u8
}

/// The write that sets an LED line's duty cycle: the line's PWM register and
/// the duty value.
pub open spec fn pwm_txn(dev: u8, d: D, pwm: u8) -> Txn {
    Txn::Write { addr: dev, data: seq![pwm_addr(d), pwm] }
}

/// The per-channel control register address of an LED line: the control base
/// plus the channel index.
pub open spec fn ctrl_addr(d: D) -> u8 {
    (reg::D_CTRL_BASE + d_index(d)) as u8
}

/// A control byte after switching its dimming scale: the logarithmic-enable
/// bit set or cleared, every other bit unchanged.
pub open spec fn with_scale(v: u8, logarithmic: bool) -> u8 {
    if logarithmic {
        v | reg::CTRL_LOG_EN
    } else {
        v & !reg::CTRL_LOG_EN
    }
}

/// Switching a channel's dimming scale touches only the logarithmic-enable
/// bit of the control byte: every other bit is preserved, and the bit itself
/// ends up set exactly when the scale is logarithmic.
pub proof fn lemma_with_scale_changes_only_log_bit(v: u8, logarithmic: bool)
    ensures
        with_scale(v, logarithmic) & !reg::CTRL_LOG_EN == v & !reg::CTRL_LOG_EN,
        (with_scale(v, logarithmic) & reg::CTRL_LOG_EN == reg::CTRL_LOG_EN) == logarithmic,
{
    if logarithmic {
        assert((v | reg::CTRL_LOG_EN) & !reg::CTRL_LOG_EN == v & !reg::CTRL_LOG_EN)
            by (bit_vector);
        assert((v | reg::CTRL_LOG_EN) & reg::CTRL_LOG_EN == reg::CTRL_LOG_EN) by (bit_vector);
    } else {
        assert((v & !reg::CTRL_LOG_EN) & !reg::CTRL_LOG_EN == v & !reg::CTRL_LOG_EN)
            by (bit_vector);
        assert((v & !reg::CTRL_LOG_EN) & reg::CTRL_LOG_EN != reg::CTRL_LOG_EN) by (bit_vector);
    }
}

/// Setting the logarithmic bit and then clearing it restores the original
/// control byte exactly, provided the bit was clear to begin with; and
/// symmetrically, clearing and then setting it restores a byte that had the
/// bit set.
pub proof fn lemma_scale_round_trip(v: u8)
    ensures
        v & reg::CTRL_LOG_EN == 0 ==> with_scale(with_scale(v, true), false) == v,
        v & reg::CTRL_LOG_EN == reg::CTRL_LOG_EN ==> with_scale(with_scale(v, false), true) == v,
{
    assert(v & reg::CTRL_LOG_EN == 0 ==> (v | reg::CTRL_LOG_EN) & !reg::CTRL_LOG_EN == v)
        by (bit_vector);
    assert(v & reg::CTRL_LOG_EN == reg::CTRL_LOG_EN ==> (v & !reg::CTRL_LOG_EN)
        | reg::CTRL_LOG_EN == v) by (bit_vector);
}

/// Positions `j` and `j + 1` of the transaction log hold one channel's
/// read-modify-write: a read of the line's control register that returned
/// some byte, then a write back of that byte with the logarithmic-enable bit
/// set or cleared and all other bits preserved.
pub open spec fn scale_step_at(t: Seq<Txn>, j: int, dev: u8, d: D, logarithmic: bool) -> bool {
    &&& t[j] matches Txn::WriteRead { addr, reg: rg, response } && addr == dev && rg == ctrl_addr(
        d,
    ) && t[j + 1] == (Txn::Write {
        addr: dev,
        data: seq![ctrl_addr(d), with_scale(response, logarithmic)],
    })
}

/// From position `base` on, the transaction log holds the read-modify-write
/// pair of each LED line of `leds`, in input order.
pub open spec fn scale_trace_from(
    t: Seq<Txn>,
    base: int,
    dev: u8,
    leds: Seq<D>,
    logarithmic: bool,
) -> bool {
    forall|i: int| #![trigger leds[i]]
        0 <= i < leds.len() ==> scale_step_at(t, base + 2 * i, dev, leds[i], logarithmic)
}

/// A scale-mode pass over `leds` that stopped at channel `k` on a transport
/// failure: the log `t` extends `t0` with the complete read-modify-write
/// pairs of the first `k` channels, and then either nothing (channel `k`'s
/// read failed) or channel `k`'s read alone (its write-back failed). No
/// transaction of any later channel was issued.
pub open spec fn scale_stopped_at(
    t0: Seq<Txn>,
    t: Seq<Txn>,
    dev: u8,
    leds: Seq<D>,
    logarithmic: bool,
    k: int,
) -> bool {
    &&& 0 <= k < leds.len()
    &&& t.subrange(0, t0.len() as int) == t0
    &&& scale_trace_from(t, t0.len() as int, dev, leds.subrange(0, k), logarithmic)
    &&& (t.len() == t0.len() + 2 * k || (t.len() == t0.len() + 2 * k + 1 && (t[t0.len() + 2 * k]
        matches Txn::WriteRead { addr, reg: rg, .. } && addr == dev && rg == ctrl_addr(leds[k]))))
}

/// A trace of read-modify-write pairs is insensitive to transactions appended
/// after it.
proof fn lemma_scale_trace_push(
    t: Seq<Txn>,
    x: Txn,
    base: int,
    dev: u8,
    leds: Seq<D>,
    logarithmic: bool,
)
    requires
        0 <= base,
        base + 2 * leds.len() <= t.len(),
        scale_trace_from(t, base, dev, leds, logarithmic),
    ensures
        scale_trace_from(t.push(x), base, dev, leds, logarithmic),
{
    assert forall|i: int| 0 <= i < leds.len() implies scale_step_at(
        t.push(x),
        base + 2 * i,
        dev,
        #[trigger] leds[i],
        logarithmic,
    ) by {
        assert(scale_step_at(t, base + 2 * i, dev, leds[i], logarithmic));
        assert(t.push(x)[base + 2 * i] == t[base + 2 * i]);
        assert(t.push(x)[base + 2 * i + 1] == t[base + 2 * i + 1]);
    }
}

/// The LP55231 device: the owned bus transport, the optional power pin, the
/// shifted bus address, and whether the device has been enabled.
pub struct Lp55231<I, P> {
    /// The owned bus transport
    i2c: I,
    /// The owned power-enable pin
    en_pin: Option<P>,
    /// The bus address of this device, pre-shifted for the transport's
    /// addressing convention
    addr: u8,
    /// Has the LP55231 been enabled
    en: bool,
}

impl<I, P> Lp55231<I, P> where I: SerialBus, P: EnablePin {
    /// Whether the device has completed `enable` and not since been disabled.
    pub closed spec fn is_enabled(&self) -> bool {
        self.en
    }

    /// The shifted bus address this handle sends to.
    pub closed spec fn bus_addr(&self) -> u8 {
        self.addr
    }

    /// The transactions the owned transport has completed, oldest first.
    pub closed spec fn txns(&self) -> Seq<Txn> {
        self.i2c.txns()
    }

    /// Whether this handle owns a power-enable pin.
    pub closed spec fn has_pin(&self) -> bool {
        self.en_pin is Some
    }

    /// Whether the owned power-enable pin, if any, is driven high.
    pub closed spec fn pin_set_high(&self) -> bool {
        match self.en_pin {
            Some(p) => p.is_set_high(),
            None => false,
        }
    }

    /// Create a new instance of an LP55231 that exclusively owns its bus
    /// transport. Optionally takes a power control pin. Pure construction: no
    /// bus traffic, and the device starts out not enabled.
    pub fn new(i2c: I, en_pin: Option<P>, addr: Addr) -> (dev: Self)
        ensures
            !dev.is_enabled(),
            dev.bus_addr() == 2 * addr_value(addr),
            dev.txns() == i2c.txns(),
            dev.has_pin() == (en_pin is Some),
            dev.pin_set_high() == (en_pin matches Some(p) && p.is_set_high()),
    {
        let a: u8 = u8::from(addr);
        proof {
            assert(a << 1 == 2 * a) by (bit_vector)
                requires
                    a <= 0x35,
            ;
        }
        Lp55231{ i2c, en_pin, addr: a << 1, en: false }
    }

    /// The parts of the handle that no operation but `enable` and `disable`
    /// may change: the enabled flag, the bus address, and the power pin.
    pub open spec fn same_but_txns(pre: Self, post: Self) -> bool {
        &&& post.is_enabled() == pre.is_enabled()
        &&& post.bus_addr() == pre.bus_addr()
        &&& post.has_pin() == pre.has_pin()
        &&& post.pin_set_high() == pre.pin_set_high()
    }

    /// Write `data` to the device as one bus transaction, provided the device
    /// has been enabled; fail fast with `NotEnabled` otherwise, before
    /// touching the bus.
    fn send(&mut self, data: &[u8]) -> (r: Result<(), Error<I::BusError>>)
        ensures
            Self::same_but_txns(*old(self), *final(self)),
            match r {
                Ok(()) => old(self).is_enabled() && final(self).txns() == old(self).txns().push(
                    Txn::Write { addr: old(self).bus_addr(), data: data@ },
                ),
                Err(Error::NotEnabled) => !old(self).is_enabled() && final(self).txns() == old(
                    self,
                ).txns(),
                Err(Error::I2cError(_)) => old(self).is_enabled() && final(self).txns() == old(
                    self,
                ).txns(),
            },
    {
        if self.en {
            match self.i2c.bus_write(self.addr, data) {
                Ok(()) => Ok(()),
                Err(e) => Err(Error::I2cError(e)),
            }
        } else {
            Err(Error::NotEnabled)
        }
    }

    /// Write the register index to the device, then read that register's
    /// current value back, as one bus transaction, provided the device has
    /// been enabled; fail fast with `NotEnabled` otherwise, before touching
    /// the bus.
    fn read(&mut self, register: u8) -> (r: Result<u8, Error<I::BusError>>)
        ensures
            Self::same_but_txns(*old(self), *final(self)),
            match r {
                Ok(v) => old(self).is_enabled() && final(self).txns() == old(self).txns().push(
                    Txn::WriteRead { addr: old(self).bus_addr(), reg: register, response: v },
                ),
                Err(Error::NotEnabled) => !old(self).is_enabled() && final(self).txns() == old(
                    self,
                ).txns(),
                Err(Error::I2cError(_)) => old(self).is_enabled() && final(self).txns() == old(
                    self,
                ).txns(),
            },
    {
        if self.en {
            match self.i2c.bus_write_read(self.addr, register) {
                Ok(v) => Ok(v),
                Err(e) => Err(Error::I2cError(e)),
            }
        } else {
            Err(Error::NotEnabled)
        }
    }

    /// Enable the device for use.
    ///
    /// Drives the power pin high when one is present, marks the device
    /// enabled, and issues in order: a write of CNTRL1 with the chip-enable
    /// bit, then a write of MISC configuring the internal clock, clock
    /// detection, 1.5x charge-pump boost and address auto-increment. The chip
    /// needs about half a millisecond of settling time after power-on before
    /// it accepts bus traffic; timing primitives are the host's concern, so a
    /// caller that just powered the device should allow for that. On a bus
    /// failure the error is propagated and the device stays marked enabled, so
    /// a retried `enable` reissues both writes.
    pub fn enable(&mut self) -> (r: Result<(), Error<I::BusError>>)
        ensures
            final(self).is_enabled(),
            final(self).bus_addr() == old(self).bus_addr(),
            final(self).has_pin() == old(self).has_pin(),
            old(self).has_pin() ==> final(self).pin_set_high(),
            !old(self).has_pin() ==> final(self).pin_set_high() == old(self).pin_set_high(),
            match r {
                Ok(()) => final(self).txns() == old(self).txns().push(
                    cntrl1_enable_txn(old(self).bus_addr()),
                ).push(misc_config_txn(old(self).bus_addr())),
                Err(Error::NotEnabled) => false,
                Err(Error::I2cError(_)) => final(self).txns() == old(self).txns() || final(self).txns() == old(self).txns().push(cntrl1_enable_txn(old(self).bus_addr())),
            },
    {
        match &mut self.en_pin {
            Some(p) => p.set_high(),
            None => {},
        }
        self.en = true;
        let cmd1: [u8; 2] = [reg::CNTRL1, reg::CNTRL1_CHIP_EN];
        match self.send(cmd1.as_slice()) {
            Ok(()) => {},
            Err(e) => {
                return Err(e);
            },
        }
        let misc: u8 = reg::MISC_INT_CLK_EN | reg::MISC_CLK_DET_EN | reg::MISC_CP_MODE_1_5X
            | reg::MISC_EN_AUTO_INCR;
        let cmd2: [u8; 2] = [reg::MISC, misc];
        match self.send(cmd2.as_slice()) {
            Ok(()) => Ok(()),
            Err(e) => Err(e),
        }
    }

    /// Turn off the device.
    ///
    /// Drives the power pin low when one is present and marks the device not
    /// enabled. Strictly a local and physical state change: no bus transaction
    /// is issued, and a later `enable` is required before further register
    /// traffic.
    pub fn disable(&mut self)
        ensures
            !final(self).is_enabled(),
            final(self).txns() == old(self).txns(),
            final(self).bus_addr() == old(self).bus_addr(),
            final(self).has_pin() == old(self).has_pin(),
            old(self).has_pin() ==> !final(self).pin_set_high(),
            !old(self).has_pin() ==> final(self).pin_set_high() == old(self).pin_set_high(),
    {
        match &mut self.en_pin {
            Some(p) => p.set_low(),
            None => {},
        }
        self.en = false;
    }

    /// Soft-reset the device now by writing the magic all-bits-set byte to
    /// the RESET register, forcing the chip back to its power-on defaults.
    ///
    /// The local enabled flag is not cleared: the caller must treat the
    /// device as disabled afterward and run `enable` again before further
    /// use.
    pub fn reset(&mut self) -> (r: Result<(), Error<I::BusError>>)
        ensures
            Self::same_but_txns(*old(self), *final(self)),
            match r {
                Ok(()) => old(self).is_enabled() && final(self).txns() == old(self).txns().push(
                    reset_txn(old(self).bus_addr()),
                ),
                Err(Error::NotEnabled) => !old(self).is_enabled() && final(self).txns() == old(
                    self,
                ).txns(),
                Err(Error::I2cError(_)) => old(self).is_enabled() && final(self).txns() == old(
                    self,
                ).txns(),
            },
    {
        let cmd: [u8; 2] = [reg::RESET, reg::RESET_NOW];
        match self.send(cmd.as_slice()) {
            Ok(()) => Ok(()),
            Err(e) => Err(e),
        }
    }

    /// Set the LED line to the provided PWM duty value, as exactly one write
    /// transaction to the line's own PWM register. The chip does not support
    /// address auto-increment over the PWM range, so no multi-byte burst is
    /// ever issued here.
    pub fn set_pwm(&mut self, d: D, pwm: u8) -> (r: Result<(), Error<I::BusError>>)
        ensures
            Self::same_but_txns(*old(self), *final(self)),
            match r {
                Ok(()) => old(self).is_enabled() && final(self).txns() == old(self).txns().push(
                    pwm_txn(old(self).bus_addr(), d, pwm),
                ),
                Err(Error::NotEnabled) => !old(self).is_enabled() && final(self).txns() == old(
                    self,
                ).txns(),
                Err(Error::I2cError(_)) => old(self).is_enabled() && final(self).txns() == old(
                    self,
                ).txns(),
            },
    {
        proof {
            assert(d_index(d) <= 8);
        }
        let cmd: [u8; 2] = [reg::D_PWM_BASE + u8::from(d), pwm];
        match self.send(cmd.as_slice()) {
            Ok(()) => Ok(()),
            Err(e) => Err(e),
        }
    }

    /// What switching the dimming scale of `leds` guarantees. On success the
    /// log gained exactly one read-modify-write pair per LED line, in input
    /// order. Before `enable` the operation fails fast with `NotEnabled` and
    /// the log is untouched. On a transport failure the pass stopped at the
    /// failing channel: earlier channels stay modified, later ones were never
    /// touched. The enabled flag, the address and the pin never change.
    pub open spec fn scale_mode_post(
        pre: Self,
        post: Self,
        r: Result<(), Error<I::BusError>>,
        leds: Seq<D>,
        logarithmic: bool,
    ) -> bool {
        &&& Self::same_but_txns(pre, post)
        &&& match r {
            Ok(()) => {
                &&& pre.is_enabled()
                &&& post.txns().len() == pre.txns().len() + 2 * leds.len()
                &&& post.txns().subrange(0, pre.txns().len() as int) == pre.txns()
                &&& scale_trace_from(
                    post.txns(),
                    pre.txns().len() as int,
                    pre.bus_addr(),
                    leds,
                    logarithmic,
                )
            },
            Err(Error::NotEnabled) => !pre.is_enabled() && post.txns() == pre.txns(),
            Err(Error::I2cError(_)) => {
                &&& pre.is_enabled()
                &&& exists|k: int|
                    #[trigger] scale_stopped_at(
                        pre.txns(),
                        post.txns(),
                        pre.bus_addr(),
                        leds,
                        logarithmic,
                        k,
                    )
            },
        }
    }

    /// For each LED line in input order, independently: read the line's
    /// control register, set or clear the logarithmic-enable bit while
    /// preserving every other bit, and write the byte back. A failure aborts
    /// the pass at the failing channel and propagates the error.
    #[verifier::rlimit(50)]
    fn set_scale(&mut self, leds: &[D], logarithmic: bool) -> (r: Result<
        (),
        Error<I::BusError>,
    >)
        ensures
            Self::scale_mode_post(*old(self), *final(self), r, leds@, logarithmic),
    {
        if !self.en {
            return Err(Error::NotEnabled);
        }
        let ghost t0 = self.i2c.txns();
        let mut idx: usize = 0;
        while idx < leds.len()
            invariant
                self.en == old(self).en,
                self.en,
                self.addr == old(self).addr,
                self.has_pin() == old(self).has_pin(),
                self.pin_set_high() == old(self).pin_set_high(),
                idx <= leds@.len(),
                t0 == old(self).txns(),
                self.i2c.txns().len() == t0.len() + 2 * idx,
                self.i2c.txns().subrange(0, t0.len() as int) == t0,
                scale_trace_from(
                    self.i2c.txns(),
                    t0.len() as int,
                    self.addr,
                    leds@.subrange(0, idx as int),
                    logarithmic,
                ),
            decreases leds@.len() - idx,
        {
            let d = leds[idx];
            proof {
                assert(d_index(d) <= 8);
            }
            let ra: u8 = reg::D_CTRL_BASE + u8::from(d);
            let ghost t_before = self.i2c.txns();
            let v = match self.read(ra) {
                Ok(v) => v,
                Err(e) => {
                    proof {
                        assert(scale_stopped_at(
                            t0,
                            self.i2c.txns(),
                            self.addr,
                            leds@,
                            logarithmic,
                            idx as int,
                        ));
                        assert(Self::same_but_txns(*old(self), *self));
                        assert(!(e is NotEnabled));
                        assert(exists|k: int|
                            scale_stopped_at(
                                old(self).txns(),
                                self.txns(),
                                old(self).bus_addr(),
                                leds@,
                                logarithmic,
                                k,
                            ));
                    }
                    return Err(e);
                },
            };
            let ghost t_mid = self.i2c.txns();
            let nv: u8 = if logarithmic {
                v | reg::CTRL_LOG_EN
            } else {
                v & !reg::CTRL_LOG_EN
            };
            let cmd: [u8; 2] = [ra, nv];
            match self.send(cmd.as_slice()) {
                Ok(()) => {},
                Err(e) => {
                    proof {
                        assert(t_mid.subrange(0, t0.len() as int) =~= t0);
                        lemma_scale_trace_push(
                            t_before,
                            t_mid[t_mid.len() - 1],
                            t0.len() as int,
                            self.addr,
                            leds@.subrange(0, idx as int),
                            logarithmic,
                        );
                        assert(scale_stopped_at(
                            t0,
                            self.i2c.txns(),
                            self.addr,
                            leds@,
                            logarithmic,
                            idx as int,
                        ));
                        assert(Self::same_but_txns(*old(self), *self));
                        assert(!(e is NotEnabled));
                        assert(exists|k: int|
                            scale_stopped_at(
                                old(self).txns(),
                                self.txns(),
                                old(self).bus_addr(),
                                leds@,
                                logarithmic,
                                k,
                            ));
                    }
                    return Err(e);
                },
            }
            idx += 1;
            proof {
                let t_new = self.i2c.txns();
                let base = t0.len() as int;
                assert(t_new.subrange(0, base) =~= t0);
                lemma_scale_trace_push(
                    t_before,
                    t_mid[t_mid.len() - 1],
                    base,
                    self.addr,
                    leds@.subrange(0, idx - 1),
                    logarithmic,
                );
                lemma_scale_trace_push(
                    t_mid,
                    t_new[t_new.len() - 1],
                    base,
                    self.addr,
                    leds@.subrange(0, idx - 1),
                    logarithmic,
                );
                assert(t_new[base + 2 * (idx - 1)] == t_mid[t_mid.len() - 1]);
                assert(scale_step_at(t_new, base + 2 * (idx - 1), self.addr, d, logarithmic));
                assert forall|i: int| 0 <= i < idx as int implies scale_step_at(
                    t_new,
                    base + 2 * i,
                    self.addr,
                    #[trigger] leds@.subrange(0, idx as int)[i],
                    logarithmic,
                ) by {
                    if i < idx - 1 {
                        assert(scale_step_at(
                            t_new,
                            base + 2 * i,
                            self.addr,
                            leds@.subrange(0, idx - 1)[i],
                            logarithmic,
                        ));
                    }
                }
            }
        }
        proof {
            assert(leds@.subrange(0, leds@.len() as int) =~= leds@);
        }
        Ok(())
    }

    /// Give the owned bus transport and power pin back, consuming the
    /// handle. What the transport carried out and the level of the pin are
    /// exactly what the handle's operations promised.
    pub fn release(self) -> (r: (I, Option<P>))
        ensures
            r.0.txns() == self.txns(),
            (r.1 is Some) == self.has_pin(),
            r.1 matches Some(p) ==> p.is_set_high() == self.pin_set_high(),
    {
        (self.i2c, self.en_pin)
    }

    /// Switch the given LED lines to logarithmic dimming scale, one
    /// read-modify-write pair per line in input order, preserving each line's
    /// fader-group mapping and temperature-compensation bits.
    pub fn set_logarithmic(&mut self, leds: &[D]) -> (r: Result<(), Error<I::BusError>>)
        ensures
            Self::scale_mode_post(*old(self), *final(self), r, leds@, true),
    {
        self.set_scale(leds, true)
    }

    /// Switch the given LED lines to linear dimming scale, one
    /// read-modify-write pair per line in input order, preserving each line's
    /// fader-group mapping and temperature-compensation bits.
    pub fn set_linear(&mut self, leds: &[D]) -> (r: Result<(), Error<I::BusError>>)
        ensures
            Self::scale_mode_post(*old(self), *final(self), r, leds@, false),
    {
        self.set_scale(leds, false)
    }
}

} // verus!
