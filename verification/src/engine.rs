//! The chip-engine interface and a recording test engine.
//!
//! The waveform synthesis itself is done by an external chip engine. The
//! library reaches it through [`ChipEngine`], an injected capability with two
//! register banks, a reset, and a per-tick sample pull, so that the register
//! sequencing and the resampling logic can be driven against any engine —
//! including [`FakeEngine`], which records every register write and emits a
//! fixed sample, for tests.

use vstd::prelude::*;

verus! {

/// One of the two physically distinct register address spaces of the chip.
#[derive(Clone, Copy, PartialEq, Eq, Structural, Debug)]
pub enum Bank {
    /// The low register bank.
    Low,
    /// The high register bank.
    High,
}

/// One register write: a bank, an address and the byte written there.
#[derive(Clone, Copy, PartialEq, Eq, Structural, Debug)]
pub struct RegWrite {
    /// The register bank written to.
    pub bank: Bank,
    /// The register address within the bank.
    pub addr: u8,
    /// The byte written.
    pub data: u8,
}

/// The operations the library needs from a chip engine. The `writes` view is
/// the log of register writes issued through this interface, in order; every
/// operation's contract says exactly how it grows.
pub trait ChipEngine {
    /// The register writes issued through this interface so far, in order.
    /// An engine that records writes overrides this view; the default (an
    /// empty log) is only for engines outside the verified world, of which
    /// nothing is proved.
    open spec fn writes(&self) -> Seq<RegWrite> {
        Seq::empty()
    }

    /// The engine's fixed native sample rate. An engine in the verified
    /// world overrides this view; the default is only for engines outside
    /// it, of which nothing is proved.
    open spec fn native_rate(&self) -> u32 {
        0
    }

    /// How many times the chip has been reset through this interface. An
    /// engine in the verified world overrides this view; the default is only
    /// for engines outside it, of which nothing is proved.
    open spec fn resets(&self) -> nat {
        0
    }

    /// Reports the native sample rate at which the engine produces ticks.
    fn sample_rate(&self) -> (r: u32)
        ensures
            r == self.native_rate(),
    ;

    /// Resets the chip to its power-on state. No register write is issued
    /// through this interface.
    fn reset(&mut self)
        ensures
            final(self).writes() == old(self).writes(),
            final(self).native_rate() == old(self).native_rate(),
            final(self).resets() == old(self).resets() + 1,
    ;

    /// Writes one byte to a register of the low bank.
    fn write_low(&mut self, addr: u8, data: u8)
        ensures
            final(self).writes() == old(self).writes().push(
                RegWrite { bank: Bank::Low, addr, data },
            ),
            final(self).native_rate() == old(self).native_rate(),
            final(self).resets() == old(self).resets(),
    ;

    /// Writes one byte to a register of the high bank.
    fn write_high(&mut self, addr: u8, data: u8)
        ensures
            final(self).writes() == old(self).writes().push(
                RegWrite { bank: Bank::High, addr, data },
            ),
            final(self).native_rate() == old(self).native_rate(),
            final(self).resets() == old(self).resets(),
    ;

    /// Produces the next native-rate stereo sample. Nothing is promised of
    /// the sample values; no register write is issued.
    fn tick(&mut self) -> (s: (i16, i16))
        ensures
            final(self).writes() == old(self).writes(),
            final(self).native_rate() == old(self).native_rate(),
            final(self).resets() == old(self).resets(),
    ;
}

/// A stand-in engine for tests: it records every register write in order and
/// emits the same configured stereo sample on every tick.
pub struct FakeEngine {
    /// Every register write received, in order.
    pub log: Vec<RegWrite>,
    /// How many times the engine has been reset.
    pub reset_count: Ghost<nat>,
    /// The native sample rate the engine reports.
    pub rate: u32,
    /// The left sample emitted on every tick.
    pub left: i16,
    /// The right sample emitted on every tick.
    pub right: i16,
}

impl FakeEngine {
    /// Creates a recording engine with the given native rate and fixed
    /// stereo output.
    pub fn new(rate: u32, left: i16, right: i16) -> (r: FakeEngine)
        ensures
            r.writes() == Seq::<RegWrite>::empty(),
            r.native_rate() == rate,
            r.resets() == 0,
            r.left == left,
            r.right == right,
    {
        let r = FakeEngine { log: Vec::new(), reset_count: Ghost(0), rate, left, right };
        proof {
            assert(r.log@ =~= Seq::<RegWrite>::empty());
        }
        r
    }
}

impl ChipEngine for FakeEngine {
    open spec fn writes(&self) -> Seq<RegWrite> {
        self.log@
    }

    open spec fn native_rate(&self) -> u32 {
        self.rate
    }

    open spec fn resets(&self) -> nat {
        self.reset_count@
    }

    fn sample_rate(&self) -> (r: u32) {
        self.rate
    }

    fn reset(&mut self) {
        self.reset_count = Ghost(self.reset_count@ + 1);
    }

    fn write_low(&mut self, addr: u8, data: u8) {
        self.log.push(RegWrite { bank: Bank::Low, addr, data });
    }

    fn write_high(&mut self, addr: u8, data: u8) {
        self.log.push(RegWrite { bank: Bank::High, addr, data });
    }

    fn tick(&mut self) -> (s: (i16, i16)) {
        (self.left, self.right)
    }
}

} // verus!
