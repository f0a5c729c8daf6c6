//! The register contract: the four operations a platform supplies for its
//! register block, and what each of them owes its caller.

use vstd::prelude::*;
use crate::model::BlockState;
use crate::signal::{Interrupt, IoDir, Level};

verus! {

/// Represents the hardware register interface for a GPIO bank.
///
/// A platform implements this once for each kind of register block. The
/// operations are per pin: masking a pin out of a register shared by many is
/// the implementer's part, as are volatile access and, where interrupts or
/// other cores reach the same block, the discipline that keeps one operation
/// from tearing another.
///
/// Nothing here is proved of an implementation outside this crate: whatever is
/// verified on top of a block holds for those blocks that do what the clauses
/// below say.
pub trait GpioRegisters {
    /// The block as the contracts see it: what each pin is programmed to
    /// and the programming accesses taken so far.
    spec fn view(&self) -> BlockState;

    /// Whether `level` is a level that sampling `pin` may yield while the
    /// block is in this state.
    ///
    /// A block over live hardware admits either level for an input pin; a
    /// simulated block admits the one level it holds for the pin.
    spec fn samples(&self, pin: u32, level: Level) -> bool;

    /// Set the direction of a single pin.
    fn set_dir(&mut self, pin: u32, dir: IoDir)
        ensures
            final(self)@ == old(self)@.with_dir(pin, dir),
    ;

    /// Configure the interrupt mode for a single pin.
    fn set_interrupt(&mut self, pin: u32, interrupt: Interrupt)
        ensures
            final(self)@ == old(self)@.with_interrupt(pin, interrupt),
    ;

    /// Sample the current level of a single pin.
    ///
    /// Reading programs nothing. It samples live state, so two reads may
    /// differ, and all that is promised of the result is that the block
    /// admits it.
    fn read(&self, pin: u32) -> (level: Level)
        ensures
            self.samples(pin, level),
    ;

    /// Drive a single pin to `level`.
    fn write(&mut self, pin: u32, level: Level)
        ensures
            final(self)@ == old(self)@.with_level(pin, level),
    ;
}

} // verus!
