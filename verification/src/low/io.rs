//! The register handle: the one place through which a register block is
//! reached.

use vstd::prelude::*;
use crate::low::register::GpioRegisters;
use crate::signal::{Interrupt, IoDir, Level};

verus! {

/// Handle to a GPIO register block.
///
/// The handle holds the exclusive borrow of one block for as long as it
/// lives and forwards each operation of [`GpioRegisters`] to it. A bank hands
/// handles out through `Bank::get_handle`; when a handle is dropped the block
/// goes back to the bank as the handle left it.
///
/// Each contract of a changing operation says two things: what the operation
/// does to the block as the handle sees it, [`Gpio::block`], and that the
/// handle still holds the same borrow, so that `*final(self.registers)`, the
/// block as the bank will find it, is the block as the last operation left it.
#[non_exhaustive]
pub struct Gpio<'a, R: GpioRegisters> {
    /// The borrowed register block.
    pub registers: &'a mut R,
}

impl<'a, R> Gpio<'a, R> where R: GpioRegisters {
    /// The register block as the handle sees it now.
    pub open spec fn block(&self) -> R {
        *self.registers
    }

    /// Create a new `Gpio` handle over a borrowed register block.
    ///
    /// Code outside this module obtains its handles from a `Bank`.
    pub(super) fn new(registers: &'a mut R) -> (gpio: Self)
        ensures
            gpio.block() == *old(registers),
            *final(gpio.registers) == *final(registers),
    {
        Self { registers }
    }

    /// Set the direction for `pin` by delegating to the register impl.
    #[inline]
    pub fn set_dir(&mut self, pin: u32, dir: IoDir)
        ensures
            final(self).block()@ == old(self).block()@.with_dir(pin, dir),
            *final(final(self).registers) == *final(old(self).registers),
    {
        self.registers.set_dir(pin, dir);
    }

    /// Configure the interrupt mode for `pin`.
    #[inline]
    pub fn set_interrupt(&mut self, pin: u32, interrupt: Interrupt)
        ensures
            final(self).block()@ == old(self).block()@.with_interrupt(pin, interrupt),
            *final(final(self).registers) == *final(old(self).registers),
    {
        self.registers.set_interrupt(pin, interrupt);
    }

    /// Sample the current level of `pin`.
    #[inline]
    pub fn read(&self, pin: u32) -> (level: Level)
        ensures
            self.block().samples(pin, level),
    {
        self.registers.read(pin)
    }

    /// Drive `pin` to `level`.
    #[inline]
    pub fn write(&mut self, pin: u32, level: Level)
        ensures
            final(self).block()@ == old(self).block()@.with_level(pin, level),
            *final(final(self).registers) == *final(old(self).registers),
    {
        self.registers.write(pin, level);
    }
}

} // verus!
