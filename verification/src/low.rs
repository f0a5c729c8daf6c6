//! Low-level GPIO building blocks: what a platform supplies, and the handle
//! through which the typed pins reach it.

use vstd::prelude::*;

pub mod io;
pub mod register;

verus! {

/// Abstraction representing a GPIO bank on the target platform.
///
/// A bank stands for one register block of kind `R`. A platform implements
/// `Bank<R>` for each of its banks by saying where the block is; the typed
/// pins borrow the block from the bank for the length of one operation.
pub trait Bank<R: register::GpioRegisters> {
    /// The register block this bank resolves to.
    spec fn registers(&self) -> R;

    /// Return a new `Gpio` handle over the bank's register block.
    ///
    /// This default implementation calls `addr()` and wraps what it returns.
    fn get_handle(&mut self) -> (gpio: io::Gpio<'_, R>)
        ensures
            gpio.block() == old(self).registers(),
            final(self).registers() == *final(gpio.registers),
    {
        io::Gpio::new(self.addr())
    }

    /// Return the register block for this bank.
    ///
    /// The block borrowed is the bank's own, and what the borrower leaves in
    /// it is what the bank resolves to afterwards.
    fn addr(&mut self) -> (block: &mut R)
        ensures
            *block == old(self).registers(),
            final(self).registers() == *final(block),
    ;
}

} // verus!
