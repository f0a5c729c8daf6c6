//! The typed pin handle.

use vstd::prelude::*;
use core::marker::PhantomData;
use core::ops::Not;
use crate::low::register::GpioRegisters;
use crate::low::Bank;
use crate::marker::{ActiveState, Direction, Input, Output};
use crate::signal::{Interrupt, Level};

verus! {

/// Typed GPIO pin handle.
///
/// Generic parameters:
/// - `B`: bank type which implements `Bank<R>`.
/// - `N`: constant pin index within the bank.
/// - `R`: register block implementing `GpioRegisters`.
/// - `D`: direction marker type (`Input` or `Output`).
///
/// A handle holds nothing at run time. Which operations it has is decided by
/// `D` alone: an input can be read and have its interrupt set, an output can
/// be activated and deactivated, and neither has the other's operations.
///
/// Every operation borrows the bank for its own length and resolves the
/// register block anew. Handles do not own their pin: the bank is shared by
/// all handles over it, and keeping two handles off the same pin is up to
/// the caller.
pub struct Io<B, const N: u32, R, D> where B: Bank<R>, R: GpioRegisters {
    dir: PhantomData<D>,
    bank: PhantomData<B>,
    register: PhantomData<R>,
}

impl<B, const N: u32, R, D> Io<B, N, R, D> where B: Bank<R>, R: GpioRegisters, D: Direction {
    /// Initialize the typed IO for pin `N`.
    ///
    /// This programs the hardware for the role that the marker `D` stands
    /// for: an input with its interrupt off, an output driven to its inactive
    /// level.
    pub fn init(bank: &mut B) -> (io: Self)
        ensures
            final(bank).registers()@ == D::programmed(old(bank).registers()@, N),
    {
        let mut gpio = bank.get_handle();
        D::init(&mut gpio, N);
        Self { dir: PhantomData, bank: PhantomData, register: PhantomData }
    }
}

impl<B, const N: u32, R> Io<B, N, R, Input> where B: Bank<R>, R: GpioRegisters {
    /// Set the interrupt configuration for this input pin.
    pub fn set_interrupt(&mut self, bank: &mut B, interrupt: Interrupt)
        ensures
            final(bank).registers()@ == old(bank).registers()@.with_interrupt(N, interrupt),
            final(bank).registers()@.pin(N).interrupt == interrupt,
            *final(self) == *old(self),
    {
        let mut gpio = bank.get_handle();
        gpio.set_interrupt(N, interrupt);
    }

    /// Read the current logical level of the pin.
    ///
    /// The level is the one the register block sampled for pin `N`; the
    /// block is left as it was.
    pub fn read(&self, bank: &mut B) -> (level: Level)
        ensures
            old(bank).registers().samples(N, level),
            final(bank).registers() == old(bank).registers(),
    {
        let gpio = bank.get_handle();
        gpio.read(N)
    }
}

impl<B, const N: u32, R, S> Io<B, N, R, Output<S>> where
    B: Bank<R>,
    R: GpioRegisters,
    S: ActiveState,
{
    /// Write a logical level to the pin.
    fn write(&mut self, bank: &mut B, level: Level)
        ensures
            final(bank).registers()@ == old(bank).registers()@.with_level(N, level),
            *final(self) == *old(self),
    {
        let mut gpio = bank.get_handle();
        gpio.write(N, level);
    }

    /// Activate the pin (drive to active state).
    #[inline]
    pub fn activate(&mut self, bank: &mut B)
        ensures
            final(bank).registers()@ == Output::<S>::activated(old(bank).registers()@, N),
            *final(self) == *old(self),
    {
        self.write(bank, S::active_state());
    }

    /// Deactivate the pin (drive to inactive state).
    #[inline]
    pub fn deactivate(&mut self, bank: &mut B)
        ensures
            final(bank).registers()@ == Output::<S>::deactivated(old(bank).registers()@, N),
            *final(self) == *old(self),
    {
        self.write(bank, S::active_state().not());
    }
}

} // verus!
