//! Compile-time markers: the role of a pin, and for an output the level at
//! which it counts as active.
//!
//! A marker holds no data. Each knows how a freshly resolved register handle
//! is programmed for its role, and says so as a function on the block model.

use vstd::prelude::*;
use core::marker::PhantomData;
use core::ops::Not;
use crate::low::io::Gpio;
use crate::low::register::GpioRegisters;
use crate::model::{Access, BlockState};
use crate::private::Sealed;
use crate::signal::{Interrupt, IoDir, Level};

verus! {

/// Trait implemented by the markers that select which level of an output pin
/// is its active one.
pub trait ActiveState: Sealed {
    /// The level that counts as active.
    spec fn active_level() -> Level;

    /// The level that counts as active, at run time.
    fn active_state() -> (level: Level)
        ensures
            level == Self::active_level(),
    ;
}

/// Marker type for an output that is active when driven high.
///
/// Use as `Output<High>`.
pub struct High;

impl ActiveState for High {
    open spec fn active_level() -> Level {
        Level::High
    }

    fn active_state() -> Level {
        Level::High
    }
}

/// Marker type for an output that is active when driven low.
///
/// Use as `Output<Low>`.
pub struct Low;

impl ActiveState for Low {
    open spec fn active_level() -> Level {
        Level::Low
    }

    fn active_state() -> Level {
        Level::Low
    }
}

/// Trait implemented by direction marker types (`Input`, `Output`).
///
/// This trait is sealed: the pin handle's operations are defined over the two
/// known directions and there is no behaviour for a third.
pub trait Direction: Sealed {
    /// The block `block` once `pin` has been programmed for this role.
    spec fn programmed(block: BlockState, pin: u32) -> BlockState;

    /// Program `pin` for this role on the provided GPIO bank handle.
    fn init<R>(gpio: &mut Gpio<R>, pin: u32) where R: GpioRegisters
        ensures
            final(gpio).block()@ == Self::programmed(old(gpio).block()@, pin),
            *final(final(gpio).registers) == *final(old(gpio).registers),
    ;
}

/// Marker type for an input pin.
///
/// Inputs are initialized with interrupts disabled and can be configured
/// via `set_interrupt`.
pub struct Input;

impl Direction for Input {
    /// Direction in, then interrupts off.
    open spec fn programmed(block: BlockState, pin: u32) -> BlockState {
        block.with_dir(pin, IoDir::In).with_interrupt(pin, Interrupt::Off)
    }

    fn init<R>(gpio: &mut Gpio<R>, pin: u32) where R: GpioRegisters
        ensures
            final(gpio).block()@.pin(pin).dir == IoDir::In,
            final(gpio).block()@.pin(pin).interrupt == Interrupt::Off,
    {
        gpio.set_dir(pin, IoDir::In);
        gpio.set_interrupt(pin, Interrupt::Off);
    }
}

impl Input {
    /// Initialisation leaves an input with its interrupt off, whatever the
    /// block held before.
    pub proof fn lemma_init_leaves_interrupt_off(block: BlockState, pin: u32)
        ensures
            Self::programmed(block, pin).pin(pin).interrupt == Interrupt::Off,
            Self::programmed(block, pin).pin(pin).dir == IoDir::In,
    {
    }

    /// Initialisation takes two accesses, in this order: the direction of the
    /// pin is set to in, then its interrupt is turned off.
    pub proof fn lemma_init_accesses(block: BlockState, pin: u32)
        ensures
            Self::programmed(block, pin).accesses == block.accesses.push(
                Access::SetDir(pin, IoDir::In),
            ).push(Access::SetInterrupt(pin, Interrupt::Off)),
    {
    }

    /// Initialisation leaves every other pin as it was, and drives none.
    pub proof fn lemma_init_leaves_other_pins(block: BlockState, pin: u32, other: u32)
        requires
            other != pin,
        ensures
            Self::programmed(block, pin).pin(other) == block.pin(other),
            Self::programmed(block, pin).pin(pin).level == block.pin(pin).level,
    {
    }
}

/// Marker type for an output pin.
///
/// `Output<S>` carries a phantom type parameter `S` which implements
/// `ActiveState` and selects the level at which the pin is active. The
/// selection lives in the type alone; nothing of it is written to the block.
pub struct Output<S: ActiveState> {
    default: PhantomData<S>,
}

impl<S: ActiveState> Output<S> {
    /// The level at which an output of this polarity is inactive.
    pub open spec fn inactive_level() -> Level {
        S::active_level().inverted()
    }

    /// The block `block` once `pin` has been driven to its active level.
    pub open spec fn activated(block: BlockState, pin: u32) -> BlockState {
        block.with_level(pin, S::active_level())
    }

    /// The block `block` once `pin` has been driven to its inactive level.
    pub open spec fn deactivated(block: BlockState, pin: u32) -> BlockState {
        block.with_level(pin, Self::inactive_level())
    }
}

impl<S: ActiveState> Direction for Output<S> {
    /// Direction out, then the inactive level.
    open spec fn programmed(block: BlockState, pin: u32) -> BlockState {
        Self::deactivated(block.with_dir(pin, IoDir::Out), pin)
    }

    fn init<R>(gpio: &mut Gpio<R>, pin: u32) where R: GpioRegisters
        ensures
            final(gpio).block()@.pin(pin).dir == IoDir::Out,
            final(gpio).block()@.pin(pin).level == Self::inactive_level(),
    {
        let active_state = S::active_state();
        gpio.set_dir(pin, IoDir::Out);
        // The pin starts inactive whichever polarity was asked for.
        gpio.write(pin, active_state.not());
    }
}

impl<S: ActiveState> Output<S> {
    /// Initialisation never leaves an output active: whatever the block held
    /// before, the pin ends at its inactive level, which is low for an
    /// output that is active high and high for one that is active low.
    pub proof fn lemma_init_leaves_inactive(block: BlockState, pin: u32)
        ensures
            Self::programmed(block, pin).pin(pin).level == Self::inactive_level(),
            Self::programmed(block, pin).pin(pin).level != S::active_level(),
            Output::<High>::programmed(block, pin).pin(pin).level == Level::Low,
            Output::<Low>::programmed(block, pin).pin(pin).level == Level::High,
    {
    }

    /// Initialisation takes two accesses, in this order: the direction of the
    /// pin is set to out, then the pin is driven to its inactive level. The
    /// pin is at no point driven to its active level.
    pub proof fn lemma_init_accesses(block: BlockState, pin: u32)
        ensures
            Self::programmed(block, pin).accesses == block.accesses.push(
                Access::SetDir(pin, IoDir::Out),
            ).push(Access::Write(pin, Self::inactive_level())),
    {
    }

    /// Initialisation leaves every other pin as it was.
    pub proof fn lemma_init_leaves_other_pins(block: BlockState, pin: u32, other: u32)
        requires
            other != pin,
        ensures
            Self::programmed(block, pin).pin(other) == block.pin(other),
    {
    }

    /// Activating an inactive pin and then deactivating it restores every
    /// pin of the block exactly.
    pub proof fn lemma_deactivate_undoes_activate(block: BlockState, pin: u32)
        requires
            block.pin(pin).level == Self::inactive_level(),
        ensures
            Self::deactivated(Self::activated(block, pin), pin).pins == block.pins,
    {
    }

    /// Activating a pin and then deactivating it leaves the pins as
    /// deactivating alone does, whatever level the pin had before.
    pub proof fn lemma_activate_then_deactivate(block: BlockState, pin: u32)
        ensures
            Self::deactivated(Self::activated(block, pin), pin).pins == Self::deactivated(
                block,
                pin,
            ).pins,
    {
    }

    /// What activating a pin leaves in the block is never what deactivating
    /// it leaves: the two differ in the level of that pin.
    pub proof fn lemma_activated_differs_from_deactivated(block: BlockState, pin: u32)
        ensures
            Self::activated(block, pin).pin(pin).level != Self::deactivated(block, pin).pin(
                pin,
            ).level,
            Self::activated(block, pin).pins != Self::deactivated(block, pin).pins,
    {
    }

    /// Deactivating a pin right after its initialisation changes no pin.
    pub proof fn lemma_deactivate_after_init_changes_nothing(block: BlockState, pin: u32)
        ensures
            Self::deactivated(Self::programmed(block, pin), pin).pins == Self::programmed(
                block,
                pin,
            ).pins,
    {
    }
}

} // verus!
