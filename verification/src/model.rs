//! The mathematical model of a register block.
//!
//! A block is seen as two things: what each of its pins is programmed to, as
//! a total function from pin index to pin state, and the programming accesses
//! it has taken so far, in the order in which they came. Every contract of
//! this crate that speaks of hardware speaks of this model; how a block lays
//! its bits out stays its own business.
//!
//! The accesses are part of the model because on hardware the order of the
//! writes is part of the behaviour: two protocols that end in the same pin
//! states are still two protocols if one of them drives a pin active on the
//! way.

use vstd::prelude::*;
use crate::signal::{Interrupt, IoDir, Level};

verus! {

/// What one pin of a register block is programmed to.
#[derive(Clone, Copy, Debug, PartialEq, Eq, Structural)]
pub struct PinState {
    /// The direction the pin is wired for.
    pub dir: IoDir,
    /// The event on which the pin raises an interrupt.
    pub interrupt: Interrupt,
    /// The level the block drives the pin to.
    pub level: Level,
}

/// One programming access to a register block: the pin it names and the
/// value it carries.
#[derive(Clone, Copy, Debug, PartialEq, Eq, Structural)]
pub enum Access {
    /// The direction of a pin was set.
    SetDir(u32, IoDir),
    /// The interrupt mode of a pin was set.
    SetInterrupt(u32, Interrupt),
    /// A pin was driven to a level.
    Write(u32, Level),
}

/// A register block as the contracts see it.
#[verifier::ext_equal]
pub struct BlockState {
    /// The state of each pin, by index.
    pub pins: spec_fn(u32) -> PinState,
    /// The programming accesses taken so far, oldest first.
    pub accesses: Seq<Access>,
}

impl BlockState {
    /// The state of pin `pin`.
    pub open spec fn pin(self, pin: u32) -> PinState {
        (self.pins)(pin)
    }

    /// This block with pin `pin` in state `state`, every other pin as it is,
    /// and `access` as the latest access taken.
    pub open spec fn after(self, access: Access, pin: u32, state: PinState) -> BlockState {
        BlockState {
            pins: |p: u32|
                if p == pin {
                    state
                } else {
                    (self.pins)(p)
                },
            accesses: self.accesses.push(access),
        }
    }

    /// This block after the direction of `pin` is set to `dir`.
    pub open spec fn with_dir(self, pin: u32, dir: IoDir) -> BlockState {
        self.after(Access::SetDir(pin, dir), pin, PinState { dir, ..self.pin(pin) })
    }

    /// This block after the interrupt mode of `pin` is set to `interrupt`.
    pub open spec fn with_interrupt(self, pin: u32, interrupt: Interrupt) -> BlockState {
        self.after(
            Access::SetInterrupt(pin, interrupt),
            pin,
            PinState { interrupt, ..self.pin(pin) },
        )
    }

    /// This block after `pin` is driven to `level`.
    pub open spec fn with_level(self, pin: u32, level: Level) -> BlockState {
        self.after(Access::Write(pin, level), pin, PinState { level, ..self.pin(pin) })
    }
}

} // verus!
