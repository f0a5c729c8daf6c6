//! The plain values that cross the register boundary: the level of a pin,
//! the event that makes it interrupt, and the direction it is wired for.

use vstd::prelude::*;

verus! {

/// Logical level of a GPIO pin.
#[derive(Clone, Copy, Debug, PartialEq, Eq, Structural)]
pub enum Level {
    /// Logical low / 0.
    Low,
    /// Logical high / 1.
    High,
}

impl Level {
    /// The other level: `High` for `Low`, `Low` for `High`.
    pub open spec fn inverted(self) -> Level {
        match self {
            Level::Low => Level::High,
            Level::High => Level::Low,
        }
    }

    /// Inverting a level twice gives the level back.
    pub proof fn lemma_inverted_twice(self)
        ensures
            self.inverted().inverted() == self,
    {
    }

    /// A level and its inversion are never the same.
    pub proof fn lemma_inverted_differs(self)
        ensures
            self.inverted() != self,
    {
    }
}

impl vstd::std_specs::ops::NotSpecImpl for Level {
    open spec fn obeys_not_spec() -> bool {
        true
    }

    open spec fn not_req(self) -> bool {
        true
    }

    open spec fn not_spec(self) -> Level {
        self.inverted()
    }
}

/// `!level` inverts a level.
impl core::ops::Not for Level {
    type Output = Level;

    fn not(self) -> (other: Level)
        ensures
            other == self.inverted(),
    {
        match self {
            Level::Low => Level::High,
            Level::High => Level::Low,
        }
    }
}

/// Interrupt configuration for a GPIO pin.
///
/// How a mode is encoded in the hardware is left to the register block.
#[derive(Clone, Copy, Debug, PartialEq, Eq, Structural)]
pub enum Interrupt {
    /// Disable interrupts for the pin.
    Off,
    /// Interrupt on rising edge.
    RisingEdge,
    /// Interrupt on falling edge.
    FallingEgdge,
    /// Interrupt while the pin is low.
    Low,
    /// Interrupt while the pin is high.
    High,
}

/// Direction for a single GPIO pin.
///
/// This is the run-time value handed to the register block, which applies it
/// in hardware. It is distinct from the compile-time direction markers that a
/// pin handle carries.
#[derive(Clone, Copy, Debug, PartialEq, Eq, Structural)]
pub enum IoDir {
    /// Configure the pin as input.
    In,
    /// Configure the pin as output.
    Out,
}

} // verus!
