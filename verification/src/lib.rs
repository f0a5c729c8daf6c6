//! Ayo: typed GPIO abstractions over memory-mapped register blocks.
//!
//! The role of a pin is fixed by its type. A pin handle [`Io`] is
//! parameterized by its bank, its pin index, the kind of register block and a
//! direction marker, [`Input`] or [`Output`]; an output also carries the
//! level at which it is active, [`High`] or [`Low`]. An input can be read and
//! have its interrupt set, an output can be activated and deactivated, and
//! asking either for an operation of the other does not compile. A handle
//! holds nothing at run time.
//!
//! # What a platform supplies
//!
//! - [`GpioRegisters`], once for each kind of register block: setting the
//!   direction of a pin, setting its interrupt mode, sampling it and driving
//!   it. This is the only place where hardware is touched.
//! - [`Bank`], once for each bank: where its register block is.
//!
//! The bank is a value, and every operation of a pin borrows it. The borrow
//! is what lets a contract say which block an operation changed and how;
//! the handles still share the bank, and nothing is locked. Where interrupts
//! or other cores reach the same block, serializing them is the platform's
//! part.
//!
//! # Outputs know their polarity
//!
//! An output is activated and deactivated, not set high or low: which level
//! that means follows from its marker. Initializing an output sets its
//! direction and then drives it to its inactive level, so that no output
//! comes up active. Picking a pin's bit out of a register shared by many is
//! left to the register block, which is called pin by pin.
//!
//! # What is proved
//!
//! Contracts are stated over [`BlockState`], a model of a register block: the
//! state of each pin and the programming accesses taken so far, in order.
//! Every operation of [`Io`] and of [`Gpio`] says exactly what it does to
//! that model, and the initialisation protocols and the laws that relate the
//! operations are proved from it. What is proved holds on every platform
//! whose register block and bank do what the clauses of [`GpioRegisters`] and
//! [`Bank`] say.

mod low;
mod marker;
mod model;
mod pin;
mod private;
mod signal;

pub use low::{io::Gpio, register::GpioRegisters, Bank};
pub use marker::{ActiveState, Direction, High, Input, Low, Output};
pub use model::{Access, BlockState, PinState};
pub use pin::Io;
pub use signal::{Interrupt, IoDir, Level};
