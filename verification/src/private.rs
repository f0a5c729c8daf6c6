//! The seal on the marker traits.

use vstd::prelude::*;
use crate::marker::{ActiveState, High, Input, Low, Output};

verus! {

/// Sealed trait to prevent external implementations of `Direction` and
/// `ActiveState`.
///
/// The trait is public and its module is not, so no other crate can name
/// it: the markers of this crate are the only ones there are.
pub trait Sealed {
}

impl Sealed for Input {
}

impl<S: ActiveState> Sealed for Output<S> {
}

impl Sealed for High {
}

impl Sealed for Low {
}

} // verus!
