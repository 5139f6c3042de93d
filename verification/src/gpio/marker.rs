//! Marks on pin modes: what a pin in a mode can do.

use vstd::prelude::*;

verus! {

/// Modes in which a pin can raise an interrupt.
pub trait Interruptible {

}

/// Modes in which the level of a pin can be read.
pub trait Readable {

}

/// Modes in which the speed of the output can be set.
pub trait OutputSpeed {

}

/// Modes in which a pin is active.
pub trait Active {

}

/// All modes but the alternate ones.
pub trait NotAlt {

}

/// Pins that have alternate function `A`.
pub trait IntoAf<const A: u8> {

}

} // verus!
