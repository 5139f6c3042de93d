//! Hardware abstraction for the MCAN controller, ports and clock tree of the
//! TC37x, written as pure decision logic over register values.

pub mod bits;
pub mod can;
pub mod gpio;
pub mod regs;
pub mod scu;
pub mod sequencer;
pub mod ssw;
