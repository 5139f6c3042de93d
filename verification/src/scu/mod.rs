//! The system control unit: the clock tree and the protection of its registers.

pub mod ccu;
pub mod clock_ops;
pub mod wdt;
pub mod wdt_call;
