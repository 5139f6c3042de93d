//! Start-up: what kind of reset the device comes from.

pub mod tc0;
