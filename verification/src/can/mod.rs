//! The MCAN controller: bit timing, message RAM, frames, modules and nodes.

pub mod baud_rate;
pub mod can_module;
pub mod can_node;
pub mod frame;
pub mod internals;
pub mod msg_ram;
