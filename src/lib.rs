//! Emulation of the VIC-II video chip's character mode, the memories of a
//! 6502-based machine, and the message sequencing of its debugger.

pub mod debugger;
pub mod memory;
pub mod ram;
pub mod vic;
