//! Command encoding and transaction sequencing for the MCP4161 digital
//! potentiometer, a device driven over a serial bus with a chip-select line.
//!
//! [`protocol`] turns a register address, an operation and an optional data
//! word into the two-byte frame that the device expects. [`device`] scales a
//! requested resistance into wiper steps and lays out the bus operations of
//! one transaction. The crate touches no hardware: the firmware carries out
//! the operations that a [`device::Bus`] has recorded, in their order.

pub mod device;
pub mod protocol;

pub use device::{Bus, BusOperation, MCP4161};
pub use protocol::{compose_command, Command, InvalidCommandCombinationError, MemoryAddress};
