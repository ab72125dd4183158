//! An unpacked module: its header, its segments and its tables.

pub mod opcode;
pub mod plugin;
pub mod symbol;

pub use opcode::{Opcode, OpcodeType};
pub use plugin::Plugin;
pub use symbol::{Native, Public};
