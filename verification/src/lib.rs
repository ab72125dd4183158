//! Decoding of AMX bytecode modules and of the container that carries them,
//! and reconstruction of a readable listing of the functions they hold.

pub mod amxmod;
pub mod amxmodx;
pub mod ast;
pub mod bytes;
pub mod error;
