//! The container that carries one or two packed modules.

pub mod file;
pub mod section;

pub use file::File;
pub use section::Section;
