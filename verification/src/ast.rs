//! The tree that a module is rebuilt into, and its rendering as text.

pub mod function;
pub mod opcode;
pub mod plugin;
pub mod structure;
pub mod text;
pub mod tree_element;

pub use function::Function;
pub use opcode::Opcode;
pub use plugin::Plugin;
pub use tree_element::TreeElement;
