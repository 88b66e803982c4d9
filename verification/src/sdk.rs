//! What the language bindings build on: a ring of byte buffers and a
//! list of plugins.

pub mod buffer;
pub mod plugin;
