//! The plugin runtime: modules run by name, a registry of plugins, and
//! tasks that wait by priority.

pub mod engine;
pub mod scheduler;
pub mod vm;
