//! The event data plane: events, the ring they travel through, the plugin
//! host and the engine that puts each event before the plugin chain.

use vstd::prelude::*;

pub mod engine;
pub mod event;
pub mod ffi_error;
pub mod reload;
pub mod router;
pub mod validation;
pub mod wasm_host;

verus! {

/// What the data plane reports when it fails.
#[derive(Debug, Clone)]
pub enum EngineError {
    /// The plugin runtime could not be set up.
    InitFailed(String),
    /// A plugin's bytecode was refused.
    LoadFailed(String),
    /// A plugin failed while it ran.
    RuntimeError(String),
}

impl EngineError {
    /// The message carried by the error.
    pub open spec fn spec_message(&self) -> Seq<char> {
        match self {
            EngineError::InitFailed(m) => m@,
            EngineError::LoadFailed(m) => m@,
            EngineError::RuntimeError(m) => m@,
        }
    }

    /// The message carried by the error.
    pub fn message(&self) -> (m: &str)
        ensures
            m@ == self.spec_message(),
    {
        match self {
            EngineError::InitFailed(m) => m.as_str(),
            EngineError::LoadFailed(m) => m.as_str(),
            EngineError::RuntimeError(m) => m.as_str(),
        }
    }
}

} // verus!
