//! Gang scheduler: jobs, nodes, the registry and the scheduling cycle.

use vstd::prelude::*;

pub mod agent;
pub mod api;
pub mod clock;
pub mod gang;
pub mod job;
pub mod node;
pub mod ownership;
pub mod placement;
pub mod queue;
pub mod registry;
pub mod state;

verus! {

/// What a scheduler operation reports when it refuses.
#[derive(Debug, Clone)]
pub enum Error {
    /// A job is unknown, or the operation is no edge of its lifecycle.
    Job(String),
    /// A node is unknown, or lacks what was asked of it.
    Node(String),
    /// Reading or writing persisted state failed.
    Io(String),
    /// Persisted state could not be encoded or decoded.
    Serialization(String),
}

impl Error {
    /// The message carried by the error.
    pub open spec fn spec_message(&self) -> Seq<char> {
        match self {
            Error::Job(m) => m@,
            Error::Node(m) => m@,
            Error::Io(m) => m@,
            Error::Serialization(m) => m@,
        }
    }

    /// The message carried by the error.
    pub fn message(&self) -> (m: &str)
        ensures
            m@ == self.spec_message(),
    {
        match self {
            Error::Job(m) => m.as_str(),
            Error::Node(m) => m.as_str(),
            Error::Io(m) => m.as_str(),
            Error::Serialization(m) => m.as_str(),
        }
    }
}

} // verus!
