//! CPU runtime: ring buffers and the helpers around them.

use vstd::prelude::*;
use vstd::string::StringExecFns;

pub mod buffer;
pub mod circuit_breaker;
pub mod dataloader;
pub mod health;
pub mod io;
pub mod numa;
pub mod numa_ffi;
pub mod s3;
pub mod turbo;

verus! {

/// The version of the runtime.
pub const VERSION: &'static str = "0.3.0";

/// What the CPU runtime reports when it fails.
#[derive(Debug)]
pub enum Error {
    /// NUMA.
    Numa(String),
    /// Memory allocation.
    Allocation(String),
    /// Input and output.
    Io(String),
    /// Configuration.
    Config(String),
    /// Thread affinity.
    Affinity(String),
    /// Buffers.
    Buffer(String),
    /// io_uring.
    IoUring(String),
    /// GPUs.
    Gpu(String),
}

impl Error {
    /// The error as a sentence.
    pub open spec fn spec_message(&self) -> Seq<char> {
        match self {
            Error::Numa(m) => "NUMA error: "@ + m@,
            Error::Allocation(m) => "Allocation error: "@ + m@,
            Error::Io(m) => "I/O error: "@ + m@,
            Error::Config(m) => "Configuration error: "@ + m@,
            Error::Affinity(m) => "Thread affinity error: "@ + m@,
            Error::Buffer(m) => "Buffer error: "@ + m@,
            Error::IoUring(m) => "io_uring error: "@ + m@,
            Error::Gpu(m) => "GPU error: "@ + m@,
        }
    }

    /// The error as a sentence.
    pub fn message(&self) -> (s: String)
        ensures
            s@ == self.spec_message(),
    {
        let (head, tail) = match self {
            Error::Numa(m) => ("NUMA error: ", m),
            Error::Allocation(m) => ("Allocation error: ", m),
            Error::Io(m) => ("I/O error: ", m),
            Error::Config(m) => ("Configuration error: ", m),
            Error::Affinity(m) => ("Thread affinity error: ", m),
            Error::Buffer(m) => ("Buffer error: ", m),
            Error::IoUring(m) => ("io_uring error: ", m),
            Error::Gpu(m) => ("GPU error: ", m),
        };
        let mut s = String::from_str(head);
        s.append(tail.as_str());
        s
    }
}

} // verus!
