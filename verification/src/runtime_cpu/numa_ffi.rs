//! The NUMA library of the machine, as seen by a build without it: the
//! codes it would answer with, and the answers of the build that has none.

use vstd::prelude::*;
use vstd::string::StringExecFns;
use crate::text::{push_signed_decimal, signed_decimal};

verus! {

/// Success.
pub const ZENITH_NUMA_OK: i32 = 0;

/// NUMA cannot be had.
pub const ZENITH_NUMA_ERR_UNAVAILABLE: i32 = -1;

/// The node is not there.
pub const ZENITH_NUMA_ERR_INVALID_NODE: i32 = -2;

/// Memory could not be had.
pub const ZENITH_NUMA_ERR_ALLOC_FAILED: i32 = -3;

/// The thread could not be bound.
pub const ZENITH_NUMA_ERR_BIND_FAILED: i32 = -4;

/// A pointer was null.
pub const ZENITH_NUMA_ERR_NULL_PTR: i32 = -5;

/// What the library tells of a node.
#[derive(Debug, Clone, Copy)]
pub struct ZenithNumaNodeInfo {
    /// The node.
    pub node_id: i32,
    /// All memory, in bytes.
    pub total_memory: u64,
    /// Free memory, in bytes.
    pub free_memory: u64,
    /// The number of CPUs.
    pub num_cpus: i32,
}

impl Default for ZenithNumaNodeInfo {
    fn default() -> (i: ZenithNumaNodeInfo)
        ensures
            i.node_id == 0,
            i.total_memory == 0,
            i.free_memory == 0,
            i.num_cpus == 0,
    {
        ZenithNumaNodeInfo { node_id: 0, total_memory: 0, free_memory: 0, num_cpus: 0 }
    }
}

/// What goes wrong with NUMA.
#[derive(Debug, Clone, Copy, PartialEq, Eq, Structural)]
pub enum NumaError {
    /// NUMA cannot be had.
    Unavailable,
    /// The node is not there.
    InvalidNode,
    /// Memory could not be had.
    AllocFailed,
    /// The thread could not be bound.
    BindFailed,
    /// A pointer was null.
    NullPtr,
    /// A code that has no name.
    Unknown(i32),
}

impl NumaError {
    /// The error of a code.
    pub open spec fn spec_from_code(code: i32) -> NumaError {
        if code == ZENITH_NUMA_ERR_UNAVAILABLE {
            NumaError::Unavailable
        } else if code == ZENITH_NUMA_ERR_INVALID_NODE {
            NumaError::InvalidNode
        } else if code == ZENITH_NUMA_ERR_ALLOC_FAILED {
            NumaError::AllocFailed
        } else if code == ZENITH_NUMA_ERR_BIND_FAILED {
            NumaError::BindFailed
        } else if code == ZENITH_NUMA_ERR_NULL_PTR {
            NumaError::NullPtr
        } else {
            NumaError::Unknown(code)
        }
    }

    /// The error of a code.
    pub fn from_code(code: i32) -> (e: NumaError)
        ensures
            e == Self::spec_from_code(code),
    {
        if code == ZENITH_NUMA_ERR_UNAVAILABLE {
            NumaError::Unavailable
        } else if code == ZENITH_NUMA_ERR_INVALID_NODE {
            NumaError::InvalidNode
        } else if code == ZENITH_NUMA_ERR_ALLOC_FAILED {
            NumaError::AllocFailed
        } else if code == ZENITH_NUMA_ERR_BIND_FAILED {
            NumaError::BindFailed
        } else if code == ZENITH_NUMA_ERR_NULL_PTR {
            NumaError::NullPtr
        } else {
            NumaError::Unknown(code)
        }
    }

    /// The error as a sentence.
    pub open spec fn spec_message(self) -> Seq<char> {
        match self {
            NumaError::Unavailable => "NUMA not available"@,
            NumaError::InvalidNode => "Invalid NUMA node"@,
            NumaError::AllocFailed => "NUMA allocation failed"@,
            NumaError::BindFailed => "Thread binding failed"@,
            NumaError::NullPtr => "Null pointer"@,
            NumaError::Unknown(code) => "Unknown NUMA error: "@ + signed_decimal(code as int),
        }
    }

    /// The error as a sentence.
    pub fn message(self) -> (s: String)
        ensures
            s@ == self.spec_message(),
    {
        match self {
            NumaError::Unavailable => String::from_str("NUMA not available"),
            NumaError::InvalidNode => String::from_str("Invalid NUMA node"),
            NumaError::AllocFailed => String::from_str("NUMA allocation failed"),
            NumaError::BindFailed => String::from_str("Thread binding failed"),
            NumaError::NullPtr => String::from_str("Null pointer"),
            NumaError::Unknown(code) => {
                let mut s = String::from_str("Unknown NUMA error: ");
                push_signed_decimal(&mut s, code as i64);
                s
            },
        }
    }
}

/// The result of a NUMA call.
pub type NumaResult<T> = Result<T, NumaError>;

/// The result that a code stands for.
pub fn check_result(code: i32) -> (r: NumaResult<()>)
    ensures
        r is Ok <==> code == ZENITH_NUMA_OK,
        r is Err ==> r->Err_0 == NumaError::spec_from_code(code),
{
    if code == ZENITH_NUMA_OK {
        Ok(())
    } else {
        Err(NumaError::from_code(code))
    }
}

/// Sets up the library; without it, NUMA cannot be had.
pub fn init() -> (r: NumaResult<()>)
    ensures
        r == Err::<(), NumaError>(NumaError::Unavailable),
{
    Err(NumaError::Unavailable)
}

/// Takes the library down; without it, there is nothing to do.
pub fn cleanup() {
}

/// Whether NUMA can be had; without the library, it cannot.
pub fn is_available() -> (r: bool)
    ensures
        !r,
{
    false
}

/// The number of nodes; without the library, the machine is one node.
pub fn num_nodes() -> (n: i32)
    ensures
        n == 1,
{
    1
}

/// The number of CPUs from the count that the machine gave, cut to the
/// range of `i32`.
pub fn num_cpus(counted: usize) -> (n: i32)
    ensures
        n == if counted > i32::MAX {
            i32::MAX
        } else {
            counted as i32
        },
{
    if counted > i32::MAX as usize {
        i32::MAX
    } else {
        counted as i32
    }
}

/// The node of a result that the library gave as a number: a negative
/// number stands for none.
pub fn node_or_none(answer: i32) -> (r: Option<i32>)
    ensures
        r == if answer >= 0 {
            Some(answer)
        } else {
            None
        },
{
    if answer >= 0 {
        Some(answer)
    } else {
        None
    }
}

/// An allocator of memory on one node.
#[derive(Debug, Clone, Copy)]
pub struct NumaAllocator {
    node: i32,
}

impl NumaAllocator {
    /// The node.
    pub closed spec fn spec_node(&self) -> i32 {
        self.node
    }

    /// The allocator of a node of a machine with `nodes` nodes; a node
    /// beyond them is refused.
    pub fn on_node(node: i32, nodes: i32) -> (r: NumaResult<Self>)
        ensures
            r is Ok <==> node < nodes,
            r is Ok ==> r->Ok_0.spec_node() == node,
            r is Err ==> r->Err_0 == NumaError::InvalidNode,
    {
        if node >= nodes {
            return Err(NumaError::InvalidNode);
        }
        Ok(NumaAllocator { node })
    }

    /// The allocator of a node; it needs the library, so without it NUMA
    /// cannot be had.
    pub fn new(node: i32) -> (r: NumaResult<Self>)
        ensures
            r is Err && r->Err_0 == NumaError::Unavailable,
    {
        match init() {
            Ok(_) => Self::on_node(node, num_nodes()),
            Err(e) => Err(e),
        }
    }

    /// The allocator of the node that the thread prefers; it needs the
    /// library, so without it NUMA cannot be had.
    pub fn local() -> (r: NumaResult<Self>)
        ensures
            r is Err && r->Err_0 == NumaError::Unavailable,
    {
        match init() {
            Ok(_) => Self::on_node(0, num_nodes()),
            Err(e) => Err(e),
        }
    }

    /// The node.
    pub fn node(&self) -> (n: i32)
        ensures
            n == self.spec_node(),
    {
        self.node
    }
}

} // verus!
