//! Settings of the io_uring engines.

use vstd::prelude::*;

verus! {

/// How an io_uring engine is set up.
#[derive(Debug, Clone, Copy)]
pub struct IoUringConfig {
    /// Entries of the submission queue.
    pub sq_entries: u32,
    /// Whether the kernel polls the submission queue.
    pub sq_poll: bool,
    /// Milliseconds after which the polling kernel thread goes idle.
    pub sq_poll_idle: u32,
}

impl Default for IoUringConfig {
    fn default() -> (c: IoUringConfig)
        ensures
            c.sq_entries == 4096,
            !c.sq_poll,
            c.sq_poll_idle == 1000,
    {
        IoUringConfig { sq_entries: 4096, sq_poll: false, sq_poll_idle: 1000 }
    }
}

/// An io_uring engine that holds its settings only.
pub struct IoUringEngine {
    config: IoUringConfig,
}

impl IoUringEngine {
    /// The settings.
    pub closed spec fn spec_config(&self) -> IoUringConfig {
        self.config
    }

    /// An engine with the settings.
    pub fn new(config: IoUringConfig) -> (r: Result<Self, crate::runtime_cpu::Error>)
        ensures
            r is Ok,
            r->Ok_0.spec_config() == config,
    {
        Ok(IoUringEngine { config })
    }
}

/// What is asked of the ring.
#[derive(Debug, Clone, Copy, PartialEq, Eq, Structural)]
pub enum IoOp {
    /// Read.
    Read,
    /// Write.
    Write,
    /// Flush to disk.
    Fsync,
    /// Close.
    Close,
}

/// What the ring answers.
#[derive(Debug)]
pub struct Completion {
    /// The number given at submission.
    pub user_data: u64,
    /// The result; negative for an error.
    pub result: i32,
    /// What was asked.
    pub op: IoOp,
}

/// How the full io_uring engine is set up.
#[derive(Debug, Clone)]
pub struct UringConfig {
    /// Entries of the submission queue.
    pub sq_entries: u32,
    /// Whether the kernel polls the submission queue.
    pub sq_poll: bool,
    /// Milliseconds after which the polling kernel thread goes idle.
    pub sq_poll_idle_ms: u32,
    /// Whether completions are polled for.
    pub io_poll: bool,
    /// Whether buffers are registered.
    pub registered_buffers: bool,
    /// The number of registered buffers.
    pub num_buffers: usize,
    /// The size of a registered buffer, in bytes.
    pub buffer_size: usize,
}

impl Default for UringConfig {
    fn default() -> (c: UringConfig)
        ensures
            c.sq_entries == 4096,
            !c.sq_poll,
            c.sq_poll_idle_ms == 1000,
            !c.io_poll,
            !c.registered_buffers,
            c.num_buffers == 64,
            c.buffer_size == 65536,
    {
        UringConfig {
            sq_entries: 4096,
            sq_poll: false,
            sq_poll_idle_ms: 1000,
            io_poll: false,
            registered_buffers: false,
            num_buffers: 64,
            buffer_size: 65536,
        }
    }
}

/// The operation of a completion: that of the pending operation with its
/// number, or a read where none has it.
pub open spec fn op_of(pending: Seq<(u64, IoOp)>, user_data: u64) -> IoOp
    decreases pending.len(),
{
    if pending.len() == 0 {
        IoOp::Read
    } else if pending[0].0 == user_data {
        pending[0].1
    } else {
        op_of(pending.drop_first(), user_data)
    }
}

/// The completion of what the ring answered, with the operation looked up
/// among the pending ones.
pub fn completion_for(pending: &Vec<(u64, IoOp)>, user_data: u64, result: i32) -> (c: Completion)
    ensures
        c.user_data == user_data,
        c.result == result,
        c.op == op_of(pending@, user_data),
{
    let mut i: usize = 0;
    proof {
        assert(pending@.skip(0) =~= pending@);
    }
    while i < pending.len()
        invariant
            i <= pending.len(),
            op_of(pending@.skip(i as int), user_data) == op_of(pending@, user_data),
        decreases pending.len() - i,
    {
        proof {
            assert(pending@.skip(i as int).drop_first() =~= pending@.skip(i + 1));
            assert(pending@.skip(i as int)[0] == pending@[i as int]);
        }
        if pending[i].0 == user_data {
            return Completion { user_data, result, op: pending[i].1 };
        }
        i = i + 1;
    }
    Completion { user_data, result, op: IoOp::Read }
}

/// The operations that were handed to a ring and wait for their
/// completion, each under the number it was given. The numbers count up
/// from one and wrap around.
pub struct PendingOps {
    next_id: u64,
    pending: Vec<(u64, IoOp)>,
}

impl PendingOps {
    /// The number that the next operation gets.
    pub closed spec fn spec_next_id(&self) -> u64 {
        self.next_id
    }

    /// The operations that wait, oldest first.
    pub closed spec fn waiting(&self) -> Seq<(u64, IoOp)> {
        self.pending@
    }

    /// No operation waits; the first gets the number one.
    pub fn new() -> (p: Self)
        ensures
            p.spec_next_id() == 1,
            p.waiting().len() == 0,
    {
        PendingOps { next_id: 1, pending: Vec::new() }
    }

    /// The number for an operation that is about to be handed to the
    /// ring.
    pub fn next_id(&mut self) -> (id: u64)
        ensures
            id == old(self).spec_next_id(),
            final(self).spec_next_id() == old(self).spec_next_id().wrapping_add(1),
            final(self).waiting() == old(self).waiting(),
    {
        let id = self.next_id;
        self.next_id = self.next_id.wrapping_add(1);
        id
    }

    /// Notes an operation that the ring took under the number.
    pub fn record(&mut self, id: u64, op: IoOp)
        ensures
            final(self).spec_next_id() == old(self).spec_next_id(),
            final(self).waiting() == old(self).waiting().push((id, op)),
    {
        self.pending.push((id, op));
    }

    /// The completion of what the ring answered, with the operation
    /// looked up among those that wait.
    pub fn completion(&self, user_data: u64, result: i32) -> (c: Completion)
        ensures
            c.user_data == user_data,
            c.result == result,
            c.op == op_of(self.waiting(), user_data),
    {
        completion_for(&self.pending, user_data, result)
    }

    /// The number of operations that wait.
    pub fn pending_count(&self) -> (n: usize)
        ensures
            n == self.waiting().len(),
    {
        self.pending.len()
    }
}

} // verus!
