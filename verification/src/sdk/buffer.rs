//! A ring of byte buffers for streaming data from one producer to one
//! consumer.

use vstd::prelude::*;
use crate::runtime_cpu::buffer::{is_next_pow2, RingBuffer as Ring, SpscRingBuffer};

verus! {

/// A ring of byte buffers.
pub struct RingBuffer {
    inner: SpscRingBuffer<Vec<u8>>,
}

impl RingBuffer {
    /// The buffers in the ring, oldest first.
    pub closed spec fn contents(&self) -> Seq<Vec<u8>> {
        self.inner.view_items()
    }

    /// The number of buffers that the ring can hold.
    pub closed spec fn slots(&self) -> nat {
        self.inner.slots()
    }

    /// The ring holds no more than it can.
    pub closed spec fn wf(&self) -> bool {
        self.inner.wf() && self.inner.view_items().len() <= self.inner.slots()
    }

    /// A ring with at least `capacity` slots, and one slot at least: the
    /// capacity is rounded up to the next power of two.
    pub fn new(capacity: usize) -> (r: Self)
        requires
            capacity <= usize::MAX / 2 + 1,
        ensures
            r.wf(),
            r.contents().len() == 0,
            is_next_pow2(
                if capacity == 0 {
                    1u64
                } else {
                    capacity as u64
                },
                r.slots() as u64,
            ),
    {
        let wanted: usize = if capacity == 0 {
            1
        } else {
            capacity
        };
        RingBuffer { inner: SpscRingBuffer::new(wanted) }
    }

    /// The number of buffers that the ring can hold.
    pub fn capacity(&self) -> (n: usize)
        requires
            self.wf(),
        ensures
            n == self.slots(),
    {
        self.inner.capacity()
    }

    /// The number of buffers in the ring.
    pub fn len(&self) -> (n: usize)
        requires
            self.wf(),
        ensures
            n == self.contents().len(),
            n <= self.slots(),
    {
        self.inner.len()
    }

    /// Whether the ring holds nothing.
    pub fn is_empty(&self) -> (r: bool)
        requires
            self.wf(),
        ensures
            r == (self.contents().len() == 0),
    {
        self.inner.is_empty()
    }

    /// Whether the ring holds all it can.
    pub fn is_full(&self) -> (r: bool)
        requires
            self.wf(),
        ensures
            r == (self.contents().len() == self.slots()),
    {
        self.inner.is_full()
    }

    /// Puts a buffer at the end; a full ring hands it back and stays as
    /// it is.
    pub fn try_push(&mut self, data: Vec<u8>) -> (r: Result<(), Vec<u8>>)
        requires
            old(self).wf(),
        ensures
            final(self).wf(),
            final(self).slots() == old(self).slots(),
            r is Ok <==> old(self).contents().len() < old(self).slots(),
            match r {
                Ok(_) => final(self).contents() == old(self).contents().push(data),
                Err(back) => back == data && final(self).contents() == old(self).contents(),
            },
    {
        self.inner.try_push(data)
    }

    /// Takes the oldest buffer; `None` for an empty ring.
    pub fn try_pop(&mut self) -> (r: Option<Vec<u8>>)
        requires
            old(self).wf(),
        ensures
            final(self).wf(),
            final(self).slots() == old(self).slots(),
            r is Some <==> old(self).contents().len() > 0,
            match r {
                Some(data) => data == old(self).contents().first() && final(self).contents() == old(
                    self,
                ).contents().drop_first(),
                None => final(self).contents() == old(self).contents(),
            },
    {
        self.inner.try_pop()
    }
}

} // verus!
