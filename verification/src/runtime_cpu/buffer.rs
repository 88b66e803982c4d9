//! Bounded ring buffers for the handoff between one producer and one
//! consumer.
//!
//! A ring has a power-of-two number of slots and two counters that only
//! grow and wrap around: `head` counts the items ever pushed, `tail` the
//! items ever popped. The item at position `p` lives in slot `p & mask`.
//! The contracts speak of the ring's contents as a sequence, oldest first.

use vstd::prelude::*;
use crossbeam_queue::ArrayQueue;

verus! {

/// Whether `c` is a power of two.
pub open spec fn is_pow2(c: u64) -> bool {
    c > 0 && c & ((c - 1) as u64) == 0
}

/// `p + i`, wrapped to 64 bits.
pub open spec fn wrap_add(p: u64, i: int) -> u64 {
    ((p + i) % 0x1_0000_0000_0000_0000) as u64
}

/// `a - b`, wrapped to 64 bits.
pub open spec fn wrap_sub(a: u64, b: u64) -> u64 {
    ((a - b) % 0x1_0000_0000_0000_0000) as u64
}

/// The slot of position `p` under `mask`.
pub open spec fn slot_of(p: u64, mask: u64) -> int {
    (p & mask) as int
}

/// The smallest power of two that is at least `n`.
pub open spec fn is_next_pow2(n: u64, c: u64) -> bool {
    is_pow2(c) && n <= c && (c == 1 || c / 2 < n)
}

/// A slot lies below the capacity.
proof fn slot_in_range(p: u64, cap: u64)
    by (bit_vector)
    requires
        cap > 0,
    ensures
        p & ((cap - 1) as u64) < cap,
{
}

/// Two positions less than a capacity apart fall into different slots.
proof fn slots_differ_bits(x: u64, y: u64, d: u64, cap: u64)
    by (bit_vector)
    requires
        cap > 0,
        cap & ((cap - 1) as u64) == 0,
        0 < d,
        d < cap,
        x + d <= 0xffff_ffff_ffff_ffff ==> y == x + d,
        x + d > 0xffff_ffff_ffff_ffff ==> y == x + d - 0x1_0000_0000_0000_0000,
    ensures
        x & ((cap - 1) as u64) != y & ((cap - 1) as u64),
{
}

/// Two positions less than a capacity apart fall into different slots,
/// and every slot lies below the capacity.
proof fn slots_differ(t: u64, i: int, j: int, cap: u64)
    requires
        is_pow2(cap),
        0 <= i < j < cap,
    ensures
        slot_of(wrap_add(t, i), (cap - 1) as u64) != slot_of(wrap_add(t, j), (cap - 1) as u64),
        0 <= slot_of(wrap_add(t, i), (cap - 1) as u64) < cap,
        0 <= slot_of(wrap_add(t, j), (cap - 1) as u64) < cap,
{
    let x = wrap_add(t, i);
    let y = wrap_add(t, j);
    let d = (j - i) as u64;
    slots_differ_bits(x, y, d, cap);
    slot_in_range(x, cap);
    slot_in_range(y, cap);
}

/// Twice a power of two is a power of two.
proof fn double_pow2(c: u64)
    by (bit_vector)
    requires
        c > 0,
        c & ((c - 1) as u64) == 0,
        c < 0x8000_0000_0000_0000,
    ensures
        c * 2 <= 0x8000_0000_0000_0000,
        ((c * 2) as u64) > 0,
        ((c * 2) as u64) & ((((c * 2) as u64) - 1) as u64) == 0,
        ((c * 2) as u64) / 2 == c,
{
}

/// The smallest power of two that is at least `n`.
pub fn next_power_of_two(n: u64) -> (c: u64)
    requires
        n <= 0x8000_0000_0000_0000,
    ensures
        is_next_pow2(n, c),
        c <= 0x8000_0000_0000_0000,
{
    let mut c: u64 = 1;
    assert(1u64 & ((1u64 - 1) as u64) == 0) by (bit_vector);
    while c < n
        invariant
            n <= 0x8000_0000_0000_0000,
            is_pow2(c),
            c <= 0x8000_0000_0000_0000,
            c == 1 || c / 2 < n,
        decreases 0x8000_0000_0000_0000 - c,
    {
        proof {
            double_pow2(c);
        }
        c = c * 2;
    }
    c
}

/// What a ring buffer does, whatever it is made of.
pub trait RingBuffer<T>: Sized {
    /// The items in the ring, oldest first.
    spec fn contents(&self) -> Seq<T>;

    /// The number of items that the ring can hold.
    spec fn spec_capacity(&self) -> nat;

    /// What holds of every ring: it holds no more than its capacity.
    spec fn ring_wf(&self) -> bool;

    /// Puts `item` at the end; a full ring hands the item back and stays
    /// as it is.
    fn try_push(&mut self, item: T) -> (r: Result<(), T>)
        requires
            old(self).ring_wf(),
        ensures
            final(self).ring_wf(),
            final(self).spec_capacity() == old(self).spec_capacity(),
            r is Ok <==> old(self).contents().len() < old(self).spec_capacity(),
            match r {
                Ok(_) => final(self).contents() == old(self).contents().push(item),
                Err(back) => back == item && final(self).contents() == old(self).contents(),
            },
    ;

    /// Takes the oldest item; `None` for an empty ring.
    fn try_pop(&mut self) -> (r: Option<T>)
        requires
            old(self).ring_wf(),
        ensures
            final(self).ring_wf(),
            final(self).spec_capacity() == old(self).spec_capacity(),
            r is Some <==> old(self).contents().len() > 0,
            match r {
                Some(item) => item == old(self).contents().first() && final(self).contents() == old(
                    self,
                ).contents().drop_first(),
                None => final(self).contents() == old(self).contents(),
            },
    ;

    /// The number of items in the ring.
    fn len(&self) -> (n: usize)
        requires
            self.ring_wf(),
        ensures
            n == self.contents().len(),
            n <= self.spec_capacity(),
    ;

    /// Whether the ring holds nothing.
    fn is_empty(&self) -> (r: bool)
        requires
            self.ring_wf(),
        ensures
            r == (self.contents().len() == 0),
    ;

    /// Whether the ring holds all it can.
    fn is_full(&self) -> (r: bool)
        requires
            self.ring_wf(),
        ensures
            r == (self.contents().len() == self.spec_capacity()),
    ;

    /// The number of items that the ring can hold.
    fn capacity(&self) -> (n: usize)
        requires
            self.ring_wf(),
        ensures
            n == self.spec_capacity(),
    ;
}

/// A ring for one producer and one consumer.
pub struct SpscRingBuffer<T> {
    buffer: Vec<Option<T>>,
    capacity: usize,
    mask: u64,
    head: u64,
    tail: u64,
}

impl<T> SpscRingBuffer<T> {
    /// The number of items between the two counters.
    pub closed spec fn count(&self) -> nat {
        wrap_sub(self.head, self.tail) as nat
    }

    /// The item at place `i` from the oldest.
    pub closed spec fn item(&self, i: int) -> T {
        self.buffer@[slot_of(wrap_add(self.tail, i), self.mask)]->0
    }

    /// The items in the ring, oldest first.
    pub closed spec fn view_items(&self) -> Seq<T> {
        Seq::new(self.count(), |i: int| self.item(i))
    }

    /// The number of slots.
    pub closed spec fn slots(&self) -> nat {
        self.capacity as nat
    }

    /// The counters are no more than the capacity apart, the capacity is a
    /// power of two, every position between the counters holds an item and
    /// no other slot does.
    pub closed spec fn wf(&self) -> bool {
        &&& self.capacity >= 1
        &&& is_pow2(self.capacity as u64)
        &&& self.mask == (self.capacity - 1) as u64
        &&& self.buffer@.len() == self.capacity
        &&& self.count() <= self.capacity
        &&& self.head == wrap_add(self.tail, self.count() as int)
        &&& forall|i: int|
            0 <= i < self.count() ==> (#[trigger] self.buffer@[slot_of(wrap_add(self.tail, i), self.mask)])
                is Some
    }

    /// A ring with at least `capacity` slots: the capacity is rounded up
    /// to the next power of two.
    pub fn new(capacity: usize) -> (r: Self)
        requires
            0 < capacity <= usize::MAX / 2 + 1,
        ensures
            r.wf(),
            r.view_items().len() == 0,
            is_next_pow2(capacity as u64, r.slots() as u64),
    {
        let cap64 = next_power_of_two(capacity as u64);
        proof {
            if usize::MAX == 0xffff_ffff {
                assert(cap64 <= 0x8000_0000) by (bit_vector)
                    requires
                        cap64 > 0,
                        cap64 & ((cap64 - 1) as u64) == 0,
                        cap64 == 1 || cap64 / 2 < capacity as u64,
                        capacity as u64 <= 0x8000_0000,
                ;
            }
        }
        let cap: usize = cap64 as usize;
        let mut buffer: Vec<Option<T>> = Vec::new();
        let mut i: usize = 0;
        while i < cap
            invariant
                i <= cap,
                buffer@.len() == i,
            decreases cap - i,
        {
            buffer.push(None);
            i = i + 1;
        }
        SpscRingBuffer { buffer, capacity: cap, mask: cap64 - 1, head: 0, tail: 0 }
    }

    /// Pushes items taken from the end of `items` until the ring is full
    /// or `items` is empty; returns how many were pushed. The item that a
    /// full ring refused is dropped, as the ring hands it back by value.
    pub fn push_batch(&mut self, items: &mut Vec<T>) -> (pushed: usize)
        requires
            old(self).wf(),
        ensures
            final(self).wf(),
            final(self).slots() == old(self).slots(),
            pushed <= old(items)@.len(),
            pushed + old(self).view_items().len() <= old(self).slots(),
            final(self).view_items() == old(self).view_items() + old(items)@.subrange(
                old(items)@.len() - pushed,
                old(items)@.len() as int,
            ).reverse(),
            pushed == if old(items)@.len() <= old(self).slots() - old(self).view_items().len() {
                old(items)@.len()
            } else {
                (old(self).slots() - old(self).view_items().len()) as nat
            },
            final(items)@ == old(items)@.take(
                if pushed < old(items)@.len() {
                    old(items)@.len() - pushed - 1
                } else {
                    0
                },
            ),
    {
        let ghost all = items@;
        let ghost first = self.view_items();
        let mut pushed: usize = 0;
        loop
            invariant_except_break
                self.wf(),
                self.slots() == old(self).slots(),
                all == old(items)@,
                first == old(self).view_items(),
                pushed <= all.len(),
                items@ == all.take(all.len() - pushed),
                self.view_items() == first + all.subrange(all.len() - pushed, all.len() as int).reverse(),
                first.len() + pushed <= self.slots(),
            ensures
                self.wf(),
                self.slots() == old(self).slots(),
                pushed <= all.len(),
                self.view_items() == first + all.subrange(all.len() - pushed, all.len() as int).reverse(),
                first.len() + pushed <= self.slots(),
                pushed == all.len() || first.len() + pushed == self.slots(),
                items@ == all.take(
                    if pushed < all.len() {
                        all.len() - pushed - 1
                    } else {
                        0
                    },
                ),
            decreases items@.len(),
        {
            let ghost held = self.view_items();
            match items.pop() {
                Some(item) => {
                    match self.try_push(item) {
                        Ok(_) => {
                            proof {
                                let before = all.subrange(all.len() - pushed, all.len() as int);
                                let after = all.subrange(all.len() - pushed - 1, all.len() as int);
                                assert(after.reverse() =~= before.reverse().push(item));
                                assert(items@ =~= all.take(all.len() - pushed - 1));
                                assert(first + after.reverse() =~= (first + before.reverse()).push(item));
                            }
                            pushed = pushed + 1;
                        },
                        Err(_) => {
                            proof {
                                assert(items@ =~= all.take(all.len() - pushed - 1));
                            }
                            break;
                        },
                    }
                },
                None => {
                    proof {
                        assert(items@ =~= all.take(0));
                    }
                    break;
                },
            }
        }
        pushed
    }

    /// Pops up to `max_count` items, oldest first.
    pub fn pop_batch(&mut self, max_count: usize) -> (items: Vec<T>)
        requires
            old(self).wf(),
        ensures
            final(self).wf(),
            final(self).slots() == old(self).slots(),
            items@.len() == if max_count <= old(self).view_items().len() {
                max_count as nat
            } else {
                old(self).view_items().len()
            },
            items@ == old(self).view_items().take(items@.len() as int),
            final(self).view_items() == old(self).view_items().skip(items@.len() as int),
    {
        let ghost first = self.view_items();
        let mut items: Vec<T> = Vec::new();
        let mut more: bool = true;
        while more && items.len() < max_count
            invariant
                self.wf(),
                self.slots() == old(self).slots(),
                first == old(self).view_items(),
                items@.len() <= max_count,
                items@.len() <= first.len(),
                items@ == first.take(items@.len() as int),
                self.view_items() == first.skip(items@.len() as int),
                !more ==> items@.len() == first.len(),
            decreases max_count - items@.len() + if more { 1int } else { 0int },
        {
            let ghost got = items@;
            match self.try_pop() {
                Some(item) => {
                    items.push(item);
                    proof {
                        assert(items@ =~= first.take(items@.len() as int));
                        assert(self.view_items() =~= first.skip(items@.len() as int));
                    }
                },
                None => {
                    more = false;
                },
            }
        }
        items
    }
}

impl<T> RingBuffer<T> for SpscRingBuffer<T> {
    open spec fn contents(&self) -> Seq<T> {
        self.view_items()
    }

    open spec fn spec_capacity(&self) -> nat {
        self.slots()
    }

    open spec fn ring_wf(&self) -> bool {
        self.wf() && self.view_items().len() <= self.slots()
    }

    fn try_push(&mut self, item: T) -> (r: Result<(), T>) {
        let count: u64 = self.head.wrapping_sub(self.tail);
        if count >= self.capacity as u64 {
            return Err(item);
        }
        let index: usize = (self.head & self.mask) as usize;
        let ghost cap = self.capacity as u64;
        proof {
            slot_in_range(self.head, cap);
        }
        self.buffer[index] = Some(item);
        self.head = self.head.wrapping_add(1);
        proof {
            assert(self.count() == old(self).count() + 1);
            assert(old(self).head == wrap_add(self.tail, count as int));
            assert forall|i: int| 0 <= i < self.count() implies (#[trigger] self.buffer@[slot_of(
                wrap_add(self.tail, i),
                self.mask,
            )]) is Some && self.item(i) == old(self).view_items().push(item)[i] by {
                if i < count {
                    slots_differ(self.tail, i, count as int, cap);
                    assert(old(self).buffer@[slot_of(wrap_add(self.tail, i), self.mask)] is Some);
                    assert(old(self).view_items()[i] == old(self).item(i));
                }
            }
            assert(self.view_items() =~= old(self).view_items().push(item));
        }
        Ok(())
    }

    fn try_pop(&mut self) -> (r: Option<T>) {
        if self.tail == self.head {
            assert(self.view_items().len() == 0);
            return None;
        }
        let index: usize = (self.tail & self.mask) as usize;
        let ghost cap = self.capacity as u64;
        proof {
            slot_in_range(self.tail, cap);
            assert(wrap_add(self.tail, 0) == self.tail);
            assert(self.count() > 0);
            assert(self.buffer@[slot_of(wrap_add(self.tail, 0), self.mask)] is Some);
        }
        let taken = self.buffer[index].take();
        self.tail = self.tail.wrapping_add(1);
        proof {
            assert(self.count() == old(self).count() - 1);
            assert forall|i: int| 0 <= i < self.count() implies (#[trigger] self.buffer@[slot_of(
                wrap_add(self.tail, i),
                self.mask,
            )]) is Some && self.item(i) == old(self).view_items().drop_first()[i] by {
                slots_differ(old(self).tail, 0, i + 1, cap);
                assert(wrap_add(self.tail, i) == wrap_add(old(self).tail, i + 1));
                assert(old(self).buffer@[slot_of(wrap_add(old(self).tail, i + 1), self.mask)] is Some);
                assert(old(self).view_items()[i + 1] == old(self).item(i + 1));
            }
            assert(self.view_items() =~= old(self).view_items().drop_first());
            assert(taken->0 == old(self).item(0));
            assert(old(self).view_items()[0] == old(self).item(0));
        }
        taken
    }

    fn len(&self) -> (n: usize) {
        self.head.wrapping_sub(self.tail) as usize
    }

    fn is_empty(&self) -> (r: bool) {
        self.head.wrapping_sub(self.tail) == 0
    }

    fn is_full(&self) -> (r: bool) {
        self.head.wrapping_sub(self.tail) >= self.capacity as u64
    }

    fn capacity(&self) -> (n: usize) {
        self.capacity
    }
}

#[verifier::external_type_specification]
#[verifier::external_body]
#[verifier::reject_recursive_types(T)]
pub struct ExArrayQueue<T>(ArrayQueue<T>);

/// The items in a bounded queue of `crossbeam-queue`, oldest first.
pub uninterp spec fn queue_items(q: ArrayQueue<u64>) -> Seq<u64>;

/// The capacity that a bounded queue of `crossbeam-queue` was made with.
pub uninterp spec fn queue_capacity(q: ArrayQueue<u64>) -> nat;

/// `ArrayQueue::new`: an empty queue of the given capacity. A capacity of
/// zero, or one so large that the next power of two above it does not fit
/// the machine, makes it panic.
#[verifier::external_body]
fn array_queue_new(capacity: usize) -> (q: ArrayQueue<u64>)
    requires
        0 < capacity <= usize::MAX / 2,
    ensures
        queue_items(q) == Seq::<u64>::empty(),
        queue_capacity(q) == capacity,
{
    ArrayQueue::new(capacity)
}

/// `ArrayQueue::push_mut`: the element goes to the end of the queue; a
/// full queue hands it back as an error and stays as it is.
#[verifier::external_body]
fn array_queue_push(q: &mut ArrayQueue<u64>, value: u64) -> (r: Result<(), u64>)
    ensures
        queue_capacity(*final(q)) == queue_capacity(*old(q)),
        r is Err <==> queue_items(*old(q)).len() >= queue_capacity(*old(q)),
        match r {
            Ok(_) => queue_items(*final(q)) == queue_items(*old(q)).push(value),
            Err(back) => back == value && queue_items(*final(q)) == queue_items(*old(q)),
        },
{
    q.push_mut(value)
}

/// `ArrayQueue::pop_mut`: the oldest element leaves the queue; `None` for
/// an empty queue.
#[verifier::external_body]
fn array_queue_pop(q: &mut ArrayQueue<u64>) -> (r: Option<u64>)
    ensures
        queue_capacity(*final(q)) == queue_capacity(*old(q)),
        r is None <==> queue_items(*old(q)).len() == 0,
        match r {
            Some(value) => value == queue_items(*old(q)).first() && queue_items(*final(q)) == queue_items(
                *old(q),
            ).drop_first(),
            None => queue_items(*final(q)) == queue_items(*old(q)),
        },
{
    q.pop_mut()
}

/// `ArrayQueue::len`: the number of elements.
#[verifier::external_body]
fn array_queue_len(q: &ArrayQueue<u64>) -> (n: usize)
    ensures
        n == queue_items(*q).len(),
{
    q.len()
}

/// `ArrayQueue::capacity`: the capacity that the queue was made with.
#[verifier::external_body]
fn array_queue_capacity(q: &ArrayQueue<u64>) -> (n: usize)
    ensures
        n == queue_capacity(*q),
{
    q.capacity()
}

/// A ring of numbers on the bounded queue of `crossbeam-queue`, which
/// many producers and many consumers can share.
pub struct MpmcRingBuffer {
    inner: ArrayQueue<u64>,
}

impl MpmcRingBuffer {
    /// The numbers in the ring, oldest first.
    pub closed spec fn view_items(&self) -> Seq<u64> {
        queue_items(self.inner)
    }

    /// The capacity.
    pub closed spec fn slots(&self) -> nat {
        queue_capacity(self.inner)
    }

    /// A ring of exactly the given capacity.
    pub fn new(capacity: usize) -> (r: Self)
        requires
            0 < capacity <= usize::MAX / 2,
        ensures
            r.view_items().len() == 0,
            r.slots() == capacity,
    {
        MpmcRingBuffer { inner: array_queue_new(capacity) }
    }
}

impl RingBuffer<u64> for MpmcRingBuffer {
    open spec fn contents(&self) -> Seq<u64> {
        self.view_items()
    }

    open spec fn spec_capacity(&self) -> nat {
        self.slots()
    }

    open spec fn ring_wf(&self) -> bool {
        self.view_items().len() <= self.slots()
    }

    fn try_push(&mut self, item: u64) -> (r: Result<(), u64>) {
        array_queue_push(&mut self.inner, item)
    }

    fn try_pop(&mut self) -> (r: Option<u64>) {
        array_queue_pop(&mut self.inner)
    }

    fn len(&self) -> (n: usize) {
        array_queue_len(&self.inner)
    }

    fn is_empty(&self) -> (r: bool) {
        array_queue_len(&self.inner) == 0
    }

    fn is_full(&self) -> (r: bool) {
        array_queue_len(&self.inner) >= array_queue_capacity(&self.inner)
    }

    fn capacity(&self) -> (n: usize) {
        array_queue_capacity(&self.inner)
    }
}

/// What a ring hands out is what was put in, in the order in which it was
/// put in: after one more push, the pops first give what the ring held,
/// then the new item.
pub proof fn pops_follow_pushes<T>(held: Seq<T>, item: T)
    ensures
        held.push(item).take(held.len() as int) == held,
        held.push(item).skip(held.len() as int) == seq![item],
        held.len() > 0 ==> held.push(item).first() == held.first() && held.push(item).drop_first()
            == held.drop_first().push(item),
{
    assert(held.push(item).take(held.len() as int) =~= held);
    assert(held.push(item).skip(held.len() as int) =~= seq![item]);
    if held.len() > 0 {
        assert(held.push(item).drop_first() =~= held.drop_first().push(item));
    }
}

} // verus!
