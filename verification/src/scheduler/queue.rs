//! The pending queue: the priority queue of the `priority-queue` crate,
//! keyed by job id, behind contracts over the map from id to priority.

use vstd::prelude::*;
use priority_queue::PriorityQueue;

verus! {

#[verifier::external_type_specification]
#[verifier::external_body]
#[verifier::reject_recursive_types(I)]
#[verifier::reject_recursive_types(P)]
#[verifier::reject_recursive_types(H)]
pub struct ExPriorityQueue<I, P, H>(PriorityQueue<I, P, H>);

/// What a pending queue holds: the priority under each job id.
pub type QueueEntries = Map<Seq<char>, i32>;

/// The entries of a pending queue.
pub uninterp spec fn queue_entries(q: PriorityQueue<String, i32>) -> Map<Seq<char>, i32>;

/// Whether `id` is in `entries` under `priority` and no entry has a greater
/// priority.
pub open spec fn is_top(entries: Map<Seq<char>, i32>, id: Seq<char>, priority: i32) -> bool {
    &&& entries.contains_key(id)
    &&& entries[id] == priority
    &&& forall|k: Seq<char>| entries.contains_key(k) ==> #[trigger] entries[k] <= priority
}

/// `PriorityQueue::new`: a queue without entries.
#[verifier::external_body]
pub(crate) fn queue_new() -> (q: PriorityQueue<String, i32>)
    ensures
        queue_entries(q) == QueueEntries::empty(),
{
    PriorityQueue::new()
}

/// `PriorityQueue::push`: the item is inserted under the priority; where
/// an equal item was in the queue, its priority is replaced.
#[verifier::external_body]
pub(crate) fn queue_push(q: &mut PriorityQueue<String, i32>, id: String, priority: i32)
    ensures
        queue_entries(*final(q)) == queue_entries(*old(q)).insert(id@, priority),
{
    q.push(id, priority);
}

/// `PriorityQueue::remove`: the item leaves the queue; an item that is not
/// in it changes nothing.
#[verifier::external_body]
pub(crate) fn queue_remove(q: &mut PriorityQueue<String, i32>, id: &str)
    ensures
        queue_entries(*final(q)) == queue_entries(*old(q)).remove(id@),
{
    q.remove(id);
}

/// `PriorityQueue::pop`: an item with the greatest priority leaves the
/// queue and is returned with its priority; `None` for an empty queue.
/// Which of several items with the greatest priority leaves is left open.
#[verifier::external_body]
pub(crate) fn queue_pop(q: &mut PriorityQueue<String, i32>) -> (r: Option<(String, i32)>)
    ensures
        match r {
            Some(top) => is_top(queue_entries(*old(q)), top.0@, top.1) && queue_entries(*final(q))
                == queue_entries(*old(q)).remove(top.0@),
            None => queue_entries(*old(q)) == QueueEntries::empty() && queue_entries(*final(q))
                == queue_entries(*old(q)),
        },
{
    q.pop()
}

/// `PriorityQueue::len`: the number of entries.
#[verifier::external_body]
pub(crate) fn queue_len(q: &PriorityQueue<String, i32>) -> (n: usize)
    ensures
        n == queue_entries(*q).len(),
{
    q.len()
}

} // verus!
