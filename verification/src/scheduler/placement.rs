//! Placement: which nodes give how many GPUs to a job.
//!
//! A plan is a list of pairs, the place of a node in the registry and the
//! number of GPUs taken there. A job without GPUs goes to the first node
//! that can take work. A job with GPUs goes, where one node is to be tried
//! first, to the first node that can hold all of them; else its GPUs are
//! gathered greedily over the nodes in registry order, each node that can
//! take work giving as many as it has free until all are found. A plan
//! covers the whole job or there is no plan.

use vstd::prelude::*;
use crate::scheduler::node::{all_consistent, allocation_lists_job_once_more, free_ids, Node};
use crate::text::{count_of, texts};
use crate::scheduler::registry::{cut, NodeRegistry};

verus! {

/// A plan as pairs of a node's place and the number of GPUs taken there.
pub type Plan = Seq<(int, nat)>;

/// Whether the node can take work at `now` and has `required` GPUs free.
pub open spec fn fits(n: Node, timeout: i64, now: i64, required: nat) -> bool {
    n.spec_is_healthy(timeout, now) && n.spec_available_gpus() >= required
}

/// The place of the first node at or after `from` that fits, or the number
/// of nodes where none does.
pub open spec fn first_fit(nodes: Seq<Node>, timeout: i64, now: i64, required: nat, from: int) -> int
    decreases nodes.len() - from,
{
    if from < 0 || from >= nodes.len() {
        nodes.len() as int
    } else if fits(nodes[from], timeout, now, required) {
        from
    } else {
        first_fit(nodes, timeout, now, required, from + 1)
    }
}

/// The GPUs that a node offers at `now`: what it has free while it can take
/// work, else nothing.
pub open spec fn offer(n: Node, timeout: i64, now: i64) -> nat {
    if n.spec_is_healthy(timeout, now) {
        n.spec_available_gpus()
    } else {
        0
    }
}

/// The free GPUs over all nodes that can take work at `now`.
pub open spec fn total_free(nodes: Seq<Node>, timeout: i64, now: i64) -> nat
    decreases nodes.len(),
{
    if nodes.len() == 0 {
        0
    } else {
        total_free(nodes.drop_last(), timeout, now) + offer(nodes.last(), timeout, now)
    }
}

/// The smaller of two numbers.
pub open spec fn least(a: nat, b: nat) -> nat {
    if a <= b {
        a
    } else {
        b
    }
}

/// The greedy plan for `remaining` GPUs over the nodes at or after `from`.
pub open spec fn spread(nodes: Seq<Node>, timeout: i64, now: i64, from: int, remaining: nat) -> Plan
    decreases nodes.len() - from,
{
    if from < 0 || from >= nodes.len() || remaining == 0 {
        Seq::empty()
    } else if offer(nodes[from], timeout, now) >= 1 {
        let take = least(remaining, offer(nodes[from], timeout, now));
        seq![(from, take)] + spread(nodes, timeout, now, from + 1, (remaining - take) as nat)
    } else {
        spread(nodes, timeout, now, from + 1, remaining)
    }
}

/// The plan for a job that needs `required` GPUs, or `None` where the
/// cluster cannot hold the job at `now`.
pub open spec fn plan(nodes: Seq<Node>, timeout: i64, now: i64, required: nat, same_node_first: bool) -> Option<
    Plan,
> {
    let fit = first_fit(nodes, timeout, now, required, 0);
    if required == 0 {
        if fit < nodes.len() {
            Some(seq![(fit, 0nat)])
        } else {
            None
        }
    } else if same_node_first && fit < nodes.len() {
        Some(seq![(fit, required)])
    } else if total_free(nodes, timeout, now) < required {
        None
    } else {
        Some(spread(nodes, timeout, now, 0, required))
    }
}

/// The GPUs that a plan takes in all.
pub open spec fn plan_total(p: Plan) -> nat
    decreases p.len(),
{
    if p.len() == 0 {
        0
    } else {
        plan_total(p.drop_last()) + p.last().1
    }
}

/// Whether a plan can be carried out on the nodes: its places are in range
/// and strictly rising, and no node is asked for more than it has free.
pub open spec fn plan_fits(nodes: Seq<Node>, p: Plan) -> bool {
    &&& forall|k: int| 0 <= k < p.len() ==> 0 <= (#[trigger] p[k]).0 < nodes.len()
    &&& forall|k: int, l: int| 0 <= k < l < p.len() ==> (#[trigger] p[k]).0 < (#[trigger] p[l]).0
    &&& forall|k: int| 0 <= k < p.len() ==> (#[trigger] p[k]).1 <= nodes[p[k].0].spec_available_gpus()
}

/// The number of GPUs that a plan takes at the node at place `i`, if the
/// plan names that node.
pub open spec fn planned(p: Plan, i: int) -> Option<nat>
    decreases p.len(),
{
    if p.len() == 0 {
        None
    } else if p.last().0 == i {
        Some(p.last().1)
    } else {
        planned(p.drop_last(), i)
    }
}

/// The allocations that a plan stands for: each node's id with the ids of
/// the first free devices taken there.
pub open spec fn plan_allocations(nodes: Seq<Node>, p: Plan) -> Seq<(Seq<char>, Seq<Seq<char>>)> {
    Seq::new(
        p.len(),
        |k: int| (nodes[p[k].0].id@, free_ids(nodes[p[k].0].topology.gpus@).take(p[k].1 as int)),
    )
}

/// Whether `after` is `before` with the plan carried out for `job`: a
/// planned node has handed its GPUs to the job, every other node is as it
/// was.
pub open spec fn plan_applied(before: Seq<Node>, after: Seq<Node>, job: Seq<char>, p: Plan) -> bool {
    &&& after.len() == before.len()
    &&& forall|i: int|
        0 <= i < before.len() ==> match planned(p, i) {
            Some(count) => before[i].allocated_to(#[trigger] after[i], job, count),
            None => after[i] == before[i],
        }
}

/// A plan as a list of machine numbers.
pub open spec fn plan_view(v: Seq<(usize, usize)>) -> Plan {
    v.map_values(|e: (usize, usize)| (e.0 as int, e.1 as nat))
}

/// The first fit lies at or after `from`, fits where it is a place, and
/// no node between `from` and it fits.
pub proof fn first_fit_is_first(nodes: Seq<Node>, timeout: i64, now: i64, required: nat, from: int)
    requires
        0 <= from <= nodes.len(),
    ensures
        from <= first_fit(nodes, timeout, now, required, from) <= nodes.len(),
        first_fit(nodes, timeout, now, required, from) < nodes.len() ==> fits(
            nodes[first_fit(nodes, timeout, now, required, from)],
            timeout,
            now,
            required,
        ),
        forall|j: int|
            from <= j < first_fit(nodes, timeout, now, required, from) ==> !fits(
                #[trigger] nodes[j],
                timeout,
                now,
                required,
            ),
    decreases nodes.len() - from,
{
    if from < nodes.len() && !fits(nodes[from], timeout, now, required) {
        first_fit_is_first(nodes, timeout, now, required, from + 1);
    }
}

/// Every node offers no more than the total.
pub proof fn offer_within_total(nodes: Seq<Node>, timeout: i64, now: i64, i: int)
    requires
        0 <= i < nodes.len(),
    ensures
        offer(nodes[i], timeout, now) <= total_free(nodes, timeout, now),
    decreases nodes.len(),
{
    if i < nodes.len() - 1 {
        offer_within_total(nodes.drop_last(), timeout, now, i);
    }
}

/// The free GPUs of the nodes at or after `from`.
pub open spec fn total_free_from(nodes: Seq<Node>, timeout: i64, now: i64, from: int) -> nat
    decreases nodes.len() - from,
{
    if from < 0 || from >= nodes.len() {
        0
    } else {
        offer(nodes[from], timeout, now) + total_free_from(nodes, timeout, now, from + 1)
    }
}

/// Counting from the front gives the total.
pub proof fn total_free_from_front(nodes: Seq<Node>, timeout: i64, now: i64, from: int)
    requires
        0 <= from <= nodes.len(),
    ensures
        total_free(nodes.take(from), timeout, now) + total_free_from(nodes, timeout, now, from)
            == total_free(nodes, timeout, now),
    decreases nodes.len() - from,
{
    if from < nodes.len() {
        assert(nodes.take(from + 1).drop_last() =~= nodes.take(from));
        total_free_from_front(nodes, timeout, now, from + 1);
    } else {
        assert(nodes.take(from) =~= nodes);
    }
}

/// The total of a plan with one more entry at the front.
pub proof fn plan_total_front(head: (int, nat), rest: Plan)
    ensures
        plan_total(seq![head] + rest) == head.1 + plan_total(rest),
    decreases rest.len(),
{
    let whole = seq![head] + rest;
    if rest.len() == 0 {
        assert(whole.drop_last() =~= Seq::<(int, nat)>::empty());
        assert(whole.last() == head);
        assert(plan_total(whole.drop_last()) == 0);
    } else {
        assert(whole.drop_last() =~= seq![head] + rest.drop_last());
        assert(whole.last() == rest.last());
        plan_total_front(head, rest.drop_last());
    }
}

/// What the greedy plan is like: its places lie at or after `from` and
/// rise strictly, no node gives more than it has free, and it takes all
/// that is asked wherever the nodes offer as much.
pub proof fn spread_is_sound(nodes: Seq<Node>, timeout: i64, now: i64, from: int, remaining: nat)
    requires
        0 <= from <= nodes.len(),
    ensures
        forall|k: int|
            0 <= k < spread(nodes, timeout, now, from, remaining).len() ==> from <= (
            #[trigger] spread(nodes, timeout, now, from, remaining)[k]).0 < nodes.len(),
        plan_fits(nodes, spread(nodes, timeout, now, from, remaining)),
        remaining <= total_free_from(nodes, timeout, now, from) ==> plan_total(
            spread(nodes, timeout, now, from, remaining),
        ) == remaining,
    decreases nodes.len() - from,
{
    if from < nodes.len() && remaining > 0 {
        if offer(nodes[from], timeout, now) >= 1 {
            let take = least(remaining, offer(nodes[from], timeout, now));
            let rest = spread(nodes, timeout, now, from + 1, (remaining - take) as nat);
            spread_is_sound(nodes, timeout, now, from + 1, (remaining - take) as nat);
            plan_total_front((from, take), rest);
            let whole = seq![(from, take)] + rest;
            assert forall|k: int| 0 <= k < whole.len() implies from <= (#[trigger] whole[k]).0
                < nodes.len() by {
                if k > 0 {
                    assert(whole[k] == rest[k - 1]);
                }
            }
            assert forall|k: int, l: int| 0 <= k < l < whole.len() implies (#[trigger] whole[k]).0 < (
            #[trigger] whole[l]).0 by {
                assert(whole[l] == rest[l - 1]);
                if k > 0 {
                    assert(whole[k] == rest[k - 1]);
                }
            }
            assert forall|k: int| 0 <= k < whole.len() implies (#[trigger] whole[k]).1
                <= nodes[whole[k].0].spec_available_gpus() by {
                if k > 0 {
                    assert(whole[k] == rest[k - 1]);
                }
            }
        } else {
            spread_is_sound(nodes, timeout, now, from + 1, remaining);
        }
    }
}

/// A plan exists exactly when the cluster can hold the job: for a job
/// without GPUs, when some node can take work; for a job with GPUs, when
/// the nodes that can take work have as many free in all. A plan takes
/// exactly what the job needs and can be carried out.
pub proof fn plan_exists_iff_capacity(
    nodes: Seq<Node>,
    timeout: i64,
    now: i64,
    required: nat,
    same_node_first: bool,
)
    ensures
        required > 0 ==> (plan(nodes, timeout, now, required, same_node_first) is Some <==> total_free(
            nodes,
            timeout,
            now,
        ) >= required),
        required == 0 ==> (plan(nodes, timeout, now, required, same_node_first) is Some <==> exists|
            i: int,
        |
            0 <= i < nodes.len() && (#[trigger] nodes[i]).spec_is_healthy(timeout, now)),
        plan(nodes, timeout, now, required, same_node_first) is Some ==> {
            &&& plan_total(plan(nodes, timeout, now, required, same_node_first)->0) == required
            &&& plan_fits(nodes, plan(nodes, timeout, now, required, same_node_first)->0)
        },
{
    let fit = first_fit(nodes, timeout, now, required, 0);
    first_fit_is_first(nodes, timeout, now, required, 0);
    if fit < nodes.len() {
        offer_within_total(nodes, timeout, now, fit);
        let single = seq![(fit, required)];
        assert(single.drop_last() =~= Seq::<(int, nat)>::empty());
        assert(plan_total(single.drop_last()) == 0);
        assert(single.last().1 == required);
        assert(plan_total(single) == required);
    }
    total_free_from_front(nodes, timeout, now, 0);
    assert(nodes.take(0) =~= Seq::<Node>::empty());
    spread_is_sound(nodes, timeout, now, 0, required);
    if required == 0 {
        if fit >= nodes.len() {
            assert forall|i: int| 0 <= i < nodes.len() implies !(#[trigger] nodes[i]).spec_is_healthy(
                timeout,
                now,
            ) by {
                assert(!fits(nodes[i], timeout, now, 0));
            }
        }
    }
}

/// Carrying out a plan keeps every device's flag and owner in agreement,
/// and lists the job on every planned node once more than before: where
/// the node did not list the job, it lists it exactly once.
pub proof fn plan_keeps_nodes_consistent(before: Seq<Node>, after: Seq<Node>, job: Seq<char>, p: Plan)
    requires
        plan_applied(before, after, job, p),
    ensures
        forall|i: int|
            0 <= i < before.len() && all_consistent(before[i].topology.gpus@) ==> all_consistent(
                (#[trigger] after[i]).topology.gpus@,
            ),
        forall|i: int|
            0 <= i < before.len() && planned(p, i) is Some ==> count_of(
                texts((#[trigger] after[i]).running_jobs@),
                job,
            ) == count_of(texts(before[i].running_jobs@), job) + 1,
        forall|i: int|
            0 <= i < before.len() && planned(p, i) is None ==> (#[trigger] after[i]).running_jobs
                == before[i].running_jobs,
{
    assert forall|i: int| 0 <= i < before.len() && all_consistent(before[i].topology.gpus@) implies all_consistent(
        (#[trigger] after[i]).topology.gpus@,
    ) by {
        match planned(p, i) {
            Some(count) => {
                let b = before[i].topology.gpus@;
                let a = after[i].topology.gpus@;
                assert forall|g: int| 0 <= g < a.len() implies (#[trigger] a[g]).consistent() by {
                    assert(b[g].consistent());
                    if !b[g].allocated && crate::scheduler::node::free_count(b.take(g)) < count {
                        assert(b[g].bound_to(a[g], job));
                    } else {
                        assert(a[g] == b[g]);
                    }
                }
            },
            None => {},
        }
    }
    assert forall|i: int| 0 <= i < before.len() && planned(p, i) is Some implies count_of(
        texts((#[trigger] after[i]).running_jobs@),
        job,
    ) == count_of(texts(before[i].running_jobs@), job) + 1 by {
        allocation_lists_job_once_more(before[i], after[i], job, planned(p, i)->0);
    }
}

/// The plan for a job that needs `required` GPUs at `now`.
pub fn plan_for(registry: &NodeRegistry, required: usize, same_node_first: bool, now: i64) -> (r: Option<
    Vec<(usize, usize)>,
>)
    ensures
        match r {
            Some(v) => plan(registry@, registry.timeout(), now, required as nat, same_node_first) == Some(
                plan_view(v@),
            ),
            None => plan(registry@, registry.timeout(), now, required as nat, same_node_first) is None,
        },
{
    let n: usize = registry.len();
    let timeout: i64 = registry.heartbeat_timeout();
    let ghost nodes = registry@;
    // The first node that can hold the whole job.
    let mut fit: usize = 0;
    let mut found: bool = false;
    while fit < n && !found
        invariant
            n == nodes.len(),
            nodes == registry@,
            timeout == registry.timeout(),
            fit <= n,
            found ==> fit < n && fits(nodes[fit as int], timeout, now, required as nat),
            first_fit(nodes, timeout, now, required as nat, 0) == first_fit(
                nodes,
                timeout,
                now,
                required as nat,
                fit as int,
            ),
        decreases n - fit + if found { 0int } else { 1int },
    {
        let node = registry.node_at(fit);
        if node.is_healthy_at(timeout, now) && node.available_gpus() >= required {
            found = true;
        } else {
            fit = fit + 1;
        }
    }
    assert(first_fit(nodes, timeout, now, required as nat, 0) == fit);
    if required == 0 {
        if fit < n {
            let mut v: Vec<(usize, usize)> = Vec::new();
            v.push((fit, 0));
            assert(plan_view(v@) =~= seq![(fit as int, 0nat)]);
            return Some(v);
        } else {
            return None;
        }
    }
    if same_node_first && fit < n {
        let mut v: Vec<(usize, usize)> = Vec::new();
        v.push((fit, required));
        assert(plan_view(v@) =~= seq![(fit as int, required as nat)]);
        return Some(v);
    }
    // The free GPUs over all nodes, counted up to the largest number.
    let mut total: usize = 0;
    let mut i: usize = 0;
    while i < n
        invariant
            n == nodes.len(),
            nodes == registry@,
            timeout == registry.timeout(),
            i <= n,
            total == cut(total_free(nodes.take(i as int), timeout, now)),
        decreases n - i,
    {
        proof {
            assert(nodes.take(i + 1).drop_last() =~= nodes.take(i as int));
        }
        let node = registry.node_at(i);
        if node.is_healthy_at(timeout, now) {
            let free = node.available_gpus();
            total = if total > usize::MAX - free {
                usize::MAX
            } else {
                total + free
            };
        }
        i = i + 1;
    }
    proof {
        assert(nodes.take(n as int) =~= nodes);
    }
    if total < required {
        return None;
    }
    let mut v: Vec<(usize, usize)> = Vec::new();
    let mut remaining: usize = required;
    let mut at: usize = 0;
    while at < n && remaining > 0
        invariant
            n == nodes.len(),
            nodes == registry@,
            timeout == registry.timeout(),
            at <= n,
            plan_view(v@) + spread(nodes, timeout, now, at as int, remaining as nat) == spread(
                nodes,
                timeout,
                now,
                0,
                required as nat,
            ),
        decreases n - at,
    {
        let node = registry.node_at(at);
        if node.is_healthy_at(timeout, now) {
            let free = node.available_gpus();
            if free >= 1 {
                let take: usize = if remaining <= free {
                    remaining
                } else {
                    free
                };
                let ghost before = plan_view(v@);
                let ghost rest = spread(nodes, timeout, now, at + 1, (remaining - take) as nat);
                v.push((at, take));
                proof {
                    assert(plan_view(v@) =~= before.push((at as int, take as nat)));
                    assert(before.push((at as int, take as nat)) + rest =~= before + (seq![
                        (at as int, take as nat),
                    ] + rest));
                }
                remaining = remaining - take;
            }
        }
        at = at + 1;
    }
    proof {
        assert(spread(nodes, timeout, now, at as int, remaining as nat) =~= Seq::<(int, nat)>::empty());
        assert(plan_view(v@) + Seq::<(int, nat)>::empty() =~= plan_view(v@));
    }
    Some(v)
}

} // verus!
