//! Who holds what after a scheduling cycle: every node that a decision
//! names lists the job once, and every device that a decision names is
//! allocated to the job.

use vstd::prelude::*;
use crate::scheduler::gang::{cycle_result, joined, placement_of, schedules, DecisionView, Scheduler};
use crate::scheduler::gang::{index_of_job, is_queued};
use crate::scheduler::node::{allocation_lists_job_once_more, free_count, free_ids, GpuDevice, Node};
use crate::scheduler::placement::{plan_allocations, plan_applied, plan_exists_iff_capacity, plan_fits, planned, Plan};
use crate::text::{count_of, texts};

verus! {

/// How often the node at place `i` lists the job among its running jobs.
pub open spec fn listed(nodes: Seq<Node>, i: int, job: Seq<char>) -> nat {
    count_of(texts(nodes[i].running_jobs@), job)
}

/// Whether no node lists any of the jobs.
pub open spec fn unlisted(nodes: Seq<Node>, jobs: Seq<Seq<char>>) -> bool {
    forall|k: int, i: int| 0 <= k < jobs.len() && 0 <= i < nodes.len() ==> #[trigger] listed(nodes, i, jobs[k]) == 0
}

/// Whether the node has a device with the id that is allocated to the
/// job.
pub open spec fn holds_device(n: Node, job: Seq<char>, id: Seq<char>) -> bool {
    exists|x: int|
        0 <= x < n.topology.gpus@.len() && (#[trigger] n.topology.gpus@[x]).device_id@ == id
            && n.topology.gpus@[x].allocated && n.topology.gpus@[x].owned_by(job)
}

/// Whether the node lists the job exactly once and has, for each of the
/// ids, a device that is allocated to the job.
pub open spec fn node_holds(n: Node, job: Seq<char>, ids: Seq<Seq<char>>) -> bool {
    &&& count_of(texts(n.running_jobs@), job) == 1
    &&& forall|g: int| 0 <= g < ids.len() ==> holds_device(n, job, #[trigger] ids[g])
}

/// Whether some node has the id that the allocation names and holds for
/// the job what the allocation says.
pub open spec fn allocation_holds(nodes: Seq<Node>, job: Seq<char>, a: (Seq<char>, Seq<Seq<char>>)) -> bool {
    exists|i: int| 0 <= i < nodes.len() && (#[trigger] nodes[i]).id@ == a.0 && node_holds(nodes[i], job, a.1)
}

/// Whether the nodes hold what the decision says: for every allocation
/// of the decision, the node that it names lists the job exactly once,
/// and every device that it names is allocated to the job.
pub open spec fn decision_holds(nodes: Seq<Node>, d: DecisionView) -> bool {
    forall|a: int| 0 <= a < d.allocations.len() ==> allocation_holds(nodes, d.job_id, #[trigger] d.allocations[a])
}

/// The place of the free device that has `g` free devices before it, or
/// -1 where there is none.
pub open spec fn nth_free(gpus: Seq<GpuDevice>, g: int) -> int
    decreases gpus.len(),
{
    if gpus.len() == 0 {
        -1
    } else if !gpus.last().allocated && free_count(gpus.drop_last()) == g {
        gpus.len() - 1
    } else {
        nth_free(gpus.drop_last(), g)
    }
}

/// Each free id belongs to a free device, which has as many free devices
/// before it as the id has ids before it.
pub proof fn nth_free_is_free(gpus: Seq<GpuDevice>, g: int)
    requires
        0 <= g < free_count(gpus),
    ensures
        0 <= nth_free(gpus, g) < gpus.len(),
        !gpus[nth_free(gpus, g)].allocated,
        free_count(gpus.take(nth_free(gpus, g))) == g,
        gpus[nth_free(gpus, g)].device_id@ == free_ids(gpus)[g],
    decreases gpus.len(),
{
    let front = gpus.drop_last();
    if !gpus.last().allocated && free_count(front) == g {
        assert(gpus.take(gpus.len() - 1) =~= front);
    } else {
        nth_free_is_free(front, g);
        let x = nth_free(front, g);
        assert(front.take(x) =~= gpus.take(x));
    }
}

/// Another element at the end does not change how often `job` occurs.
pub proof fn count_push_other(s: Seq<Seq<char>>, y: Seq<char>, job: Seq<char>)
    requires
        y != job,
    ensures
        count_of(s.push(y), job) == count_of(s, job),
{
    assert(s.push(y).drop_last() =~= s);
}

/// A plan names each of its places with what it takes there.
pub proof fn planned_at(nodes: Seq<Node>, p: Plan, a: int)
    requires
        plan_fits(nodes, p),
        0 <= a < p.len(),
    ensures
        planned(p, p[a].0) == Some(p[a].1),
    decreases p.len(),
{
    if a < p.len() - 1 {
        let front = p.drop_last();
        assert(p[a].0 < p[p.len() - 1].0);
        assert forall|k: int| 0 <= k < front.len() implies #[trigger] front[k] == p[k] by {}
        assert(plan_fits(nodes, front));
        planned_at(nodes, front, a);
    }
}

/// What a node holds for a job stays when devices are handed to another
/// job.
pub proof fn node_step_keeps(n: Node, after: Node, other: Seq<char>, count: nat, job: Seq<char>, ids: Seq<Seq<char>>)
    requires
        n.allocated_to(after, other, count),
        other != job,
        node_holds(n, job, ids),
    ensures
        node_holds(after, job, ids),
        after.id == n.id,
{
    count_push_other(texts(n.running_jobs@), other, job);
    assert forall|g: int| 0 <= g < ids.len() implies holds_device(after, job, #[trigger] ids[g]) by {
        assert(holds_device(n, job, ids[g]));
        let x = choose|x: int|
            0 <= x < n.topology.gpus@.len() && (#[trigger] n.topology.gpus@[x]).device_id@ == ids[g]
                && n.topology.gpus@[x].allocated && n.topology.gpus@[x].owned_by(job);
        assert(after.topology.gpus@[x] == n.topology.gpus@[x]);
    }
}

/// A decision that the nodes hold is still held when a plan is carried
/// out for another job.
pub proof fn step_keeps_decision(before: Seq<Node>, after: Seq<Node>, other: Seq<char>, p: Plan, d: DecisionView)
    requires
        plan_applied(before, after, other, p),
        d.job_id != other,
        decision_holds(before, d),
    ensures
        decision_holds(after, d),
{
    assert forall|a: int| 0 <= a < d.allocations.len() implies allocation_holds(
        after,
        d.job_id,
        #[trigger] d.allocations[a],
    ) by {
        let al = d.allocations[a];
        assert(allocation_holds(before, d.job_id, al));
        let i = choose|i: int|
            0 <= i < before.len() && (#[trigger] before[i]).id@ == al.0 && node_holds(before[i], d.job_id, al.1);
        match planned(p, i) {
            Some(count) => {
                assert(before[i].allocated_to(after[i], other, count));
                node_step_keeps(before[i], after[i], other, count, d.job_id, al.1);
            },
            None => {
                assert(after[i] == before[i]);
            },
        }
        assert(after[i].id@ == al.0 && node_holds(after[i], d.job_id, al.1));
    }
}

/// Carrying out a plan for a job changes no node's count of another job.
pub proof fn step_keeps_counts(before: Seq<Node>, after: Seq<Node>, job: Seq<char>, p: Plan, id: Seq<char>)
    requires
        plan_applied(before, after, job, p),
        id != job,
    ensures
        forall|i: int| 0 <= i < before.len() ==> #[trigger] listed(after, i, id) == listed(before, i, id),
{
    assert forall|i: int| 0 <= i < before.len() implies #[trigger] listed(after, i, id) == listed(before, i, id) by {
        match planned(p, i) {
            Some(count) => {
                assert(before[i].allocated_to(after[i], job, count));
                count_push_other(texts(before[i].running_jobs@), job, id);
            },
            None => {
                assert(after[i] == before[i]);
            },
        }
    }
}

/// Once a plan is carried out for a job that no node listed, every node
/// of the plan lists the job exactly once, and every device that the
/// plan's allocations name is allocated to the job.
pub proof fn step_makes_decision(before: Seq<Node>, after: Seq<Node>, job: Seq<char>, p: Plan)
    requires
        plan_applied(before, after, job, p),
        plan_fits(before, p),
        forall|i: int| 0 <= i < before.len() ==> listed(before, i, job) == 0,
    ensures
        forall|a: int|
            0 <= a < p.len() ==> allocation_holds(after, job, #[trigger] plan_allocations(before, p)[a]),
{
    assert forall|a: int| 0 <= a < p.len() implies allocation_holds(
        after,
        job,
        #[trigger] plan_allocations(before, p)[a],
    ) by {
        let i = p[a].0;
        let count = p[a].1;
        let al = plan_allocations(before, p)[a];
        planned_at(before, p, a);
        assert(before[i].allocated_to(after[i], job, count));
        allocation_lists_job_once_more(before[i], after[i], job, count);
        assert(listed(before, i, job) == 0);
        let b = before[i].topology.gpus@;
        let c = after[i].topology.gpus@;
        assert(count <= free_count(b));
        assert forall|g: int| 0 <= g < al.1.len() implies holds_device(after[i], job, #[trigger] al.1[g]) by {
            nth_free_is_free(b, g);
            let x = nth_free(b, g);
            assert(b[x].bound_to(c[x], job));
            assert(c[x].device_id@ == al.1[g]);
        }
        assert(after[i].id@ == al.0 && node_holds(after[i], job, al.1));
    }
}

/// After a scheduling cycle over jobs that no node listed before, the
/// nodes hold what every decision of the cycle says: each node that a
/// decision names lists the job exactly once, and each device that it
/// names is allocated to the job. Jobs that the cycle did not look at are
/// listed as often as before.
pub proof fn cycle_binds_each_job_once(
    before: &Scheduler,
    order: Seq<Seq<char>>,
    now: i64,
    after: &Scheduler,
    ds: Seq<DecisionView>,
)
    requires
        order.no_duplicates(),
        unlisted(before.nodes(), order),
        cycle_result(before, order, now, after, ds),
    ensures
        after.nodes().len() == before.nodes().len(),
        forall|m: int| 0 <= m < ds.len() ==> order.contains((#[trigger] ds[m]).job_id),
        forall|m: int| 0 <= m < ds.len() ==> decision_holds(after.nodes(), #[trigger] ds[m]),
        forall|id: Seq<char>, i: int|
            !order.contains(id) && 0 <= i < before.nodes().len() ==> #[trigger] listed(after.nodes(), i, id)
                == listed(before.nodes(), i, id),
    decreases order.len(),
{
    if order.len() > 0 {
        let front = order.drop_last();
        let x = order.last();
        let (mid, ds0, d) = choose|mid: Scheduler, ds0: Seq<DecisionView>, d: Option<DecisionView>|
            #![trigger schedules(&mid, order.last(), now, after, d), joined(ds, ds0, d)]
            cycle_result(before, order.drop_last(), now, &mid, ds0) && schedules(&mid, order.last(), now, after, d)
                && joined(ds, ds0, d);
        assert forall|k: int| 0 <= k < front.len() implies #[trigger] front[k] == order[k] by {}
        assert(front.no_duplicates());
        assert(unlisted(before.nodes(), front)) by {
            assert forall|k: int, i: int| 0 <= k < front.len() && 0 <= i < before.nodes().len() implies #[trigger] listed(
                before.nodes(),
                i,
                front[k],
            ) == 0 by {
                assert(front[k] == order[k]);
                assert(listed(before.nodes(), i, order[k]) == 0);
            }
        }
        cycle_binds_each_job_once(before, front, now, &mid, ds0);
        assert(!front.contains(x)) by {
            if front.contains(x) {
                let k = choose|k: int| 0 <= k < front.len() && front[k] == x;
                assert(order[k] == order[order.len() - 1]);
            }
        }
        assert forall|id: Seq<char>| front.contains(id) implies order.contains(id) by {
            let k = choose|k: int| 0 <= k < front.len() && front[k] == id;
            assert(order[k] == id);
        }
        assert(order.contains(x)) by {
            assert(order[order.len() - 1] == x);
        }
        assert forall|id: Seq<char>| !order.contains(id) implies !front.contains(id) && id != x by {}
        let job = mid.jobs()[index_of_job(mid.jobs(), x)];
        if is_queued(mid.jobs(), x) && placement_of(&mid, job, now) is Some {
            let p = placement_of(&mid, job, now)->0;
            plan_exists_iff_capacity(
                mid.nodes(),
                mid.node_timeout(),
                now,
                job.descriptor.resources.gpu_count as nat,
                job.descriptor.policy.gang_schedule && mid.spec_config().prefer_same_node,
            );
            assert(plan_applied(mid.nodes(), after.nodes(), x, p));
            assert forall|i: int| 0 <= i < mid.nodes().len() implies listed(mid.nodes(), i, x) == 0 by {
                assert(listed(mid.nodes(), i, x) == listed(before.nodes(), i, x));
                assert(order[order.len() - 1] == x);
            }
            step_makes_decision(mid.nodes(), after.nodes(), x, p);
            let made = d->0;
            assert(made.job_id == x);
            assert(made.allocations == plan_allocations(mid.nodes(), p));
            assert(decision_holds(after.nodes(), made)) by {
                assert forall|a: int| 0 <= a < made.allocations.len() implies allocation_holds(
                    after.nodes(),
                    made.job_id,
                    #[trigger] made.allocations[a],
                ) by {
                    assert(allocation_holds(after.nodes(), x, plan_allocations(mid.nodes(), p)[a]));
                }
            }
            assert(ds =~= ds0.push(made));
            assert forall|m: int| 0 <= m < ds.len() implies order.contains((#[trigger] ds[m]).job_id)
                && decision_holds(after.nodes(), ds[m]) by {
                if m < ds0.len() {
                    assert(ds[m] == ds0[m]);
                    assert(front.contains(ds0[m].job_id));
                    step_keeps_decision(mid.nodes(), after.nodes(), x, p, ds0[m]);
                }
            }
            assert forall|id: Seq<char>, i: int| !order.contains(id) && 0 <= i < before.nodes().len() implies #[trigger] listed(
                after.nodes(),
                i,
                id,
            ) == listed(before.nodes(), i, id) by {
                step_keeps_counts(mid.nodes(), after.nodes(), x, p, id);
                assert(listed(mid.nodes(), i, id) == listed(before.nodes(), i, id));
            }
        } else {
            assert(d is None);
            assert(after.nodes() == mid.nodes());
            assert(ds =~= ds0);
            assert forall|m: int| 0 <= m < ds.len() implies order.contains((#[trigger] ds[m]).job_id) by {
                assert(front.contains(ds0[m].job_id));
            }
        }
    }
}

} // verus!
