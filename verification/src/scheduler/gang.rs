//! The gang scheduler: a store of jobs, a queue of those that wait, and
//! the registry of nodes that they are placed on.

use vstd::prelude::*;
use vstd::string::StringExecFns;
use priority_queue::PriorityQueue;
use crate::scheduler::Error;
use crate::scheduler::clock::{now_secs, older_than, spec_older_than};
use crate::scheduler::job::{
    allocations_view, invalid_transition_message, is_edge, is_step, Job, JobState, NodeAllocation,
};
use crate::scheduler::node::{all_consistent, Node, NodeTopology};
use crate::scheduler::ownership::{cycle_binds_each_job_once, decision_holds, listed, unlisted};
use crate::scheduler::placement::{
    least, plan, plan_allocations, plan_applied, plan_exists_iff_capacity, plan_fits, plan_for,
    plan_keeps_nodes_consistent, plan_view, planned, Plan,
};
use crate::scheduler::queue::{queue_entries, queue_len, queue_new, queue_pop, queue_push, queue_remove};
use crate::scheduler::registry::{distinct_node_ids, has_node, node_is_healthy, node_updated, NodeRegistry};
use crate::text::{count_of, decimal, push_decimal, texts, without};

verus! {

/// What the scheduler decided for one job.
#[derive(Debug, Clone)]
pub struct SchedulingDecision {
    /// The job.
    pub job_id: String,
    /// The devices bound to it, per node, in registry order.
    pub allocations: Vec<NodeAllocation>,
    /// Whether GPUs were bound, all together.
    pub gang_allocated: bool,
}

/// A decision as plain values.
pub struct DecisionView {
    /// The job.
    pub job_id: Seq<char>,
    /// Each node's id with the device ids taken there.
    pub allocations: Seq<(Seq<char>, Seq<Seq<char>>)>,
    /// Whether GPUs were bound, all together.
    pub gang_allocated: bool,
}

impl View for SchedulingDecision {
    type V = DecisionView;

    open spec fn view(&self) -> DecisionView {
        DecisionView {
            job_id: self.job_id@,
            allocations: allocations_view(self.allocations@),
            gang_allocated: self.gang_allocated,
        }
    }
}

/// The decisions of a list as plain values.
pub open spec fn decisions_view(d: Seq<SchedulingDecision>) -> Seq<DecisionView> {
    d.map_values(|x: SchedulingDecision| x@)
}

/// How the scheduler works.
#[derive(Debug, Clone)]
pub struct SchedulerConfig {
    /// The most jobs looked at in one scheduling cycle.
    pub max_schedule_batch: usize,
    /// Whether backfill is enabled.
    pub backfill_enabled: bool,
    /// Whether placement looks at topology.
    pub topology_aware: bool,
    /// Whether a gang job is first tried on one node.
    pub prefer_same_node: bool,
    /// Seconds after which a running job times out; zero means never.
    pub job_timeout_secs: u64,
    /// Seconds after which a silent node counts as dead.
    pub heartbeat_timeout_secs: u64,
}

impl Default for SchedulerConfig {
    fn default() -> (c: SchedulerConfig)
        ensures
            c.max_schedule_batch == 100,
            c.backfill_enabled,
            c.topology_aware,
            c.prefer_same_node,
            c.job_timeout_secs == 86400,
            c.heartbeat_timeout_secs == 60,
    {
        SchedulerConfig {
            max_schedule_batch: 100,
            backfill_enabled: true,
            topology_aware: true,
            prefer_same_node: true,
            job_timeout_secs: 86400,
            heartbeat_timeout_secs: 60,
        }
    }
}

/// Whether some job of the list has the id.
pub open spec fn has_job(jobs: Seq<Job>, id: Seq<char>) -> bool {
    exists|k: int| 0 <= k < jobs.len() && (#[trigger] jobs[k]).id@ == id
}

/// The place of the job with the id, where there is one.
pub open spec fn index_of_job(jobs: Seq<Job>, id: Seq<char>) -> int {
    choose|k: int| 0 <= k < jobs.len() && (#[trigger] jobs[k]).id@ == id
}

/// Whether no two jobs share an id.
pub open spec fn distinct_job_ids(jobs: Seq<Job>) -> bool {
    forall|k: int, l: int|
        0 <= k < jobs.len() && 0 <= l < jobs.len() && k != l ==> (#[trigger] jobs[k]).id@ != (
        #[trigger] jobs[l]).id@
}

/// Whether the job with the id exists and waits in state Queued.
pub open spec fn is_queued(jobs: Seq<Job>, id: Seq<char>) -> bool {
    exists|k: int| 0 <= k < jobs.len() && (#[trigger] jobs[k]).id@ == id && jobs[k].state == JobState::Queued
}

/// Whether `after` is `before` but for the job at place `k`.
pub open spec fn only_job_differs(before: Seq<Job>, after: Seq<Job>, k: int) -> bool {
    &&& after.len() == before.len()
    &&& forall|j: int| 0 <= j < before.len() && j != k ==> after[j] == before[j]
}

/// Whether every job of `before` is still in its place in `after`, under
/// its id, and has stayed in its state or followed an edge of the
/// lifecycle.
pub open spec fn follows_lifecycle(before: Seq<Job>, after: Seq<Job>) -> bool {
    &&& before.len() <= after.len()
    &&& forall|k: int|
        0 <= k < before.len() ==> (#[trigger] after[k]).id == before[k].id && is_step(
            before[k].state,
            after[k].state,
        )
}

/// Under the lifecycle a job in a terminal state keeps that state.
pub proof fn terminal_jobs_stay(before: Seq<Job>, after: Seq<Job>)
    requires
        follows_lifecycle(before, after),
    ensures
        forall|k: int|
            0 <= k < before.len() && before[k].state.spec_is_terminal() ==> (#[trigger] after[k]).state
                == before[k].state,
{
}

/// The message for an id that no job has.
pub open spec fn job_not_found_message(id: Seq<char>) -> Seq<char> {
    "Job not found: "@ + id
}

/// The error for an id that no job has.
fn job_not_found(id: &str) -> (e: Error)
    ensures
        e is Job,
        e.spec_message() == job_not_found_message(id@),
{
    let mut msg = String::from_str("Job not found: ");
    msg.append(id);
    Error::Job(msg)
}

/// The error for a move that is no edge of the lifecycle.
fn invalid_transition(id: &str, from: JobState, to: JobState) -> (e: Error)
    ensures
        e is Job,
        e.spec_message() == invalid_transition_message(id@, from, to),
{
    let mut msg = String::from_str("Invalid transition for job ");
    msg.append(id);
    msg.append(": ");
    msg.append(from.name());
    msg.append(" -> ");
    msg.append(to.name());
    Error::Job(msg)
}

/// The jobs behind a list of references.
pub open spec fn jobs_of(refs: Seq<&Job>) -> Seq<Job> {
    refs.map_values(|j: &Job| *j)
}

/// Whether `after` is `before` with every node whose id is in `listed` rid
/// of `job`, and no other node changed.
pub open spec fn nodes_released(before: Seq<Node>, after: Seq<Node>, listed: Seq<Seq<char>>, job: Seq<char>) -> bool {
    &&& after.len() == before.len()
    &&& forall|i: int|
        0 <= i < before.len() ==> if listed.contains(before[i].id@) {
            before[i].released_from(#[trigger] after[i], job)
        } else {
            after[i] == before[i]
        }
}

/// Whether on every node every device's allocation flag and owner agree:
/// a device is allocated exactly when a job is recorded as its owner.
pub open spec fn cluster_consistent(nodes: Seq<Node>) -> bool {
    forall|i: int| 0 <= i < nodes.len() ==> all_consistent((#[trigger] nodes[i]).topology.gpus@)
}

/// Releasing a job keeps every device's flag and owner in agreement.
pub proof fn release_keeps_nodes_consistent(before: Seq<Node>, after: Seq<Node>, listed: Seq<Seq<char>>, job: Seq<char>)
    requires
        nodes_released(before, after, listed, job),
        cluster_consistent(before),
    ensures
        cluster_consistent(after),
{
    assert forall|i: int| 0 <= i < after.len() implies all_consistent((#[trigger] after[i]).topology.gpus@) by {
        let b = before[i].topology.gpus@;
        let a = after[i].topology.gpus@;
        assert(all_consistent(b));
        if listed.contains(before[i].id@) {
            assert(before[i].released_from(after[i], job));
            assert forall|g: int| 0 <= g < a.len() implies (#[trigger] a[g]).consistent() by {
                assert(b[g].consistent());
                if b[g].owned_by(job) {
                    assert(b[g].set_free(a[g]));
                } else {
                    assert(a[g] == b[g]);
                }
            }
        }
    }
}

/// Taking out twice is taking out once.
pub proof fn without_twice(s: Seq<Seq<char>>, x: Seq<char>)
    ensures
        without(without(s, x), x) == without(s, x),
    decreases s.len(),
{
    if s.len() > 0 {
        without_twice(s.drop_last(), x);
        if s.last() != x {
            let w = without(s.drop_last(), x);
            assert(w.push(s.last()).drop_last() =~= w);
            assert(w.push(s.last()).last() == s.last());
        }
    }
}

/// Releasing a job from a node twice is releasing it once.
pub proof fn release_twice(a: Node, b: Node, c: Node, job: Seq<char>)
    requires
        a.released_from(b, job),
        b.released_from(c, job),
    ensures
        a.released_from(c, job),
{
    without_twice(texts(a.running_jobs@), job);
    assert forall|i: int| 0 <= i < a.topology.gpus@.len() implies if a.topology.gpus@[i].owned_by(job) {
        a.topology.gpus@[i].set_free(#[trigger] c.topology.gpus@[i])
    } else {
        c.topology.gpus@[i] == a.topology.gpus@[i]
    } by {
        let x = a.topology.gpus@[i];
        let y = b.topology.gpus@[i];
        let z = c.topology.gpus@[i];
        assert(if x.owned_by(job) {
            x.set_free(y)
        } else {
            y == x
        });
        assert(if y.owned_by(job) {
            y.set_free(z)
        } else {
            z == y
        });
    }
}

/// The message of a submission.
pub open spec fn submitted_message() -> Seq<char> {
    "Submitted to scheduler"@
}

/// The message of a start.
pub open spec fn started_message() -> Seq<char> {
    "Job started on node"@
}

/// Whether `after` is `before` once `job`, in state Pending, was
/// submitted at `now`: the job is stored in state Queued, in the place of
/// the job with the same id where there was one and else at the end, and
/// it waits in the queue under the priority of its policy.
pub open spec fn submitted(before: &Scheduler, job: Job, now: i64, after: &Scheduler) -> bool {
    &&& before.same_cluster(after)
    &&& after.queue() == before.queue().insert(job.id@, job.descriptor.policy.priority)
    &&& if has_job(before.jobs(), job.id@) {
        let k = index_of_job(before.jobs(), job.id@);
        &&& only_job_differs(before.jobs(), after.jobs(), k)
        &&& job.moved_to(after.jobs()[k], JobState::Queued, submitted_message(), now)
    } else {
        &&& after.jobs().len() == before.jobs().len() + 1
        &&& after.jobs().drop_last() == before.jobs()
        &&& job.moved_to(after.jobs().last(), JobState::Queued, submitted_message(), now)
    }
}

/// After a submission the job is stored under its id, in state Queued
/// and with the descriptor that was submitted, and it waits in the queue.
pub proof fn submitted_job_is_stored(before: &Scheduler, job: Job, after: &Scheduler)
    requires
        before.wf(),
        after.wf(),
        exists|now: i64| submitted(before, job, now, after),
    ensures
        has_job(after.jobs(), job.id@),
        after.jobs()[index_of_job(after.jobs(), job.id@)].descriptor == job.descriptor,
        after.jobs()[index_of_job(after.jobs(), job.id@)].state == JobState::Queued,
        after.queue().contains_key(job.id@),
        after.nodes() == before.nodes(),
{
    let now = choose|now: i64| submitted(before, job, now, after);
    let jobs = after.jobs();
    if has_job(before.jobs(), job.id@) {
        let k = index_of_job(before.jobs(), job.id@);
        assert(jobs[k].id@ == job.id@);
    } else {
        assert(jobs[jobs.len() - 1].id@ == job.id@);
    }
    let at = index_of_job(jobs, job.id@);
    assert(jobs[at].id@ == job.id@);
}

/// Whether `after` is `before` once the job at place `k` was moved to
/// `to` with `message` at `now`, all else unchanged but the queue, which
/// no longer holds the job.
pub open spec fn job_moved(before: &Scheduler, k: int, to: JobState, message: Seq<char>, now: i64, after: &Scheduler) -> bool {
    &&& 0 <= k < before.jobs().len()
    &&& after.node_timeout() == before.node_timeout()
    &&& after.spec_config() == before.spec_config()
    &&& only_job_differs(before.jobs(), after.jobs(), k)
    &&& before.jobs()[k].moved_to(after.jobs()[k], to, message, now)
    &&& after.queue() == before.queue().remove(before.jobs()[k].id@)
}

/// Whether `after` and `e` are what becomes of `before` when a move of
/// the job with the id to `to` is refused: nothing changes, and the error
/// says that no job has the id, or names the job and the two states.
pub open spec fn refused(before: &Scheduler, id: Seq<char>, to: JobState, after: &Scheduler, e: Error) -> bool {
    &&& before.same_state(after)
    &&& e is Job
    &&& e.spec_message() == if has_job(before.jobs(), id) {
        invalid_transition_message(id, before.jobs()[index_of_job(before.jobs(), id)].state, to)
    } else {
        job_not_found_message(id)
    }
}

/// Whether a job in this state can be cancelled.
pub open spec fn cancellable(state: JobState) -> bool {
    is_edge(state, JobState::Cancelled)
}

/// A job in a terminal state cannot be cancelled, nor can a suspended
/// one: cancelling it is an error that changes nothing.
pub proof fn ended_job_cannot_be_cancelled(state: JobState)
    requires
        state.spec_is_terminal() || state == JobState::Suspended,
    ensures
        !cancellable(state),
{
}

/// Whether `after` is `before` once the job with the id was cancelled at
/// `now`: the job is Cancelled and out of the queue; where it was
/// Running, its nodes are rid of it; else the nodes are as they were.
pub open spec fn cancelled(before: &Scheduler, id: Seq<char>, reason: Seq<char>, now: i64, after: &Scheduler) -> bool {
    let k = index_of_job(before.jobs(), id);
    let job = before.jobs()[k];
    &&& job_moved(before, k, JobState::Cancelled, reason, now, after)
    &&& if job.state == JobState::Running {
        nodes_released(before.nodes(), after.nodes(), texts(job.allocated_nodes@), id)
    } else {
        after.nodes() == before.nodes()
    }
}

/// The message of a timeout.
pub open spec fn timeout_message(limit: u64) -> Seq<char> {
    "Job exceeded timeout of "@ + decimal(limit as nat) + " seconds"@
}

/// The message of a failure for the death of a node.
pub open spec fn node_death_message() -> Seq<char> {
    "Allocated node(s) became unhealthy"@
}

/// Whether a running job has run for more than the limit at `now`; a limit
/// of zero never strikes.
pub open spec fn timed_out(job: Job, limit: u64, now: i64) -> bool {
    limit > 0 && job.start_time is Some && spec_older_than(job.start_time->0, now, limit as int)
}

/// Whether some node bound to the job cannot take work at `now`, or is
/// gone.
pub open spec fn on_dead_node(job: Job, nodes: Seq<Node>, timeout: i64, now: i64) -> bool {
    exists|t: int|
        0 <= t < job.allocated_nodes@.len() && !node_is_healthy(
            nodes,
            (#[trigger] job.allocated_nodes@[t])@,
            timeout,
            now,
        )
}

/// The state that the reaper gives to a job at `now`: Timeout for a
/// running job over its limit, else Failed for a running job on a dead
/// node; no other job is touched.
pub open spec fn reaped_state(job: Job, nodes: Seq<Node>, timeout: i64, limit: u64, now: i64) -> Option<
    JobState,
> {
    if job.state != JobState::Running {
        None
    } else if timed_out(job, limit, now) {
        Some(JobState::Timeout)
    } else if on_dead_node(job, nodes, timeout, now) {
        Some(JobState::Failed)
    } else {
        None
    }
}

/// The number of jobs that the reaper touches at `now`.
pub open spec fn reaped_count(jobs: Seq<Job>, nodes: Seq<Node>, timeout: i64, limit: u64, now: i64) -> nat
    decreases jobs.len(),
{
    if jobs.len() == 0 {
        0
    } else {
        reaped_count(jobs.drop_last(), nodes, timeout, limit, now) + if reaped_state(
            jobs.last(),
            nodes,
            timeout,
            limit,
            now,
        ) is Some {
            1nat
        } else {
            0nat
        }
    }
}

/// Whether `after` is `before` once the reaper has gone over it at `now`.
pub open spec fn reaped(before: &Scheduler, now: i64, after: &Scheduler) -> bool {
    &&& before.same_cluster(after)
    &&& after.queue() == before.queue()
    &&& after.jobs().len() == before.jobs().len()
    &&& forall|k: int|
        0 <= k < before.jobs().len() ==> match reaped_state(
            before.jobs()[k],
            before.nodes(),
            before.node_timeout(),
            before.spec_config().job_timeout_secs,
            now,
        ) {
            Some(JobState::Timeout) => before.jobs()[k].moved_to(
                #[trigger] after.jobs()[k],
                JobState::Timeout,
                timeout_message(before.spec_config().job_timeout_secs),
                now,
            ),
            Some(to) => before.jobs()[k].moved_to(after.jobs()[k], to, node_death_message(), now),
            None => after.jobs()[k] == before.jobs()[k],
        }
}

/// With a limit of zero the reaper times no job out.
pub proof fn zero_limit_disables_timeout(job: Job, nodes: Seq<Node>, timeout: i64, now: i64)
    ensures
        reaped_state(job, nodes, timeout, 0, now) != Some(JobState::Timeout),
{
}

/// The message of a scheduling.
pub open spec fn scheduled_message() -> Seq<char> {
    "Resources allocated"@
}

/// Whether `after` is the job `before` bound to the allocations at `now`:
/// it is Scheduled, it names the nodes and devices, and nothing else
/// differs.
pub open spec fn bound_as(before: Job, after: Job, allocations: Seq<(Seq<char>, Seq<Seq<char>>)>, now: i64) -> bool {
    &&& after.id == before.id
    &&& after.descriptor == before.descriptor
    &&& after.state == JobState::Scheduled
    &&& after.message@ == scheduled_message()
    &&& after.submit_time == before.submit_time
    &&& after.schedule_time == Some(now)
    &&& after.start_time == before.start_time
    &&& after.end_time == before.end_time
    &&& after.retry_count == before.retry_count
    &&& texts(after.allocated_nodes@) == allocations.map_values(|a: (Seq<char>, Seq<Seq<char>>)| a.0)
    &&& allocations_view(after.allocated_gpus@) == allocations
}

/// The plan for a job on the scheduler's nodes at `now`. A gang job is
/// first tried on one node where the configuration prefers that.
pub open spec fn placement_of(s: &Scheduler, job: Job, now: i64) -> Option<Plan> {
    plan(
        s.nodes(),
        s.node_timeout(),
        now,
        job.descriptor.resources.gpu_count as nat,
        job.descriptor.policy.gang_schedule && s.spec_config().prefer_same_node,
    )
}

/// Whether `after` and `d` are what becomes of `before` when the job with
/// the id is tried at `now`. A job that does not wait, and a job that the
/// cluster cannot hold, leaves everything as it is and gets no decision.
/// Else the plan is carried out on the nodes, the job is bound and leaves
/// the queue, and the decision names what was bound; GPUs are bound all
/// together.
pub open spec fn schedules(before: &Scheduler, id: Seq<char>, now: i64, after: &Scheduler, d: Option<DecisionView>) -> bool {
    if !is_queued(before.jobs(), id) {
        d is None && before.same_state(after)
    } else {
        let k = index_of_job(before.jobs(), id);
        let job = before.jobs()[k];
        match placement_of(before, job, now) {
            None => d is None && before.same_state(after),
            Some(p) => {
                &&& d == Some(
                    DecisionView {
                        job_id: id,
                        allocations: plan_allocations(before.nodes(), p),
                        gang_allocated: job.descriptor.resources.gpu_count != 0,
                    },
                )
                &&& plan_applied(before.nodes(), after.nodes(), id, p)
                &&& after.node_timeout() == before.node_timeout()
                &&& after.spec_config() == before.spec_config()
                &&& after.queue() == before.queue().remove(id)
                &&& only_job_differs(before.jobs(), after.jobs(), k)
                &&& bound_as(job, after.jobs()[k], plan_allocations(before.nodes(), p), now)
            },
        }
    }
}

/// Every node that a decision names lists the job exactly once, where no
/// node listed the job before; every device on every node keeps its flag
/// and owner in agreement.
pub proof fn decision_lists_job_once(before: &Scheduler, id: Seq<char>, now: i64, after: &Scheduler, d: DecisionView)
    requires
        is_queued(before.jobs(), id),
        schedules(before, id, now, after, Some(d)),
        forall|i: int| 0 <= i < before.nodes().len() ==> count_of(texts((#[trigger] before.nodes()[i]).running_jobs@), id) == 0,
    ensures
        placement_of(before, before.jobs()[index_of_job(before.jobs(), id)], now) is Some,
        forall|i: int|
            0 <= i < before.nodes().len() ==> count_of(texts((#[trigger] after.nodes()[i]).running_jobs@), id)
                == if planned(
                placement_of(before, before.jobs()[index_of_job(before.jobs(), id)], now)->0,
                i,
            ) is Some {
                1nat
            } else {
                0nat
            },
        cluster_consistent(before.nodes()) ==> cluster_consistent(after.nodes()),
{
    let job = before.jobs()[index_of_job(before.jobs(), id)];
    let p = placement_of(before, job, now)->0;
    plan_keeps_nodes_consistent(before.nodes(), after.nodes(), id, p);
}

/// A decision, or none, as plain values.
pub open spec fn decision_view(d: Option<SchedulingDecision>) -> Option<DecisionView> {
    match d {
        Some(x) => Some(x@),
        None => None,
    }
}

/// A plan names no node that lies after all its places.
pub proof fn planned_none_beyond(p: Plan, i: int)
    requires
        forall|k: int| 0 <= k < p.len() ==> (#[trigger] p[k]).0 < i,
    ensures
        planned(p, i) is None,
    decreases p.len(),
{
    if p.len() > 0 {
        assert(p.last() == p[p.len() - 1]);
        assert forall|k: int| 0 <= k < p.drop_last().len() implies (#[trigger] p.drop_last()[k]).0 < i by {
            assert(p.drop_last()[k] == p[k]);
        }
        planned_none_beyond(p.drop_last(), i);
    }
}

/// A copy of a list of strings.
fn copy_strings(v: &Vec<String>) -> (r: Vec<String>)
    ensures
        r@ == v@,
{
    let mut r: Vec<String> = Vec::new();
    let mut i: usize = 0;
    while i < v.len()
        invariant
            i <= v.len(),
            r@ == v@.take(i as int),
        decreases v.len() - i,
    {
        r.push(v[i].clone());
        i = i + 1;
        assert(r@ =~= v@.take(i as int));
    }
    assert(v@.take(v.len() as int) =~= v@);
    r
}

/// Whether `order` lists, without repeating one, the `limit` entries of
/// the queue that come first by priority (all of them where there are
/// fewer), from the greatest priority down. Entries of equal priority
/// may come in any order.
pub open spec fn is_priority_prefix(entries: Map<Seq<char>, i32>, order: Seq<Seq<char>>, limit: nat) -> bool {
    &&& order.no_duplicates()
    &&& order.len() == least(limit, entries.len())
    &&& forall|k: int| 0 <= k < order.len() ==> entries.contains_key(#[trigger] order[k])
    &&& forall|k: int, l: int|
        0 <= k < l < order.len() ==> entries[#[trigger] order[k]] >= entries[#[trigger] order[l]]
    &&& forall|id: Seq<char>, k: int|
        entries.contains_key(id) && !order.contains(id) && 0 <= k < order.len() ==> entries[#[trigger] order[k]]
            >= #[trigger] entries[id]
}

/// Whether `ds` is `ds0` followed by the decision `d`, where there is one.
pub open spec fn joined(ds: Seq<DecisionView>, ds0: Seq<DecisionView>, d: Option<DecisionView>) -> bool {
    ds == ds0 + option_seq(d)
}

/// A decision, where there is one, as a list.
pub open spec fn option_seq(d: Option<DecisionView>) -> Seq<DecisionView> {
    match d {
        Some(x) => seq![x],
        None => Seq::empty(),
    }
}

/// Whether `after` and `ds` are what becomes of `before` when the jobs of
/// `order` are tried at `now` one after the other, each on the cluster as
/// the jobs before it left it; `ds` holds the decisions in that order.
pub open spec fn cycle_result(before: &Scheduler, order: Seq<Seq<char>>, now: i64, after: &Scheduler, ds: Seq<DecisionView>) -> bool
    decreases order.len(),
{
    if order.len() == 0 {
        before.same_state(after) && ds.len() == 0
    } else {
        exists|mid: Scheduler, ds0: Seq<DecisionView>, d: Option<DecisionView>|
            #![trigger schedules(&mid, order.last(), now, after, d), joined(ds, ds0, d)]
            cycle_result(before, order.drop_last(), now, &mid, ds0) && schedules(
                &mid,
                order.last(),
                now,
                after,
                d,
            ) && joined(ds, ds0, d)
    }
}

/// The outcome of a cycle depends on the state it starts from, not on
/// the scheduler that holds that state.
pub proof fn cycle_result_same_start(
    a: &Scheduler,
    b: &Scheduler,
    order: Seq<Seq<char>>,
    now: i64,
    after: &Scheduler,
    ds: Seq<DecisionView>,
)
    requires
        a.same_state(b),
        cycle_result(b, order, now, after, ds),
    ensures
        cycle_result(a, order, now, after, ds),
    decreases order.len(),
{
    if order.len() > 0 {
        let (mid, ds0, d) = choose|mid: Scheduler, ds0: Seq<DecisionView>, d: Option<DecisionView>|
            #![trigger schedules(&mid, order.last(), now, after, d), joined(ds, ds0, d)]
            cycle_result(b, order.drop_last(), now, &mid, ds0) && schedules(
                &mid,
                order.last(),
                now,
                after,
                d,
            ) && joined(ds, ds0, d);
        cycle_result_same_start(a, b, order.drop_last(), now, &mid, ds0);
        assert(schedules(&mid, order.last(), now, after, d) && joined(ds, ds0, d));
    }
}

/// The ids of a list of queue entries.
pub open spec fn entry_ids(picked: Seq<(String, i32)>) -> Seq<Seq<char>> {
    picked.map_values(|e: (String, i32)| e.0@)
}

/// The gang scheduler.
pub struct Scheduler {
    nodes: NodeRegistry,
    pending_queue: PriorityQueue<String, i32>,
    jobs: Vec<Job>,
    config: SchedulerConfig,
}

impl Scheduler {
    /// The nodes, in registry order.
    pub closed spec fn nodes(&self) -> Seq<Node> {
        self.nodes@
    }

    /// The heartbeat timeout of the registry.
    pub closed spec fn node_timeout(&self) -> i64 {
        self.nodes.timeout()
    }

    /// The jobs, in the order in which their ids were first submitted.
    pub closed spec fn jobs(&self) -> Seq<Job> {
        self.jobs@
    }

    /// The pending queue: the priority under each waiting job's id.
    pub closed spec fn queue(&self) -> Map<Seq<char>, i32> {
        queue_entries(self.pending_queue)
    }

    /// The configuration.
    pub closed spec fn spec_config(&self) -> SchedulerConfig {
        self.config
    }

    /// What holds of every scheduler: node ids and job ids are unique, and
    /// the queue holds exactly the jobs in state Queued, each under the
    /// priority of its policy.
    pub open spec fn wf(&self) -> bool {
        &&& distinct_node_ids(self.nodes())
        &&& distinct_job_ids(self.jobs())
        &&& self.queue().dom().finite()
        &&& forall|id: Seq<char>| #[trigger] self.queue().contains_key(id) <==> is_queued(self.jobs(), id)
        &&& forall|k: int|
            0 <= k < self.jobs().len() && (#[trigger] self.jobs()[k]).state == JobState::Queued
                ==> self.queue()[self.jobs()[k].id@] == self.jobs()[k].descriptor.policy.priority
    }

    /// Whether `other` has the same nodes, jobs, queue and configuration.
    pub open spec fn same_state(&self, other: &Scheduler) -> bool {
        &&& other.nodes() == self.nodes()
        &&& other.node_timeout() == self.node_timeout()
        &&& other.jobs() == self.jobs()
        &&& other.queue() == self.queue()
        &&& other.spec_config() == self.spec_config()
    }

    /// Whether no node lists a job that waits in the queue.
    pub open spec fn waiting_unlisted(&self) -> bool {
        forall|id: Seq<char>, i: int|
            self.queue().contains_key(id) && 0 <= i < self.nodes().len() ==> #[trigger] listed(self.nodes(), i, id)
                == 0
    }

    /// Whether the nodes hold what every decision of the list says: each
    /// node that a decision names lists the job exactly once, and each
    /// device that it names is allocated to the job.
    pub open spec fn holds_all(&self, ds: Seq<DecisionView>) -> bool {
        forall|m: int| 0 <= m < ds.len() ==> decision_holds(self.nodes(), #[trigger] ds[m])
    }

    /// Whether `other` has the same nodes and configuration.
    pub open spec fn same_cluster(&self, other: &Scheduler) -> bool {
        &&& other.nodes() == self.nodes()
        &&& other.node_timeout() == self.node_timeout()
        &&& other.spec_config() == self.spec_config()
    }

    /// A scheduler over the given nodes, without jobs.
    pub fn new(nodes: NodeRegistry, config: SchedulerConfig) -> (s: Scheduler)
        requires
            nodes.wf(),
        ensures
            s.wf(),
            s.nodes() == nodes@,
            s.node_timeout() == nodes.timeout(),
            s.jobs().len() == 0,
            s.queue() == Map::<Seq<char>, i32>::empty(),
            s.spec_config() == config,
    {
        Scheduler { nodes, pending_queue: queue_new(), jobs: Vec::new(), config }
    }

    /// The configuration.
    pub fn config(&self) -> (c: &SchedulerConfig)
        ensures
            *c == self.spec_config(),
    {
        &self.config
    }

    /// The registry of nodes.
    pub fn registry(&self) -> (r: &NodeRegistry)
        ensures
            r@ == self.nodes(),
            r.timeout() == self.node_timeout(),
    {
        &self.nodes
    }

    /// The number of waiting jobs.
    pub fn queue_size(&self) -> (n: usize)
        ensures
            n == self.queue().len(),
    {
        queue_len(&self.pending_queue)
    }

    /// Adds a node to the registry, in place of the one with the same id
    /// where there is one.
    pub fn register_node(&mut self, node: Node) -> (r: Result<(), Error>)
        requires
            old(self).wf(),
        ensures
            r is Ok,
            final(self).wf(),
            final(self).node_timeout() == old(self).node_timeout(),
            final(self).jobs() == old(self).jobs(),
            final(self).queue() == old(self).queue(),
            final(self).spec_config() == old(self).spec_config(),
            final(self).nodes() == if has_node(old(self).nodes(), node.id@) {
                old(self).nodes().update(crate::scheduler::registry::index_of_node(old(self).nodes(), node.id@), node)
            } else {
                old(self).nodes().push(node)
            },
    {
        self.nodes.register(node)
    }

    /// Removes a node from the registry. An unknown id changes nothing.
    pub fn deregister_node(&mut self, node_id: &str) -> (r: Result<(), Error>)
        requires
            old(self).wf(),
        ensures
            r is Ok,
            final(self).wf(),
            final(self).node_timeout() == old(self).node_timeout(),
            final(self).jobs() == old(self).jobs(),
            final(self).queue() == old(self).queue(),
            final(self).spec_config() == old(self).spec_config(),
            final(self).nodes() == if has_node(old(self).nodes(), node_id@) {
                old(self).nodes().remove(crate::scheduler::registry::index_of_node(old(self).nodes(), node_id@))
            } else {
                old(self).nodes()
            },
            !has_node(final(self).nodes(), node_id@),
    {
        self.nodes.deregister(node_id)
    }

    /// Replaces a node's topology and records its report at `now`. An
    /// unknown id is an error and changes nothing.
    pub fn update_node_at(&mut self, node_id: &str, topology: NodeTopology, now: i64) -> (r: Result<(), Error>)
        requires
            old(self).wf(),
        ensures
            final(self).wf(),
            final(self).node_timeout() == old(self).node_timeout(),
            final(self).jobs() == old(self).jobs(),
            final(self).queue() == old(self).queue(),
            final(self).spec_config() == old(self).spec_config(),
            r is Ok <==> has_node(old(self).nodes(), node_id@),
            node_updated(old(self).nodes(), node_id@, topology, now, final(self).nodes(), r),
    {
        self.nodes.update_at(node_id, topology, now)
    }

    /// Replaces a node's topology and records its report at the current
    /// time. An unknown id is an error and changes nothing.
    pub fn update_node(&mut self, node_id: &str, topology: NodeTopology) -> (r: Result<(), Error>)
        requires
            old(self).wf(),
        ensures
            final(self).wf(),
            final(self).node_timeout() == old(self).node_timeout(),
            final(self).jobs() == old(self).jobs(),
            final(self).queue() == old(self).queue(),
            final(self).spec_config() == old(self).spec_config(),
            r is Ok <==> has_node(old(self).nodes(), node_id@),
            exists|now: i64|
                #[trigger] node_updated(old(self).nodes(), node_id@, topology, now, final(self).nodes(), r),
    {
        let now = now_secs();
        self.update_node_at(node_id, topology, now)
    }

    /// Takes in a job in state Pending at `now`: it is stored in state
    /// Queued and waits under the priority of its policy. A job in another
    /// state is refused and nothing changes.
    pub fn submit_at(&mut self, job: Job, now: i64) -> (r: Result<String, Error>)
        requires
            old(self).wf(),
        ensures
            final(self).wf(),
            r is Ok <==> job.state == JobState::Pending,
            match r {
                Ok(id) => id@ == job.id@ && submitted(old(self), job, now, final(self)),
                Err(e) => {
                    &&& old(self).same_state(final(self))
                    &&& e is Job
                    &&& e.spec_message() == invalid_transition_message(job.id@, job.state, JobState::Queued)
                },
            },
            !has_job(old(self).jobs(), job.id@) ==> follows_lifecycle(old(self).jobs(), final(self).jobs()),
    {
        if job.state != JobState::Pending {
            return Err(invalid_transition(job.id.as_str(), job.state, JobState::Queued));
        }
        let mut queued = job;
        let _ = queued.transition_at(JobState::Queued, "Submitted to scheduler", now);
        let id = queued.id.clone();
        let key = queued.id.clone();
        let priority = queued.descriptor.policy.priority;
        match self.find_job(id.as_str()) {
            Some(k) => {
                self.jobs[k] = queued;
            },
            None => {
                self.jobs.push(queued);
                assert(self.jobs@.drop_last() =~= old(self).jobs@);
            },
        }
        queue_push(&mut self.pending_queue, key, priority);
        proof {
            let before = old(self).jobs@;
            let after = self.jobs@;
            assert forall|x: Seq<char>| #[trigger]
                self.queue().contains_key(x) <==> is_queued(after, x) by {
                if x == id@ {
                    if has_job(before, id@) {
                        assert(after[index_of_job(before, id@)].id@ == id@);
                    } else {
                        assert(after[after.len() - 1].id@ == id@);
                    }
                } else {
                    if is_queued(before, x) {
                        let k = choose|k: int|
                            0 <= k < before.len() && (#[trigger] before[k]).id@ == x && before[k].state
                                == JobState::Queued;
                        assert(after[k] == before[k]);
                    }
                    if is_queued(after, x) {
                        let k = choose|k: int|
                            0 <= k < after.len() && (#[trigger] after[k]).id@ == x && after[k].state
                                == JobState::Queued;
                        assert(before[k] == after[k]);
                    }
                }
            }
        }
        Ok(id)
    }

    /// Takes in a job in state Pending at the current time.
    pub fn submit(&mut self, job: Job) -> (r: Result<String, Error>)
        requires
            old(self).wf(),
        ensures
            final(self).wf(),
            r is Ok <==> job.state == JobState::Pending,
            match r {
                Ok(id) => id@ == job.id@ && exists|now: i64| submitted(old(self), job, now, final(self)),
                Err(e) => {
                    &&& old(self).same_state(final(self))
                    &&& e is Job
                    &&& e.spec_message() == invalid_transition_message(job.id@, job.state, JobState::Queued)
                },
            },
            !has_job(old(self).jobs(), job.id@) ==> follows_lifecycle(old(self).jobs(), final(self).jobs()),
    {
        let now = now_secs();
        self.submit_at(job, now)
    }

    /// The queue still holds exactly the waiting jobs after the job at
    /// place `k` has left the state Queued, or was never in it, and its id
    /// was taken from the queue.
    proof fn queue_kept(before: &Scheduler, after: &Scheduler, k: int)
        requires
            before.wf(),
            0 <= k < before.jobs().len(),
            only_job_differs(before.jobs(), after.jobs(), k),
            after.jobs()[k].id == before.jobs()[k].id,
            after.jobs()[k].descriptor == before.jobs()[k].descriptor,
            after.jobs()[k].state != JobState::Queued,
            after.queue() == before.queue().remove(before.jobs()[k].id@),
            distinct_node_ids(after.nodes()),
        ensures
            after.wf(),
    {
        let b = before.jobs();
        let a = after.jobs();
        let id = b[k].id@;
        assert forall|x: Seq<char>| #[trigger] after.queue().contains_key(x) <==> is_queued(a, x) by {
            if is_queued(b, x) && x != id {
                let j = choose|j: int|
                    0 <= j < b.len() && (#[trigger] b[j]).id@ == x && b[j].state == JobState::Queued;
                assert(a[j] == b[j]);
            }
            if is_queued(a, x) {
                let j = choose|j: int|
                    0 <= j < a.len() && (#[trigger] a[j]).id@ == x && a[j].state == JobState::Queued;
                assert(j != k);
                assert(b[j] == a[j]);
                assert(before.queue().contains_key(x));
            }
        }
        assert forall|j: int, l: int| 0 <= j < a.len() && 0 <= l < a.len() && j != l implies (
        #[trigger] a[j]).id@ != (#[trigger] a[l]).id@ by {
            assert(a[j].id == b[j].id);
            assert(a[l].id == b[l].id);
        }
        assert forall|j: int| 0 <= j < a.len() && (#[trigger] a[j]).state == JobState::Queued implies after.queue()[a[j].id@]
            == a[j].descriptor.policy.priority by {
            assert(j != k);
            assert(a[j] == b[j]);
        }
    }

    /// Cancels the job with the id at `now`. A job that is Pending, Queued
    /// or Scheduled leaves the queue and keeps what it holds; a Running job
    /// gives back the GPUs on its nodes. An unknown job, and a job in any
    /// other state, is an error and changes nothing.
    pub fn cancel_at(&mut self, job_id: &str, reason: &str, now: i64) -> (r: Result<(), Error>)
        requires
            old(self).wf(),
        ensures
            final(self).wf(),
            follows_lifecycle(old(self).jobs(), final(self).jobs()),
            cluster_consistent(old(self).nodes()) ==> cluster_consistent(final(self).nodes()),
            r is Ok <==> has_job(old(self).jobs(), job_id@) && cancellable(
                old(self).jobs()[index_of_job(old(self).jobs(), job_id@)].state,
            ),
            match r {
                Ok(_) => cancelled(old(self), job_id@, reason@, now, final(self)),
                Err(e) => {
                    &&& old(self).same_state(final(self))
                    &&& e is Job
                    &&& e.spec_message() == if has_job(old(self).jobs(), job_id@) {
                        invalid_transition_message(
                            job_id@,
                            old(self).jobs()[index_of_job(old(self).jobs(), job_id@)].state,
                            JobState::Cancelled,
                        )
                    } else {
                        job_not_found_message(job_id@)
                    }
                },
            },
    {
        let k = match self.find_job(job_id) {
            Some(k) => k,
            None => {
                return Err(job_not_found(job_id));
            },
        };
        let state = self.jobs[k].state;
        if !state.can_transition_to(JobState::Cancelled) {
            return Err(invalid_transition(job_id, state, JobState::Cancelled));
        }
        let _ = self.jobs[k].transition_at(JobState::Cancelled, reason, now);
        queue_remove(&mut self.pending_queue, job_id);
        if state == JobState::Running {
            let n: usize = self.jobs[k].allocated_nodes.len();
            let ghost listed = texts(self.jobs@[k as int].allocated_nodes@);
            let ghost jobs_now = self.jobs@;
            let ghost queue_now = self.pending_queue;
            let mut t: usize = 0;
            while t < n
                invariant
                    t <= n,
                    self.jobs@ == jobs_now,
                    self.pending_queue == queue_now,
                    self.config == old(self).config,
                    k < self.jobs@.len(),
                    n == self.jobs@[k as int].allocated_nodes@.len(),
                    listed == texts(self.jobs@[k as int].allocated_nodes@),
                    self.nodes.wf(),
                    self.nodes.timeout() == old(self).nodes.timeout(),
                    nodes_released(old(self).nodes@, self.nodes@, listed.take(t as int), job_id@),
                decreases n - t,
            {
                let ghost cur = self.nodes@;
                self.nodes.release(self.jobs[k].allocated_nodes[t].as_str(), job_id);
                proof {
                    let first = old(self).nodes@;
                    let next = self.nodes@;
                    let name = listed[t as int];
                    let done = listed.take(t as int);
                    let more = listed.take(t + 1);
                    assert(more =~= done.push(name));
                    assert forall|i: int| 0 <= i < first.len() implies if more.contains(first[i].id@) {
                        first[i].released_from(#[trigger] next[i], job_id@)
                    } else {
                        next[i] == first[i]
                    } by {
                        assert(cur[i].id == first[i].id);
                        if done.contains(first[i].id@) {
                            assert(first[i].released_from(cur[i], job_id@));
                            if cur[i].id@ == name {
                                release_twice(first[i], cur[i], next[i], job_id@);
                            }
                            let w = choose|w: int| 0 <= w < done.len() && done[w] == first[i].id@;
                            assert(more[w] == first[i].id@);
                        } else {
                            assert(cur[i] == first[i]);
                            if first[i].id@ == name {
                                assert(more[t as int] == name);
                            } else {
                                if more.contains(first[i].id@) {
                                    let w = choose|w: int| 0 <= w < more.len() && more[w] == first[i].id@;
                                    if w < t {
                                        assert(done[w] == first[i].id@);
                                    }
                                }
                            }
                        }
                    }
                }
                t = t + 1;
            }
            proof {
                assert(listed.take(n as int) =~= listed);
            }
        }
        proof {
            Self::queue_kept(old(self), &*self, k as int);
            if cluster_consistent(old(self).nodes()) && state == JobState::Running {
                release_keeps_nodes_consistent(
                    old(self).nodes(),
                    self.nodes(),
                    texts(old(self).jobs()[k as int].allocated_nodes@),
                    job_id@,
                );
            }
        }
        Ok(())
    }

    /// Cancels the job with the id at the current time.
    pub fn cancel(&mut self, job_id: &str, reason: &str) -> (r: Result<(), Error>)
        requires
            old(self).wf(),
        ensures
            final(self).wf(),
            follows_lifecycle(old(self).jobs(), final(self).jobs()),
            cluster_consistent(old(self).nodes()) ==> cluster_consistent(final(self).nodes()),
            r is Ok <==> has_job(old(self).jobs(), job_id@) && cancellable(
                old(self).jobs()[index_of_job(old(self).jobs(), job_id@)].state,
            ),
            match r {
                Ok(_) => exists|now: i64| cancelled(old(self), job_id@, reason@, now, final(self)),
                Err(e) => refused(old(self), job_id@, JobState::Cancelled, final(self), e),
            },
    {
        let now = now_secs();
        self.cancel_at(job_id, reason, now)
    }

    /// Moves the job with the id along the edge to `to` at `now`, where
    /// it stands in `from`; else nothing changes and the error says why.
    fn advance(&mut self, job_id: &str, from: JobState, to: JobState, message: &str, now: i64) -> (r: Result<
        (),
        Error,
    >)
        requires
            old(self).wf(),
            is_edge(from, to),
            from != JobState::Queued,
            to != JobState::Queued,
        ensures
            final(self).wf(),
            follows_lifecycle(old(self).jobs(), final(self).jobs()),
            r is Ok <==> has_job(old(self).jobs(), job_id@) && old(self).jobs()[index_of_job(
                old(self).jobs(),
                job_id@,
            )].state == from,
            match r {
                Ok(_) => {
                    &&& job_moved(
                        old(self),
                        index_of_job(old(self).jobs(), job_id@),
                        to,
                        message@,
                        now,
                        final(self),
                    )
                    &&& final(self).nodes() == old(self).nodes()
                    &&& final(self).queue() == old(self).queue()
                },
                Err(e) => {
                    &&& old(self).same_state(final(self))
                    &&& e is Job
                    &&& e.spec_message() == if has_job(old(self).jobs(), job_id@) {
                        invalid_transition_message(
                            job_id@,
                            old(self).jobs()[index_of_job(old(self).jobs(), job_id@)].state,
                            to,
                        )
                    } else {
                        job_not_found_message(job_id@)
                    }
                },
            },
    {
        let k = match self.find_job(job_id) {
            Some(k) => k,
            None => {
                return Err(job_not_found(job_id));
            },
        };
        let state = self.jobs[k].state;
        if state != from {
            return Err(invalid_transition(job_id, state, to));
        }
        let _ = self.jobs[k].transition_at(to, message, now);
        proof {
            assert(!old(self).queue().contains_key(job_id@)) by {
                if is_queued(old(self).jobs(), job_id@) {
                    let j = choose|j: int|
                        0 <= j < old(self).jobs().len() && (#[trigger] old(self).jobs()[j]).id@ == job_id@
                            && old(self).jobs()[j].state == JobState::Queued;
                    assert(j == k);
                }
            }
            assert(self.queue() =~= old(self).queue().remove(job_id@));
            Self::queue_kept(old(self), &*self, k as int);
        }
        Ok(())
    }

    /// Records at `now` that the job with the id has begun to run. Only a
    /// Scheduled job can start; else nothing changes.
    pub fn mark_job_started_at(&mut self, job_id: &str, now: i64) -> (r: Result<(), Error>)
        requires
            old(self).wf(),
        ensures
            final(self).wf(),
            follows_lifecycle(old(self).jobs(), final(self).jobs()),
            r is Ok <==> has_job(old(self).jobs(), job_id@) && old(self).jobs()[index_of_job(
                old(self).jobs(),
                job_id@,
            )].state == JobState::Scheduled,
            match r {
                Ok(_) => {
                    &&& job_moved(
                        old(self),
                        index_of_job(old(self).jobs(), job_id@),
                        JobState::Running,
                        started_message(),
                        now,
                        final(self),
                    )
                    &&& final(self).nodes() == old(self).nodes()
                    &&& final(self).queue() == old(self).queue()
                },
                Err(e) => {
                    &&& old(self).same_state(final(self))
                    &&& e is Job
                    &&& e.spec_message() == if has_job(old(self).jobs(), job_id@) {
                        invalid_transition_message(
                            job_id@,
                            old(self).jobs()[index_of_job(old(self).jobs(), job_id@)].state,
                            JobState::Running,
                        )
                    } else {
                        job_not_found_message(job_id@)
                    }
                },
            },
    {
        self.advance(job_id, JobState::Scheduled, JobState::Running, "Job started on node", now)
    }

    /// Records that the job with the id has begun to run at the current
    /// time.
    pub fn mark_job_started(&mut self, job_id: &str) -> (r: Result<(), Error>)
        requires
            old(self).wf(),
        ensures
            final(self).wf(),
            follows_lifecycle(old(self).jobs(), final(self).jobs()),
            r is Ok <==> has_job(old(self).jobs(), job_id@) && old(self).jobs()[index_of_job(
                old(self).jobs(),
                job_id@,
            )].state == JobState::Scheduled,
            match r {
                Ok(_) => {
                    &&& exists|now: i64|
                        job_moved(
                            old(self),
                            index_of_job(old(self).jobs(), job_id@),
                            JobState::Running,
                            started_message(),
                            now,
                            final(self),
                        )
                    &&& final(self).nodes() == old(self).nodes()
                    &&& final(self).queue() == old(self).queue()
                },
                Err(e) => refused(old(self), job_id@, JobState::Running, final(self), e),
            },
    {
        let now = now_secs();
        self.mark_job_started_at(job_id, now)
    }

    /// The state in which a job ends.
    pub open spec fn end_state(success: bool) -> JobState {
        if success {
            JobState::Completed
        } else {
            JobState::Failed
        }
    }

    /// Records at `now` that the job with the id has ended, in Completed
    /// on success and in Failed else. Only a Running job can end; else
    /// nothing changes.
    pub fn mark_job_completed_at(&mut self, job_id: &str, success: bool, message: &str, now: i64) -> (r: Result<
        (),
        Error,
    >)
        requires
            old(self).wf(),
        ensures
            final(self).wf(),
            follows_lifecycle(old(self).jobs(), final(self).jobs()),
            r is Ok <==> has_job(old(self).jobs(), job_id@) && old(self).jobs()[index_of_job(
                old(self).jobs(),
                job_id@,
            )].state == JobState::Running,
            match r {
                Ok(_) => {
                    &&& job_moved(
                        old(self),
                        index_of_job(old(self).jobs(), job_id@),
                        Self::end_state(success),
                        message@,
                        now,
                        final(self),
                    )
                    &&& final(self).nodes() == old(self).nodes()
                    &&& final(self).queue() == old(self).queue()
                },
                Err(e) => {
                    &&& old(self).same_state(final(self))
                    &&& e is Job
                    &&& e.spec_message() == if has_job(old(self).jobs(), job_id@) {
                        invalid_transition_message(
                            job_id@,
                            old(self).jobs()[index_of_job(old(self).jobs(), job_id@)].state,
                            Self::end_state(success),
                        )
                    } else {
                        job_not_found_message(job_id@)
                    }
                },
            },
    {
        let to = if success {
            JobState::Completed
        } else {
            JobState::Failed
        };
        self.advance(job_id, JobState::Running, to, message, now)
    }

    /// Records that the job with the id has ended at the current time.
    pub fn mark_job_completed(&mut self, job_id: &str, success: bool, message: &str) -> (r: Result<(), Error>)
        requires
            old(self).wf(),
        ensures
            final(self).wf(),
            follows_lifecycle(old(self).jobs(), final(self).jobs()),
            r is Ok <==> has_job(old(self).jobs(), job_id@) && old(self).jobs()[index_of_job(
                old(self).jobs(),
                job_id@,
            )].state == JobState::Running,
            match r {
                Ok(_) => {
                    &&& exists|now: i64|
                        job_moved(
                            old(self),
                            index_of_job(old(self).jobs(), job_id@),
                            Self::end_state(success),
                            message@,
                            now,
                            final(self),
                        )
                    &&& final(self).nodes() == old(self).nodes()
                    &&& final(self).queue() == old(self).queue()
                },
                Err(e) => refused(old(self), job_id@, Self::end_state(success), final(self), e),
            },
    {
        let now = now_secs();
        self.mark_job_completed_at(job_id, success, message, now)
    }

    /// The queue still holds exactly the waiting jobs when the jobs have
    /// kept their places, ids, descriptors and their waiting or not.
    proof fn queue_kept_all(before: &Scheduler, after: &Scheduler)
        requires
            before.wf(),
            after.jobs().len() == before.jobs().len(),
            forall|k: int|
                0 <= k < before.jobs().len() ==> {
                    &&& (#[trigger] after.jobs()[k]).id == before.jobs()[k].id
                    &&& after.jobs()[k].descriptor == before.jobs()[k].descriptor
                    &&& (after.jobs()[k].state == JobState::Queued) == (before.jobs()[k].state
                        == JobState::Queued)
                },
            after.queue() == before.queue(),
            distinct_node_ids(after.nodes()),
        ensures
            after.wf(),
    {
        let b = before.jobs();
        let a = after.jobs();
        assert forall|x: Seq<char>| #[trigger] after.queue().contains_key(x) <==> is_queued(a, x) by {
            if is_queued(b, x) {
                let j = choose|j: int|
                    0 <= j < b.len() && (#[trigger] b[j]).id@ == x && b[j].state == JobState::Queued;
                assert(a[j].id == b[j].id);
            }
            if is_queued(a, x) {
                let j = choose|j: int|
                    0 <= j < a.len() && (#[trigger] a[j]).id@ == x && a[j].state == JobState::Queued;
                assert(a[j].id == b[j].id);
                assert(b[j].state == JobState::Queued);
            }
        }
        assert forall|j: int, l: int| 0 <= j < a.len() && 0 <= l < a.len() && j != l implies (
        #[trigger] a[j]).id@ != (#[trigger] a[l]).id@ by {
            assert(a[j].id == b[j].id);
            assert(a[l].id == b[l].id);
        }
        assert forall|j: int| 0 <= j < a.len() && (#[trigger] a[j]).state == JobState::Queued implies after.queue()[a[j].id@]
            == a[j].descriptor.policy.priority by {
            assert(a[j].id == b[j].id);
            assert(b[j].state == JobState::Queued);
        }
    }

    /// Whether some node bound to the job at place `k` cannot take work at
    /// `now`.
    fn job_on_dead_node(&self, k: usize, now: i64) -> (r: bool)
        requires
            self.wf(),
            k < self.jobs().len(),
        ensures
            r == on_dead_node(self.jobs()[k as int], self.nodes(), self.node_timeout(), now),
    {
        let n: usize = self.jobs[k].allocated_nodes.len();
        let mut t: usize = 0;
        while t < n
            invariant
                t <= n,
                self.wf(),
                k < self.jobs@.len(),
                n == self.jobs@[k as int].allocated_nodes@.len(),
                forall|u: int|
                    0 <= u < t ==> node_is_healthy(
                        self.nodes@,
                        (#[trigger] self.jobs@[k as int].allocated_nodes@[u])@,
                        self.nodes.timeout(),
                        now,
                    ),
            decreases n - t,
        {
            if !self.nodes.is_node_healthy_at(self.jobs[k].allocated_nodes[t].as_str(), now) {
                return true;
            }
            t = t + 1;
        }
        false
    }

    /// Reaps at `now`: a Running job over the time limit goes to Timeout,
    /// else a Running job with a node that cannot take work goes to
    /// Failed. Returns the number of jobs reaped.
    pub fn cleanup_zombie_jobs_at(&mut self, now: i64) -> (cleaned: usize)
        requires
            old(self).wf(),
        ensures
            final(self).wf(),
            follows_lifecycle(old(self).jobs(), final(self).jobs()),
            reaped(old(self), now, final(self)),
            cleaned == reaped_count(
                old(self).jobs(),
                old(self).nodes(),
                old(self).node_timeout(),
                old(self).spec_config().job_timeout_secs,
                now,
            ),
    {
        let n: usize = self.jobs.len();
        let limit: u64 = self.config.job_timeout_secs;
        let mut cleaned: usize = 0;
        let mut k: usize = 0;
        while k < n
            invariant
                k <= n,
                n == old(self).jobs@.len(),
                self.jobs@.len() == n,
                self.nodes == old(self).nodes,
                self.pending_queue == old(self).pending_queue,
                self.config == old(self).config,
                limit == self.config.job_timeout_secs,
                old(self).wf(),
                self.wf(),
                cleaned <= k,
                cleaned == reaped_count(
                    old(self).jobs@.take(k as int),
                    old(self).nodes@,
                    old(self).nodes.timeout(),
                    limit,
                    now,
                ),
                forall|j: int| k <= j < n ==> self.jobs@[j] == old(self).jobs@[j],
                forall|j: int|
                    0 <= j < k ==> match reaped_state(
                        old(self).jobs@[j],
                        old(self).nodes@,
                        old(self).nodes.timeout(),
                        limit,
                        now,
                    ) {
                        Some(JobState::Timeout) => old(self).jobs@[j].moved_to(
                            #[trigger] self.jobs@[j],
                            JobState::Timeout,
                            timeout_message(limit),
                            now,
                        ),
                        Some(to) => old(self).jobs@[j].moved_to(self.jobs@[j], to, node_death_message(), now),
                        None => self.jobs@[j] == old(self).jobs@[j],
                    },
            decreases n - k,
        {
            proof {
                assert(old(self).jobs@.take(k + 1).drop_last() =~= old(self).jobs@.take(k as int));
            }
            let ghost was = *self;
            if self.jobs[k].state == JobState::Running {
                let over = limit > 0 && match self.jobs[k].start_time {
                    Some(start) => now as i128 - start as i128 > limit as i128,
                    None => false,
                };
                if over {
                    let mut msg = String::from_str("Job exceeded timeout of ");
                    push_decimal(&mut msg, limit);
                    msg.append(" seconds");
                    let _ = self.jobs[k].transition_at(JobState::Timeout, msg.as_str(), now);
                    cleaned = cleaned + 1;
                } else if self.job_on_dead_node(k, now) {
                    let _ = self.jobs[k].transition_at(JobState::Failed, "Allocated node(s) became unhealthy", now);
                    cleaned = cleaned + 1;
                }
            }
            proof {
                Self::queue_kept_all(&was, &*self);
            }
            k = k + 1;
        }
        proof {
            assert(old(self).jobs@.take(n as int) =~= old(self).jobs@);
        }
        cleaned
    }

    /// Reaps at the current time. Returns the number of jobs reaped.
    pub fn cleanup_zombie_jobs(&mut self) -> (cleaned: usize)
        requires
            old(self).wf(),
        ensures
            final(self).wf(),
            follows_lifecycle(old(self).jobs(), final(self).jobs()),
            exists|now: i64|
                reaped(old(self), now, final(self)) && cleaned == reaped_count(
                    old(self).jobs(),
                    old(self).nodes(),
                    old(self).node_timeout(),
                    old(self).spec_config().job_timeout_secs,
                    now,
                ),
    {
        let now = now_secs();
        self.cleanup_zombie_jobs_at(now)
    }

    /// Tries at `now` to place the waiting job with the id. Where the
    /// cluster can hold the job, the plan is carried out: the GPUs are
    /// handed over on the nodes, the job is bound and leaves the queue.
    pub fn schedule_job_at(&mut self, job_id: &str, now: i64) -> (r: Option<SchedulingDecision>)
        requires
            old(self).wf(),
        ensures
            final(self).wf(),
            follows_lifecycle(old(self).jobs(), final(self).jobs()),
            cluster_consistent(old(self).nodes()) ==> cluster_consistent(final(self).nodes()),
            schedules(old(self), job_id@, now, final(self), decision_view(r)),
    {
        let k = match self.find_job(job_id) {
            Some(k) => k,
            None => {
                return None;
            },
        };
        if self.jobs[k].state != JobState::Queued {
            proof {
                if is_queued(self.jobs(), job_id@) {
                    let j = choose|j: int|
                        0 <= j < self.jobs().len() && (#[trigger] self.jobs()[j]).id@ == job_id@
                            && self.jobs()[j].state == JobState::Queued;
                    assert(j == k);
                }
            }
            return None;
        }
        let required: usize = self.jobs[k].descriptor.resources.gpu_count as usize;
        let same_node_first: bool = self.jobs[k].descriptor.policy.gang_schedule && self.config.prefer_same_node;
        let steps = match plan_for(&self.nodes, required, same_node_first, now) {
            Some(v) => v,
            None => {
                return None;
            },
        };
        let ghost first = self.nodes@;
        let ghost p = plan_view(steps@);
        let ghost wanted = plan_allocations(first, p);
        proof {
            plan_exists_iff_capacity(first, self.nodes.timeout(), now, required as nat, same_node_first);
        }
        let mut allocations: Vec<NodeAllocation> = Vec::new();
        let mut held: Vec<NodeAllocation> = Vec::new();
        let mut node_ids: Vec<String> = Vec::new();
        let mut t: usize = 0;
        while t < steps.len()
            invariant
                t <= steps.len(),
                p == plan_view(steps@),
                wanted == plan_allocations(first, p),
                first == old(self).nodes@,
                plan_fits(first, p),
                self.jobs == old(self).jobs,
                self.pending_queue == old(self).pending_queue,
                self.config == old(self).config,
                self.nodes.wf(),
                self.nodes.timeout() == old(self).nodes.timeout(),
                plan_applied(first, self.nodes@, job_id@, p.take(t as int)),
                allocations_view(allocations@) == wanted.take(t as int),
                allocations_view(held@) == wanted.take(t as int),
                texts(node_ids@) == wanted.map_values(|a: (Seq<char>, Seq<Seq<char>>)| a.0).take(t as int),
            decreases steps.len() - t,
        {
            let place: usize = steps[t].0;
            let count: usize = steps[t].1;
            let ghost cur = self.nodes@;
            proof {
                assert(p[t as int] == (place as int, count as nat));
                assert forall|u: int| 0 <= u < p.take(t as int).len() implies (#[trigger] p.take(
                    t as int,
                )[u]).0 < place by {
                    assert(p.take(t as int)[u] == p[u]);
                }
                planned_none_beyond(p.take(t as int), place as int);
                assert(cur[place as int] == first[place as int]);
            }
            let node_id = self.nodes.node_at(place).id.clone();
            let node_id_held = node_id.clone();
            let node_id_listed = node_id.clone();
            match self.nodes.allocate_at(place, job_id, count) {
                Ok(ids) => {
                    let ids_held = copy_strings(&ids);
                    let ghost shown = allocations_view(allocations@);
                    let ghost shown_held = allocations_view(held@);
                    let ghost shown_ids = texts(node_ids@);
                    let entry = NodeAllocation { node_id: node_id, gpu_ids: ids };
                    let entry_held = NodeAllocation { node_id: node_id_held, gpu_ids: ids_held };
                    allocations.push(entry);
                    held.push(entry_held);
                    node_ids.push(node_id_listed);
                    proof {
                        let names = wanted.map_values(|a: (Seq<char>, Seq<Seq<char>>)| a.0);
                        assert(entry@ == wanted[t as int]);
                        assert(entry_held@ == wanted[t as int]);
                        assert(allocations_view(allocations@) =~= shown.push(entry@));
                        assert(allocations_view(held@) =~= shown_held.push(entry_held@));
                        assert(texts(node_ids@) =~= shown_ids.push(node_id_listed@));
                        assert(wanted.take(t + 1) =~= wanted.take(t as int).push(wanted[t as int]));
                        assert(names.take(t + 1) =~= names.take(t as int).push(names[t as int]));
                    }
                },
                Err(_) => {
                    assert(false);
                },
            }
            proof {
                let next = self.nodes@;
                let done = p.take(t as int);
                let more = p.take(t + 1);
                assert(more.drop_last() =~= done);
                assert(more.last() == p[t as int]);
                assert forall|i: int| 0 <= i < first.len() implies match planned(more, i) {
                    Some(c) => first[i].allocated_to(#[trigger] next[i], job_id@, c),
                    None => next[i] == first[i],
                } by {
                    if i != place {
                        assert(next[i] == cur[i]);
                        assert(planned(more, i) == planned(done, i));
                    }
                }
            }
            t = t + 1;
        }
        proof {
            assert(p.take(steps.len() as int) =~= p);
            assert(wanted.take(steps.len() as int) =~= wanted);
            let names = wanted.map_values(|a: (Seq<char>, Seq<Seq<char>>)| a.0);
            assert(names.take(steps.len() as int) =~= names);
        }
        let gang: bool = required != 0;
        let id = self.jobs[k].id.clone();
        let _ = self.jobs[k].transition_at(JobState::Scheduled, "Resources allocated", now);
        self.jobs[k].allocated_nodes = node_ids;
        self.jobs[k].allocated_gpus = held;
        queue_remove(&mut self.pending_queue, job_id);
        proof {
            Self::queue_kept(old(self), &*self, k as int);
            plan_keeps_nodes_consistent(first, self.nodes(), job_id@, p);
        }
        Some(SchedulingDecision { job_id: id, allocations, gang_allocated: gang })
    }

    /// The ids of the `limit` waiting jobs that come first by priority,
    /// from the greatest priority down. The scheduler is left as it was.
    pub fn priority_order(&mut self, limit: usize) -> (order: Vec<String>)
        requires
            old(self).wf(),
        ensures
            final(self).wf(),
            old(self).same_state(final(self)),
            is_priority_prefix(old(self).queue(), texts(order@), limit as nat),
    {
        let ghost e0 = self.queue();
        let mut picked: Vec<(String, i32)> = Vec::new();
        let mut more: bool = true;
        while more && picked.len() < limit
            invariant
                self.nodes == old(self).nodes,
                self.jobs == old(self).jobs,
                self.config == old(self).config,
                e0 == old(self).queue(),
                e0.dom().finite(),
                self.queue().dom().finite(),
                picked@.len() <= limit,
                self.queue().len() + picked@.len() == e0.len(),
                !more ==> self.queue().len() == 0,
                forall|x: Seq<char>| #[trigger]
                    self.queue().contains_key(x) <==> e0.contains_key(x) && !entry_ids(picked@).contains(x),
                forall|x: Seq<char>| #[trigger] self.queue().contains_key(x) ==> self.queue()[x] == e0[x],
                entry_ids(picked@).no_duplicates(),
                forall|k: int|
                    0 <= k < picked@.len() ==> e0.contains_key(#[trigger] entry_ids(picked@)[k]) && e0[entry_ids(
                        picked@,
                    )[k]] == picked@[k].1,
                forall|k: int, l: int|
                    0 <= k < l < picked@.len() ==> (#[trigger] picked@[k]).1 >= (#[trigger] picked@[l]).1,
                forall|x: Seq<char>, k: int|
                    self.queue().contains_key(x) && 0 <= k < picked@.len() ==> (#[trigger] picked@[k]).1
                        >= #[trigger] self.queue()[x],
            decreases limit - picked@.len() + if more { 1int } else { 0int },
        {
            let ghost e = self.queue();
            let ghost ids = entry_ids(picked@);
            match queue_pop(&mut self.pending_queue) {
                Some(top) => {
                    let ghost name = top.0@;
                    let ghost prio = top.1;
                    picked.push(top);
                    proof {
                        let now_ids = entry_ids(picked@);
                        assert(now_ids =~= ids.push(name));
                        assert(self.queue().dom() =~= e.dom().remove(name));
                        assert forall|x: Seq<char>| #[trigger]
                            self.queue().contains_key(x) <==> e0.contains_key(x) && !now_ids.contains(
                                x,
                            ) by {
                            if ids.contains(x) {
                                let w = choose|w: int| 0 <= w < ids.len() && ids[w] == x;
                                assert(now_ids[w] == x);
                            }
                            if now_ids.contains(x) {
                                let w = choose|w: int| 0 <= w < now_ids.len() && now_ids[w] == x;
                                if w < ids.len() {
                                    assert(ids[w] == x);
                                }
                            }
                            if x == name {
                                assert(now_ids[ids.len() as int] == name);
                            }
                        }
                        assert forall|a: int, b: int|
                            0 <= a < now_ids.len() && 0 <= b < now_ids.len() && a != b implies now_ids[a]
                            != now_ids[b] by {
                            if a < ids.len() {
                                assert(ids[a] == now_ids[a]);
                            }
                            if b < ids.len() {
                                assert(ids[b] == now_ids[b]);
                            }
                        }
                        assert forall|k: int, l: int| 0 <= k < l < picked@.len() implies (
                        #[trigger] picked@[k]).1 >= (#[trigger] picked@[l]).1 by {
                            if l == picked@.len() - 1 {
                                assert(e[name] <= picked@[k].1);
                            }
                        }
                    }
                },
                None => {
                    more = false;
                    proof {
                        assert(self.queue().len() == 0);
                    }
                },
            }
        }
        let ghost ids = entry_ids(picked@);
        proof {
            if more {
                assert(picked@.len() == limit);
            } else {
                assert(picked@.len() == e0.len());
            }
            assert(ids.len() == least(limit as nat, e0.len()));
            assert forall|x: Seq<char>, k: int|
                e0.contains_key(x) && !ids.contains(x) && 0 <= k < ids.len() implies e0[#[trigger] ids[k]]
                >= #[trigger] e0[x] by {
                assert(self.queue().contains_key(x));
                assert(picked@[k].1 >= self.queue()[x]);
            }
            assert forall|k: int, l: int| 0 <= k < l < ids.len() implies e0[#[trigger] ids[k]]
                >= e0[#[trigger] ids[l]] by {
                assert(picked@[k].1 >= picked@[l].1);
            }
        }
        let mut order: Vec<String> = Vec::new();
        let mut t: usize = 0;
        proof {
            assert(ids.skip(0) =~= ids);
        }
        while t < picked.len()
            invariant
                t <= picked@.len(),
                ids.no_duplicates(),
                self.nodes == old(self).nodes,
                self.jobs == old(self).jobs,
                self.config == old(self).config,
                ids == entry_ids(picked@),
                e0.dom().finite(),
                texts(order@) == ids.take(t as int),
                forall|k: int| 0 <= k < picked@.len() ==> e0.contains_key(#[trigger] ids[k]) && e0[ids[k]] == picked@[k].1,
                forall|x: Seq<char>| #[trigger]
                    self.queue().contains_key(x) <==> e0.contains_key(x) && !ids.skip(t as int).contains(x),
                forall|x: Seq<char>| #[trigger] self.queue().contains_key(x) ==> self.queue()[x] == e0[x],
            decreases picked@.len() - t,
        {
            let ghost e = self.queue();
            let ghost shown = texts(order@);
            let name = picked[t].0.clone();
            let key = picked[t].0.clone();
            queue_push(&mut self.pending_queue, key, picked[t].1);
            order.push(name);
            proof {
                let rest = ids.skip(t as int);
                let less = ids.skip(t + 1);
                assert(texts(order@) =~= shown.push(ids[t as int]));
                assert(ids.take(t + 1) =~= ids.take(t as int).push(ids[t as int]));
                assert(rest[0] == ids[t as int]);
                assert forall|x: Seq<char>| #[trigger]
                    self.queue().contains_key(x) <==> e0.contains_key(x) && !less.contains(x) by {
                    if less.contains(x) {
                        let w = choose|w: int| 0 <= w < less.len() && less[w] == x;
                        assert(rest[w + 1] == x);
                        assert(ids[t + 1 + w] == x);
                        assert(ids[t as int] != x);
                    }
                    if rest.contains(x) && x != ids[t as int] {
                        let w = choose|w: int| 0 <= w < rest.len() && rest[w] == x;
                        assert(less[w - 1] == x);
                    }
                }
            }
            t = t + 1;
        }
        proof {
            assert(ids.take(picked@.len() as int) =~= ids);
            assert(ids.skip(picked@.len() as int) =~= Seq::<Seq<char>>::empty());
            assert(self.queue() =~= e0);
        }
        order
    }

    /// One scheduling cycle at `now`: the waiting jobs that come first by
    /// priority, at most as many as the configured batch, are tried one
    /// after the other from the greatest priority down. A job that is
    /// placed is Scheduled and leaves the queue; a job that the cluster
    /// cannot hold keeps waiting and does not hold up the jobs after it.
    pub fn schedule_cycle_at(&mut self, now: i64) -> (decisions: Vec<SchedulingDecision>)
        requires
            old(self).wf(),
        ensures
            final(self).wf(),
            follows_lifecycle(old(self).jobs(), final(self).jobs()),
            cluster_consistent(old(self).nodes()) ==> cluster_consistent(final(self).nodes()),
            old(self).waiting_unlisted() ==> final(self).holds_all(decisions_view(decisions@)),
            decisions@.len() <= old(self).spec_config().max_schedule_batch,
            exists|order: Seq<Seq<char>>|
                #![trigger cycle_result(old(self), order, now, final(self), decisions_view(decisions@))]
                is_priority_prefix(
                    old(self).queue(),
                    order,
                    old(self).spec_config().max_schedule_batch as nat,
                ) && cycle_result(old(self), order, now, final(self), decisions_view(decisions@)),
    {
        let order = self.priority_order(self.config.max_schedule_batch);
        let ghost names = texts(order@);
        let ghost start = *self;
        let mut decisions: Vec<SchedulingDecision> = Vec::new();
        let mut t: usize = 0;
        while t < order.len()
            invariant
                t <= order@.len(),
                names == texts(order@),
                self.wf(),
                decisions@.len() <= t,
                cluster_consistent(start.nodes()) ==> cluster_consistent(self.nodes()),
                self.jobs().len() == start.jobs().len(),
                forall|k: int|
                    0 <= k < start.jobs().len() ==> (#[trigger] self.jobs()[k]).id == start.jobs()[k].id && (
                    self.jobs()[k] == start.jobs()[k] || (start.jobs()[k].state == JobState::Queued
                        && self.jobs()[k].state == JobState::Scheduled)),
                cycle_result(&start, names.take(t as int), now, &*self, decisions_view(decisions@)),
            decreases order@.len() - t,
        {
            let ghost was = *self;
            let ghost shown = decisions_view(decisions@);
            let made = self.schedule_job_at(order[t].as_str(), now);
            let ghost d = decision_view(made);
            proof {
                assert(names[t as int] == order@[t as int]@);
                if d is Some {
                    let kk = index_of_job(was.jobs(), names[t as int]);
                    let j = choose|j: int|
                        0 <= j < was.jobs().len() && (#[trigger] was.jobs()[j]).id@ == names[t as int]
                            && was.jobs()[j].state == JobState::Queued;
                    assert(kk == j);
                }
            }
            match made {
                Some(decision) => {
                    decisions.push(decision);
                    proof {
                        assert(decisions_view(decisions@) =~= shown + option_seq(d));
                    }
                },
                None => {
                    proof {
                        assert(decisions_view(decisions@) =~= shown + option_seq(d));
                    }
                },
            }
            proof {
                let done = names.take(t as int);
                let next = names.take(t + 1);
                assert(next.drop_last() =~= done);
                assert(next.last() == names[t as int]);
                assert(cycle_result(&start, next.drop_last(), now, &was, shown));
                assert(schedules(&was, next.last(), now, &*self, d));
                assert(joined(decisions_view(decisions@), shown, d));
                assert(cycle_result(&start, next, now, &*self, decisions_view(decisions@)));
            }
            t = t + 1;
        }
        proof {
            assert(names.take(order@.len() as int) =~= names);
            cycle_result_same_start(old(self), &start, names, now, &*self, decisions_view(decisions@));
            if old(self).waiting_unlisted() {
                assert(unlisted(old(self).nodes(), names)) by {
                    assert forall|k: int, i: int|
                        0 <= k < names.len() && 0 <= i < old(self).nodes().len() implies #[trigger] listed(
                        old(self).nodes(),
                        i,
                        names[k],
                    ) == 0 by {
                        assert(old(self).queue().contains_key(names[k]));
                    }
                }
                cycle_binds_each_job_once(old(self), names, now, &*self, decisions_view(decisions@));
            }
        }
        decisions
    }

    /// One scheduling cycle at the current time.
    pub fn schedule_cycle(&mut self) -> (decisions: Vec<SchedulingDecision>)
        requires
            old(self).wf(),
        ensures
            final(self).wf(),
            follows_lifecycle(old(self).jobs(), final(self).jobs()),
            cluster_consistent(old(self).nodes()) ==> cluster_consistent(final(self).nodes()),
            old(self).waiting_unlisted() ==> final(self).holds_all(decisions_view(decisions@)),
            decisions@.len() <= old(self).spec_config().max_schedule_batch,
            exists|order: Seq<Seq<char>>, now: i64|
                #![trigger cycle_result(old(self), order, now, final(self), decisions_view(decisions@))]
                is_priority_prefix(
                    old(self).queue(),
                    order,
                    old(self).spec_config().max_schedule_batch as nat,
                ) && cycle_result(old(self), order, now, final(self), decisions_view(decisions@)),
    {
        let now = now_secs();
        self.schedule_cycle_at(now)
    }

    /// The place of the job with the id.
    fn find_job(&self, job_id: &str) -> (r: Option<usize>)
        ensures
            match r {
                Some(k) => k < self.jobs().len() && self.jobs()[k as int].id@ == job_id@,
                None => !has_job(self.jobs(), job_id@),
            },
            distinct_job_ids(self.jobs()) && r is Some ==> r->0 == index_of_job(self.jobs(), job_id@),
    {
        let key = String::from_str(job_id);
        let mut k: usize = 0;
        while k < self.jobs.len()
            invariant
                k <= self.jobs.len(),
                key@ == job_id@,
                forall|j: int| 0 <= j < k ==> (#[trigger] self.jobs@[j]).id@ != job_id@,
            decreases self.jobs.len() - k,
        {
            if self.jobs[k].id == key {
                return Some(k);
            }
            k = k + 1;
        }
        None
    }

    /// The job with the id.
    pub fn get_job(&self, job_id: &str) -> (r: Option<&Job>)
        requires
            self.wf(),
        ensures
            r is Some <==> has_job(self.jobs(), job_id@),
            r is Some ==> *r->0 == self.jobs()[index_of_job(self.jobs(), job_id@)],
    {
        match self.find_job(job_id) {
            Some(k) => Some(&self.jobs[k]),
            None => None,
        }
    }

    /// The jobs in the given state, in store order.
    pub fn jobs_with_state(&self, state: JobState) -> (r: Vec<&Job>)
        ensures
            jobs_of(r@) == self.jobs().filter(|j: Job| j.state == state),
    {
        let mut out: Vec<&Job> = Vec::new();
        let mut k: usize = 0;
        let ghost pred = |j: Job| j.state == state;
        while k < self.jobs.len()
            invariant
                k <= self.jobs.len(),
                pred == |j: Job| j.state == state,
                jobs_of(out@) == self.jobs@.take(k as int).filter(pred),
            decreases self.jobs.len() - k,
        {
            proof {
                assert(self.jobs@.take(k + 1).drop_last() =~= self.jobs@.take(k as int));
                reveal(Seq::filter);
            }
            if self.jobs[k].state == state {
                let ghost shown = jobs_of(out@);
                out.push(&self.jobs[k]);
                assert(jobs_of(out@) =~= shown.push(self.jobs@[k as int]));
            }
            k = k + 1;
        }
        assert(self.jobs@.take(k as int) =~= self.jobs@);
        out
    }
}

} // verus!
