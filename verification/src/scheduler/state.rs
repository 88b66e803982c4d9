//! The state that the scheduler keeps across restarts: jobs and nodes,
//! held in memory and written out by the embedder.

use vstd::prelude::*;
use vstd::string::StringExecFns;
use crate::scheduler::Error;
use crate::scheduler::clock::{now_secs, older_than, spec_older_than};
use crate::scheduler::gang::{distinct_job_ids, has_job, index_of_job, job_not_found_message, jobs_of};
use crate::scheduler::job::{invalid_transition_message, is_edge, Job, JobState};

verus! {

/// How state is kept.
#[derive(Debug, Clone)]
pub struct StateStoreConfig {
    /// The directory of the state files.
    pub data_dir: String,
    /// Whether a write-ahead log is kept.
    pub enable_wal: bool,
    /// Whether every change is written out at once.
    pub sync_writes: bool,
    /// Seconds between checkpoints.
    pub checkpoint_interval_secs: u64,
}

impl Default for StateStoreConfig {
    fn default() -> (c: StateStoreConfig)
        ensures
            c.data_dir@ == "/var/lib/zenith/scheduler"@,
            c.enable_wal,
            c.sync_writes,
            c.checkpoint_interval_secs == 60,
    {
        StateStoreConfig {
            data_dir: String::from_str("/var/lib/zenith/scheduler"),
            enable_wal: true,
            sync_writes: true,
            checkpoint_interval_secs: 60,
        }
    }
}

impl StateStoreConfig {
    /// The file of the jobs.
    pub fn jobs_path(&self) -> (p: String)
        ensures
            p@ == self.data_dir@ + "/jobs.json"@,
    {
        let mut p = self.data_dir.clone();
        p.append("/jobs.json");
        p
    }

    /// The file of the nodes.
    pub fn nodes_path(&self) -> (p: String)
        ensures
            p@ == self.data_dir@ + "/nodes.json"@,
    {
        let mut p = self.data_dir.clone();
        p.append("/nodes.json");
        p
    }
}

/// What is kept of a node.
#[derive(Debug, Clone)]
pub struct NodeState {
    /// The id of the node.
    pub id: String,
    /// When it last reported, in seconds since the epoch.
    pub last_heartbeat: i64,
    /// When it was registered, in seconds since the epoch.
    pub registered_at: i64,
    /// The jobs that hold resources of it.
    pub allocated_jobs: Vec<String>,
}

/// Whether some node state of the list has the id.
pub open spec fn has_node_state(nodes: Seq<NodeState>, id: Seq<char>) -> bool {
    exists|i: int| 0 <= i < nodes.len() && (#[trigger] nodes[i]).id@ == id
}

/// The place of the node state with the id.
pub open spec fn index_of_node_state(nodes: Seq<NodeState>, id: Seq<char>) -> int {
    choose|i: int| 0 <= i < nodes.len() && (#[trigger] nodes[i]).id@ == id
}

/// Whether no two node states share an id.
pub open spec fn distinct_node_states(nodes: Seq<NodeState>) -> bool {
    forall|i: int, j: int|
        0 <= i < nodes.len() && 0 <= j < nodes.len() && i != j ==> (#[trigger] nodes[i]).id@ != (
        #[trigger] nodes[j]).id@
}

/// Whether a job has ended long enough ago to be forgotten at `now`: it
/// is Completed, Failed or Cancelled, and its end lies more than
/// `max_age_secs` back.
pub open spec fn is_forgotten(job: Job, max_age_secs: i64, now: i64) -> bool {
    &&& job.state == JobState::Completed || job.state == JobState::Failed || job.state == JobState::Cancelled
    &&& job.end_time is Some
    &&& spec_older_than(job.end_time->0, now, max_age_secs as int)
}

/// The jobs that are still remembered at `now`: those that are not to be
/// forgotten, in their order.
pub open spec fn remembered(jobs: Seq<Job>, max_age_secs: i64, now: i64) -> Seq<Job> {
    jobs.filter(|j: Job| !is_forgotten(j, max_age_secs, now))
}

/// The number of jobs in a state.
pub open spec fn count_in(jobs: Seq<Job>, state: JobState) -> nat {
    jobs.filter(|j: Job| j.state == state).len()
}

/// What a list of jobs leaves when they are stored one after the other:
/// a job takes the place of the job with its id that came before it,
/// and else goes to the end.
pub open spec fn stored_jobs(input: Seq<Job>) -> Seq<Job>
    decreases input.len(),
{
    if input.len() == 0 {
        Seq::empty()
    } else {
        let held = stored_jobs(input.drop_last());
        let job = input.last();
        if has_job(held, job.id@) {
            held.update(index_of_job(held, job.id@), job)
        } else {
            held.push(job)
        }
    }
}

/// The last job of the list that has the id.
pub open spec fn last_job_with(input: Seq<Job>, id: Seq<char>) -> Job
    decreases input.len(),
{
    if input.len() == 0 {
        arbitrary()
    } else if input.last().id@ == id {
        input.last()
    } else {
        last_job_with(input.drop_last(), id)
    }
}

/// What a list of node states leaves when they are stored one after the
/// other: a state takes the place of the state with its id that came
/// before it, and else goes to the end.
pub open spec fn stored_nodes(input: Seq<NodeState>) -> Seq<NodeState>
    decreases input.len(),
{
    if input.len() == 0 {
        Seq::empty()
    } else {
        let held = stored_nodes(input.drop_last());
        let node = input.last();
        if has_node_state(held, node.id@) {
            held.update(index_of_node_state(held, node.id@), node)
        } else {
            held.push(node)
        }
    }
}

/// The last node state of the list that has the id.
pub open spec fn last_node_with(input: Seq<NodeState>, id: Seq<char>) -> NodeState
    decreases input.len(),
{
    if input.len() == 0 {
        arbitrary()
    } else if input.last().id@ == id {
        input.last()
    } else {
        last_node_with(input.drop_last(), id)
    }
}

/// Of the jobs that were stored one after the other, each id is held
/// once, the ids held are those that came, and under each id stands the
/// last job that came with it.
pub proof fn stored_jobs_hold_the_last(input: Seq<Job>)
    ensures
        distinct_job_ids(stored_jobs(input)),
        forall|id: Seq<char>| has_job(stored_jobs(input), id) <==> has_job(input, id),
        forall|id: Seq<char>|
            has_job(input, id) ==> #[trigger] stored_jobs(input)[index_of_job(stored_jobs(input), id)]
                == last_job_with(input, id),
    decreases input.len(),
{
    let cur = stored_jobs(input);
    if input.len() > 0 {
        let front = input.drop_last();
        let held = stored_jobs(front);
        let job = input.last();
        stored_jobs_hold_the_last(front);
        let k = if has_job(held, job.id@) {
            index_of_job(held, job.id@)
        } else {
            held.len() as int
        };
        assert(cur.len() > k && cur[k] == job);
        assert forall|j: int| 0 <= j < cur.len() && j != k implies j < held.len() && #[trigger] cur[j] == held[j] by {}
        assert forall|j: int| 0 <= j < held.len() implies (#[trigger] cur[j]).id@ == held[j].id@ by {}
        assert forall|j: int, l: int| 0 <= j < cur.len() && 0 <= l < cur.len() && j != l implies (
        #[trigger] cur[j]).id@ != (#[trigger] cur[l]).id@ by {
            if j == k && l < held.len() {
                assert(held[l].id@ == cur[l].id@);
            }
            if l == k && j < held.len() {
                assert(held[j].id@ == cur[j].id@);
            }
        }
        assert forall|id: Seq<char>| has_job(input, id) <==> id == job.id@ || has_job(front, id) by {
            if has_job(input, id) {
                let j = choose|j: int| 0 <= j < input.len() && (#[trigger] input[j]).id@ == id;
                if j < front.len() {
                    assert(front[j] == input[j]);
                }
            }
            if has_job(front, id) {
                let j = choose|j: int| 0 <= j < front.len() && (#[trigger] front[j]).id@ == id;
                assert(input[j] == front[j]);
            }
            if id == job.id@ {
                assert(input[input.len() - 1].id@ == id);
            }
        }
        assert forall|id: Seq<char>| has_job(cur, id) <==> id == job.id@ || has_job(held, id) by {
            if has_job(cur, id) {
                let j = choose|j: int| 0 <= j < cur.len() && (#[trigger] cur[j]).id@ == id;
                if j != k {
                    assert(held[j].id@ == id);
                }
            }
            if has_job(held, id) {
                let j = choose|j: int| 0 <= j < held.len() && (#[trigger] held[j]).id@ == id;
                assert(cur[j].id@ == id);
            }
            if id == job.id@ {
                assert(cur[k].id@ == id);
            }
        }
        assert forall|id: Seq<char>| has_job(input, id) implies #[trigger] cur[index_of_job(cur, id)]
            == last_job_with(input, id) by {
            let j = index_of_job(cur, id);
            assert(has_job(cur, id));
            assert(0 <= j < cur.len() && cur[j].id@ == id);
            if id == job.id@ {
                assert(cur[k].id@ == id);
                assert(j == k);
            } else {
                assert(j != k);
                assert(held[j].id@ == id);
                assert(has_job(held, id));
                let h = index_of_job(held, id);
                assert(0 <= h < held.len() && held[h].id@ == id);
                assert(h == j);
                assert(has_job(front, id));
            }
        }
    }
}

/// Of the node states that were stored one after the other, each id is
/// held once, the ids held are those that came, and under each id stands
/// the last state that came with it.
pub proof fn stored_nodes_hold_the_last(input: Seq<NodeState>)
    ensures
        distinct_node_states(stored_nodes(input)),
        forall|id: Seq<char>| has_node_state(stored_nodes(input), id) <==> has_node_state(input, id),
        forall|id: Seq<char>|
            has_node_state(input, id) ==> #[trigger] stored_nodes(input)[index_of_node_state(
                stored_nodes(input),
                id,
            )] == last_node_with(input, id),
    decreases input.len(),
{
    let cur = stored_nodes(input);
    if input.len() > 0 {
        let front = input.drop_last();
        let held = stored_nodes(front);
        let node = input.last();
        stored_nodes_hold_the_last(front);
        let k = if has_node_state(held, node.id@) {
            index_of_node_state(held, node.id@)
        } else {
            held.len() as int
        };
        assert(cur.len() > k && cur[k] == node);
        assert forall|j: int| 0 <= j < cur.len() && j != k implies j < held.len() && #[trigger] cur[j] == held[j] by {}
        assert forall|j: int| 0 <= j < held.len() implies (#[trigger] cur[j]).id@ == held[j].id@ by {}
        assert forall|j: int, l: int| 0 <= j < cur.len() && 0 <= l < cur.len() && j != l implies (
        #[trigger] cur[j]).id@ != (#[trigger] cur[l]).id@ by {
            if j == k && l < held.len() {
                assert(held[l].id@ == cur[l].id@);
            }
            if l == k && j < held.len() {
                assert(held[j].id@ == cur[j].id@);
            }
        }
        assert forall|id: Seq<char>| has_node_state(input, id) <==> id == node.id@ || has_node_state(front, id) by {
            if has_node_state(input, id) {
                let j = choose|j: int| 0 <= j < input.len() && (#[trigger] input[j]).id@ == id;
                if j < front.len() {
                    assert(front[j] == input[j]);
                }
            }
            if has_node_state(front, id) {
                let j = choose|j: int| 0 <= j < front.len() && (#[trigger] front[j]).id@ == id;
                assert(input[j] == front[j]);
            }
            if id == node.id@ {
                assert(input[input.len() - 1].id@ == id);
            }
        }
        assert forall|id: Seq<char>| has_node_state(cur, id) <==> id == node.id@ || has_node_state(held, id) by {
            if has_node_state(cur, id) {
                let j = choose|j: int| 0 <= j < cur.len() && (#[trigger] cur[j]).id@ == id;
                if j != k {
                    assert(held[j].id@ == id);
                }
            }
            if has_node_state(held, id) {
                let j = choose|j: int| 0 <= j < held.len() && (#[trigger] held[j]).id@ == id;
                assert(cur[j].id@ == id);
            }
            if id == node.id@ {
                assert(cur[k].id@ == id);
            }
        }
        assert forall|id: Seq<char>| has_node_state(input, id) implies #[trigger] cur[index_of_node_state(cur, id)]
            == last_node_with(input, id) by {
            let j = index_of_node_state(cur, id);
            assert(has_node_state(cur, id));
            assert(0 <= j < cur.len() && cur[j].id@ == id);
            if id == node.id@ {
                assert(cur[k].id@ == id);
                assert(j == k);
            } else {
                assert(j != k);
                assert(held[j].id@ == id);
                assert(has_node_state(held, id));
                let h = index_of_node_state(held, id);
                assert(0 <= h < held.len() && held[h].id@ == id);
                assert(h == j);
                assert(has_node_state(front, id));
            }
        }
    }
}

/// Jobs of which no two share an id are held as they come: a store that
/// is loaded with what another store holds, holds the same.
pub proof fn distinct_jobs_are_stored_as_they_are(input: Seq<Job>)
    requires
        distinct_job_ids(input),
    ensures
        stored_jobs(input) == input,
    decreases input.len(),
{
    if input.len() > 0 {
        let front = input.drop_last();
        assert forall|j: int| 0 <= j < front.len() implies #[trigger] front[j] == input[j] by {}
        assert(distinct_job_ids(front));
        distinct_jobs_are_stored_as_they_are(front);
        if has_job(front, input.last().id@) {
            let k = choose|k: int| 0 <= k < front.len() && (#[trigger] front[k]).id@ == input.last().id@;
            assert(input[k].id@ == input[input.len() - 1].id@);
        }
        assert(front.push(input.last()) =~= input);
    } else {
        assert(stored_jobs(input) =~= input);
    }
}

/// Node states of which no two share an id are held as they come.
pub proof fn distinct_nodes_are_stored_as_they_are(input: Seq<NodeState>)
    requires
        distinct_node_states(input),
    ensures
        stored_nodes(input) == input,
    decreases input.len(),
{
    if input.len() > 0 {
        let front = input.drop_last();
        assert forall|j: int| 0 <= j < front.len() implies #[trigger] front[j] == input[j] by {}
        assert(distinct_node_states(front));
        distinct_nodes_are_stored_as_they_are(front);
        if has_node_state(front, input.last().id@) {
            let k = choose|k: int| 0 <= k < front.len() && (#[trigger] front[k]).id@ == input.last().id@;
            assert(input[k].id@ == input[input.len() - 1].id@);
        }
        assert(front.push(input.last()) =~= input);
    } else {
        assert(stored_nodes(input) =~= input);
    }
}

/// The store.
pub struct StateStore {
    config: StateStoreConfig,
    jobs: Vec<Job>,
    nodes: Vec<NodeState>,
}

impl StateStore {
    /// The configuration.
    pub closed spec fn spec_config(&self) -> StateStoreConfig {
        self.config
    }

    /// The jobs, in the order in which their ids were first stored.
    pub closed spec fn jobs(&self) -> Seq<Job> {
        self.jobs@
    }

    /// The node states, in the order in which their ids were first
    /// stored.
    pub closed spec fn nodes(&self) -> Seq<NodeState> {
        self.nodes@
    }

    /// No two jobs and no two nodes share an id.
    pub open spec fn wf(&self) -> bool {
        distinct_job_ids(self.jobs()) && distinct_node_states(self.nodes())
    }

    /// An empty store.
    pub fn new(config: StateStoreConfig) -> (s: Self)
        ensures
            s.wf(),
            s.spec_config() == config,
            s.jobs().len() == 0,
            s.nodes().len() == 0,
    {
        StateStore { config, jobs: Vec::new(), nodes: Vec::new() }
    }

    /// A store with what was read from the state files, stored one after
    /// the other. Of jobs or nodes that share an id, the last one counts:
    /// it stands where the first of them would.
    pub fn with_loaded(config: StateStoreConfig, jobs: Vec<Job>, nodes: Vec<NodeState>) -> (s: Self)
        ensures
            s.wf(),
            s.spec_config() == config,
            s.jobs() == stored_jobs(jobs@),
            s.nodes() == stored_nodes(nodes@),
            forall|id: Seq<char>| has_job(s.jobs(), id) <==> has_job(jobs@, id),
            forall|id: Seq<char>| has_node_state(s.nodes(), id) <==> has_node_state(nodes@, id),
            forall|id: Seq<char>|
                has_job(jobs@, id) ==> #[trigger] s.jobs()[index_of_job(s.jobs(), id)] == last_job_with(jobs@, id),
            forall|id: Seq<char>|
                has_node_state(nodes@, id) ==> #[trigger] s.nodes()[index_of_node_state(s.nodes(), id)]
                    == last_node_with(nodes@, id),
    {
        let mut s = StateStore { config, jobs: Vec::new(), nodes: Vec::new() };
        let mut jobs = jobs;
        let mut nodes = nodes;
        let ghost all_jobs = jobs@;
        let ghost all_nodes = nodes@;
        let ghost mut taken: int = 0;
        proof {
            assert(all_jobs.skip(0) =~= all_jobs);
            assert(all_jobs.take(0) =~= Seq::<Job>::empty());
        }
        while jobs.len() > 0
            invariant
                s.wf(),
                s.config == config,
                s.nodes@.len() == 0,
                0 <= taken <= all_jobs.len(),
                jobs@ == all_jobs.skip(taken),
                s.jobs() == stored_jobs(all_jobs.take(taken)),
            decreases jobs@.len(),
        {
            let job = jobs.remove(0);
            proof {
                assert(all_jobs.take(taken + 1).drop_last() =~= all_jobs.take(taken));
                assert(all_jobs.take(taken + 1).last() == job);
                assert(jobs@ =~= all_jobs.skip(taken + 1));
            }
            let _ = s.store_job(job);
            proof {
                taken = taken + 1;
            }
        }
        proof {
            assert(all_jobs.take(taken) =~= all_jobs);
            taken = 0;
            assert(all_nodes.skip(0) =~= all_nodes);
            assert(all_nodes.take(0) =~= Seq::<NodeState>::empty());
            assert(s.nodes() =~= stored_nodes(all_nodes.take(0)));
        }
        while nodes.len() > 0
            invariant
                s.wf(),
                s.config == config,
                s.jobs() == stored_jobs(all_jobs),
                0 <= taken <= all_nodes.len(),
                nodes@ == all_nodes.skip(taken),
                s.nodes() == stored_nodes(all_nodes.take(taken)),
            decreases nodes@.len(),
        {
            let node = nodes.remove(0);
            proof {
                assert(all_nodes.take(taken + 1).drop_last() =~= all_nodes.take(taken));
                assert(all_nodes.take(taken + 1).last() == node);
                assert(nodes@ =~= all_nodes.skip(taken + 1));
            }
            let _ = s.store_node(node);
            proof {
                taken = taken + 1;
            }
        }
        proof {
            assert(all_nodes.take(taken) =~= all_nodes);
            stored_jobs_hold_the_last(all_jobs);
            stored_nodes_hold_the_last(all_nodes);
        }
        s
    }

    /// The configuration.
    pub fn config(&self) -> (c: &StateStoreConfig)
        ensures
            *c == self.spec_config(),
    {
        &self.config
    }

    /// The place of the job with the id.
    fn find_job(&self, job_id: &str) -> (r: Option<usize>)
        ensures
            match r {
                Some(k) => k < self.jobs().len() && self.jobs()[k as int].id@ == job_id@,
                None => !has_job(self.jobs(), job_id@),
            },
            distinct_job_ids(self.jobs()) && r is Some ==> r->0 == index_of_job(self.jobs(), job_id@),
    {
        let key = String::from_str(job_id);
        let mut k: usize = 0;
        while k < self.jobs.len()
            invariant
                k <= self.jobs.len(),
                key@ == job_id@,
                forall|j: int| 0 <= j < k ==> (#[trigger] self.jobs@[j]).id@ != job_id@,
            decreases self.jobs.len() - k,
        {
            if self.jobs[k].id == key {
                return Some(k);
            }
            k = k + 1;
        }
        None
    }

    /// Stores a job, in place of the job with the same id where there is
    /// one, else at the end. Returns whether the state is to be written
    /// out now.
    pub fn store_job(&mut self, job: Job) -> (write_now: bool)
        requires
            old(self).wf(),
        ensures
            final(self).wf(),
            write_now == old(self).spec_config().sync_writes,
            final(self).spec_config() == old(self).spec_config(),
            final(self).nodes() == old(self).nodes(),
            final(self).jobs() == if has_job(old(self).jobs(), job.id@) {
                old(self).jobs().update(index_of_job(old(self).jobs(), job.id@), job)
            } else {
                old(self).jobs().push(job)
            },
            forall|id: Seq<char>| has_job(final(self).jobs(), id) <==> id == job.id@ || has_job(old(self).jobs(), id),
    {
        match self.find_job(job.id.as_str()) {
            Some(k) => {
                self.jobs[k] = job;
                proof {
                    assert forall|id: Seq<char>| has_job(self.jobs(), id) <==> id == job.id@ || has_job(
                        old(self).jobs(),
                        id,
                    ) by {
                        assert(self.jobs()[k as int].id@ == job.id@);
                        assert(old(self).jobs()[k as int].id@ == job.id@);
                        if has_job(self.jobs(), id) {
                            let j = choose|j: int|
                                0 <= j < self.jobs().len() && (#[trigger] self.jobs()[j]).id@ == id;
                            assert(old(self).jobs()[j].id@ == id);
                        }
                        if has_job(old(self).jobs(), id) {
                            let j = choose|j: int|
                                0 <= j < old(self).jobs().len() && (#[trigger] old(self).jobs()[j]).id@ == id;
                            assert(self.jobs()[j].id@ == id);
                        }
                    }
                }
            },
            None => {
                self.jobs.push(job);
                proof {
                    assert forall|id: Seq<char>| has_job(self.jobs(), id) <==> id == job.id@ || has_job(
                        old(self).jobs(),
                        id,
                    ) by {
                        assert(self.jobs()[self.jobs().len() - 1].id@ == job.id@);
                        if has_job(self.jobs(), id) {
                            let j = choose|j: int|
                                0 <= j < self.jobs().len() && (#[trigger] self.jobs()[j]).id@ == id;
                            if j < old(self).jobs().len() {
                                assert(old(self).jobs()[j].id@ == id);
                            }
                        }
                        if has_job(old(self).jobs(), id) {
                            let j = choose|j: int|
                                0 <= j < old(self).jobs().len() && (#[trigger] old(self).jobs()[j]).id@ == id;
                            assert(self.jobs()[j].id@ == id);
                        }
                    }
                }
            },
        }
        self.config.sync_writes
    }

    /// The job with the id.
    pub fn get_job(&self, job_id: &str) -> (r: Option<&Job>)
        requires
            self.wf(),
        ensures
            r is Some <==> has_job(self.jobs(), job_id@),
            r is Some ==> *r->0 == self.jobs()[index_of_job(self.jobs(), job_id@)],
    {
        match self.find_job(job_id) {
            Some(k) => Some(&self.jobs[k]),
            None => None,
        }
    }

    /// Whether a move of the job with the id to a state is made: the job
    /// is held and the lifecycle has an edge from its state to that state.
    pub open spec fn can_move(&self, job_id: Seq<char>, state: JobState) -> bool {
        has_job(self.jobs(), job_id) && is_edge(self.jobs()[index_of_job(self.jobs(), job_id)].state, state)
    }

    /// Whether `after` and `r` are what becomes of `before` when the job
    /// with the id is moved to a state at `now`, as `Job` does it. A move
    /// that is made changes that job alone, and `r` says whether the
    /// state is to be written out now. An unknown job and a move that is
    /// no edge of the lifecycle are errors and change nothing.
    pub open spec fn job_updated(
        before: &StateStore,
        job_id: Seq<char>,
        state: JobState,
        message: Seq<char>,
        now: i64,
        after: &StateStore,
        r: Result<bool, Error>,
    ) -> bool {
        let k = index_of_job(before.jobs(), job_id);
        &&& after.spec_config() == before.spec_config()
        &&& after.nodes() == before.nodes()
        &&& after.jobs().len() == before.jobs().len()
        &&& match r {
            Ok(write_now) => {
                &&& before.can_move(job_id, state)
                &&& write_now == before.spec_config().sync_writes
                &&& forall|j: int| 0 <= j < before.jobs().len() && j != k ==> after.jobs()[j] == before.jobs()[j]
                &&& before.jobs()[k].moved_to(after.jobs()[k], state, message, now)
            },
            Err(e) => {
                &&& !before.can_move(job_id, state)
                &&& after.jobs() == before.jobs()
                &&& e is Job
                &&& e.spec_message() == if has_job(before.jobs(), job_id) {
                    invalid_transition_message(job_id, before.jobs()[k].state, state)
                } else {
                    job_not_found_message(job_id)
                }
            },
        }
    }

    /// Moves the job with the id to a state at `now`, as `Job` does it.
    /// Returns whether the state is to be written out now. An unknown job
    /// and a move that is no edge of the lifecycle are errors and change
    /// nothing.
    pub fn update_job_state_at(&mut self, job_id: &str, state: JobState, message: &str, now: i64) -> (r: Result<
        bool,
        Error,
    >)
        requires
            old(self).wf(),
        ensures
            final(self).wf(),
            r is Ok <==> old(self).can_move(job_id@, state),
            Self::job_updated(old(self), job_id@, state, message@, now, final(self), r),
    {
        match self.find_job(job_id) {
            Some(k) => {
                match self.jobs[k].transition_at(state, message, now) {
                    Ok(_) => {
                        proof {
                            assert forall|a: int, b: int|
                                0 <= a < self.jobs().len() && 0 <= b < self.jobs().len() && a != b implies (
                            #[trigger] self.jobs()[a]).id@ != (#[trigger] self.jobs()[b]).id@ by {
                                assert(self.jobs()[a].id == old(self).jobs()[a].id);
                                assert(self.jobs()[b].id == old(self).jobs()[b].id);
                            }
                        }
                        Ok(self.config.sync_writes)
                    },
                    Err(e) => {
                        proof {
                            assert(self.jobs() =~= old(self).jobs());
                        }
                        Err(e)
                    },
                }
            },
            None => {
                let mut msg = String::from_str("Job not found: ");
                msg.append(job_id);
                Err(Error::Job(msg))
            },
        }
    }

    /// Moves the job with the id to a state at the current time.
    pub fn update_job_state(&mut self, job_id: &str, state: JobState, message: &str) -> (r: Result<bool, Error>)
        requires
            old(self).wf(),
        ensures
            final(self).wf(),
            r is Ok <==> old(self).can_move(job_id@, state),
            exists|now: i64| #[trigger] Self::job_updated(old(self), job_id@, state, message@, now, final(self), r),
    {
        let now = now_secs();
        self.update_job_state_at(job_id, state, message, now)
    }

    /// Forgets the job with the id; an unknown id changes nothing.
    /// Returns whether the state is to be written out now.
    pub fn delete_job(&mut self, job_id: &str) -> (write_now: bool)
        requires
            old(self).wf(),
        ensures
            final(self).wf(),
            write_now == old(self).spec_config().sync_writes,
            final(self).spec_config() == old(self).spec_config(),
            final(self).nodes() == old(self).nodes(),
            !has_job(final(self).jobs(), job_id@),
            final(self).jobs() == if has_job(old(self).jobs(), job_id@) {
                old(self).jobs().remove(index_of_job(old(self).jobs(), job_id@))
            } else {
                old(self).jobs()
            },
    {
        match self.find_job(job_id) {
            Some(k) => {
                self.jobs.remove(k);
                assert forall|j: int| 0 <= j < self.jobs@.len() implies (#[trigger] self.jobs@[j]).id@ != job_id@ by {
                    if j < k {
                        assert(self.jobs@[j] == old(self).jobs@[j]);
                    } else {
                        assert(self.jobs@[j] == old(self).jobs@[j + 1]);
                    }
                }
            },
            None => {},
        }
        self.config.sync_writes
    }

    /// The jobs in the given state, in store order.
    pub fn list_jobs_by_state(&self, state: JobState) -> (r: Vec<&Job>)
        ensures
            jobs_of(r@) == self.jobs().filter(|j: Job| j.state == state),
    {
        let mut out: Vec<&Job> = Vec::new();
        let mut k: usize = 0;
        let ghost pred = |j: Job| j.state == state;
        while k < self.jobs.len()
            invariant
                k <= self.jobs.len(),
                pred == |j: Job| j.state == state,
                jobs_of(out@) == self.jobs@.take(k as int).filter(pred),
            decreases self.jobs.len() - k,
        {
            proof {
                assert(self.jobs@.take(k + 1).drop_last() =~= self.jobs@.take(k as int));
                reveal(Seq::filter);
            }
            if self.jobs[k].state == state {
                let ghost shown = jobs_of(out@);
                out.push(&self.jobs[k]);
                assert(jobs_of(out@) =~= shown.push(self.jobs@[k as int]));
            }
            k = k + 1;
        }
        assert(self.jobs@.take(k as int) =~= self.jobs@);
        out
    }

    /// All jobs, in store order.
    pub fn list_all_jobs(&self) -> (r: &Vec<Job>)
        ensures
            r@ == self.jobs(),
    {
        &self.jobs
    }

    /// The place of the node state with the id.
    fn find_node(&self, node_id: &str) -> (r: Option<usize>)
        ensures
            match r {
                Some(k) => k < self.nodes().len() && self.nodes()[k as int].id@ == node_id@,
                None => !has_node_state(self.nodes(), node_id@),
            },
            distinct_node_states(self.nodes()) && r is Some ==> r->0 == index_of_node_state(
                self.nodes(),
                node_id@,
            ),
    {
        let key = String::from_str(node_id);
        let mut k: usize = 0;
        while k < self.nodes.len()
            invariant
                k <= self.nodes.len(),
                key@ == node_id@,
                forall|j: int| 0 <= j < k ==> (#[trigger] self.nodes@[j]).id@ != node_id@,
            decreases self.nodes.len() - k,
        {
            if self.nodes[k].id == key {
                return Some(k);
            }
            k = k + 1;
        }
        None
    }

    /// Stores a node state, in place of the one with the same id where
    /// there is one, else at the end. Returns whether the state is to be
    /// written out now.
    pub fn store_node(&mut self, node_state: NodeState) -> (write_now: bool)
        requires
            old(self).wf(),
        ensures
            final(self).wf(),
            write_now == old(self).spec_config().sync_writes,
            final(self).spec_config() == old(self).spec_config(),
            final(self).jobs() == old(self).jobs(),
            final(self).nodes() == if has_node_state(old(self).nodes(), node_state.id@) {
                old(self).nodes().update(index_of_node_state(old(self).nodes(), node_state.id@), node_state)
            } else {
                old(self).nodes().push(node_state)
            },
            forall|id: Seq<char>|
                has_node_state(final(self).nodes(), id) <==> id == node_state.id@ || has_node_state(
                    old(self).nodes(),
                    id,
                ),
    {
        match self.find_node(node_state.id.as_str()) {
            Some(k) => {
                self.nodes[k] = node_state;
                proof {
                    assert forall|id: Seq<char>|
                        has_node_state(self.nodes(), id) <==> id == node_state.id@ || has_node_state(
                            old(self).nodes(),
                            id,
                        ) by {
                        assert(self.nodes()[k as int].id@ == node_state.id@);
                        assert(old(self).nodes()[k as int].id@ == node_state.id@);
                        if has_node_state(self.nodes(), id) {
                            let j = choose|j: int|
                                0 <= j < self.nodes().len() && (#[trigger] self.nodes()[j]).id@ == id;
                            assert(old(self).nodes()[j].id@ == id);
                        }
                        if has_node_state(old(self).nodes(), id) {
                            let j = choose|j: int|
                                0 <= j < old(self).nodes().len() && (#[trigger] old(self).nodes()[j]).id@
                                    == id;
                            assert(self.nodes()[j].id@ == id);
                        }
                    }
                }
            },
            None => {
                self.nodes.push(node_state);
                proof {
                    assert forall|id: Seq<char>|
                        has_node_state(self.nodes(), id) <==> id == node_state.id@ || has_node_state(
                            old(self).nodes(),
                            id,
                        ) by {
                        assert(self.nodes()[self.nodes().len() - 1].id@ == node_state.id@);
                        if has_node_state(self.nodes(), id) {
                            let j = choose|j: int|
                                0 <= j < self.nodes().len() && (#[trigger] self.nodes()[j]).id@ == id;
                            if j < old(self).nodes().len() {
                                assert(old(self).nodes()[j].id@ == id);
                            }
                        }
                        if has_node_state(old(self).nodes(), id) {
                            let j = choose|j: int|
                                0 <= j < old(self).nodes().len() && (#[trigger] old(self).nodes()[j]).id@
                                    == id;
                            assert(self.nodes()[j].id@ == id);
                        }
                    }
                }
            },
        }
        self.config.sync_writes
    }

    /// The node state with the id.
    pub fn get_node(&self, node_id: &str) -> (r: Option<&NodeState>)
        requires
            self.wf(),
        ensures
            r is Some <==> has_node_state(self.nodes(), node_id@),
            r is Some ==> *r->0 == self.nodes()[index_of_node_state(self.nodes(), node_id@)],
    {
        match self.find_node(node_id) {
            Some(k) => Some(&self.nodes[k]),
            None => None,
        }
    }

    /// All node states, in store order.
    pub fn list_nodes(&self) -> (r: &Vec<NodeState>)
        ensures
            r@ == self.nodes(),
    {
        &self.nodes
    }

    /// The number of jobs in the given state.
    pub fn job_count(&self, state: JobState) -> (n: usize)
        ensures
            n == count_in(self.jobs(), state),
    {
        let mut n: usize = 0;
        let mut k: usize = 0;
        let ghost pred = |j: Job| j.state == state;
        while k < self.jobs.len()
            invariant
                k <= self.jobs.len(),
                pred == |j: Job| j.state == state,
                n == self.jobs@.take(k as int).filter(pred).len(),
                n <= k,
            decreases self.jobs.len() - k,
        {
            proof {
                assert(self.jobs@.take(k + 1).drop_last() =~= self.jobs@.take(k as int));
                reveal(Seq::filter);
            }
            if self.jobs[k].state == state {
                n = n + 1;
            }
            k = k + 1;
        }
        assert(self.jobs@.take(k as int) =~= self.jobs@);
        n
    }

    /// The states in which there are jobs, each with the number of its
    /// jobs, in the order of the lifecycle.
    pub fn job_counts(&self) -> (r: Vec<(JobState, usize)>)
        ensures
            forall|i: int|
                0 <= i < r@.len() ==> (#[trigger] r@[i]).1 > 0 && r@[i].1 == count_in(self.jobs(), r@[i].0),
            forall|state: JobState|
                #[trigger] count_in(self.jobs(), state) > 0 ==> exists|i: int|
                    0 <= i < r@.len() && (#[trigger] r@[i]).0 == state,
    {
        let mut out: Vec<(JobState, usize)> = Vec::new();
        let mut states: Vec<JobState> = Vec::new();
        states.push(JobState::Pending);
        states.push(JobState::Queued);
        states.push(JobState::Scheduled);
        states.push(JobState::Running);
        states.push(JobState::Suspended);
        states.push(JobState::Completed);
        states.push(JobState::Failed);
        states.push(JobState::Cancelled);
        states.push(JobState::Timeout);
        let mut s: usize = 0;
        while s < states.len()
            invariant
                s <= states.len(),
                states@ == seq![
                    JobState::Pending,
                    JobState::Queued,
                    JobState::Scheduled,
                    JobState::Running,
                    JobState::Suspended,
                    JobState::Completed,
                    JobState::Failed,
                    JobState::Cancelled,
                    JobState::Timeout,
                ],
                forall|i: int|
                    0 <= i < out@.len() ==> (#[trigger] out@[i]).1 > 0 && out@[i].1 == count_in(
                        self.jobs(),
                        out@[i].0,
                    ),
                forall|t: int|
                    0 <= t < s && count_in(self.jobs(), #[trigger] states@[t]) > 0 ==> exists|i: int|
                        0 <= i < out@.len() && (#[trigger] out@[i]).0 == states@[t],
            decreases states.len() - s,
        {
            let state = states[s];
            let n = self.job_count(state);
            let ghost before = out@;
            if n > 0 {
                out.push((state, n));
                proof {
                    assert(out@[out@.len() - 1].0 == state);
                }
            }
            proof {
                assert forall|t: int| 0 <= t < s + 1 && count_in(self.jobs(), #[trigger] states@[t]) > 0 implies exists|
                    i: int,
                |
                    0 <= i < out@.len() && (#[trigger] out@[i]).0 == states@[t] by {
                    if t < s {
                        let i = choose|i: int| 0 <= i < before.len() && (#[trigger] before[i]).0 == states@[t];
                        assert(out@[i].0 == states@[t]);
                    } else {
                        assert(out@[out@.len() - 1].0 == states@[t]);
                    }
                }
            }
            s = s + 1;
        }
        proof {
            assert forall|state: JobState| #[trigger] count_in(self.jobs(), state) > 0 implies exists|i: int|
                0 <= i < out@.len() && (#[trigger] out@[i]).0 == state by {
                let t: int = match state {
                    JobState::Pending => 0,
                    JobState::Queued => 1,
                    JobState::Scheduled => 2,
                    JobState::Running => 3,
                    JobState::Suspended => 4,
                    JobState::Completed => 5,
                    JobState::Failed => 6,
                    JobState::Cancelled => 7,
                    JobState::Timeout => 8,
                };
                assert(states@[t] == state);
            }
        }
        out
    }

    /// Forgets at `now` the jobs that ended more than `max_age_secs` ago
    /// in Completed, Failed or Cancelled. Returns how many were forgotten
    /// and whether the state is to be written out now.
    pub fn cleanup_old_jobs_at(&mut self, max_age_secs: i64, now: i64) -> (r: (usize, bool))
        requires
            old(self).wf(),
        ensures
            final(self).wf(),
            final(self).spec_config() == old(self).spec_config(),
            final(self).nodes() == old(self).nodes(),
            final(self).jobs() == remembered(old(self).jobs(), max_age_secs, now),
            r.0 == old(self).jobs().len() - final(self).jobs().len(),
            r.1 == (r.0 > 0 && old(self).spec_config().sync_writes),
    {
        let mut kept: Vec<Job> = Vec::new();
        let mut count: usize = 0;
        let ghost all = self.jobs@;
        let ghost pred = |j: Job| !is_forgotten(j, max_age_secs, now);
        let mut rest: Vec<Job> = Vec::new();
        std::mem::swap(&mut rest, &mut self.jobs);
        let total: usize = rest.len();
        let mut taken: usize = 0;
        while rest.len() > 0
            invariant
                pred == |j: Job| !is_forgotten(j, max_age_secs, now),
                all == old(self).jobs@,
                distinct_job_ids(all),
                self.config == old(self).config,
                self.nodes == old(self).nodes,
                taken + rest@.len() == total,
                total == all.len(),
                rest@ == all.skip(taken as int),
                kept@ == all.take(taken as int).filter(pred),
                count + kept@.len() == taken,
            decreases rest@.len(),
        {
            let job = rest.remove(0);
            proof {
                assert(all.take(taken + 1).drop_last() =~= all.take(taken as int));
                assert(all.take(taken + 1).last() == job);
                assert(rest@ =~= all.skip(taken + 1));
                reveal(Seq::filter);
            }
            let settled = match job.state {
                JobState::Completed | JobState::Failed | JobState::Cancelled => true,
                _ => false,
            };
            let old_enough = match job.end_time {
                Some(t) => older_than(t, now, max_age_secs),
                None => false,
            };
            if settled && old_enough {
                count = count + 1;
            } else {
                kept.push(job);
            }
            taken = taken + 1;
        }
        proof {
            assert(all.take(total as int) =~= all);
            let f = all.filter(pred);
            assert forall|a: int, b: int| 0 <= a < f.len() && 0 <= b < f.len() && a != b implies (
            #[trigger] f[a]).id@ != (#[trigger] f[b]).id@ by {
                crate::scheduler::state::filter_keeps_distinct(all, pred, a, b);
            }
        }
        self.jobs = kept;
        (count, count > 0 && self.config.sync_writes)
    }

    /// Forgets the jobs that ended more than `max_age_secs` before the
    /// current time in Completed, Failed or Cancelled; the others stay, in
    /// their order. Returns how many were forgotten and whether the state
    /// is to be written out now.
    pub fn cleanup_old_jobs(&mut self, max_age_secs: i64) -> (r: (usize, bool))
        requires
            old(self).wf(),
        ensures
            final(self).wf(),
            final(self).spec_config() == old(self).spec_config(),
            final(self).nodes() == old(self).nodes(),
            exists|now: i64| final(self).jobs() == #[trigger] remembered(old(self).jobs(), max_age_secs, now),
            r.0 == old(self).jobs().len() - final(self).jobs().len(),
            r.1 == (r.0 > 0 && old(self).spec_config().sync_writes),
    {
        let now = now_secs();
        self.cleanup_old_jobs_at(max_age_secs, now)
    }
}

/// What a filter keeps of a list keeps its order: to each place of the
/// filtered list belongs a place of the list, and a later place to a
/// later one.
pub proof fn filter_places(all: Seq<Job>, pred: spec_fn(Job) -> bool) -> (places: Seq<int>)
    ensures
        places.len() == all.filter(pred).len(),
        forall|a: int| 0 <= a < places.len() ==> 0 <= (#[trigger] places[a]) < all.len() && all[places[a]]
            == all.filter(pred)[a],
        forall|a: int, b: int| 0 <= a < b < places.len() ==> (#[trigger] places[a]) < (#[trigger] places[b]),
    decreases all.len(),
{
    reveal(Seq::filter);
    if all.len() == 0 {
        Seq::empty()
    } else {
        let rest = filter_places(all.drop_last(), pred);
        assert forall|a: int| 0 <= a < rest.len() implies all[#[trigger] rest[a]] == all.drop_last()[rest[a]] by {}
        if pred(all.last()) {
            rest.push(all.len() - 1)
        } else {
            rest
        }
    }
}

/// Jobs that a filter keeps have different ids where the jobs of the
/// whole list have.
pub proof fn filter_keeps_distinct(all: Seq<Job>, pred: spec_fn(Job) -> bool, a: int, b: int)
    requires
        distinct_job_ids(all),
        0 <= a < all.filter(pred).len(),
        0 <= b < all.filter(pred).len(),
        a != b,
    ensures
        all.filter(pred)[a].id@ != all.filter(pred)[b].id@,
{
    let places = filter_places(all, pred);
    if a < b {
        assert(places[a] < places[b]);
    } else {
        assert(places[b] < places[a]);
    }
    assert(all[places[a]] == all.filter(pred)[a]);
    assert(all[places[b]] == all.filter(pred)[b]);
}

} // verus!
