//! The node registry: which nodes exist, which are fit for work, and what
//! they have free.

use vstd::prelude::*;
use vstd::string::StringExecFns;
use crate::scheduler::Error;
use crate::scheduler::clock::now_secs;
use crate::scheduler::node::{all_consistent, free_ids, Node, NodeHealth, NodeTopology};
use crate::text::texts;

verus! {

/// Whether some node of the list has the id.
pub open spec fn has_node(nodes: Seq<Node>, id: Seq<char>) -> bool {
    exists|i: int| 0 <= i < nodes.len() && (#[trigger] nodes[i]).id@ == id
}

/// The place of the node with the id, where there is one.
pub open spec fn index_of_node(nodes: Seq<Node>, id: Seq<char>) -> int {
    choose|i: int| 0 <= i < nodes.len() && (#[trigger] nodes[i]).id@ == id
}

/// Whether no two nodes share an id.
pub open spec fn distinct_node_ids(nodes: Seq<Node>) -> bool {
    forall|i: int, j: int|
        0 <= i < nodes.len() && 0 <= j < nodes.len() && i != j ==> (#[trigger] nodes[i]).id@ != (
        #[trigger] nodes[j]).id@
}

/// Whether the node with the id exists and can take work at `now`.
pub open spec fn node_is_healthy(nodes: Seq<Node>, id: Seq<char>, timeout: i64, now: i64) -> bool {
    has_node(nodes, id) && nodes[index_of_node(nodes, id)].spec_is_healthy(timeout, now)
}

/// A node that counts as healthy at `now` has reported within the
/// timeout.
pub proof fn healthy_node_is_fresh(nodes: Seq<Node>, id: Seq<char>, timeout: i64, now: i64)
    requires
        node_is_healthy(nodes, id, timeout, now),
    ensures
        has_node(nodes, id),
        nodes[index_of_node(nodes, id)].health == NodeHealth::Healthy,
        now - nodes[index_of_node(nodes, id)].last_heartbeat <= timeout,
{
}

/// The nodes that can take work at `now`, in registry order.
pub open spec fn healthy_of(nodes: Seq<Node>, timeout: i64, now: i64) -> Seq<Node> {
    nodes.filter(|n: Node| n.spec_is_healthy(timeout, now))
}

/// The nodes that can take work at `now` and have at least `min` GPUs free,
/// in registry order.
pub open spec fn available_of(nodes: Seq<Node>, timeout: i64, now: i64, min: nat) -> Seq<Node> {
    nodes.filter(|n: Node| n.spec_is_healthy(timeout, now) && n.spec_available_gpus() >= min)
}

/// The nodes behind a list of references.
pub open spec fn nodes_of(refs: Seq<&Node>) -> Seq<Node> {
    refs.map_values(|n: &Node| *n)
}

/// The sum of `f` over the nodes.
pub open spec fn sum_over(nodes: Seq<Node>, f: spec_fn(Node) -> nat) -> nat
    decreases nodes.len(),
{
    if nodes.len() == 0 {
        0
    } else {
        sum_over(nodes.drop_last(), f) + f(nodes.last())
    }
}

/// `n` cut to the range of `usize`.
pub open spec fn cut(n: nat) -> usize {
    if n > usize::MAX {
        usize::MAX
    } else {
        n as usize
    }
}

/// Totals over the cluster.
#[derive(Debug, Clone)]
pub struct ClusterSummary {
    /// Number of nodes.
    pub total_nodes: usize,
    /// Number of nodes that can take work: they report Healthy and have
    /// reported within the timeout.
    pub healthy_nodes: usize,
    /// Number of GPUs.
    pub total_gpus: usize,
    /// Number of unallocated GPUs.
    pub available_gpus: usize,
    /// Number of entries in the nodes' lists of running jobs.
    pub running_jobs: usize,
}

/// Whether `after` and `r` are what becomes of the nodes `before` when
/// the node with the id gets a topology and a report at `now`. The node
/// keeps everything else, and the other nodes stay as they are. An
/// unknown id is an error that says so, and changes nothing.
pub open spec fn node_updated(
    before: Seq<Node>,
    node_id: Seq<char>,
    topology: NodeTopology,
    now: i64,
    after: Seq<Node>,
    r: Result<(), Error>,
) -> bool {
    match r {
        Ok(_) => {
            let i = index_of_node(before, node_id);
            &&& has_node(before, node_id)
            &&& after.len() == before.len()
            &&& forall|j: int| 0 <= j < before.len() && j != i ==> after[j] == before[j]
            &&& after[i].topology == topology
            &&& after[i].last_heartbeat == now
            &&& after[i].id == before[i].id
            &&& after[i].hostname == before[i].hostname
            &&& after[i].ip_address == before[i].ip_address
            &&& after[i].health == before[i].health
            &&& after[i].health_message == before[i].health_message
            &&& after[i].registered_at == before[i].registered_at
            &&& after[i].labels == before[i].labels
            &&& after[i].running_jobs == before[i].running_jobs
        },
        Err(e) => {
            &&& !has_node(before, node_id)
            &&& after == before
            &&& e is Node
            &&& e.spec_message() == NodeRegistry::not_found_message(node_id)
        },
    }
}

/// Where no node can take work at `now`, none is counted as healthy: a
/// node that reports Healthy but has not reported within the timeout is
/// left out.
pub proof fn stale_nodes_are_left_out(nodes: Seq<Node>, timeout: i64, now: i64)
    requires
        forall|i: int| 0 <= i < nodes.len() ==> !(#[trigger] nodes[i]).spec_is_healthy(timeout, now),
    ensures
        healthy_of(nodes, timeout, now).len() == 0,
    decreases nodes.len(),
{
    reveal(Seq::filter);
    if nodes.len() > 0 {
        let front = nodes.drop_last();
        assert forall|i: int| 0 <= i < front.len() implies !(#[trigger] front[i]).spec_is_healthy(timeout, now) by {
            assert(front[i] == nodes[i]);
        }
        stale_nodes_are_left_out(front, timeout, now);
        assert(!nodes[nodes.len() - 1].spec_is_healthy(timeout, now));
    }
}

/// Whether `s` holds the totals over the nodes at `now`: the number of
/// nodes, the number of those that can take work at `now`, and the GPUs,
/// the free GPUs and the entries in the lists of running jobs, each total
/// cut to the largest value where it does not fit.
pub open spec fn summarises(nodes: Seq<Node>, timeout: i64, now: i64, s: ClusterSummary) -> bool {
    &&& s.total_nodes == nodes.len()
    &&& s.healthy_nodes == healthy_of(nodes, timeout, now).len()
    &&& s.total_gpus == cut(sum_over(nodes, |n: Node| n.topology.gpus@.len()))
    &&& s.available_gpus == cut(sum_over(nodes, |n: Node| n.spec_available_gpus()))
    &&& s.running_jobs == cut(sum_over(nodes, |n: Node| n.running_jobs@.len()))
}

/// The nodes of the cluster, each under its id, in the order in which the
/// ids were first registered.
pub struct NodeRegistry {
    nodes: Vec<Node>,
    heartbeat_timeout_seconds: i64,
}

impl View for NodeRegistry {
    type V = Seq<Node>;

    closed spec fn view(&self) -> Seq<Node> {
        self.nodes@
    }
}

/// Adds `b` to `a`, stopping at the largest value.
fn add_cut(a: usize, b: usize) -> (r: usize)
    ensures
        r == cut((a + b) as nat),
{
    if a > usize::MAX - b {
        usize::MAX
    } else {
        a + b
    }
}

impl NodeRegistry {
    /// The seconds after which a silent node counts as stale.
    pub closed spec fn timeout(&self) -> i64 {
        self.heartbeat_timeout_seconds
    }

    /// No two nodes share an id.
    pub open spec fn wf(&self) -> bool {
        distinct_node_ids(self@)
    }

    /// An empty registry with the given heartbeat timeout.
    pub fn new(heartbeat_timeout_seconds: i64) -> (r: NodeRegistry)
        ensures
            r@.len() == 0,
            r.timeout() == heartbeat_timeout_seconds,
            r.wf(),
    {
        NodeRegistry { nodes: Vec::new(), heartbeat_timeout_seconds }
    }

    /// The heartbeat timeout in seconds.
    pub fn heartbeat_timeout(&self) -> (t: i64)
        ensures
            t == self.timeout(),
    {
        self.heartbeat_timeout_seconds
    }

    /// The number of nodes.
    pub fn len(&self) -> (n: usize)
        ensures
            n == self@.len(),
    {
        self.nodes.len()
    }

    /// The node at a place of the registry order.
    pub fn node_at(&self, i: usize) -> (node: &Node)
        requires
            i < self@.len(),
        ensures
            *node == self@[i as int],
    {
        &self.nodes[i]
    }

    /// The place of the node with the id.
    pub fn find(&self, node_id: &str) -> (r: Option<usize>)
        ensures
            match r {
                Some(i) => i < self@.len() && self@[i as int].id@ == node_id@,
                None => !has_node(self@, node_id@),
            },
            self.wf() && r is Some ==> r->0 == index_of_node(self@, node_id@),
    {
        let key = String::from_str(node_id);
        let mut i: usize = 0;
        while i < self.nodes.len()
            invariant
                i <= self.nodes.len(),
                key@ == node_id@,
                forall|j: int| 0 <= j < i ==> (#[trigger] self.nodes@[j]).id@ != node_id@,
            decreases self.nodes.len() - i,
        {
            if self.nodes[i].id == key {
                return Some(i);
            }
            i = i + 1;
        }
        None
    }

    /// Inserts the node, in place of the one with the same id where there
    /// is one, else at the end.
    pub fn register(&mut self, node: Node) -> (r: Result<(), Error>)
        requires
            old(self).wf(),
        ensures
            r is Ok,
            final(self).wf(),
            final(self).timeout() == old(self).timeout(),
            final(self)@ == if has_node(old(self)@, node.id@) {
                old(self)@.update(index_of_node(old(self)@, node.id@), node)
            } else {
                old(self)@.push(node)
            },
    {
        match self.find(node.id.as_str()) {
            Some(i) => {
                self.nodes[i] = node;
            },
            None => {
                self.nodes.push(node);
            },
        }
        Ok(())
    }

    /// Removes the node with the id. An unknown id changes nothing.
    pub fn deregister(&mut self, node_id: &str) -> (r: Result<(), Error>)
        requires
            old(self).wf(),
        ensures
            r is Ok,
            final(self).wf(),
            final(self).timeout() == old(self).timeout(),
            final(self)@ == if has_node(old(self)@, node_id@) {
                old(self)@.remove(index_of_node(old(self)@, node_id@))
            } else {
                old(self)@
            },
            !has_node(final(self)@, node_id@),
    {
        match self.find(node_id) {
            Some(i) => {
                self.nodes.remove(i);
                assert forall|j: int| 0 <= j < self.nodes@.len() implies (#[trigger] self.nodes@[j]).id@
                    != node_id@ by {
                    if j < i {
                        assert(self.nodes@[j] == old(self).nodes@[j]);
                    } else {
                        assert(self.nodes@[j] == old(self).nodes@[j + 1]);
                    }
                }
            },
            None => {},
        }
        Ok(())
    }

    /// The message for an id that no node has.
    pub open spec fn not_found_message(node_id: Seq<char>) -> Seq<char> {
        "Node not found: "@ + node_id
    }

    /// Replaces the topology of the node with the id and records a report
    /// at `now`. An unknown id is an error and changes nothing.
    pub fn update_at(&mut self, node_id: &str, topology: NodeTopology, now: i64) -> (r: Result<(), Error>)
        requires
            old(self).wf(),
        ensures
            final(self).wf(),
            final(self).timeout() == old(self).timeout(),
            r is Ok <==> has_node(old(self)@, node_id@),
            node_updated(old(self)@, node_id@, topology, now, final(self)@, r),
    {
        match self.find(node_id) {
            Some(i) => {
                self.nodes[i].topology = topology;
                self.nodes[i].heartbeat_at(now);
                Ok(())
            },
            None => {
                let mut msg = String::from_str("Node not found: ");
                msg.append(node_id);
                Err(Error::Node(msg))
            },
        }
    }

    /// Replaces the topology of the node with the id and records a report
    /// at the current time. An unknown id is an error and changes nothing.
    pub fn update(&mut self, node_id: &str, topology: NodeTopology) -> (r: Result<(), Error>)
        requires
            old(self).wf(),
        ensures
            final(self).wf(),
            final(self).timeout() == old(self).timeout(),
            r is Ok <==> has_node(old(self)@, node_id@),
            exists|now: i64| #[trigger] node_updated(old(self)@, node_id@, topology, now, final(self)@, r),
    {
        let now = now_secs();
        self.update_at(node_id, topology, now)
    }

    /// The node with the id.
    pub fn get(&self, node_id: &str) -> (r: Option<&Node>)
        requires
            self.wf(),
        ensures
            r is Some <==> has_node(self@, node_id@),
            r is Some ==> *r->0 == self@[index_of_node(self@, node_id@)],
    {
        match self.find(node_id) {
            Some(i) => Some(&self.nodes[i]),
            None => None,
        }
    }

    /// The nodes that can take work at `now`, in registry order.
    pub fn healthy_nodes_at(&self, now: i64) -> (r: Vec<&Node>)
        ensures
            nodes_of(r@) == healthy_of(self@, self.timeout(), now),
    {
        let mut out: Vec<&Node> = Vec::new();
        let mut i: usize = 0;
        let ghost pred = |n: Node| n.spec_is_healthy(self.timeout(), now);
        while i < self.nodes.len()
            invariant
                i <= self.nodes.len(),
                pred == |n: Node| n.spec_is_healthy(self.timeout(), now),
                nodes_of(out@) == self.nodes@.take(i as int).filter(pred),
            decreases self.nodes.len() - i,
        {
            proof {
                assert(self.nodes@.take(i + 1).drop_last() =~= self.nodes@.take(i as int));
                reveal(Seq::filter);
            }
            if self.nodes[i].is_healthy_at(self.heartbeat_timeout_seconds, now) {
                let ghost shown = nodes_of(out@);
                out.push(&self.nodes[i]);
                assert(nodes_of(out@) =~= shown.push(self.nodes@[i as int]));
            }
            i = i + 1;
        }
        assert(self.nodes@.take(i as int) =~= self.nodes@);
        out
    }

    /// The nodes that can take work at the current time, in registry order.
    pub fn healthy_nodes(&self) -> (r: Vec<&Node>)
        ensures
            exists|now: i64| nodes_of(r@) == healthy_of(self@, self.timeout(), now),
    {
        let now = now_secs();
        self.healthy_nodes_at(now)
    }

    /// The nodes that can take work at `now` and have at least `count` GPUs
    /// free, in registry order.
    pub fn nodes_with_available_gpus_at(&self, count: usize, now: i64) -> (r: Vec<&Node>)
        ensures
            nodes_of(r@) == available_of(self@, self.timeout(), now, count as nat),
    {
        let mut out: Vec<&Node> = Vec::new();
        let mut i: usize = 0;
        let ghost pred = |n: Node|
            n.spec_is_healthy(self.timeout(), now) && n.spec_available_gpus() >= count as nat;
        while i < self.nodes.len()
            invariant
                i <= self.nodes.len(),
                pred == |n: Node|
                    n.spec_is_healthy(self.timeout(), now) && n.spec_available_gpus() >= count as nat,
                nodes_of(out@) == self.nodes@.take(i as int).filter(pred),
            decreases self.nodes.len() - i,
        {
            proof {
                assert(self.nodes@.take(i + 1).drop_last() =~= self.nodes@.take(i as int));
                reveal(Seq::filter);
            }
            if self.nodes[i].is_healthy_at(self.heartbeat_timeout_seconds, now)
                && self.nodes[i].available_gpus() >= count {
                let ghost shown = nodes_of(out@);
                out.push(&self.nodes[i]);
                assert(nodes_of(out@) =~= shown.push(self.nodes@[i as int]));
            }
            i = i + 1;
        }
        assert(self.nodes@.take(i as int) =~= self.nodes@);
        out
    }

    /// The nodes that can take work at the current time and have at least
    /// `count` GPUs free, in registry order.
    pub fn nodes_with_available_gpus(&self, count: usize) -> (r: Vec<&Node>)
        ensures
            exists|now: i64| nodes_of(r@) == available_of(self@, self.timeout(), now, count as nat),
    {
        let now = now_secs();
        self.nodes_with_available_gpus_at(count, now)
    }

    /// Whether the node with the id exists and can take work at `now`.
    pub fn is_node_healthy_at(&self, node_id: &str, now: i64) -> (r: bool)
        requires
            self.wf(),
        ensures
            r == node_is_healthy(self@, node_id@, self.timeout(), now),
    {
        match self.find(node_id) {
            Some(i) => self.nodes[i].is_healthy_at(self.heartbeat_timeout_seconds, now),
            None => false,
        }
    }

    /// Whether the node with the id exists and can take work at the current
    /// time.
    pub fn is_node_healthy(&self, node_id: &str) -> (r: bool)
        requires
            self.wf(),
        ensures
            exists|now: i64| r == node_is_healthy(self@, node_id@, self.timeout(), now),
    {
        let now = now_secs();
        self.is_node_healthy_at(node_id, now)
    }

    /// Totals over the cluster at `now`; a total that does not fit is cut
    /// to the largest value. A node counts as healthy where it reports
    /// Healthy and has reported within the timeout.
    pub fn summary_at(&self, now: i64) -> (s: ClusterSummary)
        ensures
            summarises(self@, self.timeout(), now, s),
    {
        let mut healthy: usize = 0;
        let mut gpus: usize = 0;
        let mut free: usize = 0;
        let mut jobs: usize = 0;
        let mut i: usize = 0;
        let ghost total = |n: Node| n.topology.gpus@.len();
        let ghost available = |n: Node| n.spec_available_gpus();
        let ghost running = |n: Node| n.running_jobs@.len();
        while i < self.nodes.len()
            invariant
                i <= self.nodes.len(),
                total == |n: Node| n.topology.gpus@.len(),
                available == |n: Node| n.spec_available_gpus(),
                running == |n: Node| n.running_jobs@.len(),
                healthy == healthy_of(self.nodes@.take(i as int), self.timeout(), now).len(),
                healthy <= i,
                gpus == cut(sum_over(self.nodes@.take(i as int), total)),
                free == cut(sum_over(self.nodes@.take(i as int), available)),
                jobs == cut(sum_over(self.nodes@.take(i as int), running)),
            decreases self.nodes.len() - i,
        {
            proof {
                assert(self.nodes@.take(i + 1).drop_last() =~= self.nodes@.take(i as int));
                reveal(Seq::filter);
            }
            if self.nodes[i].is_healthy_at(self.heartbeat_timeout_seconds, now) {
                healthy = healthy + 1;
            }
            gpus = add_cut(gpus, self.nodes[i].total_gpus());
            free = add_cut(free, self.nodes[i].available_gpus());
            jobs = add_cut(jobs, self.nodes[i].running_jobs.len());
            i = i + 1;
        }
        assert(self.nodes@.take(i as int) =~= self.nodes@);
        ClusterSummary {
            total_nodes: self.nodes.len(),
            healthy_nodes: healthy,
            total_gpus: gpus,
            available_gpus: free,
            running_jobs: jobs,
        }
    }

    /// Totals over the cluster at the current time.
    pub fn summary(&self) -> (s: ClusterSummary)
        ensures
            exists|now: i64| #[trigger] summarises(self@, self.timeout(), now, s),
    {
        let now = now_secs();
        self.summary_at(now)
    }

    /// Hands `count` free GPUs of the node at place `i` to `job_id`, as
    /// `Node::allocate_gpus` does, and leaves every other node as it is.
    pub fn allocate_at(&mut self, i: usize, job_id: &str, count: usize) -> (r: Result<Vec<String>, Error>)
        requires
            old(self).wf(),
            i < old(self)@.len(),
        ensures
            final(self).wf(),
            final(self).timeout() == old(self).timeout(),
            final(self)@.len() == old(self)@.len(),
            forall|j: int| 0 <= j < old(self)@.len() && j != i ==> final(self)@[j] == old(self)@[j],
            r is Ok <==> count <= old(self)@[i as int].spec_available_gpus(),
            match r {
                Ok(ids) => {
                    &&& old(self)@[i as int].allocated_to(final(self)@[i as int], job_id@, count as nat)
                    &&& texts(ids@) == free_ids(old(self)@[i as int].topology.gpus@).take(count as int)
                },
                Err(e) => final(self)@ == old(self)@ && e is Node,
            },
            all_consistent(old(self)@[i as int].topology.gpus@) ==> all_consistent(
                final(self)@[i as int].topology.gpus@,
            ),
    {
        let r = self.nodes[i].allocate_gpus(job_id, count);
        proof {
            if r is Err {
                assert(self.nodes@ =~= old(self).nodes@);
            }
        }
        r
    }

    /// Sets free what `job_id` holds on the node with the id, as
    /// `Node::release_gpus` does. An unknown id changes nothing.
    pub fn release(&mut self, node_id: &str, job_id: &str)
        requires
            old(self).wf(),
        ensures
            final(self).wf(),
            final(self).timeout() == old(self).timeout(),
            final(self)@.len() == old(self)@.len(),
            forall|j: int|
                0 <= j < old(self)@.len() ==> if (#[trigger] old(self)@[j]).id@ == node_id@ {
                    old(self)@[j].released_from(final(self)@[j], job_id@)
                } else {
                    final(self)@[j] == old(self)@[j]
                },
    {
        match self.find(node_id) {
            Some(i) => {
                self.nodes[i].release_gpus(job_id);
            },
            None => {},
        }
    }
}

} // verus!
