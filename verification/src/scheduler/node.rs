//! Compute nodes and the GPUs on them.

use vstd::prelude::*;
use vstd::string::StringExecFns;
use std::collections::HashMap;
use crate::scheduler::Error;
use crate::scheduler::clock::{now_secs, older_than, spec_older_than};
use crate::text::{count_of, decimal, push_decimal, str_eq, texts, without};

verus! {

/// One GPU of a node.
#[derive(Debug, Clone)]
pub struct GpuDevice {
    /// Device id on its node, such as "cuda:0".
    pub device_id: String,
    /// Model name.
    pub device_name: String,
    /// Hardware UUID.
    pub uuid: String,
    /// Total memory, in bytes.
    pub total_memory: u64,
    /// Free memory, in bytes.
    pub free_memory: u64,
    /// Utilization of the compute units, in percent.
    pub utilization_percent: u32,
    /// Temperature, in degrees Celsius.
    pub temperature: i32,
    /// Whether a job holds the device.
    pub allocated: bool,
    /// The job that holds it.
    pub allocated_job_id: Option<String>,
}

impl GpuDevice {
    /// The allocation flag and the owner agree.
    pub open spec fn consistent(self) -> bool {
        self.allocated <==> self.allocated_job_id is Some
    }

    /// Whether `job` is recorded as the owner.
    pub open spec fn owned_by(self, job: Seq<char>) -> bool {
        self.allocated_job_id is Some && self.allocated_job_id->0@ == job
    }

    /// Whether `other` is the same hardware, whatever its allocation.
    pub open spec fn same_device(self, other: GpuDevice) -> bool {
        &&& other.device_id == self.device_id
        &&& other.device_name == self.device_name
        &&& other.uuid == self.uuid
        &&& other.total_memory == self.total_memory
        &&& other.free_memory == self.free_memory
        &&& other.utilization_percent == self.utilization_percent
        &&& other.temperature == self.temperature
    }

    /// Whether `after` is this device handed to `job`.
    pub open spec fn bound_to(self, after: GpuDevice, job: Seq<char>) -> bool {
        self.same_device(after) && after.allocated && after.owned_by(job)
    }

    /// Whether `after` is this device set free.
    pub open spec fn set_free(self, after: GpuDevice) -> bool {
        self.same_device(after) && !after.allocated && after.allocated_job_id is None
    }
}

/// The device ids of the unallocated GPUs, in device order.
pub open spec fn free_ids(gpus: Seq<GpuDevice>) -> Seq<Seq<char>>
    decreases gpus.len(),
{
    if gpus.len() == 0 {
        Seq::empty()
    } else if gpus.last().allocated {
        free_ids(gpus.drop_last())
    } else {
        free_ids(gpus.drop_last()).push(gpus.last().device_id@)
    }
}

/// The number of unallocated GPUs.
pub open spec fn free_count(gpus: Seq<GpuDevice>) -> nat {
    free_ids(gpus).len()
}

/// Whether every device's flag and owner agree.
pub open spec fn all_consistent(gpus: Seq<GpuDevice>) -> bool {
    forall|i: int| 0 <= i < gpus.len() ==> (#[trigger] gpus[i]).consistent()
}

/// Whether `after` is `before` with its first `count` unallocated devices
/// handed to `job`: a device is taken when it was free and fewer than
/// `count` free devices stand before it; no other device differs.
pub open spec fn first_free_bound(
    before: Seq<GpuDevice>,
    after: Seq<GpuDevice>,
    job: Seq<char>,
    count: nat,
) -> bool {
    &&& after.len() == before.len()
    &&& forall|i: int|
        0 <= i < before.len() ==> if !before[i].allocated && free_count(before.take(i)) < count {
            before[i].bound_to(#[trigger] after[i], job)
        } else {
            after[i] == before[i]
        }
}

/// Whether `after` is `before` with every device of `job` set free and no
/// other device changed.
pub open spec fn job_released(before: Seq<GpuDevice>, after: Seq<GpuDevice>, job: Seq<char>) -> bool {
    &&& after.len() == before.len()
    &&& forall|i: int|
        0 <= i < before.len() ==> if before[i].owned_by(job) {
            before[i].set_free(#[trigger] after[i])
        } else {
            after[i] == before[i]
        }
}

/// One more device can only add free ids at the end.
pub proof fn free_ids_step(gpus: Seq<GpuDevice>, i: int)
    requires
        0 <= i < gpus.len(),
    ensures
        free_ids(gpus.take(i + 1)) == if gpus[i].allocated {
            free_ids(gpus.take(i))
        } else {
            free_ids(gpus.take(i)).push(gpus[i].device_id@)
        },
{
    assert(gpus.take(i + 1).drop_last() =~= gpus.take(i));
    assert(gpus.take(i + 1).last() == gpus[i]);
}

/// The free devices of a prefix are no more than those of the whole.
pub proof fn free_count_prefix(gpus: Seq<GpuDevice>, i: int)
    requires
        0 <= i <= gpus.len(),
    ensures
        free_count(gpus.take(i)) <= free_count(gpus),
    decreases gpus.len() - i,
{
    if i < gpus.len() {
        free_ids_step(gpus, i);
        free_count_prefix(gpus, i + 1);
    } else {
        assert(gpus.take(i) =~= gpus);
    }
}

/// What a node is made of.
#[derive(Debug, Clone)]
pub struct NodeTopology {
    /// The GPUs, in device order.
    pub gpus: Vec<GpuDevice>,
    /// Number of CPU cores.
    pub cpu_cores: u32,
    /// Total CPU memory, in bytes.
    pub cpu_memory: u64,
    /// Free CPU memory, in bytes.
    pub cpu_memory_free: u64,
    /// Number of NUMA nodes.
    pub numa_nodes: u32,
    /// Whether NVLink is present.
    pub nvlink_present: bool,
    /// Whether NVSwitch is present.
    pub nvswitch_present: bool,
    /// Whether the node can do RDMA.
    pub rdma_capable: bool,
}

/// The reported health of a node.
#[derive(Debug, Clone, Copy, PartialEq, Eq, Structural)]
pub enum NodeHealth {
    /// Fit for work.
    Healthy,
    /// Working, with warnings.
    Warning,
    /// Not fit for work.
    Unhealthy,
    /// Cannot be reached.
    Unreachable,
}

/// A compute node of the cluster.
#[derive(Debug, Clone)]
pub struct Node {
    /// Identifier, unique in the registry.
    pub id: String,
    /// Host name.
    pub hostname: String,
    /// IP address.
    pub ip_address: String,
    /// What the node is made of.
    pub topology: NodeTopology,
    /// Reported health.
    pub health: NodeHealth,
    /// Message that goes with the health.
    pub health_message: String,
    /// When the node was created, in seconds since the epoch.
    pub registered_at: i64,
    /// When the node last reported, in seconds since the epoch.
    pub last_heartbeat: i64,
    /// Labels for filtering.
    pub labels: HashMap<String, String>,
    /// The jobs that hold resources of the node.
    pub running_jobs: Vec<String>,
}

impl Node {
    /// Whether `other` differs from this node at most in its devices'
    /// allocation and its list of running jobs.
    pub open spec fn same_node(self, other: Node) -> bool {
        &&& other.id == self.id
        &&& other.hostname == self.hostname
        &&& other.ip_address == self.ip_address
        &&& other.topology.cpu_cores == self.topology.cpu_cores
        &&& other.topology.cpu_memory == self.topology.cpu_memory
        &&& other.topology.cpu_memory_free == self.topology.cpu_memory_free
        &&& other.topology.numa_nodes == self.topology.numa_nodes
        &&& other.topology.nvlink_present == self.topology.nvlink_present
        &&& other.topology.nvswitch_present == self.topology.nvswitch_present
        &&& other.topology.rdma_capable == self.topology.rdma_capable
        &&& other.health == self.health
        &&& other.health_message == self.health_message
        &&& other.registered_at == self.registered_at
        &&& other.last_heartbeat == self.last_heartbeat
        &&& other.labels == self.labels
    }

    /// The number of unallocated GPUs.
    pub open spec fn spec_available_gpus(self) -> nat {
        free_count(self.topology.gpus@)
    }

    /// A node is stale when its last report is more than `max_age_seconds`
    /// before `now`.
    pub open spec fn spec_is_stale(self, max_age_seconds: i64, now: i64) -> bool {
        spec_older_than(self.last_heartbeat, now, max_age_seconds as int)
    }

    /// A node can take work at `now` when it reports Healthy and is not
    /// stale under `timeout`.
    pub open spec fn spec_is_healthy(self, timeout: i64, now: i64) -> bool {
        self.health == NodeHealth::Healthy && !self.spec_is_stale(timeout, now)
    }

    /// Whether `after` is this node with `count` devices handed to `job`.
    pub open spec fn allocated_to(self, after: Node, job: Seq<char>, count: nat) -> bool {
        &&& self.same_node(after)
        &&& first_free_bound(self.topology.gpus@, after.topology.gpus@, job, count)
        &&& texts(after.running_jobs@) == texts(self.running_jobs@).push(job)
    }

    /// Whether `after` is this node with `job` gone from it.
    pub open spec fn released_from(self, after: Node, job: Seq<char>) -> bool {
        &&& self.same_node(after)
        &&& job_released(self.topology.gpus@, after.topology.gpus@, job)
        &&& texts(after.running_jobs@) == without(texts(self.running_jobs@), job)
    }

    /// A node registered and last heard of at `now`, Healthy, with no jobs.
    pub fn new_at(id: String, hostname: String, ip_address: String, topology: NodeTopology, now: i64) -> (node:
        Node)
        ensures
            node.id == id,
            node.hostname == hostname,
            node.ip_address == ip_address,
            node.topology == topology,
            node.health == NodeHealth::Healthy,
            node.health_message@ == "OK"@,
            node.registered_at == now,
            node.last_heartbeat == now,
            node.running_jobs@.len() == 0,
    {
        Node {
            id,
            hostname,
            ip_address,
            topology,
            health: NodeHealth::Healthy,
            health_message: String::from_str("OK"),
            registered_at: now,
            last_heartbeat: now,
            labels: HashMap::new(),
            running_jobs: Vec::new(),
        }
    }

    /// A node registered and last heard of at the current time, Healthy,
    /// with no jobs.
    pub fn new(id: String, hostname: String, ip_address: String, topology: NodeTopology) -> (node: Node)
        ensures
            node.id == id,
            node.hostname == hostname,
            node.ip_address == ip_address,
            node.topology == topology,
            node.health == NodeHealth::Healthy,
            node.health_message@ == "OK"@,
            node.registered_at == node.last_heartbeat,
            node.running_jobs@.len() == 0,
    {
        let now = now_secs();
        Node::new_at(id, hostname, ip_address, topology, now)
    }

    /// The number of unallocated GPUs.
    pub fn available_gpus(&self) -> (n: usize)
        ensures
            n == self.spec_available_gpus(),
    {
        let mut n: usize = 0;
        let mut i: usize = 0;
        while i < self.topology.gpus.len()
            invariant
                i <= self.topology.gpus.len(),
                n == free_count(self.topology.gpus@.take(i as int)),
                n <= i,
            decreases self.topology.gpus.len() - i,
        {
            proof {
                free_ids_step(self.topology.gpus@, i as int);
            }
            if !self.topology.gpus[i].allocated {
                n = n + 1;
            }
            i = i + 1;
        }
        assert(self.topology.gpus@.take(i as int) =~= self.topology.gpus@);
        n
    }

    /// The number of GPUs.
    pub fn total_gpus(&self) -> (n: usize)
        ensures
            n == self.topology.gpus@.len(),
    {
        self.topology.gpus.len()
    }

    /// Records a report at `now`.
    pub fn heartbeat_at(&mut self, now: i64)
        ensures
            final(self).last_heartbeat == now,
            final(self).id == old(self).id,
            final(self).hostname == old(self).hostname,
            final(self).ip_address == old(self).ip_address,
            final(self).topology == old(self).topology,
            final(self).health == old(self).health,
            final(self).health_message == old(self).health_message,
            final(self).registered_at == old(self).registered_at,
            final(self).labels == old(self).labels,
            final(self).running_jobs == old(self).running_jobs,
    {
        self.last_heartbeat = now;
    }

    /// Records a report at the current time.
    pub fn heartbeat(&mut self)
        ensures
            final(self).id == old(self).id,
            final(self).hostname == old(self).hostname,
            final(self).ip_address == old(self).ip_address,
            final(self).topology == old(self).topology,
            final(self).health == old(self).health,
            final(self).health_message == old(self).health_message,
            final(self).registered_at == old(self).registered_at,
            final(self).labels == old(self).labels,
            final(self).running_jobs == old(self).running_jobs,
    {
        let now = now_secs();
        self.heartbeat_at(now);
    }

    /// Whether the last report is more than `max_age_seconds` before `now`.
    pub fn is_stale_at(&self, max_age_seconds: i64, now: i64) -> (r: bool)
        ensures
            r == self.spec_is_stale(max_age_seconds, now),
    {
        older_than(self.last_heartbeat, now, max_age_seconds)
    }

    /// Whether the last report is more than `max_age_seconds` before the
    /// current time.
    pub fn is_stale(&self, max_age_seconds: i64) -> (r: bool)
        ensures
            exists|now: i64| r == self.spec_is_stale(max_age_seconds, now),
    {
        let now = now_secs();
        self.is_stale_at(max_age_seconds, now)
    }

    /// Whether the node reports Healthy and is not stale at `now`.
    pub fn is_healthy_at(&self, timeout: i64, now: i64) -> (r: bool)
        ensures
            r == self.spec_is_healthy(timeout, now),
    {
        self.health == NodeHealth::Healthy && !self.is_stale_at(timeout, now)
    }

    /// The message of a request for more devices than are free.
    pub open spec fn not_enough_message(requested: nat, available: nat) -> Seq<char> {
        "Not enough GPUs: requested "@ + decimal(requested) + ", available "@ + decimal(available)
    }

    /// Hands the first `count` unallocated GPUs to `job_id` and lists the
    /// job as running here. With fewer than `count` free, nothing changes
    /// and the error names both numbers.
    pub fn allocate_gpus(&mut self, job_id: &str, count: usize) -> (r: Result<Vec<String>, Error>)
        ensures
            r is Ok <==> count <= old(self).spec_available_gpus(),
            match r {
                Ok(ids) => {
                    &&& old(self).allocated_to(*final(self), job_id@, count as nat)
                    &&& texts(ids@) == free_ids(old(self).topology.gpus@).take(count as int)
                },
                Err(e) => {
                    &&& *final(self) == *old(self)
                    &&& e is Node
                    &&& e.spec_message() == Node::not_enough_message(
                        count as nat,
                        old(self).spec_available_gpus(),
                    )
                },
            },
            all_consistent(old(self).topology.gpus@) ==> all_consistent(final(self).topology.gpus@),
    {
        let available = self.available_gpus();
        if available < count {
            let mut msg = String::from_str("Not enough GPUs: requested ");
            push_decimal(&mut msg, count as u64);
            msg.append(", available ");
            push_decimal(&mut msg, available as u64);
            return Err(Error::Node(msg));
        }
        let n: usize = self.topology.gpus.len();
        let mut ids: Vec<String> = Vec::new();
        let mut i: usize = 0;
        while i < n
            invariant
                i <= n,
                n == old(self).topology.gpus@.len(),
                self.topology.gpus@.len() == n,
                old(self).same_node(*self),
                self.running_jobs == old(self).running_jobs,
                count <= free_count(old(self).topology.gpus@),
                ids@.len() <= count,
                ids@.len() == if free_count(old(self).topology.gpus@.take(i as int)) < count {
                    free_count(old(self).topology.gpus@.take(i as int))
                } else {
                    count as nat
                },
                texts(ids@) == free_ids(old(self).topology.gpus@.take(i as int)).take(ids@.len() as int),
                forall|j: int|
                    0 <= j < i ==> if !old(self).topology.gpus@[j].allocated && free_count(
                        old(self).topology.gpus@.take(j),
                    ) < count {
                        old(self).topology.gpus@[j].bound_to(#[trigger] self.topology.gpus@[j], job_id@)
                    } else {
                        self.topology.gpus@[j] == old(self).topology.gpus@[j]
                    },
                forall|j: int| i <= j < n ==> self.topology.gpus@[j] == old(self).topology.gpus@[j],
            decreases n - i,
        {
            proof {
                free_ids_step(old(self).topology.gpus@, i as int);
            }
            let ghost prefix = free_ids(old(self).topology.gpus@.take(i as int));
            if !self.topology.gpus[i].allocated && ids.len() < count {
                let ghost was = self.topology.gpus@[i as int];
                self.topology.gpus[i].allocated = true;
                self.topology.gpus[i].allocated_job_id = Some(String::from_str(job_id));
                let id = self.topology.gpus[i].device_id.clone();
                let ghost shown = texts(ids@);
                ids.push(id);
                proof {
                    assert(texts(ids@) =~= shown.push(id@));
                    assert(prefix.push(id@).take(ids@.len() as int) =~= prefix.take(
                        ids@.len() - 1,
                    ).push(id@));
                    assert(was.bound_to(self.topology.gpus@[i as int], job_id@));
                }
            } else {
                proof {
                    let next = free_ids(old(self).topology.gpus@.take(i + 1));
                    assert(next.take(ids@.len() as int) =~= prefix.take(ids@.len() as int));
                }
            }
            i = i + 1;
        }
        proof {
            assert(old(self).topology.gpus@.take(n as int) =~= old(self).topology.gpus@);
        }
        let ghost listed = texts(self.running_jobs@);
        self.running_jobs.push(String::from_str(job_id));
        proof {
            assert(texts(self.running_jobs@) =~= listed.push(job_id@));
        }
        Ok(ids)
    }

    /// Sets free every GPU that `job_id` holds and takes the job off the
    /// list of running jobs.
    pub fn release_gpus(&mut self, job_id: &str)
        ensures
            old(self).released_from(*final(self), job_id@),
            all_consistent(old(self).topology.gpus@) ==> all_consistent(final(self).topology.gpus@),
    {
        let n: usize = self.topology.gpus.len();
        let mut i: usize = 0;
        while i < n
            invariant
                i <= n,
                n == old(self).topology.gpus@.len(),
                self.topology.gpus@.len() == n,
                old(self).same_node(*self),
                self.running_jobs == old(self).running_jobs,
                forall|j: int|
                    0 <= j < i ==> if old(self).topology.gpus@[j].owned_by(job_id@) {
                        old(self).topology.gpus@[j].set_free(#[trigger] self.topology.gpus@[j])
                    } else {
                        self.topology.gpus@[j] == old(self).topology.gpus@[j]
                    },
                forall|j: int| i <= j < n ==> self.topology.gpus@[j] == old(self).topology.gpus@[j],
            decreases n - i,
        {
            let owned = match &self.topology.gpus[i].allocated_job_id {
                Some(owner) => str_eq(owner.as_str(), job_id),
                None => false,
            };
            if owned {
                self.topology.gpus[i].allocated = false;
                self.topology.gpus[i].allocated_job_id = None;
            }
            i = i + 1;
        }
        let mut kept: Vec<String> = Vec::new();
        let m: usize = self.running_jobs.len();
        let mut k: usize = 0;
        while k < m
            invariant
                k <= m,
                m == self.running_jobs@.len(),
                texts(kept@) == without(texts(self.running_jobs@).take(k as int), job_id@),
            decreases m - k,
        {
            let ghost all = texts(self.running_jobs@);
            proof {
                assert(all.take(k + 1).drop_last() =~= all.take(k as int));
                assert(all.take(k + 1).last() == self.running_jobs@[k as int]@);
            }
            if !str_eq(self.running_jobs[k].as_str(), job_id) {
                let ghost shown = texts(kept@);
                let item = self.running_jobs[k].clone();
                kept.push(item);
                proof {
                    assert(texts(kept@) =~= shown.push(item@));
                }
            }
            k = k + 1;
        }
        proof {
            let all = texts(self.running_jobs@);
            assert(all.take(m as int) =~= all);
        }
        self.running_jobs = kept;
    }
}

/// After an allocation the job is listed once more than before.
pub proof fn allocation_lists_job_once_more(before: Node, after: Node, job: Seq<char>, count: nat)
    requires
        before.allocated_to(after, job, count),
    ensures
        count_of(texts(after.running_jobs@), job) == count_of(texts(before.running_jobs@), job) + 1,
{
    let listed = texts(before.running_jobs@);
    assert(listed.push(job).drop_last() =~= listed);
}

} // verus!
