//! The node agent: what a node tells the scheduler of itself.

use vstd::prelude::*;
use vstd::string::StringExecFns;
use crate::scheduler::node::{GpuDevice, Node, NodeTopology};
use crate::text::{fields_of, i32_or, i32_or_zero, split_fields, texts, u32_or, u32_or_zero, u64_or, u64_or_zero};
use crate::units::{mebibytes, mebibytes_to_bytes};

verus! {

/// How an agent works.
#[derive(Debug, Clone)]
pub struct NodeAgentConfig {
    /// The id of the node.
    pub node_id: String,
    /// Where the scheduler listens.
    pub scheduler_addr: String,
    /// Seconds between heartbeats.
    pub heartbeat_interval_secs: u64,
    /// Seconds between looks at the GPUs.
    pub gpu_monitor_interval_secs: u64,
}

impl NodeAgentConfig {
    /// The default configuration of the node with the host name.
    pub fn for_host(hostname: &str) -> (c: NodeAgentConfig)
        ensures
            c.node_id@ == hostname@,
            c.scheduler_addr@ == "http://localhost:50051"@,
            c.heartbeat_interval_secs == 30,
            c.gpu_monitor_interval_secs == 10,
    {
        NodeAgentConfig {
            node_id: String::from_str(hostname),
            scheduler_addr: String::from_str("http://localhost:50051"),
            heartbeat_interval_secs: 30,
            gpu_monitor_interval_secs: 10,
        }
    }
}

impl Default for NodeAgentConfig {
    fn default() -> (c: NodeAgentConfig)
        ensures
            c.node_id@ == "unknown"@,
            c.scheduler_addr@ == "http://localhost:50051"@,
            c.heartbeat_interval_secs == 30,
            c.gpu_monitor_interval_secs == 10,
    {
        NodeAgentConfig::for_host("unknown")
    }
}

/// Whether `gpu` is the device that a line of `nvidia-smi` tells of. The
/// line holds, between commas, the index, the name, the UUID, the total
/// and the free memory in mebibytes, the utilization in percent and the
/// temperature; a number that cannot be read counts as zero.
pub open spec fn is_gpu_of_line(gpu: GpuDevice, line: Seq<char>) -> bool {
    let f = fields_of(line);
    &&& gpu.device_id@ == "cuda:"@ + f[0]
    &&& gpu.device_name@ == f[1]
    &&& gpu.uuid@ == f[2]
    &&& gpu.total_memory == mebibytes(u64_or_zero(f[3]))
    &&& gpu.free_memory == mebibytes(u64_or_zero(f[4]))
    &&& gpu.utilization_percent == u32_or_zero(f[5])
    &&& gpu.temperature == i32_or_zero(f[6])
    &&& !gpu.allocated
    &&& gpu.allocated_job_id is None
}

/// The agent of a node.
pub struct NodeAgent {
    config: NodeAgentConfig,
    node: Node,
    running: bool,
}

impl NodeAgent {
    /// The configuration.
    pub closed spec fn spec_config(&self) -> NodeAgentConfig {
        self.config
    }

    /// The node.
    pub closed spec fn spec_node(&self) -> Node {
        self.node
    }

    /// Whether the agent runs.
    pub closed spec fn spec_running(&self) -> bool {
        self.running
    }

    /// The device that a line of `nvidia-smi` tells of; none for a line
    /// of fewer than seven fields.
    pub fn parse_gpu_line(line: &str) -> (r: Option<GpuDevice>)
        ensures
            r is Some <==> fields_of(line@).len() >= 7,
            r is Some ==> is_gpu_of_line(r->0, line@),
    {
        let parts = split_fields(line);
        proof {
            let f = fields_of(line@);
            assert forall|j: int| 0 <= j < f.len() implies (#[trigger] parts@[j])@ == f[j] by {
                assert(texts(parts@)[j] == parts@[j]@);
            }
        }
        if parts.len() < 7 {
            return None;
        }
        let mut device_id = String::from_str("cuda:");
        device_id.append(parts[0].as_str());
        let total = u64_or(parts[3].as_str());
        let free = u64_or(parts[4].as_str());
        let utilization = u32_or(parts[5].as_str());
        let temperature = i32_or(parts[6].as_str());
        Some(
            GpuDevice {
                device_id,
                device_name: parts[1].clone(),
                uuid: parts[2].clone(),
                total_memory: mebibytes_to_bytes(total),
                free_memory: mebibytes_to_bytes(free),
                utilization_percent: utilization,
                temperature,
                allocated: false,
                allocated_job_id: None,
            },
        )
    }

    /// The agent of a node with the topology that was found, not yet
    /// running. The node carries the id of the configuration as its id
    /// and as its host name.
    pub fn new(config: NodeAgentConfig, topology: NodeTopology, ip_address: String, now: i64) -> (a: Self)
        ensures
            a.spec_config() == config,
            !a.spec_running(),
            a.spec_node().id@ == config.node_id@,
            a.spec_node().hostname@ == config.node_id@,
            a.spec_node().ip_address == ip_address,
            a.spec_node().topology == topology,
            a.spec_node().last_heartbeat == now,
            a.spec_node().running_jobs@.len() == 0,
    {
        let id = config.node_id.clone();
        let hostname = config.node_id.clone();
        let node = Node::new_at(id, hostname, ip_address, topology, now);
        NodeAgent { config, node, running: false }
    }

    /// Marks the agent as running.
    pub fn start(&mut self)
        ensures
            final(self).spec_running(),
            final(self).spec_config() == old(self).spec_config(),
            final(self).spec_node() == old(self).spec_node(),
    {
        self.running = true;
    }

    /// Marks the agent as stopped.
    pub fn stop(&mut self)
        ensures
            !final(self).spec_running(),
            final(self).spec_config() == old(self).spec_config(),
            final(self).spec_node() == old(self).spec_node(),
    {
        self.running = false;
    }

    /// Whether the agent runs.
    pub fn is_running(&self) -> (r: bool)
        ensures
            r == self.spec_running(),
    {
        self.running
    }

    /// The topology of a node from what a look at it found. Nothing is
    /// known of NVLink and NVSwitch: they count as absent.
    pub fn discover_topology(
        gpus: Vec<GpuDevice>,
        cpu_cores: u32,
        cpu_memory: u64,
        cpu_memory_free: u64,
        numa_nodes: u32,
        rdma_capable: bool,
    ) -> (t: NodeTopology)
        ensures
            t.gpus == gpus,
            t.cpu_cores == cpu_cores,
            t.cpu_memory == cpu_memory,
            t.cpu_memory_free == cpu_memory_free,
            t.numa_nodes == numa_nodes,
            !t.nvlink_present,
            !t.nvswitch_present,
            t.rdma_capable == rdma_capable,
    {
        NodeTopology {
            gpus,
            cpu_cores,
            cpu_memory,
            cpu_memory_free,
            numa_nodes,
            nvlink_present: false,
            nvswitch_present: false,
            rdma_capable,
        }
    }

    /// Takes in the topology that a look at the node found.
    pub fn refresh(&mut self, topology: NodeTopology)
        ensures
            final(self).spec_running() == old(self).spec_running(),
            final(self).spec_config() == old(self).spec_config(),
            final(self).spec_node().topology == topology,
            final(self).spec_node().id == old(self).spec_node().id,
            final(self).spec_node().running_jobs == old(self).spec_node().running_jobs,
    {
        self.node.topology = topology;
    }

    /// The node.
    pub fn status(&self) -> (n: &Node)
        ensures
            *n == self.spec_node(),
    {
        &self.node
    }
}

} // verus!
