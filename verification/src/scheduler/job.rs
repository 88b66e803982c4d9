//! Jobs, their descriptors and their lifecycle.

use vstd::prelude::*;
use vstd::string::StringExecFns;
use std::collections::HashMap;
use crate::scheduler::Error;
use crate::scheduler::clock::{elapsed, fresh_id, now_secs, spec_elapsed};
use crate::text::texts;

verus! {

/// The lifecycle state of a job.
#[derive(Debug, Clone, Copy, PartialEq, Eq, Hash, Structural)]
pub enum JobState {
    /// Created, not yet handed to the scheduler.
    Pending,
    /// Waiting in the queue for resources.
    Queued,
    /// Resources are bound to the job.
    Scheduled,
    /// Executing on its nodes.
    Running,
    /// Preempted; reserved, no operation enters it.
    Suspended,
    /// Finished successfully.
    Completed,
    /// Finished with a failure.
    Failed,
    /// Cancelled on request.
    Cancelled,
    /// Ran longer than the configured limit.
    Timeout,
}

impl Default for JobState {
    fn default() -> (s: JobState)
        ensures
            s == JobState::Pending,
    {
        JobState::Pending
    }
}

/// The edges of the job lifecycle.
pub open spec fn is_edge(from: JobState, to: JobState) -> bool {
    match (from, to) {
        (JobState::Pending, JobState::Queued) => true,
        (JobState::Queued, JobState::Scheduled) => true,
        (JobState::Scheduled, JobState::Running) => true,
        (JobState::Pending, JobState::Cancelled) => true,
        (JobState::Queued, JobState::Cancelled) => true,
        (JobState::Scheduled, JobState::Cancelled) => true,
        (JobState::Running, JobState::Cancelled) => true,
        (JobState::Running, JobState::Timeout) => true,
        (JobState::Running, JobState::Failed) => true,
        (JobState::Running, JobState::Completed) => true,
        _ => false,
    }
}

/// The message for a move that is no edge of the lifecycle.
pub open spec fn invalid_transition_message(id: Seq<char>, from: JobState, to: JobState) -> Seq<char> {
    "Invalid transition for job "@ + id + ": "@ + from.spec_name() + " -> "@ + to.spec_name()
}

/// One move of a job's state: it stays, or it follows an edge.
pub open spec fn is_step(from: JobState, to: JobState) -> bool {
    from == to || is_edge(from, to)
}

impl JobState {
    /// A terminal state is never left.
    pub open spec fn spec_is_terminal(self) -> bool {
        self == JobState::Completed || self == JobState::Failed || self == JobState::Cancelled
            || self == JobState::Timeout
    }

    /// True for Completed, Failed, Cancelled and Timeout.
    #[verifier::when_used_as_spec(spec_is_terminal)]
    pub fn is_terminal(self) -> (r: bool)
        ensures
            r == self.spec_is_terminal(),
    {
        match self {
            JobState::Completed | JobState::Failed | JobState::Cancelled | JobState::Timeout => true,
            _ => false,
        }
    }

    /// Whether the lifecycle has an edge from this state to `to`.
    pub fn can_transition_to(self, to: JobState) -> (r: bool)
        ensures
            r == is_edge(self, to),
    {
        match (self, to) {
            (JobState::Pending, JobState::Queued) => true,
            (JobState::Queued, JobState::Scheduled) => true,
            (JobState::Scheduled, JobState::Running) => true,
            (JobState::Pending, JobState::Cancelled) => true,
            (JobState::Queued, JobState::Cancelled) => true,
            (JobState::Scheduled, JobState::Cancelled) => true,
            (JobState::Running, JobState::Cancelled) => true,
            (JobState::Running, JobState::Timeout) => true,
            (JobState::Running, JobState::Failed) => true,
            (JobState::Running, JobState::Completed) => true,
            _ => false,
        }
    }

    /// The state's name as text.
    pub open spec fn spec_name(self) -> Seq<char> {
        match self {
            JobState::Pending => "Pending"@,
            JobState::Queued => "Queued"@,
            JobState::Scheduled => "Scheduled"@,
            JobState::Running => "Running"@,
            JobState::Suspended => "Suspended"@,
            JobState::Completed => "Completed"@,
            JobState::Failed => "Failed"@,
            JobState::Cancelled => "Cancelled"@,
            JobState::Timeout => "Timeout"@,
        }
    }

    /// The state's name as text.
    pub fn name(self) -> (s: &'static str)
        ensures
            s@ == self.spec_name(),
    {
        match self {
            JobState::Pending => "Pending",
            JobState::Queued => "Queued",
            JobState::Scheduled => "Scheduled",
            JobState::Running => "Running",
            JobState::Suspended => "Suspended",
            JobState::Completed => "Completed",
            JobState::Failed => "Failed",
            JobState::Cancelled => "Cancelled",
            JobState::Timeout => "Timeout",
        }
    }
}

/// No edge leaves a terminal state.
pub proof fn terminal_is_final(from: JobState, to: JobState)
    requires
        from.spec_is_terminal(),
        is_step(from, to),
    ensures
        to == from,
{
}

/// What a job needs to run.
#[derive(Debug, Clone)]
pub struct ResourceRequirements {
    /// Number of GPUs required; zero for a CPU-only job.
    pub gpu_count: u32,
    /// GPU memory per device, in bytes.
    pub gpu_memory_per_device: u64,
    /// Number of CPU cores.
    pub cpu_cores: u32,
    /// CPU memory, in bytes.
    pub cpu_memory: u64,
    /// Acceptable GPU models; empty means any.
    pub required_gpu_models: Vec<String>,
    /// Lowest acceptable NVLink version; zero means none is needed.
    pub min_nvlink_version: u32,
    /// Whether NVSwitch is needed.
    pub require_nvswitch: bool,
    /// Whether RDMA is needed.
    pub require_rdma: bool,
}

impl Default for ResourceRequirements {
    fn default() -> (r: ResourceRequirements)
        ensures
            r.gpu_count == 1,
            r.gpu_memory_per_device == 0,
            r.cpu_cores == 1,
            r.cpu_memory == 1073741824,
            r.required_gpu_models@.len() == 0,
            r.min_nvlink_version == 0,
            !r.require_nvswitch,
            !r.require_rdma,
    {
        ResourceRequirements {
            gpu_count: 1,
            gpu_memory_per_device: 0,
            cpu_cores: 1,
            cpu_memory: 1073741824,
            required_gpu_models: Vec::new(),
            min_nvlink_version: 0,
            require_nvswitch: false,
            require_rdma: false,
        }
    }
}

/// Where a job would like to run.
#[derive(Debug, Clone)]
pub struct LocalityPreferences {
    /// Prefer one node for all GPUs.
    pub prefer_same_node: bool,
    /// Prefer one rack.
    pub prefer_same_rack: bool,
    /// Prefer one NVSwitch domain.
    pub prefer_same_nvswitch_domain: bool,
    /// Nodes to prefer.
    pub preferred_nodes: Vec<String>,
    /// Nodes to avoid.
    pub excluded_nodes: Vec<String>,
}

impl Default for LocalityPreferences {
    fn default() -> (r: LocalityPreferences)
        ensures
            !r.prefer_same_node,
            !r.prefer_same_rack,
            !r.prefer_same_nvswitch_domain,
            r.preferred_nodes@.len() == 0,
            r.excluded_nodes@.len() == 0,
    {
        LocalityPreferences {
            prefer_same_node: false,
            prefer_same_rack: false,
            prefer_same_nvswitch_domain: false,
            preferred_nodes: Vec::new(),
            excluded_nodes: Vec::new(),
        }
    }
}

/// How a job is to be treated by the scheduler.
#[derive(Debug, Clone)]
pub struct SchedulingPolicy {
    /// Priority; a higher value is served earlier.
    pub priority: i32,
    /// Whether the job may be preempted.
    pub preemptible: bool,
    /// Whether the job may preempt others.
    pub can_preempt_others: bool,
    /// Longest wait in the queue, in seconds.
    pub max_wait_time_seconds: u64,
    /// Longest runtime, in seconds; zero means unlimited.
    pub max_runtime_seconds: u64,
    /// Queue or partition name.
    pub queue_name: String,
    /// Whether all resources must be bound together.
    pub gang_schedule: bool,
    /// How often an outside controller may retry the job.
    pub max_retries: u32,
}

impl Default for SchedulingPolicy {
    fn default() -> (r: SchedulingPolicy)
        ensures
            r.priority == 0,
            r.preemptible,
            !r.can_preempt_others,
            r.max_wait_time_seconds == 3600,
            r.max_runtime_seconds == 0,
            r.queue_name@ == "default"@,
            r.gang_schedule,
            r.max_retries == 3,
    {
        SchedulingPolicy {
            priority: 0,
            preemptible: true,
            can_preempt_others: false,
            max_wait_time_seconds: 3600,
            max_runtime_seconds: 0,
            queue_name: String::from_str("default"),
            gang_schedule: true,
            max_retries: 3,
        }
    }
}

/// The unit of work submission; not changed after construction.
#[derive(Debug, Clone)]
pub struct JobDescriptor {
    /// Name given by the user.
    pub name: String,
    /// Owner of the job.
    pub user_id: String,
    /// Project of the job.
    pub project_id: String,
    /// Command to execute.
    pub command: String,
    /// Arguments of the command.
    pub arguments: Vec<String>,
    /// Environment variables.
    pub environment: HashMap<String, String>,
    /// Working directory.
    pub working_directory: String,
    /// What the job needs.
    pub resources: ResourceRequirements,
    /// Where it would like to run.
    pub locality: LocalityPreferences,
    /// How it is to be scheduled.
    pub policy: SchedulingPolicy,
    /// Labels for filtering.
    pub labels: HashMap<String, String>,
    /// Free-form annotations.
    pub annotations: HashMap<String, String>,
}

/// The GPUs bound to a job on one node.
#[derive(Debug, Clone)]
pub struct NodeAllocation {
    /// The node.
    pub node_id: String,
    /// The device ids taken on it, in device order.
    pub gpu_ids: Vec<String>,
}

impl View for NodeAllocation {
    type V = (Seq<char>, Seq<Seq<char>>);

    open spec fn view(&self) -> (Seq<char>, Seq<Seq<char>>) {
        (self.node_id@, texts(self.gpu_ids@))
    }
}

/// The allocations of a list, each as the pair of its node and its devices.
pub open spec fn allocations_view(a: Seq<NodeAllocation>) -> Seq<(Seq<char>, Seq<Seq<char>>)> {
    a.map_values(|x: NodeAllocation| x@)
}

/// A job with its state.
#[derive(Debug, Clone)]
pub struct Job {
    /// Identifier, unique per job.
    pub id: String,
    /// What was submitted.
    pub descriptor: JobDescriptor,
    /// Current state.
    pub state: JobState,
    /// When the job was created, in seconds since the epoch.
    pub submit_time: i64,
    /// When resources were bound.
    pub schedule_time: Option<i64>,
    /// When execution began.
    pub start_time: Option<i64>,
    /// When the job reached a terminal state.
    pub end_time: Option<i64>,
    /// The nodes bound to the job.
    pub allocated_nodes: Vec<String>,
    /// The devices bound to the job, per node.
    pub allocated_gpus: Vec<NodeAllocation>,
    /// Retries made so far, kept for outside controllers.
    pub retry_count: u32,
    /// The message of the last state change.
    pub message: String,
}

impl Job {
    /// The schedule time after a move to `new_state` at `now`.
    pub open spec fn schedule_time_after(self, new_state: JobState, now: i64) -> Option<i64> {
        if new_state == JobState::Scheduled {
            Some(now)
        } else {
            self.schedule_time
        }
    }

    /// The start time after a move to `new_state` at `now`.
    pub open spec fn start_time_after(self, new_state: JobState, now: i64) -> Option<i64> {
        if new_state == JobState::Running {
            Some(now)
        } else {
            self.start_time
        }
    }

    /// The end time after a move to `new_state` at `now`.
    pub open spec fn end_time_after(self, new_state: JobState, now: i64) -> Option<i64> {
        if new_state.spec_is_terminal() {
            Some(now)
        } else {
            self.end_time
        }
    }

    /// Whether `after` is this job moved to `new_state` with `message` at
    /// `now`: state, message and the time stamp of that state are set, and
    /// nothing else differs.
    pub open spec fn moved_to(self, after: Job, new_state: JobState, message: Seq<char>, now: i64) -> bool {
        &&& after.id == self.id
        &&& after.descriptor == self.descriptor
        &&& after.state == new_state
        &&& after.message@ == message
        &&& after.submit_time == self.submit_time
        &&& after.schedule_time == self.schedule_time_after(new_state, now)
        &&& after.start_time == self.start_time_after(new_state, now)
        &&& after.end_time == self.end_time_after(new_state, now)
        &&& after.allocated_nodes == self.allocated_nodes
        &&& after.allocated_gpus == self.allocated_gpus
        &&& after.retry_count == self.retry_count
    }

    /// A new job in state Pending, created at `now` under the given id.
    pub fn with_id(id: String, descriptor: JobDescriptor, now: i64) -> (job: Job)
        ensures
            job.id == id,
            job.descriptor == descriptor,
            job.state == JobState::Pending,
            job.submit_time == now,
            job.schedule_time is None,
            job.start_time is None,
            job.end_time is None,
            job.allocated_nodes@.len() == 0,
            job.allocated_gpus@.len() == 0,
            job.retry_count == 0,
            job.message@.len() == 0,
    {
        Job {
            id,
            descriptor,
            state: JobState::Pending,
            submit_time: now,
            schedule_time: None,
            start_time: None,
            end_time: None,
            allocated_nodes: Vec::new(),
            allocated_gpus: Vec::new(),
            retry_count: 0,
            message: String::new(),
        }
    }

    /// A new job in state Pending, with a fresh random id and the current
    /// time as its submit time.
    pub fn new(descriptor: JobDescriptor) -> (job: Job)
        ensures
            job.descriptor == descriptor,
            job.state == JobState::Pending,
            job.schedule_time is None,
            job.start_time is None,
            job.end_time is None,
            job.allocated_nodes@.len() == 0,
            job.allocated_gpus@.len() == 0,
            job.retry_count == 0,
            job.message@.len() == 0,
    {
        let id = fresh_id();
        let now = now_secs();
        Job::with_id(id, descriptor, now)
    }

    /// Whether a move of this job to `new_state` with `message` at `now`
    /// gives `after` and `r`. A move along an edge of the lifecycle is
    /// made; any other move is refused with an error that names the job
    /// and the two states, and the job stays as it is.
    pub open spec fn transitioned(self, after: Job, new_state: JobState, message: Seq<char>, now: i64, r: Result<(), Error>) -> bool {
        if is_edge(self.state, new_state) {
            r is Ok && self.moved_to(after, new_state, message, now)
        } else {
            &&& after == self
            &&& r is Err
            &&& r->Err_0 is Job
            &&& r->Err_0.spec_message() == invalid_transition_message(self.id@, self.state, new_state)
        }
    }

    /// Moves the job to `new_state` at `now` and records `message`, where
    /// the lifecycle has an edge from the job's state to `new_state`. Any
    /// other move is refused and changes nothing.
    pub fn transition_at(&mut self, new_state: JobState, message: &str, now: i64) -> (r: Result<(), Error>)
        ensures
            r is Ok <==> is_edge(old(self).state, new_state),
            old(self).transitioned(*final(self), new_state, message@, now, r),
    {
        if !self.state.can_transition_to(new_state) {
            let mut msg = String::from_str("Invalid transition for job ");
            msg.append(self.id.as_str());
            msg.append(": ");
            msg.append(self.state.name());
            msg.append(" -> ");
            msg.append(new_state.name());
            return Err(Error::Job(msg));
        }
        self.state = new_state;
        self.message = String::from_str(message);
        match new_state {
            JobState::Scheduled => {
                self.schedule_time = Some(now);
            },
            JobState::Running => {
                self.start_time = Some(now);
            },
            JobState::Completed | JobState::Failed | JobState::Cancelled | JobState::Timeout => {
                self.end_time = Some(now);
            },
            _ => {},
        }
        Ok(())
    }

    /// Moves the job to `new_state` at the current time and records
    /// `message`, where the lifecycle has an edge from the job's state to
    /// `new_state`. Any other move is refused and changes nothing.
    pub fn transition(&mut self, new_state: JobState, message: &str) -> (r: Result<(), Error>)
        ensures
            r is Ok <==> is_edge(old(self).state, new_state),
            exists|now: i64| old(self).transitioned(*final(self), new_state, message@, now, r),
    {
        let now = now_secs();
        self.transition_at(new_state, message, now)
    }

    /// The runtime in seconds as seen at `now`: from start to end, or from
    /// start to `now` while the job has no end; nothing before it started.
    pub open spec fn spec_runtime_seconds(self, now: i64) -> Option<i64> {
        match (self.start_time, self.end_time) {
            (Some(start), Some(end)) => Some(spec_elapsed(start, end) as i64),
            (Some(start), None) => Some(spec_elapsed(start, now) as i64),
            _ => None,
        }
    }

    /// The runtime in seconds as seen at `now`.
    pub fn runtime_seconds_at(&self, now: i64) -> (r: Option<i64>)
        ensures
            r == self.spec_runtime_seconds(now),
    {
        match (self.start_time, self.end_time) {
            (Some(start), Some(end)) => Some(elapsed(start, end)),
            (Some(start), None) => Some(elapsed(start, now)),
            _ => None,
        }
    }

    /// The runtime in seconds as seen now.
    pub fn runtime_seconds(&self) -> (r: Option<i64>)
        ensures
            exists|now: i64| r == self.spec_runtime_seconds(now),
    {
        let now = now_secs();
        self.runtime_seconds_at(now)
    }

    /// The wait in the queue in seconds as seen at `now`: from submission to
    /// scheduling, or to `now` while the job is not scheduled.
    pub open spec fn spec_wait_time_seconds(self, now: i64) -> i64 {
        match self.schedule_time {
            Some(scheduled) => spec_elapsed(self.submit_time, scheduled) as i64,
            None => spec_elapsed(self.submit_time, now) as i64,
        }
    }

    /// The wait in the queue in seconds as seen at `now`.
    pub fn wait_time_seconds_at(&self, now: i64) -> (r: i64)
        ensures
            r == self.spec_wait_time_seconds(now),
    {
        match self.schedule_time {
            Some(scheduled) => elapsed(self.submit_time, scheduled),
            None => elapsed(self.submit_time, now),
        }
    }

    /// The wait in the queue in seconds as seen now.
    pub fn wait_time_seconds(&self) -> (r: i64)
        ensures
            exists|now: i64| r == self.spec_wait_time_seconds(now),
    {
        let now = now_secs();
        self.wait_time_seconds_at(now)
    }

    /// Whether an outside controller may retry the job once more.
    pub fn can_retry(&self) -> (r: bool)
        ensures
            r == (self.retry_count < self.descriptor.policy.max_retries),
    {
        self.retry_count < self.descriptor.policy.max_retries
    }
}

} // verus!
