//! The service behind the remote procedure calls.

use vstd::prelude::*;
use vstd::string::StringExecFns;
use std::collections::HashMap;
use crate::scheduler::gang::{
    has_job, index_of_job, job_not_found_message, Scheduler,
};
use crate::scheduler::job::{
    Job, JobDescriptor, JobState, LocalityPreferences, ResourceRequirements, SchedulingPolicy,
};
use crate::scheduler::clock::now_secs;
use crate::scheduler::registry::{summarises, ClusterSummary};

verus! {

/// A request to submit a job.
#[derive(Debug, Clone)]
pub struct SubmitJobRequest {
    /// Name of the job.
    pub name: String,
    /// Owner.
    pub user_id: String,
    /// Project.
    pub project_id: String,
    /// Command.
    pub command: String,
    /// Arguments.
    pub arguments: Vec<String>,
    /// Environment variables.
    pub environment: HashMap<String, String>,
    /// Working directory.
    pub working_directory: String,
    /// GPUs needed.
    pub gpu_count: u32,
    /// CPU cores needed.
    pub cpu_cores: u32,
    /// Memory needed, in mebibytes.
    pub memory_mb: u64,
    /// Priority.
    pub priority: i32,
    /// Whether all resources must be bound together.
    pub gang_schedule: bool,
}

/// The answer to a submission.
#[derive(Debug, Clone)]
pub struct SubmitJobResponse {
    /// The id of the job.
    pub job_id: String,
    /// Its status.
    pub status: String,
}

/// A request for the status of a job.
#[derive(Debug, Clone)]
pub struct GetJobStatusRequest {
    /// The id of the job.
    pub job_id: String,
}

/// The status of a job.
#[derive(Debug, Clone)]
pub struct GetJobStatusResponse {
    /// The id of the job.
    pub job_id: String,
    /// The name of its state.
    pub state: String,
    /// The message of its last state change.
    pub message: String,
    /// The nodes bound to it.
    pub allocated_nodes: Vec<String>,
}

/// A request to cancel a job.
#[derive(Debug, Clone)]
pub struct CancelJobRequest {
    /// The id of the job.
    pub job_id: String,
    /// Why.
    pub reason: String,
}

/// The answer to a cancellation.
#[derive(Debug, Clone)]
pub struct CancelJobResponse {
    /// Whether the job was cancelled.
    pub success: bool,
    /// What happened.
    pub message: String,
}

/// The status of the cluster.
#[derive(Debug, Clone)]
pub struct ClusterStatusResponse {
    /// Number of nodes.
    pub total_nodes: usize,
    /// Number of nodes that report Healthy.
    pub healthy_nodes: usize,
    /// Number of GPUs.
    pub total_gpus: usize,
    /// Number of unallocated GPUs.
    pub available_gpus: usize,
    /// Number of entries in the nodes' lists of running jobs.
    pub running_jobs: usize,
    /// Number of waiting jobs.
    pub queued_jobs: usize,
}

/// Why the service refused.
#[derive(Debug, Clone)]
pub enum ServiceStatus {
    /// What was asked for is not there.
    NotFound(String),
    /// The scheduler refused.
    Internal(String),
}

impl ServiceStatus {
    /// The message of the refusal.
    pub open spec fn spec_message(&self) -> Seq<char> {
        match self {
            ServiceStatus::NotFound(m) => m@,
            ServiceStatus::Internal(m) => m@,
        }
    }
}

/// `mb` mebibytes in bytes, cut to the range of `u64`.
pub open spec fn memory_bytes(mb: u64) -> u64 {
    if mb * 1048576 > u64::MAX {
        u64::MAX
    } else {
        (mb * 1048576) as u64
    }
}

/// Whether `d` is the descriptor of a request: what the request names is
/// taken over, the memory is turned into bytes, and everything else is as
/// the defaults have it.
pub open spec fn is_descriptor_of(d: JobDescriptor, request: SubmitJobRequest) -> bool {
    &&& d.name == request.name
    &&& d.user_id == request.user_id
    &&& d.project_id == request.project_id
    &&& d.command == request.command
    &&& d.arguments == request.arguments
    &&& d.environment == request.environment
    &&& d.working_directory == request.working_directory
    &&& d.resources.gpu_count == request.gpu_count
    &&& d.resources.cpu_cores == request.cpu_cores
    &&& d.resources.cpu_memory == memory_bytes(request.memory_mb)
    &&& d.resources.gpu_memory_per_device == 0
    &&& d.resources.required_gpu_models@.len() == 0
    &&& d.resources.min_nvlink_version == 0
    &&& !d.resources.require_nvswitch
    &&& !d.resources.require_rdma
    &&& !d.locality.prefer_same_node
    &&& d.policy.priority == request.priority
    &&& d.policy.gang_schedule == request.gang_schedule
    &&& d.policy.preemptible
    &&& !d.policy.can_preempt_others
    &&& d.policy.max_wait_time_seconds == 3600
    &&& d.policy.max_runtime_seconds == 0
    &&& d.policy.queue_name@ == "default"@
    &&& d.policy.max_retries == 3
}

/// The descriptor of a request.
pub fn descriptor_of(request: SubmitJobRequest) -> (d: JobDescriptor)
    ensures
        is_descriptor_of(d, request),
{
    let mut resources = ResourceRequirements::default();
    resources.gpu_count = request.gpu_count;
    resources.cpu_cores = request.cpu_cores;
    resources.cpu_memory = if request.memory_mb > u64::MAX / 1048576 {
        u64::MAX
    } else {
        request.memory_mb * 1048576
    };
    let mut policy = SchedulingPolicy::default();
    policy.priority = request.priority;
    policy.gang_schedule = request.gang_schedule;
    JobDescriptor {
        name: request.name,
        user_id: request.user_id,
        project_id: request.project_id,
        command: request.command,
        arguments: request.arguments,
        environment: request.environment,
        working_directory: request.working_directory,
        resources,
        locality: LocalityPreferences::default(),
        policy,
        labels: HashMap::new(),
        annotations: HashMap::new(),
    }
}

/// A copy of a list of strings.
fn copy_list(v: &Vec<String>) -> (r: Vec<String>)
    ensures
        r@ == v@,
{
    let mut r: Vec<String> = Vec::new();
    let mut i: usize = 0;
    while i < v.len()
        invariant
            i <= v.len(),
            r@ == v@.take(i as int),
        decreases v.len() - i,
    {
        r.push(v[i].clone());
        i = i + 1;
        assert(r@ =~= v@.take(i as int));
    }
    assert(v@.take(v.len() as int) =~= v@);
    r
}

/// The status of a job as the service tells it.
pub fn status_of(job: &Job) -> (r: GetJobStatusResponse)
    ensures
        r.job_id == job.id,
        r.state@ == job.state.spec_name(),
        r.message == job.message,
        r.allocated_nodes@ == job.allocated_nodes@,
{
    GetJobStatusResponse {
        job_id: job.id.clone(),
        state: String::from_str(job.state.name()),
        message: job.message.clone(),
        allocated_nodes: copy_list(&job.allocated_nodes),
    }
}

/// The status of the cluster from the summary of its nodes and the
/// number of waiting jobs.
pub fn cluster_status_of(summary: &ClusterSummary, queued_jobs: usize) -> (r: ClusterStatusResponse)
    ensures
        r.total_nodes == summary.total_nodes,
        r.healthy_nodes == summary.healthy_nodes,
        r.total_gpus == summary.total_gpus,
        r.available_gpus == summary.available_gpus,
        r.running_jobs == summary.running_jobs,
        r.queued_jobs == queued_jobs,
{
    ClusterStatusResponse {
        total_nodes: summary.total_nodes,
        healthy_nodes: summary.healthy_nodes,
        total_gpus: summary.total_gpus,
        available_gpus: summary.available_gpus,
        running_jobs: summary.running_jobs,
        queued_jobs,
    }
}

/// Whether `r` tells the status of the scheduler's cluster at `now`.
pub open spec fn is_status_of(r: ClusterStatusResponse, scheduler: Scheduler, now: i64) -> bool {
    &&& summarises(
        scheduler.nodes(),
        scheduler.node_timeout(),
        now,
        ClusterSummary {
            total_nodes: r.total_nodes,
            healthy_nodes: r.healthy_nodes,
            total_gpus: r.total_gpus,
            available_gpus: r.available_gpus,
            running_jobs: r.running_jobs,
        },
    )
    &&& r.queued_jobs == scheduler.queue().len()
}

/// The service.
pub struct SchedulerService {
    scheduler: Scheduler,
}

impl SchedulerService {
    /// The scheduler.
    pub closed spec fn spec_scheduler(&self) -> Scheduler {
        self.scheduler
    }

    /// The scheduler is well formed.
    pub open spec fn wf(&self) -> bool {
        self.spec_scheduler().wf()
    }

    /// The service over a scheduler.
    pub fn new(scheduler: Scheduler) -> (s: Self)
        requires
            scheduler.wf(),
        ensures
            s.wf(),
            s.spec_scheduler() == scheduler,
    {
        SchedulerService { scheduler }
    }

    /// The scheduler.
    pub fn scheduler(&self) -> (s: &Scheduler)
        ensures
            *s == self.spec_scheduler(),
    {
        &self.scheduler
    }

    /// Submits the job of a request under a fresh id. The job is stored
    /// in state Queued with the descriptor of the request.
    pub fn submit_job(&mut self, request: SubmitJobRequest) -> (r: Result<SubmitJobResponse, ServiceStatus>)
        requires
            old(self).wf(),
        ensures
            final(self).wf(),
            r is Ok,
            r->Ok_0.status@ == "QUEUED"@,
            has_job(final(self).spec_scheduler().jobs(), r->Ok_0.job_id@),
            final(self).spec_scheduler().jobs()[index_of_job(
                final(self).spec_scheduler().jobs(),
                r->Ok_0.job_id@,
            )].state == JobState::Queued,
            is_descriptor_of(
                final(self).spec_scheduler().jobs()[index_of_job(
                    final(self).spec_scheduler().jobs(),
                    r->Ok_0.job_id@,
                )].descriptor,
                request,
            ),
            final(self).spec_scheduler().queue().contains_key(r->Ok_0.job_id@),
            final(self).spec_scheduler().nodes() == old(self).spec_scheduler().nodes(),
    {
        let job = Job::new(descriptor_of(request));
        let ghost before = self.scheduler;
        match self.scheduler.submit(job) {
            Ok(job_id) => {
                proof {
                    let after = self.scheduler.jobs();
                    crate::scheduler::gang::submitted_job_is_stored(&before, job, &self.scheduler);
                }
                Ok(SubmitJobResponse { job_id, status: String::from_str("QUEUED") })
            },
            Err(e) => {
                assert(false);
                Err(ServiceStatus::Internal(String::new()))
            },
        }
    }

    /// Tells the status of a job; an unknown job is not found.
    pub fn get_job_status(&self, request: GetJobStatusRequest) -> (r: Result<GetJobStatusResponse, ServiceStatus>)
        requires
            self.wf(),
        ensures
            r is Ok <==> has_job(self.spec_scheduler().jobs(), request.job_id@),
            match r {
                Ok(resp) => {
                    let job = self.spec_scheduler().jobs()[index_of_job(
                        self.spec_scheduler().jobs(),
                        request.job_id@,
                    )];
                    &&& resp.job_id == job.id
                    &&& resp.state@ == job.state.spec_name()
                    &&& resp.message == job.message
                    &&& resp.allocated_nodes@ == job.allocated_nodes@
                },
                Err(e) => e is NotFound && e.spec_message() == job_not_found_message(request.job_id@),
            },
    {
        match self.scheduler.get_job(request.job_id.as_str()) {
            Some(job) => Ok(status_of(job)),
            None => {
                let mut msg = String::from_str("Job not found: ");
                msg.append(request.job_id.as_str());
                Err(ServiceStatus::NotFound(msg))
            },
        }
    }

    /// Cancels a job, as the scheduler does; what the scheduler refuses
    /// is handed on with its message.
    pub fn cancel_job(&mut self, request: CancelJobRequest) -> (r: Result<CancelJobResponse, ServiceStatus>)
        requires
            old(self).wf(),
        ensures
            final(self).wf(),
            r is Ok <==> has_job(old(self).spec_scheduler().jobs(), request.job_id@)
                && crate::scheduler::gang::cancellable(
                old(self).spec_scheduler().jobs()[index_of_job(
                    old(self).spec_scheduler().jobs(),
                    request.job_id@,
                )].state,
            ),
            match r {
                Ok(resp) => {
                    &&& resp.success
                    &&& resp.message@ == "Job cancelled"@
                    &&& exists|now: i64|
                        crate::scheduler::gang::cancelled(
                            &old(self).spec_scheduler(),
                            request.job_id@,
                            request.reason@,
                            now,
                            &final(self).spec_scheduler(),
                        )
                },
                Err(e) => e is Internal && old(self).spec_scheduler().same_state(&final(self).spec_scheduler()),
            },
    {
        let ghost before = self.scheduler;
        match self.scheduler.cancel(request.job_id.as_str(), request.reason.as_str()) {
            Ok(_) => {
                proof {
                    let now = choose|now: i64|
                        crate::scheduler::gang::cancelled(
                            &before,
                            request.job_id@,
                            request.reason@,
                            now,
                            &self.scheduler,
                        );
                    assert(crate::scheduler::gang::cancelled(
                        &old(self).spec_scheduler(),
                        request.job_id@,
                        request.reason@,
                        now,
                        &self.spec_scheduler(),
                    ));
                }
                Ok(CancelJobResponse { success: true, message: String::from_str("Job cancelled") })
            },
            Err(e) => Err(ServiceStatus::Internal(String::from_str(e.message()))),
        }
    }

    /// Tells the status of the cluster at `now`: the totals over its
    /// nodes and the number of waiting jobs.
    pub fn get_cluster_status_at(&self, now: i64) -> (r: ClusterStatusResponse)
        ensures
            is_status_of(r, self.spec_scheduler(), now),
    {
        let summary = self.scheduler.registry().summary_at(now);
        cluster_status_of(&summary, self.scheduler.queue_size())
    }

    /// Tells the status of the cluster at the current time.
    pub fn get_cluster_status(&self) -> (r: ClusterStatusResponse)
        ensures
            exists|now: i64| #[trigger] is_status_of(r, self.spec_scheduler(), now),
    {
        let now = now_secs();
        self.get_cluster_status_at(now)
    }
}

} // verus!
