//! What the REST interface sends and receives, and how it is made from
//! jobs and nodes.

use vstd::prelude::*;
use vstd::string::StringExecFns;
use std::collections::HashMap;
use crate::scheduler::job::Job;
use crate::scheduler::node::{Node, NodeHealth};

verus! {

/// A request to submit a job.
#[derive(Debug, Clone)]
pub struct SubmitJobRequest {
    /// Name of the job.
    pub name: String,
    /// Owner.
    pub user_id: String,
    /// Project.
    pub project_id: String,
    /// Command.
    pub command: String,
    /// Arguments; none where they are left out.
    pub arguments: Vec<String>,
    /// Environment variables; none where they are left out.
    pub environment: HashMap<String, String>,
    /// Working directory; `/app` where it is left out.
    pub working_directory: String,
    /// GPUs needed; none where they are left out.
    pub gpu_count: u32,
    /// CPU cores needed; one where they are left out.
    pub cpu_cores: u32,
    /// Memory needed, in mebibytes; 4096 where it is left out.
    pub memory_mb: u64,
    /// Priority; 50 where it is left out.
    pub priority: i32,
    /// Whether all resources must be bound together; not where it is
    /// left out.
    pub gang_schedule: bool,
}

/// The working directory of a request that names none.
pub fn default_working_dir() -> (s: String)
    ensures
        s@ == "/app"@,
{
    String::from_str("/app")
}

/// The CPU cores of a request that names none.
pub fn default_cpu_cores() -> (n: u32)
    ensures
        n == 1,
{
    1
}

/// The memory of a request that names none, in mebibytes.
pub fn default_memory() -> (n: u64)
    ensures
        n == 4096,
{
    4096
}

/// The priority of a request that names none.
pub fn default_priority() -> (n: i32)
    ensures
        n == 50,
{
    50
}

/// A job as the interface shows it.
#[derive(Debug, Clone)]
pub struct JobResponse {
    /// The id of the job.
    pub job_id: String,
    /// Its name.
    pub name: String,
    /// The name of its state.
    pub state: String,
    /// Its owner.
    pub user_id: String,
    /// Its project.
    pub project_id: String,
    /// When it was created, as an RFC 3339 time.
    pub created_at: String,
    /// The nodes bound to it.
    pub allocated_nodes: Vec<String>,
    /// GPUs needed.
    pub gpu_count: u32,
}

/// The status of the cluster.
#[derive(Debug, Clone)]
pub struct ClusterStatusResponse {
    /// Number of nodes.
    pub total_nodes: usize,
    /// Number of nodes that report Healthy.
    pub healthy_nodes: usize,
    /// Number of GPUs.
    pub total_gpus: usize,
    /// Number of unallocated GPUs.
    pub available_gpus: usize,
    /// Number of entries in the nodes' lists of running jobs.
    pub running_jobs: usize,
    /// Number of waiting jobs.
    pub queued_jobs: usize,
}

/// A node as the interface shows it.
#[derive(Debug, Clone)]
pub struct NodeResponse {
    /// The id of the node.
    pub id: String,
    /// Its host name.
    pub hostname: String,
    /// The name of its health.
    pub health: String,
    /// Number of GPUs.
    pub total_gpus: usize,
    /// Number of unallocated GPUs.
    pub available_gpus: usize,
    /// Number of running jobs.
    pub running_jobs: usize,
}

/// An error as the interface shows it.
#[derive(Debug, Clone)]
pub struct ErrorResponse {
    /// The kind of error.
    pub error: String,
    /// What went wrong.
    pub message: String,
}

/// A success as the interface shows it.
#[derive(Debug, Clone)]
pub struct SuccessResponse {
    /// `success` or `error`.
    pub status: String,
    /// What happened.
    pub message: String,
}

/// The instant `secs` seconds after the epoch as an RFC 3339 time, as
/// `chrono` writes it; none for an instant beyond what `chrono` holds.
pub uninterp spec fn rfc3339_text(secs: i64) -> Option<Seq<char>>;

/// `DateTime::to_rfc3339` of `chrono`, on the instant that
/// `DateTime::from_timestamp` makes of the seconds.
#[verifier::external_body]
fn rfc3339(secs: i64) -> (r: Option<String>)
    ensures
        match r {
            Some(text) => rfc3339_text(secs) == Some(text@),
            None => rfc3339_text(secs) is None,
        },
{
    match chrono::DateTime::from_timestamp(secs, 0) {
        Some(at) => Some(at.to_rfc3339()),
        None => None,
    }
}

/// The name of a node's health.
pub open spec fn health_name(h: NodeHealth) -> Seq<char> {
    match h {
        NodeHealth::Healthy => "Healthy"@,
        NodeHealth::Warning => "Warning"@,
        NodeHealth::Unhealthy => "Unhealthy"@,
        NodeHealth::Unreachable => "Unreachable"@,
    }
}

/// A copy of a list of strings.
fn copy_list(v: &Vec<String>) -> (r: Vec<String>)
    ensures
        r@ == v@,
{
    let mut r: Vec<String> = Vec::new();
    let mut i: usize = 0;
    while i < v.len()
        invariant
            i <= v.len(),
            r@ == v@.take(i as int),
        decreases v.len() - i,
    {
        r.push(v[i].clone());
        i = i + 1;
        assert(r@ =~= v@.take(i as int));
    }
    assert(v@.take(v.len() as int) =~= v@);
    r
}

/// A job as the interface shows it, with the time of its creation as it
/// was written.
pub fn job_response_with(job: &Job, created_at: String) -> (r: JobResponse)
    ensures
        r.job_id == job.id,
        r.name == job.descriptor.name,
        r.state@ == job.state.spec_name(),
        r.user_id == job.descriptor.user_id,
        r.project_id == job.descriptor.project_id,
        r.created_at == created_at,
        r.allocated_nodes@ == job.allocated_nodes@,
        r.gpu_count == job.descriptor.resources.gpu_count,
{
    JobResponse {
        job_id: job.id.clone(),
        name: job.descriptor.name.clone(),
        state: String::from_str(job.state.name()),
        user_id: job.descriptor.user_id.clone(),
        project_id: job.descriptor.project_id.clone(),
        created_at,
        allocated_nodes: copy_list(&job.allocated_nodes),
        gpu_count: job.descriptor.resources.gpu_count,
    }
}

/// A job as the interface shows it. The time of its creation is left
/// empty where it cannot be written.
pub fn job_to_response(job: &Job) -> (r: JobResponse)
    ensures
        r.job_id == job.id,
        r.name == job.descriptor.name,
        r.state@ == job.state.spec_name(),
        r.user_id == job.descriptor.user_id,
        r.project_id == job.descriptor.project_id,
        r.created_at@ == match rfc3339_text(job.submit_time) {
            Some(text) => text,
            None => Seq::<char>::empty(),
        },
        r.allocated_nodes@ == job.allocated_nodes@,
        r.gpu_count == job.descriptor.resources.gpu_count,
{
    let created_at = match rfc3339(job.submit_time) {
        Some(text) => text,
        None => String::new(),
    };
    job_response_with(job, created_at)
}

/// What is shown for a job that is not there.
pub fn not_found_response(job_id: String) -> (r: JobResponse)
    ensures
        r.job_id == job_id,
        r.name@ == "not_found"@,
        r.state@ == "NOT_FOUND"@,
        r.user_id@.len() == 0,
        r.project_id@.len() == 0,
        r.created_at@.len() == 0,
        r.allocated_nodes@.len() == 0,
        r.gpu_count == 0,
{
    JobResponse {
        job_id,
        name: String::from_str("not_found"),
        state: String::from_str("NOT_FOUND"),
        user_id: String::new(),
        project_id: String::new(),
        created_at: String::new(),
        allocated_nodes: Vec::new(),
        gpu_count: 0,
    }
}

/// What is shown for a submission that was refused.
pub fn refused_response(message: &str) -> (r: JobResponse)
    ensures
        r.job_id@.len() == 0,
        r.name@ == "error"@,
        r.state@ == message@,
        r.user_id@.len() == 0,
        r.project_id@.len() == 0,
        r.created_at@.len() == 0,
        r.allocated_nodes@.len() == 0,
        r.gpu_count == 0,
{
    JobResponse {
        job_id: String::new(),
        name: String::from_str("error"),
        state: String::from_str(message),
        user_id: String::new(),
        project_id: String::new(),
        created_at: String::new(),
        allocated_nodes: Vec::new(),
        gpu_count: 0,
    }
}

/// What is shown for a cancellation: success with the id of the job, or
/// the error with its message.
pub fn cancel_response(job_id: &str, outcome: Result<(), String>) -> (r: SuccessResponse)
    ensures
        match outcome {
            Ok(_) => r.status@ == "success"@ && r.message@ == "Job "@ + job_id@ + " cancelled"@,
            Err(e) => r.status@ == "error"@ && r.message == e,
        },
{
    match outcome {
        Ok(_) => {
            let mut message = String::from_str("Job ");
            message.append(job_id);
            message.append(" cancelled");
            SuccessResponse { status: String::from_str("success"), message }
        },
        Err(e) => SuccessResponse { status: String::from_str("error"), message: e },
    }
}

/// A node as the interface shows it.
pub fn node_to_response(node: &Node) -> (r: NodeResponse)
    ensures
        r.id == node.id,
        r.hostname == node.hostname,
        r.health@ == health_name(node.health),
        r.total_gpus == node.topology.gpus@.len(),
        r.available_gpus == node.spec_available_gpus(),
        r.running_jobs == node.running_jobs@.len(),
{
    let health = match node.health {
        NodeHealth::Healthy => "Healthy",
        NodeHealth::Warning => "Warning",
        NodeHealth::Unhealthy => "Unhealthy",
        NodeHealth::Unreachable => "Unreachable",
    };
    NodeResponse {
        id: node.id.clone(),
        hostname: node.hostname.clone(),
        health: String::from_str(health),
        total_gpus: node.total_gpus(),
        available_gpus: node.available_gpus(),
        running_jobs: node.running_jobs.len(),
    }
}

} // verus!
