use std::collections::HashMap;
use zenith::scheduler::gang::{Scheduler, SchedulerConfig};
use zenith::scheduler::job::{
    Job, JobDescriptor, JobState, LocalityPreferences, ResourceRequirements, SchedulingPolicy,
};
use zenith::scheduler::node::{GpuDevice, Node, NodeHealth, NodeTopology};
use zenith::scheduler::registry::NodeRegistry;
use zenith::scheduler::Error;

fn now_secs() -> i64 {
    std::time::SystemTime::now().duration_since(std::time::UNIX_EPOCH).unwrap().as_secs() as i64
}

fn create_test_node(id: &str, gpu_count: usize) -> Node {
    let gpus: Vec<GpuDevice> = (0..gpu_count)
        .map(|i| GpuDevice {
            device_id: format!("cuda:{}", i),
            device_name: "NVIDIA A100".to_string(),
            uuid: format!("GPU-{}", i),
            total_memory: 80 * 1024 * 1024 * 1024,
            free_memory: 80 * 1024 * 1024 * 1024,
            utilization_percent: 0,
            temperature: 40,
            allocated: false,
            allocated_job_id: None,
        })
        .collect();
    let topology = NodeTopology {
        gpus,
        cpu_cores: 64,
        cpu_memory: 512 * 1024 * 1024 * 1024,
        cpu_memory_free: 500 * 1024 * 1024 * 1024,
        numa_nodes: 2,
        nvlink_present: true,
        nvswitch_present: false,
        rdma_capable: true,
    };
    Node::new(id.to_string(), format!("{}.local", id), "192.168.1.1".to_string(), topology)
}

fn descriptor(name: &str, resources: ResourceRequirements, policy: SchedulingPolicy) -> JobDescriptor {
    JobDescriptor {
        name: name.to_string(),
        user_id: "user1".to_string(),
        project_id: "project1".to_string(),
        command: "python".to_string(),
        arguments: vec!["train.py".to_string()],
        environment: HashMap::new(),
        working_directory: "/app".to_string(),
        resources,
        locality: LocalityPreferences::default(),
        policy,
        labels: HashMap::new(),
        annotations: HashMap::new(),
    }
}

fn gpu_job(name: &str, gpu_count: u32) -> Job {
    Job::new(descriptor(
        name,
        ResourceRequirements { gpu_count, ..Default::default() },
        SchedulingPolicy::default(),
    ))
}

fn gpu_job_with(name: &str, gpu_count: u32, priority: i32, gang_schedule: bool) -> Job {
    Job::new(descriptor(
        name,
        ResourceRequirements { gpu_count, ..Default::default() },
        SchedulingPolicy { priority, gang_schedule, ..Default::default() },
    ))
}

fn scheduler_with(nodes: Vec<Node>, config: SchedulerConfig) -> Scheduler {
    let mut registry = NodeRegistry::new(60);
    for node in nodes {
        registry.register(node).unwrap();
    }
    Scheduler::new(registry, config)
}

fn total_gpus(decision: &zenith::scheduler::gang::SchedulingDecision) -> usize {
    decision.allocations.iter().map(|a| a.gpu_ids.len()).sum()
}

#[test]
fn test_job_creation() {
    let job = Job::new(descriptor("test-job", ResourceRequirements::default(), SchedulingPolicy::default()));
    assert_eq!(job.state, JobState::Pending);
    assert!(job.start_time.is_none());
    assert_eq!(job.id.len(), 36);
}

#[test]
fn test_job_transition() {
    let mut job = Job::new(descriptor("test-job", ResourceRequirements::default(), SchedulingPolicy::default()));
    job.transition(JobState::Queued, "Submitted to queue").unwrap();
    assert_eq!(job.state, JobState::Queued);
    match job.transition(JobState::Running, "Started") {
        Err(Error::Job(message)) => {
            assert_eq!(message, format!("Invalid transition for job {}: Queued -> Running", job.id))
        }
        _ => panic!("a waiting job cannot start before it is scheduled"),
    }
    assert_eq!(job.state, JobState::Queued);
    assert_eq!(job.message, "Submitted to queue");
    assert!(job.start_time.is_none());
    job.transition(JobState::Scheduled, "Placed").unwrap();
    job.transition(JobState::Running, "Started").unwrap();
    assert_eq!(job.state, JobState::Running);
    assert!(job.start_time.is_some());
}

#[test]
fn moves_off_the_edges_leave_the_job() {
    let all = [
        JobState::Pending,
        JobState::Queued,
        JobState::Scheduled,
        JobState::Running,
        JobState::Suspended,
        JobState::Completed,
        JobState::Failed,
        JobState::Cancelled,
        JobState::Timeout,
    ];
    let edges = [
        (JobState::Pending, JobState::Queued),
        (JobState::Queued, JobState::Scheduled),
        (JobState::Scheduled, JobState::Running),
        (JobState::Pending, JobState::Cancelled),
        (JobState::Queued, JobState::Cancelled),
        (JobState::Scheduled, JobState::Cancelled),
        (JobState::Running, JobState::Cancelled),
        (JobState::Running, JobState::Timeout),
        (JobState::Running, JobState::Failed),
        (JobState::Running, JobState::Completed),
    ];
    for from in all {
        for to in all {
            let d = descriptor("t", ResourceRequirements::default(), SchedulingPolicy::default());
            let mut job = Job::with_id("job-1".to_string(), d, 1000);
            job.state = from;
            job.message = "before".to_string();
            let r = job.transition_at(to, "after", 2000);
            if edges.contains(&(from, to)) {
                assert!(r.is_ok(), "{:?} -> {:?}", from, to);
                assert_eq!((job.state, job.message.as_str()), (to, "after"));
            } else {
                assert!(matches!(r, Err(Error::Job(_))), "{:?} -> {:?}", from, to);
                assert_eq!((job.state, job.message.as_str()), (from, "before"));
                assert_eq!((job.schedule_time, job.start_time, job.end_time), (None, None, None));
            }
        }
    }
    let d = descriptor("t", ResourceRequirements::default(), SchedulingPolicy::default());
    let mut done = Job::with_id("job-9".to_string(), d, 1000);
    done.state = JobState::Completed;
    match done.transition_at(JobState::Running, "again", 2000) {
        Err(Error::Job(message)) => assert_eq!(message, "Invalid transition for job job-9: Completed -> Running"),
        _ => panic!("a job that is done stays done"),
    }
    assert_eq!(done.state, JobState::Completed);
}

#[test]
fn job_ids_differ() {
    let a = gpu_job("a", 1);
    let b = gpu_job("b", 1);
    assert_ne!(a.id, b.id);
}

#[test]
fn job_times_follow_the_state() {
    let d = descriptor("t", ResourceRequirements::default(), SchedulingPolicy::default());
    let mut job = Job::with_id("job-1".to_string(), d, 1000);
    assert_eq!(job.submit_time, 1000);
    assert_eq!(job.wait_time_seconds_at(1030), 30);
    assert_eq!(job.runtime_seconds_at(1030), None);
    job.transition_at(JobState::Queued, "q", 1001).unwrap();
    job.transition_at(JobState::Scheduled, "s", 1010).unwrap();
    assert_eq!(job.schedule_time, Some(1010));
    assert_eq!(job.wait_time_seconds_at(5000), 10);
    job.transition_at(JobState::Running, "r", 1020).unwrap();
    assert_eq!(job.start_time, Some(1020));
    assert_eq!(job.runtime_seconds_at(1050), Some(30));
    job.transition_at(JobState::Completed, "done", 1100).unwrap();
    assert_eq!(job.end_time, Some(1100));
    assert_eq!(job.runtime_seconds_at(9999), Some(80));
    assert_eq!(job.message, "done");
    assert!(job.can_retry());
    job.retry_count = 3;
    assert!(!job.can_retry());
}

#[test]
fn lifecycle_edges() {
    assert!(JobState::Pending.can_transition_to(JobState::Queued));
    assert!(JobState::Queued.can_transition_to(JobState::Scheduled));
    assert!(JobState::Scheduled.can_transition_to(JobState::Running));
    assert!(JobState::Running.can_transition_to(JobState::Completed));
    assert!(JobState::Running.can_transition_to(JobState::Failed));
    assert!(JobState::Running.can_transition_to(JobState::Timeout));
    assert!(JobState::Running.can_transition_to(JobState::Cancelled));
    assert!(!JobState::Queued.can_transition_to(JobState::Running));
    assert!(!JobState::Completed.can_transition_to(JobState::Running));
    assert!(!JobState::Cancelled.can_transition_to(JobState::Cancelled));
    assert!(!JobState::Suspended.can_transition_to(JobState::Cancelled));
    assert!(JobState::Timeout.is_terminal());
    assert!(!JobState::Running.is_terminal());
    assert_eq!(JobState::Scheduled.name(), "Scheduled");
    assert_eq!(JobState::default(), JobState::Pending);
}

#[test]
fn test_node_creation() {
    let node = create_test_node("node-1", 1);
    assert_eq!(node.available_gpus(), 1);
    assert_eq!(node.health, NodeHealth::Healthy);
}

#[test]
fn test_gpu_allocation() {
    let mut node = create_test_node("node-1", 1);
    let allocated = node.allocate_gpus("job-1", 1).unwrap();
    assert_eq!(allocated.len(), 1);
    assert_eq!(node.available_gpus(), 0);
    node.release_gpus("job-1");
    assert_eq!(node.available_gpus(), 1);
}

#[test]
fn allocation_takes_the_first_free_devices() {
    let mut node = create_test_node("node-1", 4);
    node.topology.gpus[1].allocated = true;
    node.topology.gpus[1].allocated_job_id = Some("other".to_string());
    let ids = node.allocate_gpus("job-1", 2).unwrap();
    assert_eq!(ids, vec!["cuda:0".to_string(), "cuda:2".to_string()]);
    assert!(node.topology.gpus[0].allocated);
    assert_eq!(node.topology.gpus[0].allocated_job_id, Some("job-1".to_string()));
    assert_eq!(node.topology.gpus[1].allocated_job_id, Some("other".to_string()));
    assert!(node.topology.gpus[2].allocated);
    assert!(!node.topology.gpus[3].allocated);
    assert_eq!(node.running_jobs, vec!["job-1".to_string()]);
    for gpu in &node.topology.gpus {
        assert_eq!(gpu.allocated, gpu.allocated_job_id.is_some());
    }
    node.release_gpus("job-1");
    assert!(!node.topology.gpus[0].allocated);
    assert!(node.topology.gpus[1].allocated);
    assert!(node.running_jobs.is_empty());
}

#[test]
fn allocation_of_too_many_changes_nothing() {
    let mut node = create_test_node("node-1", 2);
    let err = node.allocate_gpus("job-1", 3).unwrap_err();
    assert!(matches!(err, Error::Node(_)));
    assert_eq!(err.message(), "Not enough GPUs: requested 3, available 2");
    assert_eq!(node.available_gpus(), 2);
    assert!(node.running_jobs.is_empty());
}

#[test]
fn test_node_registry() {
    let mut registry = NodeRegistry::new(60);
    let node = create_test_node("node-1", 1);
    registry.register(node).unwrap();
    let retrieved = registry.get("node-1").unwrap();
    assert_eq!(retrieved.hostname, "node-1.local");
    let summary = registry.summary();
    assert_eq!(summary.total_nodes, 1);
    assert_eq!(summary.total_gpus, 1);
    assert_eq!(summary.available_gpus, 1);
    assert_eq!(summary.healthy_nodes, 1);
    assert_eq!(summary.running_jobs, 0);
}

#[test]
fn registry_replaces_and_removes() {
    let mut registry = NodeRegistry::new(60);
    registry.register(create_test_node("a", 1)).unwrap();
    registry.register(create_test_node("b", 2)).unwrap();
    registry.register(create_test_node("a", 3)).unwrap();
    assert_eq!(registry.len(), 2);
    assert_eq!(registry.node_at(0).id, "a");
    assert_eq!(registry.get("a").unwrap().total_gpus(), 3);
    registry.deregister("missing").unwrap();
    assert_eq!(registry.len(), 2);
    registry.deregister("a").unwrap();
    assert_eq!(registry.len(), 1);
    assert!(registry.get("a").is_none());
    assert_eq!(registry.node_at(0).id, "b");
}

#[test]
fn registry_health_follows_the_heartbeat() {
    let mut registry = NodeRegistry::new(60);
    let topology = create_test_node("x", 2).topology;
    registry
        .register(Node::new_at("n".to_string(), "h".to_string(), "ip".to_string(), topology, 1000))
        .unwrap();
    assert!(registry.is_node_healthy_at("n", 1000));
    assert!(registry.is_node_healthy_at("n", 1060));
    assert!(!registry.is_node_healthy_at("n", 1061));
    assert!(!registry.is_node_healthy_at("missing", 1000));
    assert_eq!(registry.healthy_nodes_at(1060).len(), 1);
    assert_eq!(registry.healthy_nodes_at(1061).len(), 0);
    assert_eq!(registry.nodes_with_available_gpus_at(2, 1010).len(), 1);
    assert_eq!(registry.nodes_with_available_gpus_at(3, 1010).len(), 0);
    let fresh = create_test_node("x", 1).topology;
    registry.update_at("n", fresh, 2000).unwrap();
    assert!(registry.is_node_healthy_at("n", 2060));
    assert_eq!(registry.get("n").unwrap().total_gpus(), 1);
    let err = registry.update_at("missing", create_test_node("x", 1).topology, 2000).unwrap_err();
    assert_eq!(err.message(), "Node not found: missing");
    assert!(registry.is_node_healthy("n") == false);
}

#[test]
fn test_scheduler_submit() {
    let mut scheduler = scheduler_with(vec![create_test_node("node-1", 4)], SchedulerConfig::default());
    let job_id = scheduler.submit(gpu_job("test-job", 2)).unwrap();
    assert_eq!(scheduler.queue_size(), 1);
    let decisions = scheduler.schedule_cycle();
    assert_eq!(decisions.len(), 1);
    assert_eq!(scheduler.queue_size(), 0);
    let job = scheduler.get_job(&job_id).unwrap();
    assert_eq!(job.state, JobState::Scheduled);
}

#[test]
fn submit_then_get_returns_the_descriptor() {
    let mut scheduler = scheduler_with(vec![], SchedulerConfig::default());
    let job = gpu_job_with("roundtrip", 3, 7, true);
    let id = job.id.clone();
    let job_id = scheduler.submit(job).unwrap();
    assert_eq!(job_id, id);
    let stored = scheduler.get_job(&job_id).unwrap();
    assert_eq!(stored.state, JobState::Queued);
    assert_eq!(stored.descriptor.name, "roundtrip");
    assert_eq!(stored.descriptor.resources.gpu_count, 3);
    assert_eq!(stored.descriptor.policy.priority, 7);
    assert_eq!(stored.message, "Submitted to scheduler");
}

#[test]
fn submit_refuses_a_job_that_is_not_pending() {
    let mut scheduler = scheduler_with(vec![], SchedulerConfig::default());
    let mut job = gpu_job("late", 1);
    job.state = JobState::Running;
    let id = job.id.clone();
    let err = scheduler.submit(job).unwrap_err();
    assert!(matches!(err, Error::Job(_)));
    assert_eq!(err.message(), format!("Invalid transition for job {}: Running -> Queued", id));
    assert_eq!(scheduler.queue_size(), 0);
    assert!(scheduler.get_job(&id).is_none());
}

#[test]
fn test_scheduler_cancel() {
    let mut scheduler = scheduler_with(vec![create_test_node("node-1", 4)], SchedulerConfig::default());
    let job = Job::new(descriptor("cancel-test", ResourceRequirements::default(), SchedulingPolicy::default()));
    let job_id = scheduler.submit(job).unwrap();
    assert_eq!(scheduler.queue_size(), 1);
    scheduler.cancel(&job_id, "User requested").unwrap();
    let job = scheduler.get_job(&job_id).unwrap();
    assert_eq!(job.state, JobState::Cancelled);
    assert_eq!(job.message, "User requested");
    assert_eq!(scheduler.queue_size(), 0);
}

#[test]
fn cancel_twice_is_an_error_and_changes_nothing() {
    let mut scheduler = scheduler_with(vec![create_test_node("node-1", 4)], SchedulerConfig::default());
    let job_id = scheduler.submit(gpu_job("twice", 1)).unwrap();
    scheduler.cancel_at(&job_id, "first", 100).unwrap();
    let err = scheduler.cancel_at(&job_id, "second", 200).unwrap_err();
    assert_eq!(err.message(), format!("Invalid transition for job {}: Cancelled -> Cancelled", job_id));
    let job = scheduler.get_job(&job_id).unwrap();
    assert_eq!(job.state, JobState::Cancelled);
    assert_eq!(job.message, "first");
    assert_eq!(job.end_time, Some(100));
    let missing = scheduler.cancel("nope", "x").unwrap_err();
    assert_eq!(missing.message(), "Job not found: nope");
}

#[test]
fn test_scheduler_cpu_job() {
    let mut scheduler = scheduler_with(vec![create_test_node("node-1", 0)], SchedulerConfig::default());
    let job = Job::new(descriptor(
        "cpu-job",
        ResourceRequirements { gpu_count: 0, cpu_cores: 4, ..Default::default() },
        SchedulingPolicy::default(),
    ));
    let job_id = scheduler.submit(job).unwrap();
    let decisions = scheduler.schedule_cycle();
    assert_eq!(decisions.len(), 1);
    assert!(!decisions[0].gang_allocated);
    assert_eq!(decisions[0].allocations.len(), 1);
    assert_eq!(decisions[0].allocations[0].node_id, "node-1");
    assert!(decisions[0].allocations[0].gpu_ids.is_empty());
    let job = scheduler.get_job(&job_id).unwrap();
    assert_eq!(job.state, JobState::Scheduled);
}

#[test]
fn test_scheduler_gang_scheduling() {
    let mut scheduler = scheduler_with(vec![create_test_node("node-1", 8)], SchedulerConfig::default());
    scheduler.submit(gpu_job_with("gang-job", 4, 100, true)).unwrap();
    let decisions = scheduler.schedule_cycle();
    assert_eq!(decisions.len(), 1);
    assert!(decisions[0].gang_allocated);
    assert_eq!(total_gpus(&decisions[0]), 4);
}

#[test]
fn single_node_gang() {
    let mut scheduler = scheduler_with(vec![create_test_node("node-1", 4)], SchedulerConfig::default());
    let job_id = scheduler.submit(gpu_job_with("gang", 4, 50, true)).unwrap();
    let decisions = scheduler.schedule_cycle();
    assert_eq!(decisions.len(), 1);
    assert_eq!(decisions[0].job_id, job_id);
    assert!(decisions[0].gang_allocated);
    assert_eq!(decisions[0].allocations.len(), 1);
    assert_eq!(decisions[0].allocations[0].node_id, "node-1");
    assert_eq!(
        decisions[0].allocations[0].gpu_ids,
        vec!["cuda:0".to_string(), "cuda:1".to_string(), "cuda:2".to_string(), "cuda:3".to_string()]
    );
    let job = scheduler.get_job(&job_id).unwrap();
    assert_eq!(job.state, JobState::Scheduled);
    assert_eq!(job.allocated_nodes, vec!["node-1".to_string()]);
    assert_eq!(job.allocated_gpus.len(), 1);
    assert_eq!(job.allocated_gpus[0].gpu_ids.len(), 4);
    let node = scheduler.registry().get("node-1").unwrap();
    assert_eq!(node.available_gpus(), 0);
    assert_eq!(node.running_jobs.iter().filter(|j| **j == job_id).count(), 1);
    for gpu in &node.topology.gpus {
        assert_eq!(gpu.allocated, gpu.allocated_job_id.is_some());
        assert_eq!(gpu.allocated_job_id, Some(job_id.clone()));
    }
}

#[test]
fn test_scheduler_priority_ordering() {
    let mut scheduler = scheduler_with(vec![create_test_node("node-1", 4)], SchedulerConfig::default());
    scheduler.submit(gpu_job_with("low-priority", 1, 10, true)).unwrap();
    scheduler.submit(gpu_job_with("high-priority", 1, 100, true)).unwrap();
    assert_eq!(scheduler.queue_size(), 2);
    let decisions = scheduler.schedule_cycle();
    assert_eq!(decisions.len(), 2);
    assert_eq!(scheduler.queue_size(), 0);
    for decision in &decisions {
        let job = scheduler.get_job(&decision.job_id).unwrap();
        assert_eq!(job.state, JobState::Scheduled);
    }
    let first = scheduler.get_job(&decisions[0].job_id).unwrap();
    assert_eq!(first.descriptor.name, "high-priority");
}

#[test]
fn higher_priority_takes_the_capacity() {
    let mut scheduler = scheduler_with(vec![create_test_node("node-1", 4)], SchedulerConfig::default());
    let a = scheduler.submit(gpu_job_with("job-a", 4, 10, true)).unwrap();
    let b = scheduler.submit(gpu_job_with("job-b", 4, 100, true)).unwrap();
    let decisions = scheduler.schedule_cycle();
    assert_eq!(decisions.len(), 1);
    assert_eq!(decisions[0].job_id, b);
    assert_eq!(scheduler.get_job(&b).unwrap().state, JobState::Scheduled);
    assert_eq!(scheduler.get_job(&a).unwrap().state, JobState::Queued);
    assert_eq!(scheduler.queue_size(), 1);
}

#[test]
fn priority_order_lists_the_queue_from_the_top() {
    let mut scheduler = scheduler_with(vec![], SchedulerConfig::default());
    let low = scheduler.submit(gpu_job_with("low", 1, -5, true)).unwrap();
    let high = scheduler.submit(gpu_job_with("high", 1, 50, true)).unwrap();
    let mid = scheduler.submit(gpu_job_with("mid", 1, 7, true)).unwrap();
    assert_eq!(scheduler.priority_order(10), vec![high.clone(), mid.clone(), low]);
    assert_eq!(scheduler.priority_order(2), vec![high, mid]);
    assert_eq!(scheduler.queue_size(), 3);
}

#[test]
fn a_cycle_looks_at_no_more_than_the_batch() {
    let config = SchedulerConfig { max_schedule_batch: 2, ..Default::default() };
    let mut scheduler = scheduler_with(vec![create_test_node("node-1", 8)], config);
    for i in 0..3 {
        scheduler.submit(gpu_job_with(&format!("job-{}", i), 1, i, true)).unwrap();
    }
    let decisions = scheduler.schedule_cycle();
    assert_eq!(decisions.len(), 2);
    assert_eq!(scheduler.queue_size(), 1);
    assert_eq!(scheduler.jobs_with_state(JobState::Queued)[0].descriptor.name, "job-0");
}

#[test]
fn test_scheduler_job_lifecycle() {
    let mut scheduler = scheduler_with(vec![create_test_node("node-1", 4)], SchedulerConfig::default());
    let job_id = scheduler.submit(gpu_job("lifecycle-test", 2)).unwrap();
    assert_eq!(scheduler.get_job(&job_id).unwrap().state, JobState::Queued);
    scheduler.schedule_cycle();
    assert_eq!(scheduler.get_job(&job_id).unwrap().state, JobState::Scheduled);
    scheduler.mark_job_started(&job_id).unwrap();
    let job = scheduler.get_job(&job_id).unwrap();
    assert_eq!(job.state, JobState::Running);
    assert!(job.start_time.is_some());
    scheduler.mark_job_completed(&job_id, true, "Training finished").unwrap();
    let job = scheduler.get_job(&job_id).unwrap();
    assert_eq!(job.state, JobState::Completed);
    assert!(job.end_time.is_some());
    assert_eq!(job.message, "Training finished");
}

#[test]
fn moves_off_the_lifecycle_are_refused() {
    let mut scheduler = scheduler_with(vec![create_test_node("node-1", 4)], SchedulerConfig::default());
    let job_id = scheduler.submit(gpu_job("strict", 1)).unwrap();
    let err = scheduler.mark_job_started(&job_id).unwrap_err();
    assert_eq!(err.message(), format!("Invalid transition for job {}: Queued -> Running", job_id));
    let err = scheduler.mark_job_completed(&job_id, true, "x").unwrap_err();
    assert_eq!(err.message(), format!("Invalid transition for job {}: Queued -> Completed", job_id));
    assert_eq!(scheduler.get_job(&job_id).unwrap().state, JobState::Queued);
    scheduler.schedule_cycle();
    scheduler.mark_job_started(&job_id).unwrap();
    scheduler.mark_job_completed(&job_id, false, "boom").unwrap();
    assert_eq!(scheduler.get_job(&job_id).unwrap().state, JobState::Failed);
    assert!(scheduler.mark_job_started(&job_id).is_err());
    assert!(scheduler.cancel(&job_id, "late").is_err());
    assert_eq!(scheduler.get_job(&job_id).unwrap().state, JobState::Failed);
    assert_eq!(scheduler.mark_job_started("nope").unwrap_err().message(), "Job not found: nope");
}

#[test]
fn test_scheduler_insufficient_resources() {
    let mut scheduler = scheduler_with(vec![create_test_node("node-1", 2)], SchedulerConfig::default());
    let job_id = scheduler.submit(gpu_job("large-job", 8)).unwrap();
    let decisions = scheduler.schedule_cycle();
    assert_eq!(decisions.len(), 0);
    assert_eq!(scheduler.queue_size(), 1);
    assert_eq!(scheduler.get_job(&job_id).unwrap().state, JobState::Queued);
    assert_eq!(scheduler.registry().get("node-1").unwrap().available_gpus(), 2);
}

#[test]
fn test_jobs_with_state_filtering() {
    let mut scheduler = scheduler_with(vec![create_test_node("node-1", 4)], SchedulerConfig::default());
    for i in 0..3 {
        scheduler.submit(gpu_job(&format!("job-{}", i), 1)).unwrap();
    }
    assert_eq!(scheduler.jobs_with_state(JobState::Queued).len(), 3);
    assert_eq!(scheduler.jobs_with_state(JobState::Running).len(), 0);
    scheduler.schedule_cycle();
    assert_eq!(scheduler.jobs_with_state(JobState::Queued).len(), 0);
    let scheduled_jobs = scheduler.jobs_with_state(JobState::Scheduled);
    assert_eq!(scheduled_jobs.len(), 3);
    for job in &scheduled_jobs {
        assert_eq!(job.state, JobState::Scheduled);
    }
}

#[test]
fn test_config_returns_actual_config() {
    let custom_config = SchedulerConfig {
        max_schedule_batch: 42,
        backfill_enabled: false,
        topology_aware: false,
        prefer_same_node: false,
        job_timeout_secs: 12345,
        heartbeat_timeout_secs: 99,
    };
    let scheduler = scheduler_with(vec![], custom_config);
    let config = scheduler.config();
    assert_eq!(config.max_schedule_batch, 42);
    assert!(!config.backfill_enabled);
    assert!(!config.topology_aware);
    assert!(!config.prefer_same_node);
    assert_eq!(config.job_timeout_secs, 12345);
    assert_eq!(config.heartbeat_timeout_secs, 99);
    let d = SchedulerConfig::default();
    assert_eq!(d.max_schedule_batch, 100);
    assert_eq!(d.job_timeout_secs, 86400);
    assert_eq!(d.heartbeat_timeout_secs, 60);
    assert!(d.prefer_same_node);
}

#[test]
fn test_cancel_running_job() {
    let mut scheduler = scheduler_with(vec![create_test_node("node-1", 4)], SchedulerConfig::default());
    let job_id = scheduler.submit(gpu_job("running-cancel-test", 1)).unwrap();
    scheduler.schedule_cycle();
    scheduler.mark_job_started(&job_id).unwrap();
    assert_eq!(scheduler.get_job(&job_id).unwrap().state, JobState::Running);
    assert_eq!(scheduler.registry().get("node-1").unwrap().available_gpus(), 3);
    let result = scheduler.cancel(&job_id, "User cancelled running job");
    assert!(result.is_ok());
    assert_eq!(scheduler.get_job(&job_id).unwrap().state, JobState::Cancelled);
    let node = scheduler.registry().get("node-1").unwrap();
    assert_eq!(node.available_gpus(), 4);
    assert!(node.running_jobs.is_empty());
}

#[test]
fn cancel_of_a_scheduled_job_keeps_what_it_holds() {
    let mut scheduler = scheduler_with(vec![create_test_node("node-1", 4)], SchedulerConfig::default());
    let job_id = scheduler.submit(gpu_job("held", 2)).unwrap();
    scheduler.schedule_cycle();
    scheduler.cancel(&job_id, "changed my mind").unwrap();
    assert_eq!(scheduler.get_job(&job_id).unwrap().state, JobState::Cancelled);
    assert_eq!(scheduler.registry().get("node-1").unwrap().available_gpus(), 2);
}

#[test]
fn test_gang_schedule_insufficient_gpus() {
    let config = SchedulerConfig { prefer_same_node: false, ..Default::default() };
    let mut scheduler =
        scheduler_with(vec![create_test_node("node-1", 2), create_test_node("node-2", 1)], config);
    scheduler.submit(gpu_job_with("gang-insufficient", 5, 0, true)).unwrap();
    let decisions = scheduler.schedule_cycle();
    assert_eq!(decisions.len(), 0);
}

#[test]
fn test_gang_schedule_exact_gpus() {
    let config = SchedulerConfig { prefer_same_node: false, ..Default::default() };
    let mut scheduler =
        scheduler_with(vec![create_test_node("node-1", 2), create_test_node("node-2", 2)], config);
    scheduler.submit(gpu_job_with("gang-exact", 4, 0, true)).unwrap();
    let decisions = scheduler.schedule_cycle();
    assert_eq!(decisions.len(), 1);
    assert_eq!(total_gpus(&decisions[0]), 4);
}

#[test]
fn multi_node_spread() {
    let config = SchedulerConfig { prefer_same_node: false, ..Default::default() };
    let mut scheduler =
        scheduler_with(vec![create_test_node("node-1", 2), create_test_node("node-2", 2)], config);
    let job_id = scheduler.submit(gpu_job_with("spread", 4, 0, true)).unwrap();
    let decisions = scheduler.schedule_cycle();
    assert_eq!(decisions.len(), 1);
    assert!(decisions[0].gang_allocated);
    assert_eq!(decisions[0].allocations.len(), 2);
    assert_eq!(decisions[0].allocations[0].node_id, "node-1");
    assert_eq!(decisions[0].allocations[0].gpu_ids, vec!["cuda:0".to_string(), "cuda:1".to_string()]);
    assert_eq!(decisions[0].allocations[1].node_id, "node-2");
    assert_eq!(decisions[0].allocations[1].gpu_ids.len(), 2);
    let job = scheduler.get_job(&job_id).unwrap();
    assert_eq!(job.allocated_nodes, vec!["node-1".to_string(), "node-2".to_string()]);
}

#[test]
fn one_more_than_the_free_gpus_fails() {
    let config = SchedulerConfig { prefer_same_node: false, ..Default::default() };
    let mut scheduler =
        scheduler_with(vec![create_test_node("node-1", 3), create_test_node("node-2", 2)], config);
    let too_many = scheduler.submit(gpu_job_with("six", 6, 5, true)).unwrap();
    assert!(scheduler.schedule_cycle().is_empty());
    let exact = scheduler.submit(gpu_job_with("five", 5, 1, true)).unwrap();
    let decisions = scheduler.schedule_cycle();
    assert_eq!(decisions.len(), 1);
    assert_eq!(decisions[0].job_id, exact);
    assert_eq!(total_gpus(&decisions[0]), 5);
    assert_eq!(scheduler.get_job(&too_many).unwrap().state, JobState::Queued);
}

#[test]
fn same_node_is_tried_first_for_gang_jobs_only() {
    let nodes = vec![create_test_node("small", 1), create_test_node("large", 4)];
    let mut scheduler = scheduler_with(nodes, SchedulerConfig::default());
    scheduler.submit(gpu_job_with("gang", 2, 0, true)).unwrap();
    let decisions = scheduler.schedule_cycle();
    assert_eq!(decisions[0].allocations.len(), 1);
    assert_eq!(decisions[0].allocations[0].node_id, "large");
    let nodes = vec![create_test_node("small", 1), create_test_node("large", 4)];
    let mut scheduler = scheduler_with(nodes, SchedulerConfig::default());
    scheduler.submit(gpu_job_with("loose", 2, 0, false)).unwrap();
    let decisions = scheduler.schedule_cycle();
    assert_eq!(decisions[0].allocations.len(), 2);
    assert_eq!(decisions[0].allocations[0].node_id, "small");
    assert_eq!(decisions[0].allocations[1].node_id, "large");
    assert_eq!(decisions[0].allocations[1].gpu_ids, vec!["cuda:0".to_string()]);
}

#[test]
fn test_spread_schedule_returns_decision() {
    let mut scheduler = scheduler_with(vec![create_test_node("node-1", 4)], SchedulerConfig::default());
    scheduler.submit(gpu_job_with("spread-test", 2, 0, false)).unwrap();
    let decisions = scheduler.schedule_cycle();
    assert_eq!(decisions.len(), 1);
}

#[test]
fn test_cleanup_zombie_jobs_no_running_jobs() {
    let config = SchedulerConfig { job_timeout_secs: 10, ..Default::default() };
    let mut scheduler = scheduler_with(vec![create_test_node("node-1", 4)], config);
    scheduler.submit(gpu_job("not-running", 1)).unwrap();
    scheduler.schedule_cycle();
    assert_eq!(scheduler.cleanup_zombie_jobs(), 0);
}

#[test]
fn test_cleanup_zombie_jobs_timeout() {
    let config = SchedulerConfig { job_timeout_secs: 1, ..Default::default() };
    let mut scheduler = scheduler_with(vec![create_test_node("node-1", 4)], config);
    let job_id = scheduler.submit(gpu_job("will-timeout", 1)).unwrap();
    scheduler.schedule_cycle();
    scheduler.mark_job_started_at(&job_id, now_secs() - 5).unwrap();
    assert_eq!(scheduler.get_job(&job_id).unwrap().state, JobState::Running);
    let cleaned = scheduler.cleanup_zombie_jobs();
    assert_eq!(cleaned, 1);
    let job = scheduler.get_job(&job_id).unwrap();
    assert_eq!(job.state, JobState::Timeout);
    assert_eq!(job.message, "Job exceeded timeout of 1 seconds");
}

#[test]
fn zombie_timeout_at_a_given_time() {
    let config = SchedulerConfig { job_timeout_secs: 1, ..Default::default() };
    let mut scheduler = scheduler_with(vec![create_test_node("node-1", 4)], config);
    let job_id = scheduler.submit(gpu_job("z", 1)).unwrap();
    let now = now_secs();
    scheduler.schedule_cycle_at(now);
    scheduler.mark_job_started_at(&job_id, now - 10).unwrap();
    assert_eq!(scheduler.cleanup_zombie_jobs_at(now - 9), 0);
    assert_eq!(scheduler.cleanup_zombie_jobs_at(now), 1);
    assert_eq!(scheduler.get_job(&job_id).unwrap().state, JobState::Timeout);
    assert_eq!(scheduler.cleanup_zombie_jobs_at(now), 0);
}

#[test]
fn a_timeout_of_zero_never_strikes() {
    let config = SchedulerConfig { job_timeout_secs: 0, ..Default::default() };
    let mut scheduler = scheduler_with(vec![create_test_node("node-1", 4)], config);
    let job_id = scheduler.submit(gpu_job("forever", 1)).unwrap();
    let now = now_secs();
    scheduler.schedule_cycle_at(now);
    scheduler.mark_job_started_at(&job_id, now - 1_000_000).unwrap();
    assert_eq!(scheduler.cleanup_zombie_jobs_at(now), 0);
    assert_eq!(scheduler.get_job(&job_id).unwrap().state, JobState::Running);
}

#[test]
fn test_cleanup_zombie_jobs_unhealthy_node() {
    let config = SchedulerConfig { job_timeout_secs: 0, ..Default::default() };
    let mut scheduler = scheduler_with(vec![create_test_node("node-1", 4)], config);
    let job_id = scheduler.submit(gpu_job("on-dead-node", 1)).unwrap();
    scheduler.schedule_cycle();
    scheduler.mark_job_started(&job_id).unwrap();
    scheduler.deregister_node("node-1").unwrap();
    let cleaned = scheduler.cleanup_zombie_jobs();
    assert_eq!(cleaned, 1);
    let job = scheduler.get_job(&job_id).unwrap();
    assert_eq!(job.state, JobState::Failed);
    assert_eq!(job.message, "Allocated node(s) became unhealthy");
}

#[test]
fn test_cleanup_zombie_jobs_multiple() {
    let config = SchedulerConfig { job_timeout_secs: 1, ..Default::default() };
    let mut scheduler = scheduler_with(vec![create_test_node("node-1", 4)], config);
    let mut job_ids = vec![];
    for i in 0..3 {
        job_ids.push(scheduler.submit(gpu_job(&format!("zombie-{}", i), 1)).unwrap());
    }
    scheduler.schedule_cycle();
    for job_id in &job_ids {
        scheduler.mark_job_started_at(job_id, now_secs() - 10).unwrap();
    }
    assert_eq!(scheduler.cleanup_zombie_jobs(), 3);
}

#[test]
fn test_cleanup_zombie_jobs_skips_non_running() {
    let config = SchedulerConfig { job_timeout_secs: 1, ..Default::default() };
    let mut scheduler = scheduler_with(vec![create_test_node("node-1", 4)], config);
    scheduler.submit(gpu_job("queued-job", 1)).unwrap();
    scheduler.submit(gpu_job("scheduled-job", 1)).unwrap();
    scheduler.schedule_cycle();
    assert_eq!(scheduler.cleanup_zombie_jobs(), 0);
}

#[test]
fn stale_nodes_take_no_work() {
    let mut registry = NodeRegistry::new(60);
    let topology = create_test_node("x", 4).topology;
    registry
        .register(Node::new_at("old".to_string(), "h".to_string(), "ip".to_string(), topology, 1000))
        .unwrap();
    let mut scheduler = Scheduler::new(registry, SchedulerConfig::default());
    let job_id = scheduler.submit(gpu_job("j", 1)).unwrap();
    assert!(scheduler.schedule_cycle_at(2000).is_empty());
    assert_eq!(scheduler.queue_size(), 1);
    scheduler.update_node_at("old", create_test_node("x", 4).topology, 1990).unwrap();
    let decisions = scheduler.schedule_cycle_at(2000);
    assert_eq!(decisions.len(), 1);
    assert_eq!(scheduler.get_job(&job_id).unwrap().schedule_time, Some(2000));
    assert!(scheduler.schedule_job_at(&job_id, 2000).is_none());
}

#[test]
fn scheduler_node_bookkeeping() {
    let mut scheduler = scheduler_with(vec![], SchedulerConfig::default());
    scheduler.register_node(create_test_node("n1", 2)).unwrap();
    assert_eq!(scheduler.registry().len(), 1);
    assert!(scheduler.update_node("missing", create_test_node("x", 1).topology).is_err());
    scheduler.update_node("n1", create_test_node("x", 5).topology).unwrap();
    assert_eq!(scheduler.registry().get("n1").unwrap().total_gpus(), 5);
    scheduler.deregister_node("n1").unwrap();
    assert_eq!(scheduler.registry().len(), 0);
    scheduler.deregister_node("n1").unwrap();
    assert_eq!(scheduler.registry().len(), 0);
}

#[test]
fn the_clock_is_read_where_no_time_is_given() {
    let mut registry = NodeRegistry::new(60);
    registry.register(create_test_node("node1", 4));
    registry.register(create_test_node("node2", 2));
    let roomy = registry.nodes_with_available_gpus(3);
    assert_eq!(roomy.len(), 1);
    assert_eq!(roomy[0].id, "node1");
    assert_eq!(registry.nodes_with_available_gpus(5).len(), 0);
    assert_eq!(registry.healthy_nodes().len(), 2);

    let mut node = create_test_node("node3", 1);
    assert!(!node.is_stale(60));
    node.last_heartbeat = now_secs() - 1000;
    assert!(node.is_stale(60));
    node.heartbeat();
    assert!(!node.is_stale(60));

    let mut job = gpu_job("timed", 1);
    assert_eq!(job.runtime_seconds(), None);
    job.submit_time = now_secs() - 50;
    assert!((50..=52).contains(&job.wait_time_seconds()));
    job.schedule_time = Some(job.submit_time + 20);
    assert_eq!(job.wait_time_seconds(), 20);
    job.start_time = Some(now_secs() - 30);
    assert!((30..=32).contains(&job.runtime_seconds().unwrap()));
    job.end_time = Some(job.start_time.unwrap() + 7);
    assert_eq!(job.runtime_seconds(), Some(7));
}

#[test]
fn a_stale_node_is_not_counted_as_healthy() {
    let mut registry = NodeRegistry::new(60);
    let mut fresh = create_test_node("fresh", 2);
    fresh.last_heartbeat = 1000;
    let mut stale = create_test_node("stale", 4);
    stale.last_heartbeat = 900;
    let mut sick = create_test_node("sick", 1);
    sick.last_heartbeat = 1000;
    sick.health = NodeHealth::Unhealthy;
    registry.register(fresh).unwrap();
    registry.register(stale).unwrap();
    registry.register(sick).unwrap();
    let at = registry.summary_at(1000);
    assert_eq!((at.total_nodes, at.healthy_nodes, at.total_gpus, at.available_gpus), (3, 1, 7, 7));
    assert_eq!(registry.summary_at(960).healthy_nodes, 2);
    assert_eq!(registry.summary_at(961).healthy_nodes, 1);
    assert_eq!(registry.summary_at(1061).healthy_nodes, 0);
    assert_eq!(registry.summary_at(1000).healthy_nodes, registry.healthy_nodes_at(1000).len());
    assert_eq!(registry.summary().healthy_nodes, 0);
    assert_eq!(registry.summary().total_nodes, 3);
}

#[test]
fn an_update_keeps_the_rest_of_the_node() {
    let mut registry = NodeRegistry::new(60);
    let mut a = create_test_node("a", 1);
    a.last_heartbeat = 5;
    a.labels.insert("zone".to_string(), "x".to_string());
    registry.register(a).unwrap();
    let mut b = create_test_node("b", 2);
    b.last_heartbeat = 6;
    registry.register(b).unwrap();
    let wider = create_test_node("other", 3).topology;
    registry.update_at("a", wider, 77).unwrap();
    let a = registry.get("a").unwrap();
    assert_eq!((a.topology.gpus.len(), a.last_heartbeat), (3, 77));
    assert_eq!((a.id.as_str(), a.hostname.as_str()), ("a", "a.local"));
    assert_eq!(a.labels.get("zone").map(|s| s.as_str()), Some("x"));
    let b = registry.get("b").unwrap();
    assert_eq!((b.topology.gpus.len(), b.last_heartbeat), (2, 6));
    match registry.update_at("c", create_test_node("c", 1).topology, 78) {
        Err(Error::Node(message)) => assert_eq!(message, "Node not found: c"),
        _ => panic!("no node has the id"),
    }
    assert_eq!(registry.len(), 2);
}

#[test]
fn after_a_cycle_the_nodes_hold_what_the_decisions_say() {
    let mut config = SchedulerConfig::default();
    config.prefer_same_node = false;
    let mut scheduler = scheduler_with(vec![create_test_node("n1", 2), create_test_node("n2", 3)], config);
    let first = scheduler.submit_at(gpu_job_with("first", 3, 90, true), 0).unwrap();
    let second = scheduler.submit_at(gpu_job_with("second", 2, 50, true), 0).unwrap();
    let third = scheduler.submit_at(gpu_job_with("third", 1, 10, true), 0).unwrap();
    let now = now_secs();
    let decisions = scheduler.schedule_cycle_at(now);
    let placed: Vec<&str> = decisions.iter().map(|d| d.job_id.as_str()).collect();
    assert_eq!(placed, vec![first.as_str(), second.as_str()]);
    assert_eq!(total_gpus(&decisions[0]), 3);
    assert_eq!(total_gpus(&decisions[1]), 2);
    for decision in &decisions {
        assert!(decision.gang_allocated);
        for allocation in &decision.allocations {
            let node = scheduler.registry().get(&allocation.node_id).unwrap();
            assert_eq!(node.running_jobs.iter().filter(|j| **j == decision.job_id).count(), 1);
            for gpu_id in &allocation.gpu_ids {
                let device = node.topology.gpus.iter().find(|g| g.device_id == *gpu_id).unwrap();
                assert!(device.allocated);
                assert_eq!(device.allocated_job_id.as_deref(), Some(decision.job_id.as_str()));
            }
        }
    }
    for node in ["n1", "n2"] {
        let node = scheduler.registry().get(node).unwrap();
        assert!(node.topology.gpus.iter().all(|g| g.allocated == g.allocated_job_id.is_some()));
        assert!(!node.running_jobs.contains(&third));
    }
    assert_eq!(scheduler.get_job(&third).unwrap().state, JobState::Queued);
    assert_eq!(scheduler.queue_size(), 1);
}
