use zenith::runtime_cpu::circuit_breaker::{
    CircuitBreaker, CircuitBreakerConfig, CircuitBreakerError, CircuitState,
};
use zenith::runtime_cpu::dataloader::{DataLoaderError, DataSource, FileFormat, LoaderConfig};
use zenith::runtime_cpu::health::{HealthCheckResult, HealthManager, HealthStatus};
use zenith::runtime_cpu::io::{completion_for, IoOp, IoUringConfig, IoUringEngine, PendingOps, UringConfig};
use zenith::runtime_cpu::numa::{NumaNode, NumaTopology};
use zenith::runtime_cpu::numa_ffi;
use zenith::runtime_cpu::numa_ffi::{
    check_result, NumaAllocator, NumaError, ZenithNumaNodeInfo, ZENITH_NUMA_ERR_ALLOC_FAILED,
    ZENITH_NUMA_ERR_BIND_FAILED, ZENITH_NUMA_ERR_INVALID_NODE, ZENITH_NUMA_ERR_NULL_PTR,
    ZENITH_NUMA_ERR_UNAVAILABLE, ZENITH_NUMA_OK,
};
use zenith::runtime_cpu::s3::{is_s3_path, parse_s3_uri, S3Adapter, S3Config, S3Error};
use zenith::runtime_cpu::turbo::onnx::{
    ExecutionProvider, InferenceBenchmark, ModelConverter, OnnxConfig, OnnxError, OnnxSession, TensorType,
};
use zenith::runtime_cpu::turbo::precision::{BFloat16, Float16, PrecisionType};
use zenith::runtime_cpu::{Error, VERSION};

#[test]
fn test_version() {
    assert!(!VERSION.is_empty());
}

#[test]
fn runtime_errors_read_well() {
    assert_eq!(Error::Numa("x".to_string()).message(), "NUMA error: x");
    assert_eq!(Error::Allocation("x".to_string()).message(), "Allocation error: x");
    assert_eq!(Error::Io("x".to_string()).message(), "I/O error: x");
    assert_eq!(Error::Config("x".to_string()).message(), "Configuration error: x");
    assert_eq!(Error::Affinity("x".to_string()).message(), "Thread affinity error: x");
    assert_eq!(Error::Buffer("x".to_string()).message(), "Buffer error: x");
    assert_eq!(Error::IoUring("x".to_string()).message(), "io_uring error: x");
}

#[test]
fn test_circuit_breaker_normal() {
    let mut cb = CircuitBreaker::new(CircuitBreakerConfig { failure_threshold: 3, ..Default::default() });
    let result = cb.call(|| Ok::<i32, &str>(42), 0);
    assert!(result.is_ok());
    assert_eq!(cb.state(), CircuitState::Closed);
}

#[test]
fn test_circuit_breaker_opens() {
    let mut cb = CircuitBreaker::new(CircuitBreakerConfig { failure_threshold: 3, ..Default::default() });
    for _ in 0..3 {
        let _ = cb.call(|| Err::<i32, &str>("error"), 0);
    }
    assert_eq!(cb.state(), CircuitState::Open);
    let result = cb.call(|| Ok::<i32, &str>(42), 1);
    assert!(matches!(result, Err(CircuitBreakerError::CircuitOpen)));
    assert_eq!(cb.stats().total_rejections, 1);
    assert_eq!(cb.stats().total_calls, 4);
}

#[test]
fn test_circuit_breaker_reset() {
    let mut cb = CircuitBreaker::new(CircuitBreakerConfig::default());
    for _ in 0..5 {
        let _ = cb.call(|| Err::<i32, &str>("error"), 0);
    }
    assert_eq!(cb.state(), CircuitState::Open);
    cb.reset();
    assert_eq!(cb.state(), CircuitState::Closed);
    assert_eq!(cb.stats().total_failures, 5);
    assert_eq!(cb.stats().current_failure_count, 0);
}

#[test]
fn test_on_success_increments_counter() {
    let mut cb = CircuitBreaker::new(CircuitBreakerConfig::default());
    assert_eq!(cb.stats().total_successes, 0);
    cb.on_success();
    assert_eq!(cb.stats().total_successes, 1);
    cb.on_success();
    cb.on_success();
    assert_eq!(cb.stats().total_successes, 3);
}

#[test]
fn test_on_success_arithmetic_boundary() {
    let mut cb = CircuitBreaker::new(CircuitBreakerConfig {
        failure_threshold: 1,
        success_threshold: 3,
        reset_timeout_ms: 1,
        ..Default::default()
    });
    cb.on_failure(100);
    assert_eq!(cb.state(), CircuitState::Open);
    assert!(!cb.is_allowed(100));
    assert_eq!(cb.state(), CircuitState::Open);
    assert!(cb.is_allowed(110));
    assert_eq!(cb.state(), CircuitState::HalfOpen);
    cb.on_success();
    assert_eq!(cb.state(), CircuitState::HalfOpen);
    cb.on_success();
    assert_eq!(cb.state(), CircuitState::HalfOpen);
    cb.on_success();
    assert_eq!(cb.state(), CircuitState::Closed);
}

#[test]
fn test_on_failure_arithmetic_boundary() {
    let mut cb = CircuitBreaker::new(CircuitBreakerConfig { failure_threshold: 3, ..Default::default() });
    cb.on_failure(0);
    assert_eq!(cb.state(), CircuitState::Closed);
    cb.on_failure(0);
    assert_eq!(cb.state(), CircuitState::Closed);
    cb.on_failure(0);
    assert_eq!(cb.state(), CircuitState::Open);
}

#[test]
fn test_circuit_breaker_error_display() {
    let err: CircuitBreakerError<String> = CircuitBreakerError::CircuitOpen;
    let display = err.message();
    assert!(!display.is_empty());
    assert!(display.contains("open") || display.contains("Circuit"));
    let err: CircuitBreakerError<String> = CircuitBreakerError::CallFailed("connection refused".to_string());
    let display = err.message();
    assert!(!display.is_empty());
    assert!(display.contains("connection refused"));
    assert_eq!(display, "Call failed: connection refused");
}

#[test]
fn test_circuit_breaker_error_source() {
    let err: CircuitBreakerError<String> = CircuitBreakerError::CircuitOpen;
    assert!(err.source().is_none());
    let err: CircuitBreakerError<String> = CircuitBreakerError::CallFailed("underlying error".to_string());
    let source = err.source();
    assert!(source.is_some());
    assert!(source.unwrap().contains("underlying error"));
}

#[test]
fn test_half_open_success_threshold_exact() {
    let mut cb = CircuitBreaker::new(CircuitBreakerConfig {
        failure_threshold: 1,
        success_threshold: 2,
        reset_timeout_ms: 1,
        ..Default::default()
    });
    cb.on_failure(0);
    assert!(cb.is_allowed(10));
    cb.on_success();
    assert_eq!(cb.state(), CircuitState::HalfOpen);
    cb.on_success();
    assert_eq!(cb.state(), CircuitState::Closed);
}

#[test]
fn test_stats_accuracy() {
    let mut cb = CircuitBreaker::new(CircuitBreakerConfig { failure_threshold: 10, ..Default::default() });
    let _ = cb.call(|| Ok::<i32, &str>(1), 0);
    let _ = cb.call(|| Ok::<i32, &str>(2), 0);
    let _ = cb.call(|| Err::<i32, &str>("e"), 0);
    let stats = cb.stats();
    assert_eq!(stats.total_calls, 3);
    assert_eq!(stats.total_successes, 2);
    assert_eq!(stats.total_failures, 1);
    assert_eq!(stats.total_rejections, 0);
    assert_eq!(stats.current_failure_count, 1);
    assert_eq!(stats.state, CircuitState::Closed);
}

#[test]
fn a_failure_on_trial_opens_the_circuit_again() {
    let mut cb = CircuitBreaker::new(CircuitBreakerConfig {
        failure_threshold: 1,
        reset_timeout_ms: 50,
        ..Default::default()
    });
    assert!(matches!(cb.call(|| Err::<(), String>("x".to_string()), 1000), Err(CircuitBreakerError::CallFailed(_))));
    assert!(cb.begin_call(1049).is_err());
    assert!(cb.begin_call(1050).is_ok());
    assert_eq!(cb.state(), CircuitState::HalfOpen);
    cb.on_failure(1060);
    assert_eq!(cb.state(), CircuitState::Open);
    assert!(!cb.is_allowed(1100));
    assert!(cb.is_allowed(1110));
    let d = CircuitBreakerConfig::default();
    assert_eq!((d.failure_threshold, d.reset_timeout_ms, d.success_threshold, d.call_timeout_ms), (5, 30000, 3, 10000));
}

#[test]
fn test_file_format_detection() {
    assert_eq!(FileFormat::from_extension("data.parquet"), FileFormat::Parquet);
    assert_eq!(FileFormat::from_extension("data.csv"), FileFormat::Csv);
    assert_eq!(FileFormat::from_extension("data.arrow"), FileFormat::ArrowIpc);
    assert_eq!(FileFormat::from_extension("data.unknown"), FileFormat::Unknown);
}

#[test]
fn test_file_format_feather() {
    assert_eq!(FileFormat::from_extension("data.feather"), FileFormat::ArrowIpc);
}

#[test]
fn test_file_format_jsonl() {
    assert_eq!(FileFormat::from_extension("data.jsonl"), FileFormat::JsonLines);
    assert_eq!(FileFormat::from_extension("data.ndjson"), FileFormat::JsonLines);
}

#[test]
fn test_file_format_uppercase() {
    assert_eq!(FileFormat::from_extension("data.PARQUET"), FileFormat::Unknown);
}

#[test]
fn test_file_format_no_extension() {
    assert_eq!(FileFormat::from_extension("data"), FileFormat::Unknown);
}

#[test]
fn test_file_format_clone_copy() {
    let format = FileFormat::Parquet;
    let cloned = format.clone();
    let copied = format;
    assert_eq!(format, cloned);
    assert_eq!(format, copied);
}

#[test]
fn test_file_format_debug() {
    let format = FileFormat::Parquet;
    let debug_str = format!("{:?}", format);
    assert!(debug_str.contains("Parquet"));
}

#[test]
fn test_file_format_all_variants() {
    assert_eq!(FileFormat::from_extension("data.parquet"), FileFormat::Parquet);
    assert_eq!(FileFormat::from_extension("path/to/file.pq"), FileFormat::Parquet);
    assert_eq!(FileFormat::from_extension("data.csv"), FileFormat::Csv);
    assert_eq!(FileFormat::from_extension("data.tsv"), FileFormat::Csv);
    assert_eq!(FileFormat::from_extension("data.arrow"), FileFormat::ArrowIpc);
    assert_eq!(FileFormat::from_extension("data.feather"), FileFormat::ArrowIpc);
    assert_eq!(FileFormat::from_extension("data.jsonl"), FileFormat::JsonLines);
    assert_eq!(FileFormat::from_extension("data.ndjson"), FileFormat::JsonLines);
    assert_eq!(FileFormat::from_extension("data.txt"), FileFormat::Unknown);
    assert_eq!(FileFormat::from_extension("no_extension"), FileFormat::Unknown);
}

#[test]
fn formats_by_extension_alone() {
    assert_eq!(FileFormat::for_extension(Some("pq")), FileFormat::Parquet);
    assert_eq!(FileFormat::for_extension(Some("tsv")), FileFormat::Csv);
    assert_eq!(FileFormat::for_extension(Some("")), FileFormat::Unknown);
    assert_eq!(FileFormat::for_extension(None), FileFormat::Unknown);
    assert_eq!(FileFormat::from_extension("archive.tar.csv"), FileFormat::Csv);
    assert_eq!(FileFormat::from_extension(".csv"), FileFormat::Unknown);
    assert_eq!(FileFormat::from_extension("dir.parquet/file"), FileFormat::Unknown);
    assert!(FileFormat::Csv.is_loadable());
    assert!(!FileFormat::JsonLines.is_loadable());
    assert!(!FileFormat::Unknown.is_loadable());
}

#[test]
fn test_loader_config_default() {
    let config = LoaderConfig::default();
    assert_eq!(config.batch_size, 1024);
    assert_eq!(config.num_workers, 4);
    assert_eq!(config.prefetch_count, 4);
    assert!(config.memory_map);
    assert_eq!(config.io_buffer_size, 8 * 1024 * 1024);
}

#[test]
fn test_loader_config_custom() {
    let config = LoaderConfig {
        batch_size: 2048,
        num_workers: 8,
        prefetch_count: 8,
        memory_map: false,
        io_buffer_size: 4 * 1024 * 1024,
    };
    assert_eq!(config.batch_size, 2048);
    assert_eq!(config.num_workers, 8);
    assert!(!config.memory_map);
}

#[test]
fn test_loader_config_clone() {
    let config = LoaderConfig::default();
    let cloned = config.clone();
    assert_eq!(config.batch_size, cloned.batch_size);
    assert_eq!(config.num_workers, cloned.num_workers);
}

#[test]
fn test_loader_config_debug() {
    let config = LoaderConfig::default();
    let debug_str = format!("{:?}", config);
    assert!(debug_str.contains("LoaderConfig"));
    assert!(debug_str.contains("batch_size"));
}

#[test]
fn test_data_source_from_path_file() {
    let source = DataSource::from_path("/tmp/test.parquet", false);
    match source {
        DataSource::File(p) => assert!(p.contains("test.parquet")),
        _ => panic!("Expected File variant"),
    }
    match DataSource::from_path("/tmp", true) {
        DataSource::Directory(p) => assert_eq!(p, "/tmp"),
        _ => panic!("Expected Directory variant"),
    }
}

#[test]
fn test_data_source_directory() {
    let source = DataSource::Directory("/tmp/data".to_string());
    match source {
        DataSource::Directory(p) => assert!(p.contains("data")),
        _ => panic!("Expected Directory variant"),
    }
}

#[test]
fn test_data_source_memory() {
    let data = vec![1u8, 2, 3, 4, 5];
    let source = DataSource::Memory(data.clone());
    match source {
        DataSource::Memory(d) => assert_eq!(d.len(), 5),
        _ => panic!("Expected Memory variant"),
    }
}

#[test]
fn test_data_source_clone() {
    let source = DataSource::File("test.parquet".to_string());
    let cloned = source.clone();
    match (source, cloned) {
        (DataSource::File(a), DataSource::File(b)) => assert_eq!(a, b),
        _ => panic!("Clone mismatch"),
    }
}

#[test]
fn test_data_source_debug() {
    let source = DataSource::File("test.parquet".to_string());
    let debug_str = format!("{:?}", source);
    assert!(debug_str.contains("File"));
    assert!(debug_str.contains("test.parquet"));
}

#[test]
fn test_error_io() {
    let err = DataLoaderError::Io("file not found".to_string());
    let msg = err.message();
    assert!(msg.contains("I/O error"));
    assert!(msg.contains("file not found"));
}

#[test]
fn test_error_parse() {
    let err = DataLoaderError::Parse("invalid format".to_string());
    assert!(err.message().contains("Parse error"));
}

#[test]
fn test_error_unsupported_format() {
    let err = DataLoaderError::UnsupportedFormat(".xyz".to_string());
    assert!(err.message().contains("Unsupported format"));
    assert_eq!(
        DataLoaderError::unknown_format("/tmp/data.xyz").message(),
        "Unsupported format: Unknown format for: /tmp/data.xyz"
    );
}

#[test]
fn test_error_empty() {
    let err = DataLoaderError::Empty("no data".to_string());
    assert!(err.message().contains("Empty source"));
}

#[test]
fn test_error_config() {
    let err = DataLoaderError::Config("invalid batch size".to_string());
    assert!(err.message().contains("Configuration error"));
}

#[test]
fn test_error_debug() {
    let err = DataLoaderError::Io("test".to_string());
    let debug_str = format!("{:?}", err);
    assert!(debug_str.contains("Io"));
}

#[test]
fn test_error_is_std_error() {
    let err = DataLoaderError::Io("test".to_string());
    assert!(err.message().contains("I/O error"));
    assert_eq!(err.message(), "I/O error: test");
}

#[test]
fn test_health_manager() {
    let mut manager = HealthManager::new();
    assert_eq!(manager.status(), HealthStatus::Starting);
    assert!(!manager.is_ready());
    assert!(manager.liveness());
    manager.set_ready();
    assert!(manager.is_ready());
    assert_eq!(manager.status(), HealthStatus::Healthy);
    manager.set_shutting_down();
    assert!(!manager.is_ready());
    assert!(!manager.liveness());
}

fn check(component: &str, status: HealthStatus) -> HealthCheckResult {
    HealthCheckResult { component: component.to_string(), status, message: None, latency_us: 0, last_check: 0 }
}

#[test]
fn test_health_check() {
    let mut manager = HealthManager::new();
    manager.set_ready();
    let result = manager.check_health(vec![check("test", HealthStatus::Healthy)], 12, 3456, "0.3.0");
    assert!(result.ready);
    assert_eq!(result.checks.len(), 1);
    assert_eq!(result.uptime_secs, 12);
    assert_eq!(result.version, "0.3.0");
    assert_eq!(manager.last_check, 3456);
}

#[test]
fn one_bad_check_degrades_a_ready_service() {
    let mut manager = HealthManager::new();
    let early = manager.check_health(vec![], 0, 1, "v");
    assert!(!early.ready);
    assert_eq!(manager.status(), HealthStatus::Starting);
    manager.set_ready();
    let checks = vec![check("a", HealthStatus::Healthy), check("b", HealthStatus::Degraded)];
    let result = manager.check_health(checks, 0, 2, "v");
    assert!(!result.ready);
    assert_eq!(manager.status(), HealthStatus::Degraded);
    assert!(manager.check_health(vec![], 0, 3, "v").ready);
    assert_eq!(manager.status(), HealthStatus::Healthy);
    manager.set_not_ready();
    assert!(!manager.is_ready());
    assert_eq!(HealthStatus::ShuttingDown.name(), "shutting_down");
    assert_eq!(HealthStatus::Healthy.name(), "healthy");
}

#[test]
fn test_uring_config() {
    let config = UringConfig::default();
    assert_eq!(config.sq_entries, 4096);
    assert!(!config.sq_poll);
    assert_eq!(config.sq_poll_idle_ms, 1000);
    assert_eq!(config.num_buffers, 64);
    assert_eq!(config.buffer_size, 64 * 1024);
}

#[test]
fn test_uring_creation() {
    let config = IoUringConfig { sq_entries: 32, ..Default::default() };
    assert!(IoUringEngine::new(config).is_ok());
    let d = IoUringConfig::default();
    assert_eq!((d.sq_entries, d.sq_poll, d.sq_poll_idle), (4096, false, 1000));
    let pending = vec![(1, IoOp::Write), (2, IoOp::Fsync), (1, IoOp::Close)];
    let c = completion_for(&pending, 1, 512);
    assert_eq!((c.user_data, c.result, c.op), (1, 512, IoOp::Write));
    assert_eq!(completion_for(&pending, 2, -5).op, IoOp::Fsync);
    assert_eq!(completion_for(&pending, 9, 0).op, IoOp::Read);
}

#[test]
fn test_parse_cpulist() {
    assert_eq!(NumaTopology::parse_cpulist("0-3"), vec![0, 1, 2, 3]);
    assert_eq!(NumaTopology::parse_cpulist("0-3,8-11"), vec![0, 1, 2, 3, 8, 9, 10, 11]);
    assert_eq!(NumaTopology::parse_cpulist("0,2,4,6"), vec![0, 2, 4, 6]);
}

#[test]
fn cpulist_edge_cases() {
    assert_eq!(NumaTopology::parse_cpulist(""), Vec::<u32>::new());
    assert_eq!(NumaTopology::parse_cpulist(" 0-1,3\n"), vec![0, 1, 3]);
    assert_eq!(NumaTopology::parse_cpulist("5-5"), vec![5]);
    assert_eq!(NumaTopology::parse_cpulist("7-5"), Vec::<u32>::new());
    assert_eq!(NumaTopology::parse_cpulist("1-2-3,4"), vec![4]);
    assert_eq!(NumaTopology::parse_cpulist("a,1,b-2,3-"), vec![1]);
    assert_eq!(NumaTopology::parse_cpulist("+1,+2-+3"), vec![1, 2, 3]);
    assert_eq!(NumaTopology::parse_cpulist("4294967295"), vec![u32::MAX]);
    assert_eq!(NumaTopology::parse_cpulist("4294967296"), Vec::<u32>::new());
    assert_eq!(NumaTopology::parse_cpulist("4294967294-4294967295"), vec![u32::MAX - 1, u32::MAX]);
    assert_eq!(NumaTopology::parse_cpulist("1, 2"), vec![1]);
}

#[test]
fn test_topology_discovery() {
    let cpus: u32 = 4;
    let topology = NumaTopology::discover(None, cpus, 1 << 34, 1 << 33).unwrap();
    assert!(topology.num_cpus() > 0);
    assert!(topology.num_nodes() >= 1);
    assert!(!topology.is_numa_available());
    assert_eq!(topology.total_memory(), 1 << 34);
    assert_eq!(topology.total_free_memory(), 1 << 33);
    assert_eq!(topology.cpus_for_node(0).unwrap().len(), cpus as usize);
}

fn numa_node(node_id: u32, cpu_cores: Vec<u32>, total_memory: u64, free_memory: u64) -> NumaNode {
    NumaNode {
        node_id,
        cpu_cores,
        total_memory,
        free_memory,
        hugepages_available: false,
        hugepages_free: 0,
        hugepage_size: 0,
    }
}

#[test]
fn numa_queries() {
    let nodes = vec![
        numa_node(0, vec![0, 1], 100, 40),
        numa_node(1, vec![2, 3, 4], 200, 90),
        numa_node(2, vec![5], 50, 90),
    ];
    let topology = NumaTopology::discover(Some(nodes), 0, 0, 0).unwrap();
    assert!(topology.is_numa_available());
    assert_eq!(topology.num_nodes(), 3);
    assert_eq!(topology.num_cpus(), 6);
    assert_eq!(topology.nodes().len(), 3);
    assert_eq!(topology.get_node(1).unwrap().total_memory, 200);
    assert!(topology.get_node(7).is_none());
    assert_eq!(topology.cpus_for_node(1).unwrap(), &vec![2, 3, 4]);
    assert!(topology.cpus_for_node(9).is_none());
    assert_eq!(topology.node_for_cpu(4), Some(1));
    assert_eq!(topology.node_for_cpu(6), None);
    assert_eq!(topology.node_with_most_free_memory(), Some(2));
    assert_eq!(topology.total_memory(), 350);
    assert_eq!(topology.total_free_memory(), 220);
    let empty = NumaTopology::from_nodes(vec![]);
    assert_eq!(empty.node_with_most_free_memory(), None);
    assert_eq!(empty.total_memory(), 0);
    let huge = NumaTopology::from_nodes(vec![numa_node(0, vec![], u64::MAX, 1), numa_node(1, vec![], 5, 1)]);
    assert_eq!(huge.total_memory(), u64::MAX);
}

#[test]
fn test_error_conversion() {
    assert_eq!(NumaError::from_code(ZENITH_NUMA_ERR_UNAVAILABLE), NumaError::Unavailable);
    assert_eq!(NumaError::from_code(ZENITH_NUMA_ERR_INVALID_NODE), NumaError::InvalidNode);
    assert_eq!(NumaError::from_code(ZENITH_NUMA_ERR_ALLOC_FAILED), NumaError::AllocFailed);
    assert_eq!(NumaError::from_code(ZENITH_NUMA_ERR_BIND_FAILED), NumaError::BindFailed);
    assert_eq!(NumaError::from_code(ZENITH_NUMA_ERR_NULL_PTR), NumaError::NullPtr);
    assert_eq!(NumaError::from_code(-42), NumaError::Unknown(-42));
    assert_eq!(NumaError::Unknown(-42).message(), "Unknown NUMA error: -42");
    assert_eq!(NumaError::BindFailed.message(), "Thread binding failed");
    assert!(check_result(ZENITH_NUMA_OK).is_ok());
    assert_eq!(check_result(-2), Err(NumaError::InvalidNode));
}

#[test]
fn test_numa_init() {
    let result = numa_ffi::init();
    assert!(result.is_ok() || matches!(result, Err(NumaError::Unavailable)));
    numa_ffi::cleanup();
    assert!(!numa_ffi::is_available());
    assert_eq!(numa_ffi::num_nodes(), 1);
    assert_eq!(numa_ffi::num_cpus(8), 8);
    assert_eq!(numa_ffi::node_or_none(-1), None);
    assert_eq!(numa_ffi::node_or_none(3), Some(3));
    assert!(matches!(NumaAllocator::new(0), Err(NumaError::Unavailable)));
    assert!(matches!(NumaAllocator::local(), Err(NumaError::Unavailable)));
    assert_eq!(NumaAllocator::on_node(1, 2).unwrap().node(), 1);
    assert!(matches!(NumaAllocator::on_node(2, 2), Err(NumaError::InvalidNode)));
    let info = ZenithNumaNodeInfo::default();
    assert_eq!((info.node_id, info.total_memory, info.free_memory, info.num_cpus), (0, 0, 0, 0));
}

#[test]
fn test_parse_s3_uri() {
    let (bucket, key) = parse_s3_uri("s3://my-bucket/path/to/file.parquet").unwrap();
    assert_eq!(bucket, "my-bucket");
    assert_eq!(key, "path/to/file.parquet");
    let (bucket, key) = parse_s3_uri("s3://bucket/").unwrap();
    assert_eq!(bucket, "bucket");
    assert_eq!(key, "");
    assert!(parse_s3_uri("http://example.com").is_none());
    assert_eq!(parse_s3_uri("s3://only"), Some(("only".to_string(), "".to_string())));
    assert_eq!(parse_s3_uri("s3://"), Some(("".to_string(), "".to_string())));
    assert_eq!(parse_s3_uri("s3:///k"), Some(("".to_string(), "k".to_string())));
    assert!(parse_s3_uri("s3:/b/k").is_none());
    assert!(parse_s3_uri("s3a://b/k").is_none());
}

#[test]
fn test_is_s3_path() {
    assert!(is_s3_path("s3://bucket/key"));
    assert!(is_s3_path("s3a://bucket/key"));
    assert!(!is_s3_path("/local/path"));
    assert!(!is_s3_path("http://example.com"));
    assert!(!is_s3_path("s3:/"));
}

#[test]
fn test_s3_config() {
    let config = S3Config::new("my-bucket", "us-west-2").with_endpoint("http://localhost:9000").with_path_style(true);
    assert_eq!(config.bucket, "my-bucket");
    assert_eq!(config.region, "us-west-2");
    assert_eq!(config.endpoint, Some("http://localhost:9000".to_string()));
    assert!(config.path_style);
    assert_eq!(config.max_connections, 8);
    assert_eq!(config.timeout_secs, 30);
    assert_eq!(S3Config::default().region, "us-east-1");
}

#[test]
fn test_stub_returns_not_enabled() {
    let adapter = S3Adapter::new(S3Config::new("bucket", "us-east-1"));
    assert!(matches!(adapter.list_objects("prefix"), Err(S3Error::NotEnabled(_))));
    assert!(matches!(adapter.read_object("key"), Err(S3Error::NotEnabled(_))));
    assert!(matches!(adapter.stream_object("key", 4), Err(S3Error::NotEnabled(_))));
    assert!(matches!(adapter.object_exists("key"), Err(S3Error::NotEnabled(_))));
    assert_eq!(adapter.bucket(), "bucket");
    assert_eq!(adapter.region(), "us-east-1");
    assert_eq!(S3Error::NotFound("k".to_string()).message(), "Not found: k");
    assert_eq!(S3Error::Other("k".to_string()).message(), "S3 error: k");
}

#[test]
fn test_execution_provider() {
    assert!(ExecutionProvider::CPU.is_available(false, false));
    assert_eq!(ExecutionProvider::CPU.name(), "CPUExecutionProvider");
    assert!(!ExecutionProvider::CUDA.is_available(false, true));
    assert!(ExecutionProvider::CUDA.is_available(true, false));
    assert!(ExecutionProvider::TensorRT.is_available(false, true));
    assert!(!ExecutionProvider::CoreML.is_available(true, true));
    assert_eq!(ExecutionProvider::DirectML.name(), "DmlExecutionProvider");
}

#[test]
fn test_onnx_config() {
    let config = OnnxConfig::default();
    assert_eq!(config.optimization_level, 3);
    assert!(!config.providers.is_empty());
    assert_eq!(config.providers, vec![ExecutionProvider::CUDA, ExecutionProvider::CPU]);
    assert_eq!(OnnxConfig::with_threads(16).intra_op_threads, 16);
}

#[test]
fn test_tensor_type() {
    assert_eq!(TensorType::Float32.size(), 4);
    assert_eq!(TensorType::Float16.size(), 2);
    assert_eq!(TensorType::UInt8.size(), 1);
    assert_eq!(TensorType::Int64.size(), 8);
    assert_eq!(TensorType::String.size(), 0);
}

#[test]
fn test_model_converter_commands() {
    let cmd = ModelConverter::pytorch_to_onnx_cmd("model.pt", "model.onnx", &[1, 3, 224, 224]);
    assert!(cmd.contains("torch.onnx.export"));
    assert_eq!(
        cmd,
        "python -c \"\nimport torch\nmodel = torch.load('model.pt')\nmodel.eval()\ndummy = torch.randn([1, 3, 224, 224])\ntorch.onnx.export(model, dummy, 'model.onnx', opset_version=17)\n\""
    );
    assert!(ModelConverter::pytorch_to_onnx_cmd("m", "o", &[]).contains("torch.randn([])"));
    assert!(ModelConverter::pytorch_to_onnx_cmd("m", "o", &[-1]).contains("torch.randn([-1])"));
    let cmd = ModelConverter::tensorflow_to_onnx_cmd("saved_model", "model.onnx");
    assert!(cmd.contains("tf2onnx"));
    assert_eq!(cmd, "python -m tf2onnx.convert --saved-model saved_model --output model.onnx --opset 17");
}

#[test]
fn onnx_sessions() {
    assert!(matches!(OnnxSession::new("m.onnx", OnnxConfig::default(), false), Err(OnnxError::ModelNotFound(_))));
    let session = OnnxSession::new("m.onnx", OnnxConfig::default(), true).unwrap();
    assert_eq!(session.model_path(), "m.onnx");
    assert_eq!(session.inputs()[0].name, "input");
    assert_eq!(session.inputs()[0].shape, vec![-1, 3, 224, 224]);
    assert_eq!(session.outputs()[0].shape, vec![-1, 1000]);
    assert_eq!(session.active_provider(true, false), ExecutionProvider::CUDA);
    assert_eq!(session.active_provider(false, true), ExecutionProvider::CPU);
    let mut config = OnnxConfig::default();
    config.providers = vec![ExecutionProvider::ROCm, ExecutionProvider::TensorRT];
    let session = OnnxSession::new("m.onnx", config, true).unwrap();
    assert_eq!(session.active_provider(true, true), ExecutionProvider::TensorRT);
    assert_eq!(session.active_provider(true, false), ExecutionProvider::CPU);
    assert_eq!(OnnxError::SessionNotLoaded.message(), "Session not loaded");
    assert_eq!(OnnxError::ModelNotFound("x".to_string()).message(), "Model not found: x");
    let bench = InferenceBenchmark::new("resnet", ExecutionProvider::CPU);
    assert_eq!((bench.warmup_runs, bench.benchmark_runs, bench.batch_size), (10, 100, 32));
    assert_eq!(bench.total_samples(), 3200);
}

#[test]
fn test_bf16_conversion() {
    let values = [0.0f32, 1.0, -1.0, std::f32::consts::PI, 100.0, 0.001];
    for &val in &values {
        let bf16 = BFloat16::from_f32_bits(val.to_bits());
        let back = f32::from_bits(bf16.to_f32_bits());
        let error = (val - back).abs() / val.abs().max(1e-6);
        assert!(error < 0.01, "BF16 error too large for {}: got {}", val, back);
    }
    assert_eq!(BFloat16::from_f32_bits(0x3F80_0000).to_bits(), 0x3F80);
    assert_eq!(BFloat16::from_bits(0xC000).to_f32_bits(), 0xC000_0000);
    assert_eq!(BFloat16::default().to_bits(), 0);
}

#[test]
fn test_fp16_conversion() {
    let values = [0.0f32, 1.0, -1.0, std::f32::consts::PI, 100.0, 0.001];
    for &val in &values {
        let fp16 = Float16::from_f32_bits(val.to_bits());
        let back = f32::from_bits(fp16.to_f32_bits());
        let error = (val - back).abs() / val.abs().max(1e-6);
        assert!(error < 0.01, "FP16 error too large for {}: got {}", val, back);
    }
}

#[test]
fn half_precision_bits() {
    assert_eq!(Float16::from_f32_bits(1.0f32.to_bits()).to_bits(), 0x3C00);
    assert_eq!(Float16::from_f32_bits((-2.0f32).to_bits()).to_bits(), 0xC000);
    assert_eq!(Float16::from_f32_bits(65504.0f32.to_bits()).to_bits(), 0x7BFF);
    assert_eq!(Float16::from_f32_bits(1.0e6f32.to_bits()).to_bits(), 0x7C00);
    assert_eq!(Float16::from_f32_bits((-1.0e6f32).to_bits()).to_bits(), 0xFC00);
    assert_eq!(Float16::from_f32_bits(f32::INFINITY.to_bits()).to_bits(), 0x7C00);
    assert_eq!(Float16::from_f32_bits(f32::NEG_INFINITY.to_bits()).to_bits(), 0xFC00);
    assert_eq!(Float16::from_f32_bits(f32::NAN.to_bits()).to_bits(), 0x7E00);
    assert_eq!(Float16::from_f32_bits(1.0e-6f32.to_bits()).to_bits(), 0x0000);
    assert_eq!(Float16::from_f32_bits((-0.0f32).to_bits()).to_bits(), 0x8000);
    assert_eq!(f32::from_bits(Float16::from_bits(0x3C00).to_f32_bits()), 1.0);
    assert_eq!(f32::from_bits(Float16::from_bits(0xC000).to_f32_bits()), -2.0);
    assert_eq!(f32::from_bits(Float16::from_bits(0x7BFF).to_f32_bits()), 65504.0);
    assert_eq!(f32::from_bits(Float16::from_bits(0x0001).to_f32_bits()), 5.960464477539063e-8);
    assert_eq!(f32::from_bits(Float16::from_bits(0x03FF).to_f32_bits()), 6.097555160522461e-5);
    assert_eq!(f32::from_bits(Float16::from_bits(0x8200).to_f32_bits()), -3.0517578125e-5);
    assert_eq!(f32::from_bits(Float16::from_bits(0x7C00).to_f32_bits()), f32::INFINITY);
    assert!(f32::from_bits(Float16::from_bits(0x7C01).to_f32_bits()).is_nan());
    assert_eq!(Float16::from_bits(0x8000).to_f32_bits(), 0x8000_0000);
    assert_eq!(Float16::default().to_bits(), 0);
    assert_ne!(PrecisionType::Float16, PrecisionType::BFloat16);
}

#[test]
fn meminfo_lines_tell_kibibytes() {
    assert_eq!(NumaTopology::extract_kb_value("MemTotal:    12345678 kB"), Some(12345678));
    assert_eq!(NumaTopology::extract_kb_value("Node 0 MemFree: 42 kB"), Some(0));
    assert_eq!(NumaTopology::extract_kb_value("MemFree:\t42 kB"), Some(42));
    assert_eq!(NumaTopology::extract_kb_value("MemFree: 4x2 17"), Some(17));
    assert_eq!(NumaTopology::extract_kb_value("MemFree: kB"), None);
    assert_eq!(NumaTopology::extract_kb_value(""), None);
    assert_eq!(NumaTopology::extract_kb_value("   "), None);
    assert_eq!(NumaTopology::extract_kb_value("18446744073709551615"), Some(u64::MAX));
    assert_eq!(NumaTopology::extract_kb_value("18446744073709551616 5"), None);
    assert_eq!(NumaTopology::extract_kb_value("+5 6"), Some(6));
    let lines = [
        "Node 0 MemTotal:    12345678 kB",
        "a 1\u{2003}22 b",
        "x\u{a0}7",
        "  99",
        "99  ",
        "٣ 4",
        "no number",
    ];
    for line in lines {
        let expected: Option<u64> = line
            .split_whitespace()
            .find(|s| s.chars().all(|c| c.is_ascii_digit()))
            .and_then(|s| s.parse().ok());
        assert_eq!(NumaTopology::extract_kb_value(line), expected, "{:?}", line);
    }
}

#[test]
fn meminfo_gives_total_and_free_bytes() {
    let text = "MemTotal:       16384 kB\nMemFree:        4096 kB\nMemUsed:       12288 kB\n";
    assert_eq!(NumaTopology::parse_meminfo(text), (16384 * 1024, 4096 * 1024));
    let numbered = "Node 3 MemTotal: 16384 kB\nNode 2 MemFree: 4096 kB\n";
    assert_eq!(NumaTopology::parse_meminfo(numbered), (3 * 1024, 2 * 1024));
    assert_eq!(NumaTopology::parse_meminfo(""), (0, 0));
    assert_eq!(NumaTopology::parse_meminfo("MemFree: 1 kB"), (0, 1024));
    assert_eq!(NumaTopology::parse_meminfo("MemTotal: 5 kB\r\nMemTotal: 7 kB\r\nMemTotal: kB"), (7168, 0));
    assert_eq!(NumaTopology::parse_meminfo("MemTotal: MemFree: 3 kB"), (3072, 0));
    assert_eq!(NumaTopology::parse_meminfo("MemTotal: 18446744073709551615 kB"), (u64::MAX, 0));
    assert_eq!(NumaTopology::parse_meminfo("MemTotal: 18014398509481983 kB"), (18014398509481983 * 1024, 0));
    assert_eq!(NumaTopology::parse_meminfo("MemTotal: 18014398509481984 kB"), (u64::MAX, 0));
}

#[test]
fn a_node_is_told_by_its_files() {
    let node = NumaTopology::node_info(
        3,
        Some("0-3,8\n"),
        Some("MemTotal: 100 kB\nMemFree: 40 kB\n"),
        Some(" 12\n"),
    );
    assert_eq!(node.node_id, 3);
    assert_eq!(node.cpu_cores, vec![0, 1, 2, 3, 8]);
    assert_eq!((node.total_memory, node.free_memory), (102400, 40960));
    assert_eq!((node.hugepages_available, node.hugepages_free, node.hugepage_size), (true, 12, 2 * 1024 * 1024));
    let bare = NumaTopology::node_info(0, None, None, None);
    assert_eq!(bare.cpu_cores, Vec::<u32>::new());
    assert_eq!((bare.total_memory, bare.free_memory), (0, 0));
    assert_eq!((bare.hugepages_available, bare.hugepages_free, bare.hugepage_size), (false, 0, 0));
    let none_free = NumaTopology::node_info(1, Some(""), Some(""), Some("x"));
    assert_eq!(
        (none_free.hugepages_available, none_free.hugepages_free, none_free.hugepage_size),
        (false, 0, 2097152)
    );
}

#[test]
fn a_run_gives_the_size_of_the_output() {
    let session = OnnxSession::new("m.onnx", OnnxConfig::default(), true).unwrap();
    assert_eq!(session.run(1).unwrap(), 1000);
    assert_eq!(session.run(3).unwrap(), 1000);
    match session.run(0) {
        Err(OnnxError::InvalidInput(message)) => assert_eq!(message, "No inputs provided"),
        _ => panic!("a run without input is refused"),
    }
}

#[test]
fn pending_operations_are_numbered_from_one() {
    let mut ops = PendingOps::new();
    assert_eq!(ops.pending_count(), 0);
    let first = ops.next_id();
    ops.record(first, IoOp::Write);
    let second = ops.next_id();
    ops.record(second, IoOp::Fsync);
    let third = ops.next_id();
    assert_eq!((first, second, third), (1, 2, 3));
    assert_eq!(ops.pending_count(), 2);
    assert_eq!(ops.completion(1, 512).op, IoOp::Write);
    assert_eq!(ops.completion(2, 0).op, IoOp::Fsync);
    let unknown = ops.completion(3, -5);
    assert_eq!((unknown.user_data, unknown.result, unknown.op), (3, -5, IoOp::Read));
}
