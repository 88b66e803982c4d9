use zenith::host_api::abi;
use zenith::host_api::fs::FsAPI;
use zenith::host_api::http::{HttpAPI, HttpMethod};
use zenith::host_api::kv::KvAPI;
use zenith::host_api::logging::{LogLevel, LoggingAPI, MAX_LOG_ENTRIES};
use zenith::host_api::random::RandomAPI;
use zenith::host_api::HostAPI;

#[test]
fn test_sandbox_escape_prevention() {
    let mut fs = FsAPI::new();
    fs.set_sandbox_root("/tmp/test_sandbox");
    assert_eq!(fs.get_sandbox_root(), "/tmp/test_sandbox");
    assert!(fs.check_resolved("/tmp/etc/passwd").is_err());
    assert!(fs.check_resolved("/etc/passwd").is_err());
    assert_eq!(fs.check_resolved("/tmp/test_sandbox_evil/x").unwrap_err(), "Path escapes sandbox");
    assert!(fs.check_resolved("/tmp/test_sandbox/etc/passwd").is_ok());
    assert!(fs.check_resolved("/tmp/test_sandbox").is_ok());
}

#[test]
fn test_file_operations() {
    let mut fs = FsAPI::new();
    assert_eq!(fs.get_sandbox_root(), "/tmp/zenith_sandbox");
    fs.set_sandbox_root("/sandbox/");
    assert!(fs.file_exists(Some("/sandbox/test.txt"), true));
    assert!(!fs.file_exists(Some("/sandbox/test.txt"), false));
    assert!(!fs.file_exists(Some("/elsewhere/test.txt"), true));
    assert!(!fs.file_exists(None, true));
    assert!(fs.check_request("test.txt").is_ok());
    assert_eq!(fs.check_request("te\0st").unwrap_err(), "Path contains a null byte");
}

#[test]
fn test_url_validation() {
    let http = HttpAPI::new();
    assert!(http.is_url_allowed("http://localhost:8080/api"));
    assert!(http.is_url_allowed("https://api.example.com/data"));
    assert!(!http.is_url_allowed("https://malicious.com"));
}

#[test]
fn test_http_get() {
    let mut http = HttpAPI::new();
    let response = http.get("http://localhost/test").unwrap();
    assert_eq!(response.status_code, 200);
    assert_eq!(response.body, b"{\"success\": true}".to_vec());
    assert_eq!(response.headers, vec![("content-type".to_string(), "application/json".to_string())]);
}

#[test]
fn test_http_post() {
    let mut http = HttpAPI::new();
    let response = http.post("http://localhost/api", b"{\"test\": 1}").unwrap();
    assert_eq!(response.status_code, 200);
}

#[test]
fn test_blocked_url() {
    let mut http = HttpAPI::new();
    let result = http.get("https://evil.com");
    assert!(result.is_err());
    assert_eq!(result.unwrap_err(), "URL not in allow-list");
}

#[test]
fn http_counts_and_allow_list() {
    let mut http = HttpAPI::new();
    assert_eq!(http.get_call_count(), 0);
    let refused = http.get("https://internal.corp/x");
    assert_eq!(HttpAPI::status_for_plugin(&refused), -3);
    http.allow_prefix("https://internal.corp");
    let served = http.request(HttpMethod::Put, "https://internal.corp/x", None, 100);
    assert_eq!(HttpAPI::status_for_plugin(&served), 200);
    assert_eq!(http.get_call_count(), 2);
    assert!(!http.is_url_allowed("http://localhos"));
    assert!(http.is_url_allowed("https://httpbin.org"));
    assert!(matches!(HttpMethod::from_u32(0), HttpMethod::Get));
    assert!(matches!(HttpMethod::from_u32(1), HttpMethod::Post));
    assert!(matches!(HttpMethod::from_u32(2), HttpMethod::Put));
    assert!(matches!(HttpMethod::from_u32(3), HttpMethod::Delete));
    assert!(matches!(HttpMethod::from_u32(9), HttpMethod::Get));
}

#[test]
fn test_kv_operations() {
    let mut kv = KvAPI::new();
    kv.clear();
    kv.set("test_key", b"test_value").unwrap();
    assert_eq!(kv.count(), 1);
    let value = kv.get("test_key").unwrap();
    assert_eq!(value, b"test_value");
    assert!(kv.has_key("test_key"));
    assert!(!kv.has_key("nonexistent"));
    assert!(kv.delete("test_key"));
    assert_eq!(kv.count(), 0);
    assert!(!kv.delete("test_key"));
}

#[test]
fn test_kv_keys() {
    let mut kv = KvAPI::new();
    kv.clear();
    kv.set("key1", b"val1").unwrap();
    kv.set("key2", b"val2").unwrap();
    kv.set("key3", b"val3").unwrap();
    let keys = kv.keys();
    assert_eq!(keys.len(), 3);
    assert!(keys.contains(&"key1".to_string()));
    assert!(keys.contains(&"key2".to_string()));
}

#[test]
fn kv_overwrites_and_forgets() {
    let mut kv = KvAPI::new();
    kv.set("a", b"1").unwrap();
    kv.set("b", b"2").unwrap();
    kv.set("a", b"3").unwrap();
    assert_eq!(kv.count(), 2);
    assert_eq!(kv.get("a"), Some(b"3".to_vec()));
    assert_eq!(kv.get("b"), Some(b"2".to_vec()));
    assert_eq!(kv.get("c"), None);
    assert!(kv.delete("a"));
    assert_eq!(kv.get("a"), None);
    assert_eq!(kv.get("b"), Some(b"2".to_vec()));
    assert_eq!(kv.keys(), vec!["b".to_string()]);
    kv.clear();
    assert_eq!(kv.count(), 0);
    assert_eq!(kv.get("b"), None);
}

#[test]
fn test_timestamp() {
    let mut host = HostAPI::new();
    let ts1 = host.get_timestamp_ns();
    let mut spin: u64 = 0;
    let mut ts2 = host.get_timestamp_ns();
    while ts2 <= ts1 && spin < 1_000_000_000 {
        ts2 = host.get_timestamp_ns();
        spin += 1;
    }
    assert!(ts2 > ts1);
}

#[test]
fn test_log() {
    let mut host = HostAPI::new();
    host.reset_counters();
    assert_eq!(host.log(), 0);
    assert_eq!(host.get_log_count(), 1);
    assert_eq!(host.get_host_call_count(), 1);
}

#[test]
fn test_counters() {
    let mut host = HostAPI::new();
    host.reset_counters();
    assert_eq!(host.get_host_call_count(), 0);
    let _ = host.get_timestamp_ns();
    assert_eq!(host.get_host_call_count(), 1);
    let _ = host.get_random_u64();
    assert_eq!(host.get_host_call_count(), 3);
    assert_eq!(HostAPI::mixed(u64::MAX, 2), 1);
}

#[test]
fn test_logging() {
    let mut log = LoggingAPI::new();
    log.clear_logs();
    log.log(LogLevel::Info, "Test message", Some("test_plugin"));
    assert_eq!(log.get_log_count(), 1);
    let logs = log.get_recent_logs(10);
    assert_eq!(logs.len(), 1);
    assert_eq!(logs[0].message, "Test message");
    assert_eq!(logs[0].level, LogLevel::Info);
    assert_eq!(logs[0].plugin_id, Some("test_plugin".to_string()));
}

#[test]
fn test_log_buffer_limit() {
    let mut log = LoggingAPI::new();
    log.clear_logs();
    for i in 0..1500 {
        log.log(LogLevel::Debug, &format!("Log {}", i), None);
    }
    assert_eq!(log.get_log_count(), MAX_LOG_ENTRIES);
    let recent = log.get_recent_logs(2);
    assert_eq!(recent[0].message, "Log 1499");
    assert_eq!(recent[1].message, "Log 1498");
    let all = log.get_recent_logs(5000);
    assert_eq!(all.len(), 1000);
    assert_eq!(all[999].message, "Log 500");
}

#[test]
fn log_levels_and_stamps() {
    assert_eq!(LogLevel::from_u32(0), LogLevel::Trace);
    assert_eq!(LogLevel::from_u32(1), LogLevel::Debug);
    assert_eq!(LogLevel::from_u32(2), LogLevel::Info);
    assert_eq!(LogLevel::from_u32(3), LogLevel::Warn);
    assert_eq!(LogLevel::from_u32(4), LogLevel::Error);
    assert_eq!(LogLevel::from_u32(77), LogLevel::Error);
    assert_eq!(LogLevel::Warn.as_u32(), 3);
    let mut log = LoggingAPI::new();
    log.log_at(LogLevel::Error, "e", None, 42);
    let entry = log.get_recent_logs(1).remove(0);
    assert_eq!(entry.timestamp, 42);
    assert_eq!(entry.plugin_id, None);
    assert_eq!(entry.copy().message, "e");
    assert!(log.get_recent_logs(0).is_empty());
}

#[test]
fn test_random_u64() {
    let mut rng = RandomAPI::new();
    let r1 = rng.random_u64();
    let r2 = rng.random_u64();
    assert_ne!(r1, r2);
    assert_eq!(rng.get_call_count(), 2);
}

#[test]
fn test_random_range() {
    let mut rng = RandomAPI::new();
    for _ in 0..100 {
        let r = rng.random_range(10, 20);
        assert!(r >= 10 && r < 20);
    }
    assert_eq!(rng.random_range(5, 5), 5);
    assert_eq!(rng.random_range(9, 2), 9);
    assert_eq!(rng.get_call_count(), 100);
}

#[test]
fn test_random_bytes() {
    let mut rng = RandomAPI::new();
    let mut buf = vec![0u8; 16];
    rng.random_bytes(&mut buf);
    assert_eq!(buf.len(), 16);
    assert!(buf.iter().any(|&x| x != 0));
    assert_eq!(rng.get_call_count(), 2);
}

#[test]
fn random_mixing_is_exact() {
    assert_eq!(RandomAPI::mixed(0, 5), 5);
    assert_eq!(RandomAPI::mixed(1, 1), 6364136223846793006);
    assert_eq!(RandomAPI::mixed(2, 0), 6364136223846793005u64.wrapping_mul(2));
    assert_eq!(RandomAPI::upper_half(0xDEAD_BEEF_0000_0001), 0xDEAD_BEEF);
    assert_eq!(RandomAPI::pick_in_range(23, 10, 20), 13);
    assert_eq!(RandomAPI::pick_in_range(u64::MAX, i64::MIN, i64::MAX), i64::MIN);
    assert_eq!(RandomAPI::pick_in_range(7, -3, 0), -2);
    let mut rng = RandomAPI::new();
    let _ = rng.random_u32();
    assert_eq!(rng.get_call_count(), 1);
}

#[test]
fn plugin_calls_are_answered_with_status_codes() {
    let mut host = HostAPI::new();
    let mut log = LoggingAPI::new();
    assert_eq!(abi::host_log(&mut host, &mut log, 2, None, 1), -1);
    assert_eq!(abi::host_log(&mut host, &mut log, 2, Some(&[0xff, 0xfe]), 1), -2);
    assert_eq!(log.get_log_count(), 0);
    assert_eq!(abi::host_log(&mut host, &mut log, 3, Some("caf\u{00e9}".as_bytes()), 9), 0);
    assert_eq!(host.get_log_count(), 3);
    assert_eq!(host.get_host_call_count(), 3);
    let entry = log.get_recent_logs(1).remove(0);
    assert_eq!(entry.message, "caf\u{00e9}");
    assert_eq!(entry.level, LogLevel::Warn);
    assert_eq!(entry.timestamp, 9);
    assert_eq!(entry.plugin_id, Some("plugin".to_string()));
    assert_eq!(abi::read_event_field(&mut host, 12, 100), b"field_12".to_vec());
    assert_eq!(abi::read_event_field(&mut host, 12, 3), b"fie".to_vec());
    assert_eq!(abi::read_event_field(&mut host, 0, 0), Vec::<u8>::new());
    assert_eq!(host.get_host_call_count(), 6);
    assert_eq!(abi::copy_out(&[1, 2, 3], 2), vec![1, 2]);
    assert_eq!(abi::copy_out(&[1, 2, 3], 3), vec![1, 2, 3]);
    assert_eq!(abi::copy_out(&[1, 2, 3], 9), vec![1, 2, 3]);
    assert_eq!(abi::count_status(5), 5);
    assert_eq!(abi::count_status(usize::MAX), i32::MAX);
    let mut kv = KvAPI::new();
    assert_eq!(abi::kv_set(&mut kv, b"k", b"value"), 0);
    assert_eq!(abi::kv_set(&mut kv, &[0xc0], b"value"), -2);
    assert_eq!(abi::kv_get(&kv, b"k", 3), Ok(b"val".to_vec()));
    assert_eq!(abi::kv_get(&kv, b"k", 64), Ok(b"value".to_vec()));
    assert_eq!(abi::kv_get(&kv, b"missing", 64), Err(-3));
    assert_eq!(abi::kv_get(&kv, &[0xc0], 64), Err(-2));
    assert_eq!(abi::kv_delete(&mut kv, b"k"), 0);
    assert_eq!(abi::kv_delete(&mut kv, b"k"), -3);
    assert_eq!(abi::kv_delete(&mut kv, &[0x80]), -2);
    let mut http = HttpAPI::new();
    assert_eq!(abi::http_answer(http.get("http://localhost/x"), 4), (200, b"{\"su".to_vec()));
    assert_eq!(abi::http_answer(http.get("http://elsewhere/x"), 4), (-3, vec![]));
    assert_eq!((abi::STATUS_OK, abi::STATUS_NULL_POINTER, abi::STATUS_INVALID_UTF8, abi::STATUS_FAILED), (0, -1, -2, -3));
}

#[test]
fn test_random_f64() {
    let mut rng = RandomAPI::new();
    for _ in 0..100 {
        let r = rng.random_fraction() as f64 * (1.0 / ((1u64 << 53) as f64));
        assert!(r >= 0.0 && r < 1.0);
    }
    assert_eq!(RandomAPI::fraction_steps(u64::MAX), (1u64 << 53) - 1);
    assert_eq!(RandomAPI::fraction_steps(2047), 0);
    assert_eq!(RandomAPI::fraction_steps(2048), 1);
}

#[test]
fn random_bytes_take_one_number_for_every_eight() {
    for (len, calls) in [(0usize, 0u64), (1, 1), (7, 1), (8, 1), (9, 2), (16, 2), (17, 3)] {
        let mut rng = RandomAPI::new();
        let mut buf = vec![0u8; len];
        rng.random_bytes(&mut buf);
        assert_eq!(buf.len(), len);
        assert_eq!(rng.get_call_count(), calls, "{} bytes", len);
    }
    let mut rng = RandomAPI::new();
    rng.random_u32();
    rng.random_fraction();
    rng.random_range(0, 10);
    rng.random_range(5, 5);
    assert_eq!(rng.get_call_count(), 3);
    assert_eq!(RandomAPI::upper_half(RandomAPI::mixed(7, 3)), (RandomAPI::mixed(7, 3) >> 32) as u32);
}
