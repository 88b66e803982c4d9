use zenith::dataplane::router::EventRouter;
use zenith::dataplane::engine::{chain_verdict, Poll, ZenithEngine};
use zenith::dataplane::event::{EventHeader, ZenithEvent};
use zenith::dataplane::ffi_error;
use zenith::dataplane::ffi_error::{load_plugin_status, publish_outcome, publish_status, PublishOutcome};
use zenith::dataplane::validation::{
    sanitize_log_message, sanitize_string, ValidationError, Validator, MAX_ARGUMENTS, MAX_COMMAND_LENGTH,
    MAX_ENV_VARS, MAX_JOB_NAME_LENGTH, MAX_PATH_LENGTH, MAX_STRING_LENGTH,
};
use zenith::dataplane::wasm_host::{hook_arguments, hook_verdict, HookOutcome, WasmHost};
use zenith::dataplane::EngineError;
use zenith::dataplane::reload::{is_plugin_file, wants_reload, ChangeKind};
use zenith::runtime_cpu::buffer::{next_power_of_two, MpmcRingBuffer, RingBuffer, SpscRingBuffer};

const MINIMAL_WASM: [u8; 8] = [0x00, 0x61, 0x73, 0x6D, 0x01, 0x00, 0x00, 0x00];

// (module (func (export "on_event") (param i32 i64) (result i32) i32.const K))
fn constant_plugin(k: u8) -> Vec<u8> {
    vec![
        0x00, 0x61, 0x73, 0x6D, 0x01, 0x00, 0x00, 0x00, // header
        0x01, 0x07, 0x01, 0x60, 0x02, 0x7F, 0x7E, 0x01, 0x7F, // type (i32, i64) -> i32
        0x03, 0x02, 0x01, 0x00, // function 0 of type 0
        0x07, 0x0C, 0x01, 0x08, b'o', b'n', b'_', b'e', b'v', b'e', b'n', b't', 0x00, 0x00, // export
        0x0A, 0x06, 0x01, 0x04, 0x00, 0x41, k, 0x0B, // body: i32.const k
    ]
}

// (module (func (export "on_event") (param i32 i64) (result i32) local.get 0))
fn echo_source_plugin() -> Vec<u8> {
    vec![
        0x00, 0x61, 0x73, 0x6D, 0x01, 0x00, 0x00, 0x00, 0x01, 0x07, 0x01, 0x60, 0x02, 0x7F, 0x7E, 0x01, 0x7F,
        0x03, 0x02, 0x01, 0x00, 0x07, 0x0C, 0x01, 0x08, b'o', b'n', b'_', b'e', b'v', b'e', b'n', b't', 0x00,
        0x00, 0x0A, 0x06, 0x01, 0x04, 0x00, 0x20, 0x00, 0x0B,
    ]
}

// (module (func (export "on_event") (param i32 i64) (result i32) unreachable))
fn trapping_plugin() -> Vec<u8> {
    vec![
        0x00, 0x61, 0x73, 0x6D, 0x01, 0x00, 0x00, 0x00, 0x01, 0x07, 0x01, 0x60, 0x02, 0x7F, 0x7E, 0x01, 0x7F,
        0x03, 0x02, 0x01, 0x00, 0x07, 0x0C, 0x01, 0x08, b'o', b'n', b'_', b'e', b'v', b'e', b'n', b't', 0x00,
        0x00, 0x0A, 0x05, 0x01, 0x03, 0x00, 0x00, 0x0B,
    ]
}

fn event(source_id: u32, seq_no: u64) -> ZenithEvent<Vec<i32>> {
    ZenithEvent::new(source_id, seq_no, vec![1, 2, 3])
}

#[test]
fn test_spsc_basic() {
    let mut buffer = SpscRingBuffer::<u64>::new(4);
    assert!(buffer.is_empty());
    assert!(!buffer.is_full());
    assert_eq!(buffer.capacity(), 4);
    buffer.try_push(1).unwrap();
    buffer.try_push(2).unwrap();
    buffer.try_push(3).unwrap();
    assert_eq!(buffer.len(), 3);
    assert_eq!(buffer.try_pop(), Some(1));
    assert_eq!(buffer.try_pop(), Some(2));
    assert_eq!(buffer.try_pop(), Some(3));
    assert_eq!(buffer.try_pop(), None);
}

#[test]
fn test_spsc_full() {
    let mut buffer = SpscRingBuffer::<u64>::new(2);
    buffer.try_push(1).unwrap();
    buffer.try_push(2).unwrap();
    assert!(buffer.is_full());
    let result = buffer.try_push(3);
    assert!(result.is_err());
    assert_eq!(result.unwrap_err(), 3);
}

#[test]
fn test_spsc_concurrent() {
    let mut buffer = SpscRingBuffer::<u64>::new(1024);
    let count: u64 = 10_000;
    let mut next: u64 = 0;
    let mut received: u64 = 0;
    let mut sum: u64 = 0;
    let mut turn: u64 = 0;
    while received < count {
        turn += 1;
        let pushes = (turn * 7919) % 1500;
        for _ in 0..pushes {
            if next < count && buffer.try_push(next).is_ok() {
                next += 1;
            }
        }
        let pops = (turn * 104729) % 1300;
        for _ in 0..pops {
            if let Some(value) = buffer.try_pop() {
                assert_eq!(value, received);
                sum += value;
                received += 1;
            }
        }
        assert!(buffer.len() <= buffer.capacity());
    }
    assert_eq!(sum, count * (count - 1) / 2);
}

#[test]
fn ring_of_one_takes_one() {
    let mut buffer = SpscRingBuffer::<u8>::new(1);
    assert_eq!(buffer.capacity(), 1);
    assert!(buffer.try_push(7).is_ok());
    assert_eq!(buffer.try_push(8), Err(8));
    assert_eq!(buffer.len(), 1);
    assert_eq!(buffer.try_pop(), Some(7));
    assert!(buffer.try_push(9).is_ok());
}

#[test]
fn ring_back_pressure() {
    let mut buffer = SpscRingBuffer::<String>::new(2);
    buffer.try_push("a".to_string()).unwrap();
    buffer.try_push("b".to_string()).unwrap();
    assert_eq!(buffer.try_push("c".to_string()), Err("c".to_string()));
    assert_eq!(buffer.try_pop(), Some("a".to_string()));
    assert!(buffer.try_push("c".to_string()).is_ok());
    assert_eq!(buffer.try_pop(), Some("b".to_string()));
    assert_eq!(buffer.try_pop(), Some("c".to_string()));
}

#[test]
fn ring_capacity_is_rounded_up() {
    assert_eq!(SpscRingBuffer::<u8>::new(3).capacity(), 4);
    assert_eq!(SpscRingBuffer::<u8>::new(5).capacity(), 8);
    assert_eq!(SpscRingBuffer::<u8>::new(1000).capacity(), 1024);
    assert_eq!(next_power_of_two(1), 1);
    assert_eq!(next_power_of_two(2), 2);
    assert_eq!(next_power_of_two(1025), 2048);
}

#[test]
fn ring_wraps_around_many_times() {
    let mut buffer = SpscRingBuffer::<u32>::new(4);
    for round in 0..1000u32 {
        buffer.try_push(round).unwrap();
        buffer.try_push(round + 1).unwrap();
        buffer.try_push(round + 2).unwrap();
        assert_eq!(buffer.try_pop(), Some(round));
        assert_eq!(buffer.try_pop(), Some(round + 1));
        assert_eq!(buffer.try_pop(), Some(round + 2));
        assert!(buffer.is_empty());
    }
}

#[test]
fn ring_batches() {
    let mut buffer = SpscRingBuffer::<u32>::new(4);
    let mut items = vec![1, 2, 3, 4, 5, 6];
    assert_eq!(buffer.push_batch(&mut items), 4);
    assert_eq!(items, vec![1]);
    assert_eq!(buffer.pop_batch(3), vec![6, 5, 4]);
    assert_eq!(buffer.pop_batch(3), vec![3]);
    assert_eq!(buffer.pop_batch(3), Vec::<u32>::new());
    let mut few = vec![9, 8];
    assert_eq!(buffer.push_batch(&mut few), 2);
    assert!(few.is_empty());
    assert_eq!(buffer.pop_batch(0), Vec::<u32>::new());
    assert_eq!(buffer.len(), 2);
}

#[test]
fn test_allowed_flag_logic() {
    assert!(chain_verdict(&vec![Ok(true)]));
    assert!(!chain_verdict(&vec![Ok(false)]));
}

#[test]
fn test_event_allowed_semantics() {
    assert!(chain_verdict(&vec![Ok(true), Ok(true), Ok(true)]));
    assert!(!chain_verdict(&vec![Ok(true), Ok(false), Ok(true)]));
    assert!(!chain_verdict(&vec![Ok(false), Ok(false), Ok(false)]));
}

#[test]
fn a_failed_plugin_does_not_reject() {
    let failed = || Err(EngineError::RuntimeError("trap".to_string()));
    assert!(chain_verdict(&vec![]));
    assert!(chain_verdict(&vec![failed()]));
    assert!(chain_verdict(&vec![Ok(true), failed()]));
    assert!(!chain_verdict(&vec![failed(), Ok(false)]));
}

#[test]
fn test_on_event_return_value_semantics() {
    assert!(matches!(hook_verdict(HookOutcome::Returned(1)), Ok(true)));
    assert!(matches!(hook_verdict(HookOutcome::Returned(0)), Ok(false)));
    assert!(matches!(hook_verdict(HookOutcome::Returned(-1)), Ok(true)));
    assert!(matches!(hook_verdict(HookOutcome::Missing), Ok(true)));
    match hook_verdict(HookOutcome::Trapped("boom".to_string())) {
        Err(EngineError::RuntimeError(m)) => assert_eq!(m, "boom"),
        _ => panic!("a trap is a runtime error"),
    }
}

#[test]
fn test_wasm_host_creation() {
    let result = WasmHost::new();
    assert!(result.is_ok(), "WasmHost creation should succeed");
}

#[test]
fn test_wasm_host_load_invalid_plugin() {
    let host = WasmHost::new().unwrap();
    let invalid_wasm = b"invalid wasm bytes";
    let result = host.load_plugin(invalid_wasm);
    assert!(matches!(result, Err(EngineError::LoadFailed(_))), "Invalid WASM should fail to load");
}

#[test]
fn test_wasm_host_load_valid_minimal_wasm() {
    let host = WasmHost::new().unwrap();
    let result = host.load_plugin(&MINIMAL_WASM);
    assert!(result.is_ok());
}

#[test]
fn test_wasm_plugin_on_event_default_true() {
    let host = WasmHost::new().unwrap();
    let mut plugin = host.load_plugin(&MINIMAL_WASM).unwrap();
    assert!(matches!(plugin.ask(1, 100), HookOutcome::Missing));
    let result = plugin.on_event(1, 100);
    assert!(result.is_ok(), "on_event should return Ok");
    assert!(result.unwrap(), "on_event should return true when function not found");
}

#[test]
fn plugins_decide_by_their_result() {
    let host = WasmHost::new().unwrap();
    let mut allow = host.load_plugin(&constant_plugin(1)).unwrap();
    assert!(matches!(allow.ask(3, 4), HookOutcome::Returned(1)));
    assert!(allow.on_event(3, 4).unwrap());
    let mut reject = host.load_plugin(&constant_plugin(0)).unwrap();
    assert!(!reject.on_event(3, 4).unwrap());
    let mut echo = host.load_plugin(&echo_source_plugin()).unwrap();
    assert!(matches!(echo.ask(42, 0), HookOutcome::Returned(42)));
    assert!(matches!(echo.ask(u32::MAX, 0), HookOutcome::Returned(-1)));
    assert!(!echo.on_event(0, 9).unwrap());
    assert!(echo.on_event(5, 9).unwrap());
    let mut trap = host.load_plugin(&trapping_plugin()).unwrap();
    assert!(matches!(trap.on_event(1, 1), Err(EngineError::RuntimeError(_))));
}

#[test]
fn test_engine_creation() {
    let result = ZenithEngine::<Vec<i32>>::new(1024);
    assert!(result.is_ok(), "Engine creation should succeed");
    let engine = result.unwrap();
    assert_eq!(engine.pending_count(), 0);
    assert_eq!(engine.plugin_count(), 0);
}

#[test]
fn test_engine_shutdown_sets_flag() {
    let mut engine = ZenithEngine::<Vec<i32>>::new(1024).unwrap();
    assert!(engine.is_running());
    engine.shutdown();
    assert!(!engine.is_running());
    assert_eq!(engine.poll(), Poll::Stopped);
}

#[test]
fn test_engine_get_ring_buffer() {
    let mut engine = ZenithEngine::<Vec<i32>>::new(2).unwrap();
    assert_eq!(engine.pending_count(), 0);
    engine.publish(event(1, 1)).unwrap();
    engine.publish(event(1, 2)).unwrap();
    let back = engine.publish(event(1, 3)).unwrap_err();
    assert_eq!(back.header.seq_no, 3);
    assert_eq!(back.payload, vec![1, 2, 3]);
    assert_eq!(engine.pending_count(), 2);
}

#[test]
fn test_engine_load_plugin_with_invalid_wasm() {
    let mut engine = ZenithEngine::<Vec<i32>>::new(1024).unwrap();
    let invalid_wasm = b"not valid wasm bytes";
    let result = engine.load_plugin(invalid_wasm);
    assert!(result.is_err(), "Invalid WASM should fail to load");
    assert_eq!(engine.plugin_count(), 0);
}

#[test]
fn test_engine_multiple_operations() {
    let mut engine = ZenithEngine::<Vec<i32>>::new(1024).unwrap();
    assert_eq!(engine.pending_count(), 0);
    engine.shutdown();
    assert!(!engine.is_running());
}

#[test]
fn test_engine_event_flow() {
    let mut engine = ZenithEngine::<Vec<i32>>::new(100).unwrap();
    assert_eq!(engine.poll(), Poll::Idle);
    engine.publish(event(1, 100)).unwrap();
    assert_eq!(engine.poll(), Poll::Accepted);
    assert_eq!(engine.pending_count(), 0);
    assert_eq!(engine.poll(), Poll::Idle);
    engine.shutdown();
    assert_eq!(engine.poll(), Poll::Stopped);
}

#[test]
fn allow_by_default_plugin() {
    let mut engine = ZenithEngine::<Vec<i32>>::new(16).unwrap();
    engine.load_plugin(&MINIMAL_WASM).unwrap();
    assert_eq!(engine.plugin_count(), 1);
    let before = engine.accepted_count();
    engine.publish(event(1, 100)).unwrap();
    assert_eq!(engine.process_next(), Some(true));
    assert_eq!(engine.accepted_count(), before + 1);
    assert_eq!(engine.dropped_count(), 0);
    assert_eq!(engine.process_next(), None);
}

#[test]
fn one_reject_drops_the_event() {
    let mut engine = ZenithEngine::<Vec<i32>>::new(16).unwrap();
    engine.load_plugin(&constant_plugin(1)).unwrap();
    engine.load_plugin(&echo_source_plugin()).unwrap();
    engine.load_plugin(&trapping_plugin()).unwrap();
    engine.publish(event(0, 1)).unwrap();
    engine.publish(event(7, 2)).unwrap();
    let answers = engine.dispatch(&EventHeader { source_id: 0, seq_no: 1, timestamp_ns: 0 });
    assert_eq!(answers.len(), 3);
    assert!(matches!(answers[0], Ok(true)));
    assert!(matches!(answers[1], Ok(false)));
    assert!(matches!(answers[2], Err(EngineError::RuntimeError(_))));
    assert_eq!(engine.poll(), Poll::Dropped);
    assert_eq!(engine.poll(), Poll::Accepted);
    assert_eq!(engine.accepted_count(), 1);
    assert_eq!(engine.dropped_count(), 1);
}

#[test]
fn events_carry_their_header() {
    let e = ZenithEvent::with_timestamp(3, 9, 77, "payload");
    assert_eq!(e.header, EventHeader { source_id: 3, seq_no: 9, timestamp_ns: 77 });
    assert_eq!(e.payload, "payload");
    let n = ZenithEvent::new(1, 2, 0u8);
    assert_eq!(n.header.source_id, 1);
    assert_eq!(n.header.seq_no, 2);
    assert!(n.header.timestamp_ns > 1_600_000_000_000_000_000);
}

#[test]
fn status_codes() {
    assert_eq!(ffi_error::SUCCESS, 0);
    assert_eq!(ffi_error::NULL_POINTER, -1);
    assert_eq!(ffi_error::BUFFER_FULL, -2);
    assert_eq!(ffi_error::PANIC, -3);
    assert_eq!(ffi_error::FFI_ERROR, -4);
    assert_eq!(ffi_error::INIT_FAILED, -5);
    assert_eq!(publish_status(publish_outcome(true, true, true)), -1);
    assert_eq!(publish_status(publish_outcome(false, false, true)), -4);
    assert_eq!(publish_status(publish_outcome(false, true, false)), -2);
    assert_eq!(publish_status(publish_outcome(false, true, true)), 0);
    assert_eq!(publish_status(PublishOutcome::Panicked), -3);
    assert_eq!(load_plugin_status(true, true), -1);
    assert_eq!(load_plugin_status(false, false), -2);
    assert_eq!(load_plugin_status(false, true), 0);
}

#[test]
fn test_validate_job_name() {
    let v = Validator::new();
    assert!(v.validate_job_name("my-job-123").is_ok());
    assert!(v.validate_job_name("test_job").is_ok());
    assert!(v.validate_job_name("").is_err());
    assert!(v.validate_job_name("my job").is_err());
    assert!(v.validate_job_name("job;rm -rf").is_err());
}

#[test]
fn job_name_errors_say_what_is_wrong() {
    let v = Validator::default();
    match v.validate_job_name("   ") {
        Err(ValidationError::Empty(field)) => assert_eq!(field, "job_name"),
        _ => panic!("blank name"),
    }
    match v.validate_job_name(&"x".repeat(257)) {
        Err(ValidationError::TooLong { field, max, actual }) => {
            assert_eq!(field, "job_name");
            assert_eq!(max, MAX_JOB_NAME_LENGTH);
            assert_eq!(actual, 257);
        }
        _ => panic!("long name"),
    }
    assert!(v.validate_job_name(&"x".repeat(256)).is_ok());
    match v.validate_job_name("a b;c") {
        Err(e) => {
            assert_eq!(e.message(), "job_name contains invalid characters:  ;");
        }
        _ => panic!("bad characters"),
    }
    assert!(v.validate_job_name("j\u{00e9}r\u{00f4}me_1").is_ok());
}

#[test]
fn test_validate_path() {
    let v = Validator::new();
    assert!(v.validate_path("/home/user/data").is_ok());
    assert!(v.validate_path("../../../etc/passwd").is_err());
    assert!(v.validate_path("/path/with\0null").is_err());
}

#[test]
fn path_errors_say_what_is_wrong() {
    let v = Validator::new();
    assert_eq!(
        v.validate_path("a/../b").unwrap_err().message(),
        "path contains forbidden pattern: .."
    );
    assert_eq!(
        v.validate_path("a\0b").unwrap_err().message(),
        "path contains invalid characters: null byte"
    );
    assert_eq!(
        v.validate_path(&"p".repeat(MAX_PATH_LENGTH + 1)).unwrap_err().message(),
        "path too long: 4097 > 4096 max"
    );
    assert!(v.validate_path(&"p".repeat(MAX_PATH_LENGTH)).is_ok());
    assert!(v.validate_path("").is_ok());
    assert!(v.validate_path("a.b/c.d").is_ok());
}

#[test]
fn test_validate_command() {
    let v = Validator::new();
    assert!(v.validate_command("python train.py").is_ok());
    assert!(v.validate_command("python").is_ok());
    assert!(v.validate_command("python3 -m pytest").is_ok());
    assert!(v.validate_command("$(cat /etc/passwd)").is_err());
    assert!(v.validate_command("echo `whoami`").is_err());
    assert!(v.validate_command("cmd1 && cmd2").is_err());
    assert!(v.validate_command("cmd1 || cmd2").is_err());
    assert!(v.validate_command("cmd ; rm -rf /").is_err());
    assert!(v.validate_command("cat file | grep secret").is_err());
    assert!(v.validate_command("echo > /etc/passwd").is_err());
}

#[test]
fn command_errors_name_the_first_pattern() {
    let v = Validator::new();
    assert_eq!(
        v.validate_command("a $((1)) | b").unwrap_err().message(),
        "command contains forbidden pattern: $(("
    );
    assert_eq!(v.validate_command("a $(b)").unwrap_err().message(), "command contains forbidden pattern: $(");
    assert_eq!(v.validate_command("a || b").unwrap_err().message(), "command contains forbidden pattern: ||");
    assert_eq!(v.validate_command("a | b > c").unwrap_err().message(), "command contains forbidden pattern: |");
    assert_eq!(v.validate_command("cat < in").unwrap_err().message(), "command contains forbidden pattern: <");
    assert_eq!(v.validate_command("cd ..").unwrap_err().message(), "command contains forbidden pattern: ..");
    assert_eq!(v.validate_command(" \t").unwrap_err().message(), "command cannot be empty");
    assert!(matches!(
        v.validate_command(&"c".repeat(MAX_COMMAND_LENGTH + 1)),
        Err(ValidationError::TooLong { .. })
    ));
}

#[test]
fn test_validate_range() {
    let v = Validator::new();
    assert!(v.validate_gpu_count(0).is_ok());
    assert!(v.validate_gpu_count(8).is_ok());
    assert!(v.validate_priority(0).is_ok());
    assert!(v.validate_priority(-100).is_ok());
}

#[test]
fn range_bounds_are_inclusive() {
    let v = Validator::new();
    assert!(v.validate_gpu_count(1024).is_ok());
    assert_eq!(
        v.validate_gpu_count(1025).unwrap_err().message(),
        "gpu_count out of range: 1025 not in [0, 1024]"
    );
    assert!(v.validate_priority(1000).is_ok());
    assert!(v.validate_priority(-1000).is_ok());
    assert_eq!(
        v.validate_priority(-1001).unwrap_err().message(),
        "priority out of range: -1001 not in [-1000, 1000]"
    );
    assert!(v.validate_buffer_size(1).is_ok());
    assert!(v.validate_buffer_size(1 << 30).is_ok());
    assert!(v.validate_buffer_size(0).is_err());
    assert!(v.validate_buffer_size((1 << 30) + 1).is_err());
    assert!(v.validate_range("x", i64::MIN, i64::MIN, i64::MAX).is_ok());
    assert_eq!(
        v.validate_range("x", i64::MIN, 0, 1).unwrap_err().message(),
        "x out of range: -9223372036854775808 not in [0, 1]"
    );
    assert!(v.validate_length("f", "abc", 3).is_ok());
    assert_eq!(v.validate_length("f", "abcd", 3).unwrap_err().message(), "f too long: 4 > 3 max");
    assert_eq!(v.validate_length("f", "\u{00e9}", 1).unwrap_err().message(), "f too long: 2 > 1 max");
    assert!(v.require_non_empty("f", " x ").is_ok());
    assert_eq!(ValidationError::Invalid("oops".to_string()).message(), "Validation error: oops");
    assert_eq!(MAX_ENV_VARS, 1000);
    assert_eq!(MAX_ARGUMENTS, 1000);
}

#[test]
fn test_sanitize() {
    assert_eq!(sanitize_string("hello\x00world"), "helloworld");
    assert_eq!(sanitize_string("line1\nline2"), "line1\nline2");
}

#[test]
fn sanitize_keeps_tabs_and_cuts_long_messages() {
    assert_eq!(sanitize_string("a\tb\r\x1bc\u{0085}d"), "a\tbcd");
    assert_eq!(sanitize_log_message("ok\x07"), "ok");
    let long = "m".repeat(MAX_STRING_LENGTH + 5);
    let cut = sanitize_log_message(&long);
    assert_eq!(cut, format!("{}... [truncated]", "m".repeat(MAX_STRING_LENGTH)));
    let exact = "m".repeat(MAX_STRING_LENGTH);
    assert_eq!(sanitize_log_message(&exact), exact);
}

#[test]
fn test_mpmc_basic() {
    let mut buffer = MpmcRingBuffer::new(4);
    buffer.try_push(1).unwrap();
    buffer.try_push(2).unwrap();
    assert_eq!(buffer.try_pop(), Some(1));
    assert_eq!(buffer.try_pop(), Some(2));
    assert_eq!(buffer.try_pop(), None);
}

#[test]
fn mpmc_ring_keeps_its_capacity() {
    let mut buffer = MpmcRingBuffer::new(3);
    assert_eq!(buffer.capacity(), 3);
    assert!(buffer.is_empty());
    for v in [10, 20, 30] {
        assert!(buffer.try_push(v).is_ok());
    }
    assert!(buffer.is_full());
    assert_eq!(buffer.len(), 3);
    assert_eq!(buffer.try_push(40), Err(40));
    assert_eq!(buffer.try_pop(), Some(10));
    assert!(buffer.try_push(40).is_ok());
    assert_eq!(buffer.try_pop(), Some(20));
    assert_eq!(buffer.try_pop(), Some(30));
    assert_eq!(buffer.try_pop(), Some(40));
    assert!(buffer.is_empty());
}

#[test]
fn only_new_and_changed_plugin_files_are_loaded() {
    assert!(is_plugin_file("/plugins/filter.wasm"));
    assert!(!is_plugin_file("/plugins/filter.wat"));
    assert!(!is_plugin_file("/plugins/wasm"));
    assert!(!is_plugin_file("/plugins/filter.WASM"));
    assert!(wants_reload(ChangeKind::Created, "a.wasm"));
    assert!(wants_reload(ChangeKind::Modified, "a.wasm"));
    assert!(!wants_reload(ChangeKind::Removed, "a.wasm"));
    assert!(!wants_reload(ChangeKind::Other, "a.wasm"));
    assert!(!wants_reload(ChangeKind::Modified, "a.txt"));
}

#[test]
fn routes_keep_senders_by_producer() {
    let mut router: EventRouter<&str> = EventRouter::new();
    assert!(router.route(1).is_none());
    router.add_route(1, "a");
    router.add_route(2, "b");
    router.add_route(1, "c");
    assert_eq!(router.route(1), Some(&vec!["a", "c"]));
    assert_eq!(router.route(2), Some(&vec!["b"]));
    assert_eq!(router.route(3), None);
    assert!(EventRouter::<u8>::default().route(0).is_none());
}

// (module (func (export "on_event") (result i32) i32.const 0))
fn plugin_with_a_hook_of_another_type() -> Vec<u8> {
    vec![
        0x00, 0x61, 0x73, 0x6D, 0x01, 0x00, 0x00, 0x00, // header
        0x01, 0x05, 0x01, 0x60, 0x00, 0x01, 0x7F, // type () -> i32
        0x03, 0x02, 0x01, 0x00, // function 0 of type 0
        0x07, 0x0C, 0x01, 0x08, b'o', b'n', b'_', b'e', b'v', b'e', b'n', b't', 0x00, 0x00, // export
        0x0A, 0x06, 0x01, 0x04, 0x00, 0x41, 0x00, 0x0B, // body: i32.const 0
    ]
}

#[test]
fn a_plugin_without_the_hook_allows_every_event() {
    let host = WasmHost::new().unwrap();
    let mut bare = host.load_plugin(&MINIMAL_WASM).unwrap();
    assert!(!bare.implements_hook());
    for (source_id, seq_no) in [(0, 0), (1, 100), (u32::MAX, u64::MAX)] {
        assert!(matches!(bare.ask(source_id, seq_no), HookOutcome::Missing));
        assert_eq!(bare.on_event(source_id, seq_no).ok(), Some(true));
    }
    let mut other = host.load_plugin(&plugin_with_a_hook_of_another_type()).unwrap();
    assert!(!other.implements_hook());
    assert!(matches!(other.ask(1, 1), HookOutcome::Missing));
    assert_eq!(other.on_event(1, 1).ok(), Some(true));
    let mut reject = host.load_plugin(&constant_plugin(0)).unwrap();
    assert!(reject.implements_hook());
    assert!(matches!(reject.ask(1, 1), HookOutcome::Returned(0)));
    assert_eq!(reject.on_event(1, 1).ok(), Some(false));
    assert!(reject.implements_hook());
}

#[test]
fn the_hook_gets_the_numbers_with_the_same_bits() {
    assert_eq!(hook_arguments(0, 0), (0, 0));
    assert_eq!(hook_arguments(1, 100), (1, 100));
    assert_eq!(hook_arguments(0x7fff_ffff, 0x7fff_ffff_ffff_ffff), (i32::MAX, i64::MAX));
    assert_eq!(hook_arguments(0x8000_0000, 0x8000_0000_0000_0000), (i32::MIN, i64::MIN));
    assert_eq!(hook_arguments(u32::MAX, u64::MAX), (-1, -1));
    for (source_id, seq_no) in [(12345u32, 987654321u64), (0xdead_beef, 0xfeed_face_cafe_f00d)] {
        assert_eq!(hook_arguments(source_id, seq_no), (source_id as i32, seq_no as i64));
    }
}

#[test]
fn a_chain_without_hooks_accepts() {
    let mut engine = ZenithEngine::<Vec<i32>>::new(4).unwrap();
    engine.load_plugin(&MINIMAL_WASM).unwrap();
    engine.load_plugin(&MINIMAL_WASM).unwrap();
    assert!(!engine.plugin_implements_hook(0));
    assert!(!engine.plugin_implements_hook(1));
    assert!(!engine.plugin_implements_hook(2));
    engine.publish(event(1, 100)).unwrap();
    engine.publish(event(1, 101)).unwrap();
    assert_eq!(engine.process_next(), Some(true));
    assert_eq!(engine.poll(), Poll::Accepted);
    assert_eq!((engine.accepted_count(), engine.dropped_count()), (2, 0));
    engine.load_plugin(&constant_plugin(0)).unwrap();
    assert!(engine.plugin_implements_hook(2));
    engine.publish(event(1, 102)).unwrap();
    assert_eq!(engine.poll(), Poll::Dropped);
    assert_eq!((engine.accepted_count(), engine.dropped_count()), (2, 1));
}

#[test]
fn the_verdict_is_counted_from_the_answers() {
    let mut engine = ZenithEngine::<Vec<i32>>::new(4).unwrap();
    let trapped = || Err(EngineError::RuntimeError("trap".to_string()));
    assert!(engine.settle(&vec![]));
    assert!(engine.settle(&vec![Ok(true), trapped(), Ok(true)]));
    assert_eq!((engine.accepted_count(), engine.dropped_count()), (2, 0));
    assert!(!engine.settle(&vec![Ok(true), Ok(false), Ok(true)]));
    assert!(!engine.settle(&vec![Ok(false)]));
    assert!(!engine.settle(&vec![trapped(), Ok(false)]));
    assert_eq!((engine.accepted_count(), engine.dropped_count()), (2, 3));
    assert_eq!(engine.pending_count(), 0);
}
