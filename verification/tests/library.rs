use std::sync::Arc;

use amd_smi_wrapper::error::{message_for_status, AmdError, AmdInitError};
use amd_smi_wrapper::handles::{AMDSMI_GPU_UUID_SIZE, AMDSMI_MAX_FAN_SPEED};
use amd_smi_wrapper::processes::{
    process_list_start, process_list_step, written_entries, ProcessListStep, ProcessQuery,
};
use amd_smi_wrapper::status::{
    amdsmi_init_flags_t, amdsmi_status_t, AmdStatus, AMDSMI_INIT_AMD_APUS, AMDSMI_INIT_AMD_CPUS, AMDSMI_INIT_AMD_GPUS,
    AMDSMI_INIT_ALL_PROCESSORS, AMDSMI_STATUS_INVAL, AMDSMI_STATUS_NOT_SUPPORTED,
    AMDSMI_STATUS_OUT_OF_RESOURCES, AMDSMI_STATUS_SUCCESS, AMDSMI_STATUS_UNKNOWN_ERROR,
};
use amd_smi_wrapper::text::{c_string_bytes, push_decimal};
use amd_smi_wrapper::{AmdSmi, LIB_PATH};

/// A stand-in for the loaded library.
#[derive(Debug, PartialEq)]
struct FakeLibrary(u32);

fn session() -> Arc<AmdSmi<FakeLibrary>> {
    match AmdSmi::init(FakeLibrary(7), amdsmi_status_t(AMDSMI_STATUS_SUCCESS), None) {
        Ok(smi) => smi,
        Err(_) => panic!("a successful init must give a session"),
    }
}

fn ok_status() -> AmdStatus {
    amdsmi_status_t(AMDSMI_STATUS_SUCCESS)
}

#[test]
fn status_success_is_only_zero() {
    assert!(amdsmi_status_t(AMDSMI_STATUS_SUCCESS).is_success());
    assert!(!amdsmi_status_t(AMDSMI_STATUS_INVAL).is_success());
    assert!(!amdsmi_status_t(AMDSMI_STATUS_UNKNOWN_ERROR).is_success());
}

#[test]
fn check_status_success_is_ok() {
    let smi = session();
    assert_eq!(smi.check_status(ok_status(), Some("ignored".to_string())), Ok(()));
}

#[test]
fn check_status_failure_carries_status_and_message() {
    let smi = session();
    let res = smi.check_status(amdsmi_status_t(AMDSMI_STATUS_NOT_SUPPORTED), Some("not supported".to_string()));
    assert_eq!(
        res,
        Err(AmdError { status: amdsmi_status_t(2), message: Some("not supported".to_string()) })
    );
    let res = smi.check_status(amdsmi_status_t(AMDSMI_STATUS_INVAL), None);
    assert_eq!(res, Err(AmdError { status: amdsmi_status_t(1), message: None }));
}

#[test]
fn checked_passes_the_value_on_success() {
    let smi = session();
    assert_eq!(smi.checked(ok_status(), None, 4096u64), Ok(4096u64));
    assert_eq!(
        smi.checked(amdsmi_status_t(8), None, 4096u64),
        Err(AmdError { status: amdsmi_status_t(8), message: None })
    );
}

#[test]
fn handle_slots_is_the_reported_count() {
    let smi = session();
    assert_eq!(smi.handle_slots(ok_status(), None, 4), Ok(4usize));
    assert_eq!(smi.handle_slots(ok_status(), None, 0), Ok(0usize));
    assert_eq!(
        smi.handle_slots(amdsmi_status_t(32), Some("not init".to_string()), 4),
        Err(AmdError { status: amdsmi_status_t(32), message: Some("not init".to_string()) })
    );
}

#[test]
fn init_keeps_the_library() {
    let smi = session();
    assert_eq!(*smi.library(), FakeLibrary(7));
}

#[test]
fn init_failure_is_an_init_error() {
    match AmdSmi::init(FakeLibrary(1), amdsmi_status_t(18), Some("init failed".to_string())) {
        Ok(_) => panic!("a failing status must not give a session"),
        Err(AmdInitError::Init(e)) => {
            assert_eq!(e, AmdError { status: amdsmi_status_t(18), message: Some("init failed".to_string()) });
        }
        Err(AmdInitError::Load(_)) => panic!("the library was loaded"),
    }
}

#[test]
fn init_error_texts() {
    let init = AmdInitError::from(AmdError { status: amdsmi_status_t(18), message: None });
    assert_eq!(init.describe(), "amd-smi init error");
    let load = AmdInitError::from(libloading::Error::DlOpenUnknown);
    assert!(matches!(load, AmdInitError::Load(_)));
    assert_eq!(load.describe(), "Failed to load libamd_smi.so");
    assert_eq!(LIB_PATH, "libamd_smi.so");
}

#[test]
fn error_text_with_message() {
    let e = AmdError { status: amdsmi_status_t(AMDSMI_STATUS_OUT_OF_RESOURCES), message: Some("Not enough memory".to_string()) };
    assert_eq!(e.describe(), "amd-smi error amdsmi_status_t(15): Not enough memory");
}

#[test]
fn error_text_without_message() {
    let e = AmdError { status: amdsmi_status_t(AMDSMI_STATUS_UNKNOWN_ERROR), message: None };
    assert_eq!(e.describe(), "amd-smi error amdsmi_status_t(4294967295)");
    let e = AmdError { status: amdsmi_status_t(0), message: None };
    assert_eq!(e.describe(), "amd-smi error amdsmi_status_t(0)");
}

#[test]
fn status_texts_differ_for_different_statuses() {
    let a = AmdError { status: amdsmi_status_t(1), message: None }.describe();
    let b = AmdError { status: amdsmi_status_t(10), message: None }.describe();
    assert_ne!(a, b);
}

#[test]
fn decimal_rendering() {
    let mut out = String::from("n=");
    push_decimal(&mut out, 1234567890);
    assert_eq!(out, "n=1234567890");
    let mut out = String::new();
    push_decimal(&mut out, 9);
    assert_eq!(out, "9");
    let mut out = String::new();
    push_decimal(&mut out, 10);
    assert_eq!(out, "10");
}

#[test]
fn message_for_status_decodes_text() {
    let msg = message_for_status(ok_status(), Some(b"Invalid parameters".to_vec()));
    assert_eq!(msg, Some("Invalid parameters".to_string()));
    let msg = message_for_status(ok_status(), Some("d\u{e9}j\u{e0}".as_bytes().to_vec()));
    assert_eq!(msg, Some("d\u{e9}j\u{e0}".to_string()));
}

#[test]
fn message_for_status_needs_a_successful_lookup() {
    assert_eq!(message_for_status(amdsmi_status_t(1), Some(b"text".to_vec())), None);
}

#[test]
fn message_for_status_needs_a_text() {
    assert_eq!(message_for_status(ok_status(), None), None);
}

#[test]
fn message_for_status_rejects_invalid_utf8() {
    assert_eq!(message_for_status(ok_status(), Some(vec![0x66, 0xff, 0x67])), None);
    assert_eq!(message_for_status(ok_status(), Some(vec![0xc3])), None);
}

#[test]
fn c_string_stops_at_first_nul() {
    assert_eq!(c_string_bytes(&[65, 66, 0, 67, 0]), vec![65, 66]);
    assert_eq!(c_string_bytes(&[0, 1, 2]), Vec::<u8>::new());
    assert_eq!(c_string_bytes(&[1, 2, 3]), vec![1, 2, 3]);
    assert_eq!(c_string_bytes(&[]), Vec::<u8>::new());
}

#[test]
fn socket_handles_are_cut_to_the_reported_count() {
    let smi = session();
    let handles = AmdSmi::socket_handles_from(&smi, ok_status(), None, 2, vec![0x10, 0x20, 0x30]).unwrap();
    let raws: Vec<usize> = handles.iter().map(|h| h.raw()).collect();
    assert_eq!(raws, vec![0x10, 0x20]);
    for h in &handles {
        assert!(Arc::ptr_eq(h.amdsmi(), &smi));
    }
}

#[test]
fn socket_handles_keep_the_buffer_when_count_exceeds_it() {
    let smi = session();
    let handles = AmdSmi::socket_handles_from(&smi, ok_status(), None, 9, vec![0x10, 0x20]).unwrap();
    let raws: Vec<usize> = handles.iter().map(|h| h.raw()).collect();
    assert_eq!(raws, vec![0x10, 0x20]);
}

#[test]
fn socket_handles_fail_with_the_status() {
    let smi = session();
    match AmdSmi::socket_handles_from(&smi, amdsmi_status_t(31), Some("not found".to_string()), 2, vec![1, 2]) {
        Ok(_) => panic!("a failing status must not give handles"),
        Err(e) => assert_eq!(e, AmdError { status: amdsmi_status_t(31), message: Some("not found".to_string()) }),
    }
}

#[test]
fn processor_handles_belong_to_the_socket_session() {
    let smi = session();
    let sockets = AmdSmi::socket_handles_from(&smi, ok_status(), None, 1, vec![0xa0]).unwrap();
    let procs = sockets[0].processor_handles_from(ok_status(), None, 3, vec![0xb0, 0xb1, 0xb2, 0xb3]).unwrap();
    let raws: Vec<usize> = procs.iter().map(|p| p.raw()).collect();
    assert_eq!(raws, vec![0xb0, 0xb1, 0xb2]);
    for p in &procs {
        assert!(Arc::ptr_eq(p.amdsmi(), &smi));
    }
    let none = sockets[0].processor_handles_from(ok_status(), None, 0, vec![0xb0]).unwrap();
    assert!(none.is_empty());
    match sockets[0].processor_handles_from(amdsmi_status_t(1), None, 1, vec![0xb0]) {
        Ok(_) => panic!("a failing status must not give handles"),
        Err(e) => assert_eq!(e, AmdError { status: amdsmi_status_t(1), message: None }),
    }
}

fn processor() -> amd_smi_wrapper::handles::AmdProcessorHandle<FakeLibrary> {
    let smi = session();
    let sockets = AmdSmi::socket_handles_from(&smi, ok_status(), None, 1, vec![0xa0]).unwrap();
    let mut procs = sockets[0].processor_handles_from(ok_status(), None, 1, vec![0xb0]).unwrap();
    procs.remove(0)
}

#[test]
fn fan_speed_ratio_formula() {
    let p = processor();
    assert_eq!(AMDSMI_MAX_FAN_SPEED, 255);
    assert_eq!(p.fan_speed_from(ok_status(), None, 255), Ok(100));
    assert_eq!(p.fan_speed_from(ok_status(), None, 51), Ok(20));
    assert_eq!(p.fan_speed_from(ok_status(), None, 254), Ok(99));
    assert_eq!(p.fan_speed_from(ok_status(), None, 128), Ok(50));
    assert_eq!(p.fan_speed_from(ok_status(), None, 1), Ok(0));
    assert_eq!(p.fan_speed_from(ok_status(), None, 0), Ok(0));
    assert_eq!(
        p.fan_speed_from(amdsmi_status_t(2), None, 255),
        Err(AmdError { status: amdsmi_status_t(2), message: None })
    );
}

#[test]
fn fan_speed_ratio_rises_with_speed_up_to_100() {
    let p = processor();
    let mut previous = 0;
    for speed in 0..=255i64 {
        let ratio = p.fan_speed_from(ok_status(), None, speed).unwrap();
        assert!(ratio >= previous && ratio <= 100);
        assert_eq!(ratio as i64, speed * 100 / 255);
        previous = ratio;
    }
}

#[test]
fn fan_speed_outside_the_reported_range() {
    let p = processor();
    assert_eq!(p.fan_speed_from(ok_status(), None, 510), Ok(200));
    assert_eq!(p.fan_speed_from(ok_status(), None, -1), Ok(1_684_300_900));
}

fn uuid_buffer(text: &[u8]) -> Vec<u8> {
    let mut buffer = vec![0u8; AMDSMI_GPU_UUID_SIZE as usize];
    buffer[..text.len()].copy_from_slice(text);
    buffer
}

#[test]
fn uuid_read_in_place_when_terminated() {
    let p = processor();
    let buffer = uuid_buffer(b"0cff74a1-0000-1000-80fe-9cb0e9a1b2c3");
    assert_eq!(
        p.uuid_from(ok_status(), None, &buffer, AMDSMI_GPU_UUID_SIZE),
        Ok("0cff74a1-0000-1000-80fe-9cb0e9a1b2c3".to_string())
    );
}

#[test]
fn uuid_copied_when_not_terminated() {
    let p = processor();
    let mut buffer = vec![b'x'; AMDSMI_GPU_UUID_SIZE as usize];
    buffer[..4].copy_from_slice(b"abcd");
    assert_eq!(p.uuid_from(ok_status(), None, &buffer, 4), Ok("abcd".to_string()));
    let full = vec![b'7'; AMDSMI_GPU_UUID_SIZE as usize];
    assert_eq!(
        p.uuid_from(ok_status(), None, &full, AMDSMI_GPU_UUID_SIZE),
        Ok("7".repeat(AMDSMI_GPU_UUID_SIZE as usize))
    );
}

#[test]
fn uuid_stops_at_an_inner_nul() {
    let p = processor();
    let buffer = uuid_buffer(b"ab\0cd");
    assert_eq!(p.uuid_from(ok_status(), None, &buffer, 5), Ok("ab".to_string()));
    assert_eq!(p.uuid_from(ok_status(), None, &buffer, 6), Ok("ab".to_string()));
}

#[test]
fn uuid_not_utf8_is_an_error_with_success_status() {
    let p = processor();
    let buffer = uuid_buffer(&[0x61, 0xff, 0x62]);
    assert_eq!(
        p.uuid_from(ok_status(), Some("unused".to_string()), &buffer, 4),
        Err(AmdError { status: ok_status(), message: None })
    );
}

#[test]
fn uuid_failing_status() {
    let p = processor();
    let buffer = uuid_buffer(b"abc");
    assert_eq!(
        p.uuid_from(amdsmi_status_t(2), Some("not supported".to_string()), &buffer, 0),
        Err(AmdError { status: amdsmi_status_t(2), message: Some("not supported".to_string()) })
    );
}

fn done(step: ProcessListStep<u32>) -> Result<Vec<u32>, AmdError> {
    match step {
        ProcessListStep::Done(res) => res,
        ProcessListStep::Query(q) => panic!("unexpected further call {:?}", q),
    }
}

fn query(step: ProcessListStep<u32>) -> ProcessQuery {
    match step {
        ProcessListStep::Query(q) => q,
        ProcessListStep::Done(res) => panic!("unexpected end {:?}", res),
    }
}

#[test]
fn process_list_starts_by_counting() {
    assert_eq!(process_list_start(), ProcessQuery::Count);
}

#[test]
fn process_list_counting_outcomes() {
    let ok = ok_status();
    let oor = amdsmi_status_t(AMDSMI_STATUS_OUT_OF_RESOURCES);
    assert_eq!(query(process_list_step(ProcessQuery::Count, ok, 3, Vec::new())), ProcessQuery::Fill { capacity: 3 });
    assert_eq!(query(process_list_step(ProcessQuery::Count, oor, 5, Vec::new())), ProcessQuery::Fill { capacity: 5 });
    assert_eq!(done(process_list_step(ProcessQuery::Count, ok, 0, Vec::new())), Ok(Vec::new()));
    assert_eq!(done(process_list_step(ProcessQuery::Count, oor, 0, Vec::new())), Ok(Vec::new()));
    assert_eq!(
        done(process_list_step(ProcessQuery::Count, amdsmi_status_t(10), 3, Vec::new())),
        Err(AmdError { status: amdsmi_status_t(10), message: None })
    );
}

#[test]
fn process_list_fill_outcomes() {
    let fill = ProcessQuery::Fill { capacity: 3 };
    assert_eq!(done(process_list_step(fill, ok_status(), 3, vec![7, 8, 9])), Ok(vec![7, 8, 9]));
    assert_eq!(done(process_list_step(fill, ok_status(), 2, vec![7, 8, 9])), Ok(vec![7, 8]));
    assert_eq!(
        query(process_list_step(fill, amdsmi_status_t(AMDSMI_STATUS_OUT_OF_RESOURCES), 6, vec![7, 8, 9])),
        ProcessQuery::Fill { capacity: 6 }
    );
    assert_eq!(
        done(process_list_step(fill, amdsmi_status_t(12), 3, vec![7, 8, 9])),
        Err(AmdError { status: amdsmi_status_t(12), message: None })
    );
}

#[test]
fn process_list_written_entries() {
    assert_eq!(written_entries(4, 2), 2);
    assert_eq!(written_entries(4, 4), 4);
    assert_eq!(written_entries(4, 9), 4);
}

#[test]
fn process_list_full_exchange_with_a_retry() {
    // The library first reports 2 processes, then 3 when the buffer of 2 is
    // passed, then fills the buffer of 3.
    let mut q = process_list_start();
    q = query(process_list_step(q, ok_status(), 2, Vec::new()));
    assert_eq!(q, ProcessQuery::Fill { capacity: 2 });
    q = query(process_list_step(q, amdsmi_status_t(AMDSMI_STATUS_OUT_OF_RESOURCES), 3, vec![1, 2]));
    assert_eq!(q, ProcessQuery::Fill { capacity: 3 });
    let n = written_entries(3, 3) as usize;
    let written: Vec<u32> = vec![11, 12, 13][..n].to_vec();
    assert_eq!(done(process_list_step(q, ok_status(), 3, written)), Ok(vec![11, 12, 13]));
}

#[test]
fn status_and_flags_debug_output() {
    assert_eq!(format!("{:?}", amdsmi_status_t(15)), "amdsmi_status_t(15)");
    let e = AmdError { status: amdsmi_status_t(1), message: None };
    assert_eq!(format!("{:?}", e), "AmdError { status: amdsmi_status_t(1), message: None }");
    assert_eq!(format!("{:?}", amdsmi_init_flags_t(AMDSMI_INIT_AMD_GPUS)), "amdsmi_init_flags_t(2)");
}

#[test]
fn process_list_exchange_ends_after_the_out_of_resources_replies() {
    // The counting call reports 1 process; the library then answers "out of
    // resources" to three fill calls, and fills the fourth.
    let oor = amdsmi_status_t(AMDSMI_STATUS_OUT_OF_RESOURCES);
    let mut replies: Vec<(AmdStatus, u32, Vec<u32>)> = vec![
        (ok_status(), 1, Vec::new()),
        (oor, 2, Vec::new()),
        (oor, 3, Vec::new()),
        (oor, 4, Vec::new()),
        (ok_status(), 4, vec![1, 2, 3, 4]),
    ];
    replies.reverse();
    let mut q = process_list_start();
    let mut calls = 0;
    let mut fills = 0;
    let outcome = loop {
        let (status, count, written) = replies.pop().expect("the exchange asked for more calls");
        calls += 1;
        if matches!(q, ProcessQuery::Fill { .. }) {
            fills += 1;
        }
        match process_list_step(q, status, count, written) {
            ProcessListStep::Query(next) => q = next,
            ProcessListStep::Done(res) => break res,
        }
    };
    assert_eq!(outcome, Ok(vec![1, 2, 3, 4]));
    assert_eq!(calls, 5);
    assert_eq!(fills, 4);
    assert!(replies.is_empty());
}

#[test]
fn init_flags() {
    let gpus = amdsmi_init_flags_t(AMDSMI_INIT_AMD_GPUS);
    let cpus = amdsmi_init_flags_t(AMDSMI_INIT_AMD_CPUS);
    assert_eq!(gpus.union(cpus), amdsmi_init_flags_t(AMDSMI_INIT_AMD_APUS));
    assert_eq!(gpus.intersection(cpus), amdsmi_init_flags_t(0));
    assert_eq!(amdsmi_init_flags_t(AMDSMI_INIT_ALL_PROCESSORS).bits(), 0xFFFF_FFFFu64);
    assert_eq!(gpus.bits(), 2u64);
}
