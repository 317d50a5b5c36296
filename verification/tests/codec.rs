//! Tests for the status codec.

use wait_timeout::{ExitStatus, Output};

#[test]
fn success_is_exit_code_zero() {
    let st = ExitStatus::from_raw(0);
    assert!(st.success());
    assert_eq!(st.code(), Some(0));
    assert_eq!(st.unix_signal(), None);
}

#[test]
fn nonzero_exit_code_is_not_success() {
    let st = ExitStatus::from_raw(1 << 8);
    assert!(!st.success());
    assert_eq!(st.code(), Some(1));
    assert_eq!(st.unix_signal(), None);
}

#[test]
fn exit_code_round_trip_all_codes() {
    for c in 0..=255i32 {
        let st = ExitStatus::from_raw(c << 8);
        assert_eq!(st.code(), Some(c));
        assert_eq!(st.unix_signal(), None);
        assert_eq!(st.success(), c == 0);
    }
}

#[test]
fn signal_termination_round_trip() {
    for s in 1..=126i32 {
        let st = ExitStatus::from_raw(s);
        assert_eq!(st.unix_signal(), Some(s));
        assert_eq!(st.code(), None);
        assert!(!st.success());
    }
}

#[test]
fn signal_with_core_dump_flag_keeps_signal_number() {
    for s in 1..=126i32 {
        let st = ExitStatus::from_raw(s | 0x80);
        assert_eq!(st.unix_signal(), Some(s));
        assert_eq!(st.code(), None);
    }
}

#[test]
fn exactly_one_query_is_nonempty() {
    for raw in -1000..=1000i32 {
        let st = ExitStatus::from_raw(raw);
        assert_eq!(st.code().is_some(), st.unix_signal().is_none());
    }
}

#[test]
fn decoding_is_deterministic_across_call_sites() {
    let raw = 9 | 0x80;
    let first = ExitStatus::from_raw(raw);
    let again = ExitStatus::from_raw(raw);
    assert_eq!(first, again);
    assert_eq!(first.code(), again.code());
    assert_eq!(first.unix_signal(), again.unix_signal());
    assert_eq!(first.success(), again.success());
}

#[test]
fn output_carries_status_and_streams() {
    let out = Output {
        status: ExitStatus::from_raw(0),
        stdout: vec![104, 105],
        stderr: Vec::new(),
    };
    assert!(out.status.success());
    assert_eq!(out.stdout, b"hi");
    assert!(out.stderr.is_empty());
}

#[test]
fn truncated_large_exit_code() {
    // A child that calls exit(259) reports only the low byte: 259 % 256 == 3.
    let truncated = 259i32 & 0xff;
    let st = ExitStatus::from_raw(truncated << 8);
    assert_eq!(st.code(), Some(3));
}
