use std::path::PathBuf;

use lfp::cli::Config;
use lfp::llm::{check_status, classify_send_error};
use lfp::pipeline::{
    base_log_name, decode_input, filtered_log_file_name, plan, raw_log_file_name, report_filter, report_skip,
    Plan, SkipReason,
};
use lfp::runlog::Stamp;

fn test_config() -> Config {
    Config {
        prompt: "keep errors".to_string(),
        model: "llama3.1".to_string(),
        base_url: "http://localhost:11434".to_string(),
        num_ctx: None,
        timeout_secs: 30,
        system_prompt: "sys".to_string(),
        min_bytes: 5,
        max_bytes: Some(20),
        raw_dir: PathBuf::from("/tmp/lfp"),
        passthrough: false,
        source: None,
        quiet: false,
    }
}

const STAMP: Stamp = Stamp { ts: 1, pid: 2 };

#[test]
fn base_log_name_joins_millis_and_pid() {
    assert_eq!(base_log_name(1_700_000_000_123, 4242), "lfp-1700000000123-4242");
    assert_eq!(base_log_name(0, 0), "lfp-0-0");
    let base = base_log_name(12, 34);
    assert_eq!(raw_log_file_name(&base), "lfp-12-34.raw.log");
    assert_eq!(filtered_log_file_name(&base), "lfp-12-34.filtered.log");
}

#[test]
fn empty_input_is_skipped_and_recorded() {
    let cfg = test_config();
    assert_eq!(plan(&cfg, ""), Plan::Skip(SkipReason::EmptyInput));
    assert_eq!(SkipReason::EmptyInput.as_str(), "empty_input");
    let rep = report_skip(&cfg, "/tmp/lfp/e.raw.log".to_string(), "", SkipReason::EmptyInput, STAMP);
    assert_eq!(rep.stdout, "");
    assert!(rep.stderr.is_none());
    assert_eq!(rep.record.outcome, "skipped");
    assert_eq!(rep.record.reason, Some("empty_input"));
    assert_eq!(rep.record.input_bytes, 0);
    assert_eq!(rep.record.output_bytes, 0);
}

#[test]
fn small_input_is_skipped() {
    assert_eq!(plan(&test_config(), "abcd"), Plan::Skip(SkipReason::BelowMinBytes));
    assert_eq!(SkipReason::BelowMinBytes.as_str(), "below_min_bytes");
}

#[test]
fn large_input_is_skipped() {
    let input = "x".repeat(21);
    assert_eq!(plan(&test_config(), &input), Plan::Skip(SkipReason::AboveMaxBytes));
    assert_eq!(SkipReason::AboveMaxBytes.as_str(), "above_max_bytes");
}

#[test]
fn input_within_limits_is_filtered() {
    let cfg = test_config();
    assert_eq!(plan(&cfg, "abcde"), Plan::Filter);
    assert_eq!(plan(&cfg, &"x".repeat(20)), Plan::Filter);
}

#[test]
fn limits_count_bytes_not_characters() {
    // Two characters, six bytes.
    assert_eq!(plan(&test_config(), "黑风"), Plan::Filter);
}

#[test]
fn zero_min_bytes_filters_any_nonempty_input() {
    let mut cfg = test_config();
    cfg.min_bytes = 0;
    cfg.max_bytes = None;
    assert_eq!(plan(&cfg, "a"), Plan::Filter);
    assert_eq!(plan(&cfg, ""), Plan::Skip(SkipReason::EmptyInput));
}

#[test]
fn skip_report_prints_input_and_records_skip() {
    let cfg = test_config();
    let rep = report_skip(&cfg, "/tmp/lfp/a.raw.log".to_string(), "abc", SkipReason::BelowMinBytes, STAMP);
    assert_eq!(rep.stdout, "abc");
    assert!(rep.stderr.is_none());
    assert!(rep.filtered_log.is_none());
    assert_eq!(rep.record.outcome, "skipped");
    assert_eq!(rep.record.reason, Some("below_min_bytes"));
    assert_eq!(rep.record.input_bytes, 3);
    assert_eq!(rep.record.output_bytes, 3);
}

#[test]
fn success_prints_filtered_output_and_notice() {
    let cfg = test_config();
    let input = "line1\nERROR x\nline3\n";
    let rep = report_filter(&cfg, "/tmp/lfp/a.raw.log".to_string(), input, Ok("ERROR x\n".to_string()), 12, STAMP);
    assert_eq!(rep.stdout, "ERROR x\n");
    assert_eq!(rep.stderr.as_deref(), Some("[lfp] output filtered; raw input: /tmp/lfp/a.raw.log"));
    assert_eq!(rep.filtered_log.as_deref(), Some("ERROR x\n"));
    assert_eq!(rep.record.outcome, "ok");
    assert_eq!(rep.record.input_bytes, input.len());
    assert_eq!(rep.record.output_bytes, 8);
    assert_eq!(rep.record.elapsed_ms, 12);
    assert!(rep.record.reason.is_none());
}

#[test]
fn quiet_suppresses_the_notice() {
    let mut cfg = test_config();
    cfg.quiet = true;
    let rep = report_filter(&cfg, "p".to_string(), "input text", Ok("kept".to_string()), 1, STAMP);
    assert_eq!(rep.stdout, "kept");
    assert!(rep.stderr.is_none());
}

#[test]
fn passthrough_prints_input_but_keeps_filtered_backup() {
    let mut cfg = test_config();
    cfg.passthrough = true;
    let rep = report_filter(&cfg, "p".to_string(), "input text", Ok("kept".to_string()), 1, STAMP);
    assert_eq!(rep.stdout, "input text");
    assert_eq!(rep.filtered_log.as_deref(), Some("kept"));
    assert_eq!(rep.record.output_bytes, 4);
    assert!(rep.record.passthrough);
}

#[test]
fn failure_fails_open() {
    let cfg = test_config();
    let err = check_status(500).unwrap_err();
    let rep = report_filter(&cfg, "p".to_string(), "original", Err(err), 3, STAMP);
    assert_eq!(rep.stdout, "original");
    assert!(rep.stderr.is_none());
    assert!(rep.filtered_log.is_none());
    assert_eq!(rep.record.outcome, "fail_open");
    assert_eq!(rep.record.reason, Some("bad_status"));
    assert_eq!(rep.record.error_detail.as_deref(), Some("HTTP 500"));
    assert_eq!(rep.record.output_bytes, 8);
}

#[test]
fn timeout_fails_open_with_timeout_reason() {
    let cfg = test_config();
    let err = classify_send_error(true, "request timed out".to_string());
    let rep = report_filter(&cfg, "p".to_string(), "original", Err(err), 30_000, STAMP);
    assert_eq!(rep.stdout, "original");
    assert_eq!(rep.record.reason, Some("timeout"));
    assert_eq!(rep.record.error_detail.as_deref(), Some("request timed out"));
}

#[test]
fn decode_input_keeps_valid_utf8_and_replaces_invalid_bytes() {
    assert_eq!(decode_input("héllo 黑".as_bytes()), "héllo 黑");
    assert_eq!(decode_input(b"ok\xffok"), "ok\u{FFFD}ok");
    assert_eq!(decode_input(b""), "");
}
