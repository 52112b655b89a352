//! The decisions of one run: whether to ask the model at all, and what to
//! print, keep and record once the answer (or the failure) is in.

use vstd::prelude::*;
use vstd::string::StringExecFns;
use vstd::utf8::{decode_utf8, encode_utf8, valid_utf8};
use crate::cli::Config;
use crate::decimal::{decimal, push_decimal};
use crate::llm::{reason_name, LlmError};
use crate::runlog::{describes_run, RunRecord, Stamp};

verus! {

/// The length in bytes of the UTF-8 encoding of `s`, as `str::len` gives it.
pub open spec fn byte_len(s: Seq<char>) -> usize {
    encode_utf8(s).len() as usize
}

/// What `String::from_utf8_lossy` makes of the bytes `raw`: their UTF-8
/// decoding with each invalid sequence replaced by U+FFFD.
pub uninterp spec fn lossy_utf8(raw: Seq<u8>) -> Seq<char>;

/// Calls `String::from_utf8_lossy`. Its result depends on the bytes alone
/// and is named `lossy_utf8`; its documentation promises that only invalid
/// sequences are replaced (by U+FFFD), so valid UTF-8 decodes unchanged.
#[verifier::external_body]
fn utf8_lossy(raw: &[u8]) -> (text: String)
    ensures
        text@ == lossy_utf8(raw@),
        valid_utf8(raw@) ==> text@ == decode_utf8(raw@),
{
    String::from_utf8_lossy(raw).into_owned()
}

/// The text of the raw input: its UTF-8 decoding, with each invalid
/// sequence replaced by U+FFFD.
pub fn decode_input(raw: &[u8]) -> (text: String)
    ensures
        text@ == lossy_utf8(raw@),
        valid_utf8(raw@) ==> text@ == decode_utf8(raw@),
{
    utf8_lossy(raw)
}

/// The base name shared by this run's backup files:
/// `lfp-{epoch_millis}-{pid}`.
pub open spec fn base_log_text(epoch_millis: u128, pid: u32) -> Seq<char> {
    "lfp-"@ + decimal(epoch_millis as nat) + "-"@ + decimal(pid as nat)
}

/// Builds the base name of this run's backup files.
pub fn base_log_name(epoch_millis: u128, pid: u32) -> (name: String)
    ensures
        name@ == base_log_text(epoch_millis, pid),
{
    let mut name = String::new();
    name.append("lfp-");
    push_decimal(&mut name, epoch_millis);
    name.append("-");
    push_decimal(&mut name, pid as u128);
    name
}

/// The file name of the raw input backup.
pub fn raw_log_file_name(base: &str) -> (name: String)
    ensures
        name@ == base@ + ".raw.log"@,
{
    let mut name = String::new();
    name.append(base);
    name.append(".raw.log");
    name
}

/// The file name of the filtered output backup.
pub fn filtered_log_file_name(base: &str) -> (name: String)
    ensures
        name@ == base@ + ".filtered.log"@,
{
    let mut name = String::new();
    name.append(base);
    name.append(".filtered.log");
    name
}

/// Why an input went out without asking the model.
#[derive(Debug, Clone, Copy, PartialEq, Eq, Structural)]
pub enum SkipReason {
    /// Nothing came in; the run is still recorded.
    EmptyInput,
    BelowMinBytes,
    AboveMaxBytes,
}

/// The name under which a skip is recorded.
pub open spec fn skip_reason_name(reason: SkipReason) -> Seq<char> {
    match reason {
        SkipReason::EmptyInput => "empty_input"@,
        SkipReason::BelowMinBytes => "below_min_bytes"@,
        SkipReason::AboveMaxBytes => "above_max_bytes"@,
    }
}

impl SkipReason {
    /// The run-log name of this skip.
    pub fn as_str(self) -> (name: &'static str)
        ensures
            name@ == skip_reason_name(self),
    {
        match self {
            SkipReason::EmptyInput => "empty_input",
            SkipReason::BelowMinBytes => "below_min_bytes",
            SkipReason::AboveMaxBytes => "above_max_bytes",
        }
    }
}

/// What to do with an input once it is read.
#[derive(Debug, Clone, Copy, PartialEq, Eq, Structural)]
pub enum Plan {
    /// Print the input unchanged and record the skip.
    Skip(SkipReason),
    /// Ask the model.
    Filter,
}

/// The plan for an input of `input_bytes` bytes.
pub open spec fn planned(cfg: Config, input_bytes: int) -> Plan {
    if input_bytes == 0 {
        Plan::Skip(SkipReason::EmptyInput)
    } else if input_bytes < cfg.min_bytes {
        Plan::Skip(SkipReason::BelowMinBytes)
    } else if cfg.max_bytes is Some && input_bytes > cfg.max_bytes->0 {
        Plan::Skip(SkipReason::AboveMaxBytes)
    } else {
        Plan::Filter
    }
}

/// Decides whether `input` goes to the model.
pub fn plan(cfg: &Config, input: &str) -> (p: Plan)
    ensures
        p == planned(*cfg, byte_len(input@) as int),
{
    let n = input.len();
    if n == 0 {
        Plan::Skip(SkipReason::EmptyInput)
    } else if n < cfg.min_bytes {
        Plan::Skip(SkipReason::BelowMinBytes)
    } else {
        match cfg.max_bytes {
            Some(max) if n > max => Plan::Skip(SkipReason::AboveMaxBytes),
            _ => Plan::Filter,
        }
    }
}

/// A minimum of zero never holds back a non-empty input.
pub proof fn zero_min_bytes_never_skips_small_input(cfg: Config, input_bytes: int)
    requires
        cfg.min_bytes == 0,
        input_bytes > 0,
    ensures
        planned(cfg, input_bytes) != Plan::Skip(SkipReason::BelowMinBytes),
{
}

/// Without a maximum, every input of at least the minimum size goes to the
/// model.
pub proof fn inputs_from_min_bytes_up_are_filtered(cfg: Config, input_bytes: int)
    requires
        input_bytes > 0,
        input_bytes >= cfg.min_bytes,
        cfg.max_bytes is None,
    ensures
        planned(cfg, input_bytes) == Plan::Filter,
{
}

/// The byte limits decide the plan by size alone: empty input is skipped as
/// empty, input shorter than the minimum as too small, input longer than a
/// configured maximum as too large, and everything else goes to the model.
pub proof fn plan_follows_byte_limits(cfg: Config, n: int)
    requires
        n >= 0,
    ensures
        n == 0 ==> planned(cfg, n) == Plan::Skip(SkipReason::EmptyInput),
        0 < n < cfg.min_bytes ==> planned(cfg, n) == Plan::Skip(SkipReason::BelowMinBytes),
        n > 0 && n >= cfg.min_bytes && cfg.max_bytes is Some && n > cfg.max_bytes->0 ==> planned(
            cfg,
            n,
        ) == Plan::Skip(SkipReason::AboveMaxBytes),
        n > 0 && n >= cfg.min_bytes && cfg.max_bytes is Some && n <= cfg.max_bytes->0 ==> planned(
            cfg,
            n,
        ) == Plan::Filter,
        n > 0 && n >= cfg.min_bytes && cfg.max_bytes is None ==> planned(cfg, n) == Plan::Filter,
{
}

/// Raising the input's size never turns a too-large input into one that is
/// sent to the model.
pub proof fn larger_inputs_stay_above_max(cfg: Config, n: int, k: int)
    requires
        planned(cfg, n) == Plan::Skip(SkipReason::AboveMaxBytes),
        k >= n,
    ensures
        planned(cfg, k) == Plan::Skip(SkipReason::AboveMaxBytes),
{
}

/// What a run does once decided: the text for standard output, the
/// diagnostic for standard error, the text of the filtered backup, and the
/// run record.
#[derive(Debug)]
pub struct Report<'a> {
    pub stdout: String,
    pub stderr: Option<String>,
    pub filtered_log: Option<String>,
    pub record: RunRecord<'a>,
}

/// The diagnostic printed after a successful filter.
pub open spec fn filtered_notice(raw_log_path: Seq<char>) -> Seq<char> {
    "[lfp] output filtered; raw input: "@ + raw_log_path
}

/// The report for an input that goes out without asking the model: the
/// input is printed unchanged and the skip is recorded.
pub fn report_skip<'a>(
    cfg: &'a Config,
    raw_log_path: String,
    input: &str,
    reason: SkipReason,
    stamp: Stamp,
) -> (rep: Report<'a>)
    ensures
        rep.stdout@ == input@,
        rep.stderr is None,
        rep.filtered_log is None,
        describes_run(rep.record, *cfg, stamp, raw_log_path, byte_len(input@)),
        rep.record.output_bytes == byte_len(input@),
        rep.record.elapsed_ms == 0,
        rep.record.outcome@ == "skipped"@,
        rep.record.reason is Some && rep.record.reason->0@ == skip_reason_name(reason),
        rep.record.error_detail is None,
{
    let record = RunRecord::skipped(cfg, raw_log_path, input.len(), reason.as_str(), stamp);
    Report { stdout: input.to_owned(), stderr: None, filtered_log: None, record }
}

/// The report once the model answered or failed. An answer is printed, or
/// the input under `--passthrough`, and kept as the filtered backup; a
/// failure prints the input unchanged (fail-open) and records why.
pub fn report_filter<'a>(
    cfg: &'a Config,
    raw_log_path: String,
    input: &str,
    result: Result<String, LlmError>,
    elapsed_ms: u128,
    stamp: Stamp,
) -> (rep: Report<'a>)
    ensures
        describes_run(rep.record, *cfg, stamp, raw_log_path, byte_len(input@)),
        rep.record.elapsed_ms == elapsed_ms,
        result is Err || cfg.passthrough ==> rep.stdout@ == input@,
        match result {
            Ok(filtered) => {
                &&& !cfg.passthrough ==> rep.stdout@ == filtered@
                &&& cfg.quiet <==> rep.stderr is None
                &&& !cfg.quiet ==> rep.stderr->0@ == filtered_notice(raw_log_path@)
                &&& rep.filtered_log == Some(filtered)
                &&& rep.record.output_bytes == byte_len(filtered@)
                &&& rep.record.outcome@ == "ok"@
                &&& rep.record.reason is None
                &&& rep.record.error_detail is None
            },
            Err(err) => {
                &&& rep.stderr is None
                &&& rep.filtered_log is None
                &&& rep.record.output_bytes == byte_len(input@)
                &&& rep.record.outcome@ == "fail_open"@
                &&& rep.record.reason is Some && rep.record.reason->0@ == reason_name(err.reason)
                &&& rep.record.error_detail == Some(err.detail)
            },
        },
{
    let input_bytes = input.len();
    match result {
        Ok(filtered) => {
            let stdout = if cfg.passthrough {
                input.to_owned()
            } else {
                filtered.clone()
            };
            let stderr = if cfg.quiet {
                None
            } else {
                let mut notice = String::new();
                notice.append("[lfp] output filtered; raw input: ");
                notice.append(raw_log_path.as_str());
                Some(notice)
            };
            let output_bytes = filtered.as_str().len();
            let record = RunRecord::ok(cfg, raw_log_path, input_bytes, output_bytes, elapsed_ms, stamp);
            Report { stdout, stderr, filtered_log: Some(filtered), record }
        },
        Err(err) => {
            let record = RunRecord::fail_open(
                cfg,
                raw_log_path,
                input_bytes,
                elapsed_ms,
                err.reason.as_str(),
                err.detail,
                stamp,
            );
            Report { stdout: input.to_owned(), stderr: None, filtered_log: None, record }
        },
    }
}

} // verus!
