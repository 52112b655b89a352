//! One record per run, appended as a JSON line to `runs.jsonl` in the raw
//! directory so that results can be compared later.

use vstd::prelude::*;
use crate::cli::Config;
use crate::llm::SYSTEM_PROMPT;

verus! {

/// Name of the run log file inside the raw directory.
pub const RUNS_FILE_NAME: &'static str = "runs.jsonl";

/// When and by which process a run happened: seconds since the Unix epoch
/// and the process id.
#[derive(Debug, Clone, Copy, PartialEq, Eq, Structural)]
pub struct Stamp {
    pub ts: u64,
    pub pid: u32,
}

/// The settings of the run, as recorded.
#[derive(Debug)]
pub struct RunArgs<'a> {
    pub prompt: &'a str,
    pub model: &'a str,
    pub base_url: &'a str,
    pub num_ctx: Option<u32>,
    pub timeout: u64,
    pub source: Option<&'a str>,
}

/// An execution record for a single run, one line of `runs.jsonl`.
#[derive(Debug)]
pub struct RunRecord<'a> {
    pub ts: u64,
    pub pid: u32,
    pub args: RunArgs<'a>,
    pub system_prompt: &'a str,
    pub raw_log_path: String,
    pub input_bytes: usize,
    pub output_bytes: usize,
    pub elapsed_ms: u128,
    pub passthrough: bool,
    pub outcome: &'static str,
    pub reason: Option<&'static str>,
    pub error_detail: Option<String>,
}

/// The recorded settings say what `cfg` says.
pub open spec fn args_match(args: RunArgs, cfg: Config) -> bool {
    &&& args.prompt@ == cfg.prompt@
    &&& args.model@ == cfg.model@
    &&& args.base_url@ == cfg.base_url@
    &&& args.num_ctx == cfg.num_ctx
    &&& args.timeout == cfg.timeout_secs
    &&& match cfg.source {
        Some(s) => args.source is Some && args.source->0@ == s@,
        None => args.source is None,
    }
}

/// Everything that a record takes from the run whatever its outcome.
pub open spec fn describes_run(
    rec: RunRecord,
    cfg: Config,
    stamp: Stamp,
    raw_log_path: String,
    input_bytes: usize,
) -> bool {
    &&& rec.ts == stamp.ts
    &&& rec.pid == stamp.pid
    &&& args_match(rec.args, cfg)
    &&& rec.system_prompt == SYSTEM_PROMPT
    &&& rec.raw_log_path == raw_log_path
    &&& rec.input_bytes == input_bytes
    &&& rec.passthrough == cfg.passthrough
}

impl<'a> RunRecord<'a> {
    /// A run whose input the model filtered.
    pub fn ok(
        cfg: &'a Config,
        raw_log_path: String,
        input_bytes: usize,
        output_bytes: usize,
        elapsed_ms: u128,
        stamp: Stamp,
    ) -> (rec: Self)
        ensures
            describes_run(rec, *cfg, stamp, raw_log_path, input_bytes),
            rec.output_bytes == output_bytes,
            rec.elapsed_ms == elapsed_ms,
            rec.outcome@ == "ok"@,
            rec.reason is None,
            rec.error_detail is None,
    {
        Self::new(cfg, raw_log_path, input_bytes, output_bytes, elapsed_ms, "ok", None, None, stamp)
    }

    /// A run whose model call failed, so that the input went out unchanged.
    pub fn fail_open(
        cfg: &'a Config,
        raw_log_path: String,
        input_bytes: usize,
        elapsed_ms: u128,
        reason: &'static str,
        error_detail: String,
        stamp: Stamp,
    ) -> (rec: Self)
        ensures
            describes_run(rec, *cfg, stamp, raw_log_path, input_bytes),
            rec.output_bytes == input_bytes,
            rec.elapsed_ms == elapsed_ms,
            rec.outcome@ == "fail_open"@,
            rec.reason == Some(reason),
            rec.error_detail == Some(error_detail),
    {
        Self::new(
            cfg,
            raw_log_path,
            input_bytes,
            input_bytes,
            elapsed_ms,
            "fail_open",
            Some(reason),
            Some(error_detail),
            stamp,
        )
    }

    /// A run whose input was passed on without asking the model.
    pub fn skipped(
        cfg: &'a Config,
        raw_log_path: String,
        input_bytes: usize,
        reason: &'static str,
        stamp: Stamp,
    ) -> (rec: Self)
        ensures
            describes_run(rec, *cfg, stamp, raw_log_path, input_bytes),
            rec.output_bytes == input_bytes,
            rec.elapsed_ms == 0,
            rec.outcome@ == "skipped"@,
            rec.reason == Some(reason),
            rec.error_detail is None,
    {
        Self::new(cfg, raw_log_path, input_bytes, input_bytes, 0, "skipped", Some(reason), None, stamp)
    }

    fn new(
        cfg: &'a Config,
        raw_log_path: String,
        input_bytes: usize,
        output_bytes: usize,
        elapsed_ms: u128,
        outcome: &'static str,
        reason: Option<&'static str>,
        error_detail: Option<String>,
        stamp: Stamp,
    ) -> (rec: Self)
        ensures
            describes_run(rec, *cfg, stamp, raw_log_path, input_bytes),
            rec.output_bytes == output_bytes,
            rec.elapsed_ms == elapsed_ms,
            rec.outcome == outcome,
            rec.reason == reason,
            rec.error_detail == error_detail,
    {
        let source = match &cfg.source {
            Some(s) => Some(s.as_str()),
            None => None,
        };
        RunRecord {
            ts: stamp.ts,
            pid: stamp.pid,
            args: RunArgs {
                prompt: cfg.prompt.as_str(),
                model: cfg.model.as_str(),
                base_url: cfg.base_url.as_str(),
                num_ctx: cfg.num_ctx,
                timeout: cfg.timeout_secs,
                source,
            },
            system_prompt: SYSTEM_PROMPT,
            raw_log_path,
            input_bytes,
            output_bytes,
            elapsed_ms,
            passthrough: cfg.passthrough,
            outcome,
            reason,
            error_detail,
        }
    }
}

} // verus!
