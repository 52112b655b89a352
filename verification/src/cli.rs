//! Command-line settings: flags first, then `LFP_*` environment variables,
//! then built-in defaults.

use vstd::prelude::*;
use vstd::string::StringExecFns;
use vstd::utf8::encode_utf8;
use crate::decimal::{
    decimal, parse_reads_back_decimal, parse_u32, parse_u64, parse_unsigned, parse_usize,
    IntErrorKind,
};
use crate::llm::SYSTEM_PROMPT;

verus! {

#[verifier::external_type_specification]
#[verifier::external_body]
pub struct ExPathBuf(std::path::PathBuf);

/// `Clone::clone` on `PathBuf`: the copy is the same path.
pub assume_specification[ <std::path::PathBuf as Clone>::clone ](path: &std::path::PathBuf) -> (copy: std::path::PathBuf)
    ensures
        copy == *path,
;

/// Base URL of the model backend when none is configured.
pub const DEFAULT_BASE_URL: &'static str = "http://localhost:11434";

/// Request timeout in seconds when none is configured.
pub const DEFAULT_TIMEOUT_SECS: u64 = 30;

/// Inputs shorter than this many bytes are not filtered unless configured.
pub const DEFAULT_MIN_BYTES: usize = 200;

/// Name of the directory, under the system's temporary directory, that
/// holds the raw logs when no directory is configured.
pub const RAW_DIR_NAME: &'static str = "lfp";

/// Environment variable names.
pub const MODEL_VAR: &'static str = "LFP_MODEL";
pub const BASE_URL_VAR: &'static str = "LFP_BASE_URL";
pub const NUM_CTX_VAR: &'static str = "LFP_NUM_CTX";
pub const TIMEOUT_VAR: &'static str = "LFP_TIMEOUT";
pub const SYSTEM_PROMPT_VAR: &'static str = "LFP_SYSTEM_PROMPT";
pub const MIN_BYTES_VAR: &'static str = "LFP_MIN_BYTES";
pub const MAX_BYTES_VAR: &'static str = "LFP_MAX_BYTES";

/// The command-line flags as given.
#[derive(Debug)]
pub struct RawArgs {
    /// Filter prompt.
    pub prompt: String,
    /// Model name.
    pub model: Option<String>,
    /// Base URL of the model backend.
    pub base_url: Option<String>,
    /// Context window.
    pub num_ctx: Option<u32>,
    /// Timeout in seconds for a single request.
    pub timeout: Option<u64>,
    /// System prompt sent to the model.
    pub system_prompt: Option<String>,
    /// Minimum input size in bytes that is filtered.
    pub min_bytes: Option<usize>,
    /// Maximum input size in bytes that is filtered.
    pub max_bytes: Option<usize>,
    /// Raw log directory.
    pub raw_dir: Option<std::path::PathBuf>,
    /// Always output the input unchanged, while still calling the model and
    /// recording the run.
    pub passthrough: bool,
    /// The command that produced the input, for the run log.
    pub source: Option<String>,
    /// No diagnostic on standard error after a successful filter.
    pub quiet: bool,
}

/// What the environment contributes: each `LFP_*` variable that is set to
/// valid Unicode, and the directory to use when no raw directory is given.
#[derive(Debug)]
pub struct EnvVars {
    pub model: Option<String>,
    pub base_url: Option<String>,
    pub num_ctx: Option<String>,
    pub timeout: Option<String>,
    pub system_prompt: Option<String>,
    pub min_bytes: Option<String>,
    pub max_bytes: Option<String>,
    pub default_raw_dir: std::path::PathBuf,
}

/// The settings of one run.
#[derive(Debug, Clone)]
pub struct Config {
    pub prompt: String,
    pub model: String,
    pub base_url: String,
    pub num_ctx: Option<u32>,
    pub timeout_secs: u64,
    pub system_prompt: String,
    pub min_bytes: usize,
    pub max_bytes: Option<usize>,
    pub raw_dir: std::path::PathBuf,
    pub passthrough: bool,
    pub source: Option<String>,
    pub quiet: bool,
}

/// A numeric environment variable.
#[derive(Debug, Clone, Copy, PartialEq, Eq, Structural)]
pub enum EnvVar {
    NumCtx,
    Timeout,
    MinBytes,
    MaxBytes,
}

/// The name of a numeric environment variable.
pub open spec fn env_var_name(var: EnvVar) -> Seq<char> {
    match var {
        EnvVar::NumCtx => NUM_CTX_VAR@,
        EnvVar::Timeout => TIMEOUT_VAR@,
        EnvVar::MinBytes => MIN_BYTES_VAR@,
        EnvVar::MaxBytes => MAX_BYTES_VAR@,
    }
}

impl EnvVar {
    /// The variable's name.
    pub fn name(self) -> (name: &'static str)
        ensures
            name@ == env_var_name(self),
    {
        match self {
            EnvVar::NumCtx => NUM_CTX_VAR,
            EnvVar::Timeout => TIMEOUT_VAR,
            EnvVar::MinBytes => MIN_BYTES_VAR,
            EnvVar::MaxBytes => MAX_BYTES_VAR,
        }
    }
}

/// Why the settings could not be assembled.
#[derive(Debug, Clone, Copy, PartialEq, Eq, Structural)]
pub enum ConfigError {
    /// Neither `--model` nor `LFP_MODEL` names a model.
    MissingModel,
    /// A numeric environment variable does not hold a number of its type.
    InvalidNumber { var: EnvVar, kind: IntErrorKind },
}

/// How a parse failure reads in a message.
pub open spec fn int_error_text(kind: IntErrorKind) -> Seq<char> {
    match kind {
        IntErrorKind::Empty => "cannot parse integer from empty string"@,
        IntErrorKind::InvalidDigit => "invalid digit found in string"@,
        IntErrorKind::PosOverflow => "number too large to fit in target type"@,
    }
}

/// The message shown for a settings error.
pub open spec fn config_error_text(err: ConfigError) -> Seq<char> {
    match err {
        ConfigError::MissingModel => "Must specify --model or set environment variable LFP_MODEL"@,
        ConfigError::InvalidNumber { var, kind } => "Environment variable "@ + env_var_name(var)
            + " is not a valid number: "@ + int_error_text(kind),
    }
}

fn int_error_str(kind: IntErrorKind) -> (text: &'static str)
    ensures
        text@ == int_error_text(kind),
{
    match kind {
        IntErrorKind::Empty => "cannot parse integer from empty string",
        IntErrorKind::InvalidDigit => "invalid digit found in string",
        IntErrorKind::PosOverflow => "number too large to fit in target type",
    }
}

impl ConfigError {
    /// The message for this error.
    pub fn message(&self) -> (text: String)
        ensures
            text@ == config_error_text(*self),
    {
        match self {
            ConfigError::MissingModel => {
                let mut text = String::new();
                text.append("Must specify --model or set environment variable LFP_MODEL");
                text
            },
            ConfigError::InvalidNumber { var, kind } => {
                let mut text = String::new();
                text.append("Environment variable ");
                text.append(var.name());
                text.append(" is not a valid number: ");
                text.append(int_error_str(*kind));
                text
            },
        }
    }
}

/// The flag's value if the flag is given, else the environment's.
pub open spec fn flag_or_env<T>(flag: Option<T>, env: Option<T>) -> Option<T> {
    match flag {
        Some(v) => Some(v),
        None => env,
    }
}

/// The number that the text of an environment variable spells.
pub open spec fn env_number(text: String, max: int) -> Result<int, IntErrorKind> {
    parse_unsigned(encode_utf8(text@), max)
}

/// The context window: the flag, else the environment variable, else none.
pub open spec fn resolved_num_ctx(args: RawArgs, env: EnvVars) -> Result<Option<u32>, IntErrorKind> {
    match args.num_ctx {
        Some(n) => Ok(Some(n)),
        None => match env.num_ctx {
            None => Ok(None),
            Some(text) => match env_number(text, u32::MAX as int) {
                Ok(v) => Ok(Some(v as u32)),
                Err(k) => Err(k),
            },
        },
    }
}

/// The timeout: the flag, else the environment variable, else the default.
pub open spec fn resolved_timeout(args: RawArgs, env: EnvVars) -> Result<u64, IntErrorKind> {
    match args.timeout {
        Some(t) => Ok(t),
        None => match env.timeout {
            None => Ok(DEFAULT_TIMEOUT_SECS),
            Some(text) => match env_number(text, u64::MAX as int) {
                Ok(v) => Ok(v as u64),
                Err(k) => Err(k),
            },
        },
    }
}

/// The minimum size: the flag, else the environment variable, else the
/// default.
pub open spec fn resolved_min_bytes(args: RawArgs, env: EnvVars) -> Result<usize, IntErrorKind> {
    match args.min_bytes {
        Some(n) => Ok(n),
        None => match env.min_bytes {
            None => Ok(DEFAULT_MIN_BYTES),
            Some(text) => match env_number(text, usize::MAX as int) {
                Ok(v) => Ok(v as usize),
                Err(k) => Err(k),
            },
        },
    }
}

/// The maximum size: the flag, else the environment variable, else none.
pub open spec fn resolved_max_bytes(args: RawArgs, env: EnvVars) -> Result<Option<usize>, IntErrorKind> {
    match args.max_bytes {
        Some(n) => Ok(Some(n)),
        None => match env.max_bytes {
            None => Ok(None),
            Some(text) => match env_number(text, usize::MAX as int) {
                Ok(v) => Ok(Some(v as usize)),
                Err(k) => Err(k),
            },
        },
    }
}

/// The first problem with the settings, checked in this order: the model,
/// then the numeric variables `LFP_NUM_CTX`, `LFP_TIMEOUT`, `LFP_MIN_BYTES`
/// and `LFP_MAX_BYTES`.
pub open spec fn config_error(args: RawArgs, env: EnvVars) -> Option<ConfigError> {
    if flag_or_env(args.model, env.model) is None {
        Some(ConfigError::MissingModel)
    } else if resolved_num_ctx(args, env) is Err {
        Some(ConfigError::InvalidNumber { var: EnvVar::NumCtx, kind: resolved_num_ctx(args, env)->Err_0 })
    } else if resolved_timeout(args, env) is Err {
        Some(ConfigError::InvalidNumber { var: EnvVar::Timeout, kind: resolved_timeout(args, env)->Err_0 })
    } else if resolved_min_bytes(args, env) is Err {
        Some(ConfigError::InvalidNumber { var: EnvVar::MinBytes, kind: resolved_min_bytes(args, env)->Err_0 })
    } else if resolved_max_bytes(args, env) is Err {
        Some(ConfigError::InvalidNumber { var: EnvVar::MaxBytes, kind: resolved_max_bytes(args, env)->Err_0 })
    } else {
        None
    }
}

/// The text for a setting: the flag, else the environment variable, else
/// `default`.
pub open spec fn resolved_text(flag: Option<String>, env: Option<String>, default: Seq<char>) -> Seq<
    char,
> {
    match flag_or_env(flag, env) {
        Some(v) => v@,
        None => default,
    }
}

fn num_ctx_from(flag: Option<u32>, env: Option<String>) -> (res: Result<Option<u32>, IntErrorKind>)
    ensures
        res == (match flag {
            Some(n) => Ok(Some(n)),
            None => match env {
                None => Ok(None),
                Some(text) => match env_number(text, u32::MAX as int) {
                    Ok(v) => Ok(Some(v as u32)),
                    Err(k) => Err(k),
                },
            },
        }),
{
    match flag {
        Some(n) => Ok(Some(n)),
        None => match env {
            None => Ok(None),
            Some(text) => match parse_u32(text.as_str()) {
                Ok(v) => Ok(Some(v)),
                Err(k) => Err(k),
            },
        },
    }
}

fn timeout_from(flag: Option<u64>, env: Option<String>) -> (res: Result<u64, IntErrorKind>)
    ensures
        res == (match flag {
            Some(t) => Ok(t),
            None => match env {
                None => Ok(DEFAULT_TIMEOUT_SECS),
                Some(text) => match env_number(text, u64::MAX as int) {
                    Ok(v) => Ok(v as u64),
                    Err(k) => Err(k),
                },
            },
        }),
{
    match flag {
        Some(t) => Ok(t),
        None => match env {
            None => Ok(DEFAULT_TIMEOUT_SECS),
            Some(text) => parse_u64(text.as_str()),
        },
    }
}

fn min_bytes_from(flag: Option<usize>, env: Option<String>) -> (res: Result<usize, IntErrorKind>)
    ensures
        res == (match flag {
            Some(n) => Ok(n),
            None => match env {
                None => Ok(DEFAULT_MIN_BYTES),
                Some(text) => match env_number(text, usize::MAX as int) {
                    Ok(v) => Ok(v as usize),
                    Err(k) => Err(k),
                },
            },
        }),
{
    match flag {
        Some(n) => Ok(n),
        None => match env {
            None => Ok(DEFAULT_MIN_BYTES),
            Some(text) => parse_usize(text.as_str()),
        },
    }
}

fn max_bytes_from(flag: Option<usize>, env: Option<String>) -> (res: Result<Option<usize>, IntErrorKind>)
    ensures
        res == (match flag {
            Some(n) => Ok(Some(n)),
            None => match env {
                None => Ok(None),
                Some(text) => match env_number(text, usize::MAX as int) {
                    Ok(v) => Ok(Some(v as usize)),
                    Err(k) => Err(k),
                },
            },
        }),
{
    match flag {
        Some(n) => Ok(Some(n)),
        None => match env {
            None => Ok(None),
            Some(text) => match parse_usize(text.as_str()) {
                Ok(v) => Ok(Some(v)),
                Err(k) => Err(k),
            },
        },
    }
}

fn text_from(flag: Option<String>, env: Option<String>, default: &str) -> (text: String)
    ensures
        text@ == resolved_text(flag, env, default@),
{
    match flag {
        Some(v) => v,
        None => match env {
            Some(v) => v,
            None => default.to_owned(),
        },
    }
}

/// Flags take precedence over environment variables: a setting given by
/// its flag comes out the same whatever the environment holds.
pub proof fn flags_take_precedence(args: RawArgs, env: EnvVars, other_env: EnvVars)
    ensures
        args.model is Some ==> flag_or_env(args.model, env.model) == args.model,
        args.base_url is Some ==> resolved_text(args.base_url, env.base_url, DEFAULT_BASE_URL@)
            == args.base_url->0@,
        args.system_prompt is Some ==> resolved_text(
            args.system_prompt,
            env.system_prompt,
            SYSTEM_PROMPT@,
        ) == args.system_prompt->0@,
        args.num_ctx is Some ==> resolved_num_ctx(args, env) == Ok::<Option<u32>, IntErrorKind>(
            args.num_ctx,
        ) && resolved_num_ctx(args, other_env) == resolved_num_ctx(args, env),
        args.timeout is Some ==> resolved_timeout(args, env) == Ok::<u64, IntErrorKind>(
            args.timeout->0,
        ) && resolved_timeout(args, other_env) == resolved_timeout(args, env),
        args.min_bytes is Some ==> resolved_min_bytes(args, env) == Ok::<usize, IntErrorKind>(
            args.min_bytes->0,
        ) && resolved_min_bytes(args, other_env) == resolved_min_bytes(args, env),
        args.max_bytes is Some ==> resolved_max_bytes(args, env) == Ok::<
            Option<usize>,
            IntErrorKind,
        >(args.max_bytes) && resolved_max_bytes(args, other_env) == resolved_max_bytes(args, env),
{
}

/// Without its flag, `LFP_NUM_CTX` set to the decimal text of any `u32`
/// gives that context window.
pub proof fn env_num_ctx_takes_every_u32(args: RawArgs, env: EnvVars, v: u32)
    requires
        args.num_ctx is None,
        env.num_ctx is Some,
        env.num_ctx->0@ == decimal(v as nat),
    ensures
        resolved_num_ctx(args, env) == Ok::<Option<u32>, IntErrorKind>(Some(v)),
{
    parse_reads_back_decimal(v as nat, u32::MAX as int);
}

/// Without its flag, `LFP_TIMEOUT` set to the decimal text of any `u64`
/// gives that timeout.
pub proof fn env_timeout_takes_every_u64(args: RawArgs, env: EnvVars, v: u64)
    requires
        args.timeout is None,
        env.timeout is Some,
        env.timeout->0@ == decimal(v as nat),
    ensures
        resolved_timeout(args, env) == Ok::<u64, IntErrorKind>(v),
{
    parse_reads_back_decimal(v as nat, u64::MAX as int);
}

/// Without their flags, `LFP_MIN_BYTES` and `LFP_MAX_BYTES` set to the
/// decimal text of any `usize` give those limits.
pub proof fn env_byte_limits_take_every_usize(args: RawArgs, env: EnvVars, lo: usize, hi: usize)
    requires
        args.min_bytes is None,
        args.max_bytes is None,
        env.min_bytes is Some,
        env.min_bytes->0@ == decimal(lo as nat),
        env.max_bytes is Some,
        env.max_bytes->0@ == decimal(hi as nat),
    ensures
        resolved_min_bytes(args, env) == Ok::<usize, IntErrorKind>(lo),
        resolved_max_bytes(args, env) == Ok::<Option<usize>, IntErrorKind>(Some(hi)),
{
    parse_reads_back_decimal(lo as nat, usize::MAX as int);
    parse_reads_back_decimal(hi as nat, usize::MAX as int);
}

/// With a model named, a context window given as the decimal text of any
/// `u32` in `LFP_NUM_CTX`, and the other numbers unset, the settings are
/// accepted.
pub proof fn settings_accept_every_num_ctx(args: RawArgs, env: EnvVars, v: u32)
    requires
        flag_or_env(args.model, env.model) is Some,
        args.num_ctx is None,
        env.num_ctx is Some,
        env.num_ctx->0@ == decimal(v as nat),
        env.timeout is None,
        env.min_bytes is None,
        env.max_bytes is None,
    ensures
        config_error(args, env) is None,
        resolved_num_ctx(args, env) == Ok::<Option<u32>, IntErrorKind>(Some(v)),
{
    env_num_ctx_takes_every_u32(args, env, v);
}

impl Config {
    /// Assembles the settings from the flags and the environment. A flag
    /// always wins over its environment variable; an unset setting takes its
    /// default. Fails when no model is named or a numeric variable does not
    /// hold a number of its type.
    pub fn parse(args: RawArgs, env: EnvVars) -> (res: Result<Config, ConfigError>)
        ensures
            res is Err <==> config_error(args, env) is Some,
            res matches Err(e) ==> config_error(args, env) == Some(e),
            res matches Ok(cfg) ==> {
                &&& cfg.prompt == args.prompt
                &&& Some(cfg.model) == flag_or_env(args.model, env.model)
                &&& cfg.base_url@ == resolved_text(args.base_url, env.base_url, DEFAULT_BASE_URL@)
                &&& Ok::<Option<u32>, IntErrorKind>(cfg.num_ctx) == resolved_num_ctx(args, env)
                &&& Ok::<u64, IntErrorKind>(cfg.timeout_secs) == resolved_timeout(args, env)
                &&& cfg.system_prompt@ == resolved_text(
                    args.system_prompt,
                    env.system_prompt,
                    SYSTEM_PROMPT@,
                )
                &&& Ok::<usize, IntErrorKind>(cfg.min_bytes) == resolved_min_bytes(args, env)
                &&& Ok::<Option<usize>, IntErrorKind>(cfg.max_bytes) == resolved_max_bytes(args, env)
                &&& cfg.raw_dir == (match args.raw_dir {
                    Some(d) => d,
                    None => env.default_raw_dir,
                })
                &&& cfg.passthrough == args.passthrough
                &&& cfg.source == args.source
                &&& cfg.quiet == args.quiet
            },
    {
        let RawArgs {
            prompt,
            model,
            base_url,
            num_ctx,
            timeout,
            system_prompt,
            min_bytes,
            max_bytes,
            raw_dir,
            passthrough,
            source,
            quiet,
        } = args;
        let EnvVars {
            model: env_model,
            base_url: env_base_url,
            num_ctx: env_num_ctx,
            timeout: env_timeout,
            system_prompt: env_system_prompt,
            min_bytes: env_min_bytes,
            max_bytes: env_max_bytes,
            default_raw_dir,
        } = env;
        let model = match model {
            Some(m) => m,
            None => match env_model {
                Some(m) => m,
                None => return Err(ConfigError::MissingModel),
            },
        };
        let base_url = text_from(base_url, env_base_url, DEFAULT_BASE_URL);
        let num_ctx = match num_ctx_from(num_ctx, env_num_ctx) {
            Ok(n) => n,
            Err(kind) => return Err(ConfigError::InvalidNumber { var: EnvVar::NumCtx, kind }),
        };
        let timeout_secs = match timeout_from(timeout, env_timeout) {
            Ok(t) => t,
            Err(kind) => return Err(ConfigError::InvalidNumber { var: EnvVar::Timeout, kind }),
        };
        let system_prompt = text_from(system_prompt, env_system_prompt, SYSTEM_PROMPT);
        let min_bytes = match min_bytes_from(min_bytes, env_min_bytes) {
            Ok(n) => n,
            Err(kind) => return Err(ConfigError::InvalidNumber { var: EnvVar::MinBytes, kind }),
        };
        let max_bytes = match max_bytes_from(max_bytes, env_max_bytes) {
            Ok(n) => n,
            Err(kind) => return Err(ConfigError::InvalidNumber { var: EnvVar::MaxBytes, kind }),
        };
        let raw_dir = match raw_dir {
            Some(d) => d,
            None => default_raw_dir,
        };
        Ok(Config {
            prompt,
            model,
            base_url,
            num_ctx,
            timeout_secs,
            system_prompt,
            min_bytes,
            max_bytes,
            raw_dir,
            passthrough,
            source,
            quiet,
        })
    }
}

} // verus!
