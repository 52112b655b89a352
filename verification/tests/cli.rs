use std::path::PathBuf;

use lfp::cli::{Config, ConfigError, EnvVar, EnvVars, RawArgs, DEFAULT_BASE_URL};
use lfp::decimal::IntErrorKind;
use lfp::llm::SYSTEM_PROMPT;

fn args() -> RawArgs {
    RawArgs {
        prompt: "keep foo".to_string(),
        model: None,
        base_url: None,
        num_ctx: None,
        timeout: None,
        system_prompt: None,
        min_bytes: None,
        max_bytes: None,
        raw_dir: None,
        passthrough: false,
        source: None,
        quiet: false,
    }
}

fn env() -> EnvVars {
    EnvVars {
        model: None,
        base_url: None,
        num_ctx: None,
        timeout: None,
        system_prompt: None,
        min_bytes: None,
        max_bytes: None,
        default_raw_dir: PathBuf::from("/tmp/lfp"),
    }
}

#[test]
fn defaults_apply_when_nothing_is_set() {
    let mut a = args();
    a.model = Some("llama3.1".to_string());
    let cfg = Config::parse(a, env()).unwrap();
    assert_eq!(cfg.prompt, "keep foo");
    assert_eq!(cfg.model, "llama3.1");
    assert_eq!(cfg.base_url, DEFAULT_BASE_URL);
    assert_eq!(cfg.base_url, "http://localhost:11434");
    assert_eq!(cfg.num_ctx, None);
    assert_eq!(cfg.timeout_secs, 30);
    assert_eq!(cfg.system_prompt, SYSTEM_PROMPT);
    assert_eq!(cfg.min_bytes, 200);
    assert_eq!(cfg.max_bytes, None);
    assert_eq!(cfg.raw_dir, PathBuf::from("/tmp/lfp"));
    assert!(!cfg.passthrough);
    assert_eq!(cfg.source, None);
    assert!(!cfg.quiet);
}

#[test]
fn environment_fills_unset_flags() {
    let mut e = env();
    e.model = Some("qwen3-coder:30b".to_string());
    e.base_url = Some("http://gpu:11434".to_string());
    e.num_ctx = Some("8192".to_string());
    e.timeout = Some("120".to_string());
    e.system_prompt = Some("be brief".to_string());
    e.min_bytes = Some("0".to_string());
    e.max_bytes = Some("1000000".to_string());
    let cfg = Config::parse(args(), e).unwrap();
    assert_eq!(cfg.model, "qwen3-coder:30b");
    assert_eq!(cfg.base_url, "http://gpu:11434");
    assert_eq!(cfg.num_ctx, Some(8192));
    assert_eq!(cfg.timeout_secs, 120);
    assert_eq!(cfg.system_prompt, "be brief");
    assert_eq!(cfg.min_bytes, 0);
    assert_eq!(cfg.max_bytes, Some(1_000_000));
}

#[test]
fn flags_take_precedence_over_environment() {
    let mut a = args();
    a.model = Some("flag-model".to_string());
    a.base_url = Some("http://flag".to_string());
    a.num_ctx = Some(1024);
    a.timeout = Some(5);
    a.system_prompt = Some("flag prompt".to_string());
    a.min_bytes = Some(10);
    a.max_bytes = Some(20);
    a.raw_dir = Some(PathBuf::from("/var/log/lfp"));
    a.passthrough = true;
    a.source = Some("docker compose logs".to_string());
    a.quiet = true;

    let mut e = env();
    e.model = Some("env-model".to_string());
    e.base_url = Some("http://env".to_string());
    // Invalid environment numbers do not matter when the flag is given.
    e.num_ctx = Some("lots".to_string());
    e.timeout = Some("never".to_string());
    e.system_prompt = Some("env prompt".to_string());
    e.min_bytes = Some("x".to_string());
    e.max_bytes = Some("y".to_string());

    let cfg = Config::parse(a, e).unwrap();
    assert_eq!(cfg.model, "flag-model");
    assert_eq!(cfg.base_url, "http://flag");
    assert_eq!(cfg.num_ctx, Some(1024));
    assert_eq!(cfg.timeout_secs, 5);
    assert_eq!(cfg.system_prompt, "flag prompt");
    assert_eq!(cfg.min_bytes, 10);
    assert_eq!(cfg.max_bytes, Some(20));
    assert_eq!(cfg.raw_dir, PathBuf::from("/var/log/lfp"));
    assert!(cfg.passthrough);
    assert_eq!(cfg.source.as_deref(), Some("docker compose logs"));
    assert!(cfg.quiet);
}

#[test]
fn missing_model_is_an_error() {
    let err = Config::parse(args(), env()).unwrap_err();
    assert_eq!(err, ConfigError::MissingModel);
    assert_eq!(
        err.message(),
        "Must specify --model or set environment variable LFP_MODEL"
    );
}

#[test]
fn invalid_num_ctx_in_environment_is_an_error() {
    let mut e = env();
    e.model = Some("m".to_string());
    e.num_ctx = Some("4k".to_string());
    let err = Config::parse(args(), e).unwrap_err();
    assert_eq!(
        err,
        ConfigError::InvalidNumber { var: EnvVar::NumCtx, kind: IntErrorKind::InvalidDigit }
    );
    let std_err = "4k".parse::<u32>().unwrap_err();
    assert_eq!(
        err.message(),
        format!("Environment variable LFP_NUM_CTX is not a valid number: {std_err}")
    );
}

#[test]
fn invalid_timeout_in_environment_is_an_error() {
    let mut e = env();
    e.model = Some("m".to_string());
    e.timeout = Some(String::new());
    let err = Config::parse(args(), e).unwrap_err();
    assert_eq!(
        err,
        ConfigError::InvalidNumber { var: EnvVar::Timeout, kind: IntErrorKind::Empty }
    );
    let std_err = "".parse::<u64>().unwrap_err();
    assert_eq!(
        err.message(),
        format!("Environment variable LFP_TIMEOUT is not a valid number: {std_err}")
    );
}

#[test]
fn invalid_byte_limits_in_environment_are_errors() {
    let mut e = env();
    e.model = Some("m".to_string());
    e.min_bytes = Some("-1".to_string());
    let err = Config::parse(args(), e).unwrap_err();
    assert_eq!(err.message(), "Environment variable LFP_MIN_BYTES is not a valid number: invalid digit found in string");

    let mut e = env();
    e.model = Some("m".to_string());
    e.max_bytes = Some("99999999999999999999999".to_string());
    let err = Config::parse(args(), e).unwrap_err();
    assert_eq!(
        err,
        ConfigError::InvalidNumber { var: EnvVar::MaxBytes, kind: IntErrorKind::PosOverflow }
    );
    let std_err = "99999999999999999999999".parse::<usize>().unwrap_err();
    assert_eq!(
        err.message(),
        format!("Environment variable LFP_MAX_BYTES is not a valid number: {std_err}")
    );
}

#[test]
fn model_error_comes_before_number_errors() {
    let mut e = env();
    e.num_ctx = Some("bad".to_string());
    assert_eq!(Config::parse(args(), e).unwrap_err(), ConfigError::MissingModel);
}

#[test]
fn env_var_names() {
    assert_eq!(EnvVar::NumCtx.name(), "LFP_NUM_CTX");
    assert_eq!(EnvVar::Timeout.name(), "LFP_TIMEOUT");
    assert_eq!(EnvVar::MinBytes.name(), "LFP_MIN_BYTES");
    assert_eq!(EnvVar::MaxBytes.name(), "LFP_MAX_BYTES");
}

#[test]
fn config_clones() {
    let mut a = args();
    a.model = Some("m".to_string());
    let cfg = Config::parse(a, env()).unwrap();
    let copy = cfg.clone();
    assert_eq!(copy.model, cfg.model);
    assert_eq!(copy.raw_dir, cfg.raw_dir);
}
