use sqs_tools::cli::{lab_config_path, require_queue_name, CommonArgs};
use sqs_tools::config::{AppConfig, ConfigSource, RuntimeMode, DEFAULT_RECV_WAIT_SECS};
use sqs_tools::error::{ConfigError, QueueError};

fn empty_source() -> ConfigSource {
    ConfigSource {
        mode: None,
        region: None,
        queue_name: None,
        endpoint_url: None,
        visibility_timeout_secs: None,
        fifo: None,
        content_based_dedup: None,
        wait_secs: None,
    }
}

fn root_source() -> ConfigSource {
    ConfigSource {
        mode: Some(RuntimeMode::Local),
        region: Some("root-region".to_string()),
        queue_name: Some("root-queue".to_string()),
        endpoint_url: Some("http://root:4566".to_string()),
        visibility_timeout_secs: Some(30),
        fifo: None,
        content_based_dedup: None,
        wait_secs: Some(5),
    }
}

fn resolved() -> AppConfig {
    AppConfig::load_merged(Some(root_source()), None, empty_source()).unwrap()
}

#[test]
fn env_wins_over_lab_and_root() {
    let lab = ConfigSource {
        region: Some("lab-region".to_string()),
        queue_name: Some("lab-queue".to_string()),
        ..empty_source()
    };
    let env = ConfigSource {
        region: Some("env-region".to_string()),
        ..empty_source()
    };
    let cfg = AppConfig::load_merged(Some(root_source()), Some(lab), env).unwrap();
    // Key set in all three sources: the environment wins.
    assert_eq!(cfg.runtime.region, "env-region");
    // Key set in root and lab only: the lab wins.
    assert_eq!(cfg.sqs.queue_name.as_deref(), Some("lab-queue"));
    // Keys set in the root only show through.
    assert_eq!(cfg.runtime.mode, RuntimeMode::Local);
    assert_eq!(cfg.sqs.visibility_timeout_secs, Some(30));
    assert_eq!(cfg.recv.wait_secs, Some(5));
}

#[test]
fn lab_wins_over_root() {
    let lab = ConfigSource {
        mode: Some(RuntimeMode::Remote),
        wait_secs: Some(20),
        ..empty_source()
    };
    let cfg = AppConfig::load_merged(Some(root_source()), Some(lab), empty_source()).unwrap();
    assert_eq!(cfg.runtime.mode, RuntimeMode::Remote);
    assert_eq!(cfg.recv.wait_secs, Some(20));
    assert_eq!(cfg.runtime.region, "root-region");
}

#[test]
fn env_wins_without_lab_source() {
    let env = ConfigSource {
        queue_name: Some("env-queue".to_string()),
        ..empty_source()
    };
    let cfg = AppConfig::load_merged(Some(root_source()), None, env).unwrap();
    assert_eq!(cfg.sqs.queue_name.as_deref(), Some("env-queue"));
    assert_eq!(cfg.runtime.region, "root-region");
}

#[test]
fn missing_root_source_fails() {
    let out = AppConfig::load_merged(None, Some(root_source()), root_source());
    assert_eq!(out.unwrap_err(), ConfigError::MissingRoot);
}

#[test]
fn missing_region_is_invalid() {
    let root = ConfigSource {
        region: None,
        ..root_source()
    };
    let out = AppConfig::load_merged(Some(root), None, empty_source());
    assert_eq!(out.unwrap_err(), ConfigError::Invalid);
}

#[test]
fn missing_mode_is_invalid() {
    let root = ConfigSource {
        mode: None,
        ..root_source()
    };
    let out = AppConfig::load_merged(Some(root), None, empty_source());
    assert_eq!(out.unwrap_err(), ConfigError::Invalid);
}

#[test]
fn region_supplied_by_env_alone_is_enough() {
    let root = ConfigSource {
        region: None,
        ..root_source()
    };
    let env = ConfigSource {
        region: Some("env-region".to_string()),
        ..empty_source()
    };
    let cfg = AppConfig::load_merged(Some(root), None, env).unwrap();
    assert_eq!(cfg.runtime.region, "env-region");
}

#[test]
fn queue_name_cli_override_wins() {
    let common = CommonArgs {
        config: "config.toml".to_string(),
        lab_config: None,
        queue_name: Some("cli-queue".to_string()),
    };
    let cfg = resolved();
    // The config names "root-queue", yet the command-line override wins.
    assert_eq!(require_queue_name(&common, &cfg).unwrap(), "cli-queue");
}

#[test]
fn queue_name_falls_back_to_config() {
    let common = CommonArgs {
        config: "config.toml".to_string(),
        lab_config: None,
        queue_name: None,
    };
    let cfg = resolved();
    assert_eq!(require_queue_name(&common, &cfg).unwrap(), "root-queue");
}

#[test]
fn queue_name_absent_everywhere_fails() {
    let common = CommonArgs {
        config: "config.toml".to_string(),
        lab_config: None,
        queue_name: None,
    };
    let root = ConfigSource {
        queue_name: None,
        ..root_source()
    };
    let cfg = AppConfig::load_merged(Some(root), None, empty_source()).unwrap();
    let out = require_queue_name(&common, &cfg);
    assert_eq!(out.unwrap_err(), QueueError::QueueNameRequired);
}

#[test]
fn lab_config_path_prefers_flag() {
    let common = CommonArgs {
        config: "config.toml".to_string(),
        lab_config: Some("labs/custom/config.toml".to_string()),
        queue_name: None,
    };
    assert_eq!(lab_config_path(&common, "labs/default/config.toml"), "labs/custom/config.toml");
}

#[test]
fn lab_config_path_falls_back_to_default() {
    let common = CommonArgs {
        config: "config.toml".to_string(),
        lab_config: None,
        queue_name: None,
    };
    assert_eq!(lab_config_path(&common, "labs/default/config.toml"), "labs/default/config.toml");
}

#[test]
fn recv_wait_secs_defaults_to_ten() {
    let root = ConfigSource {
        wait_secs: None,
        ..root_source()
    };
    let cfg = AppConfig::load_merged(Some(root), None, empty_source()).unwrap();
    assert_eq!(DEFAULT_RECV_WAIT_SECS, 10);
    assert_eq!(cfg.recv_wait_secs(), 10);
}

#[test]
fn recv_wait_secs_reads_config() {
    let cfg = AppConfig::load_merged(Some(root_source()), None, empty_source()).unwrap();
    assert_eq!(cfg.recv_wait_secs(), 5);
}

#[test]
fn queue_name_or_prefers_config() {
    let cfg = AppConfig::load_merged(Some(root_source()), None, empty_source()).unwrap();
    assert_eq!(cfg.queue_name_or("fallback-queue"), "root-queue");
}

#[test]
fn queue_name_or_falls_back() {
    let root = ConfigSource {
        queue_name: None,
        ..root_source()
    };
    let cfg = AppConfig::load_merged(Some(root), None, empty_source()).unwrap();
    assert_eq!(cfg.queue_name_or("fallback-queue"), "fallback-queue");
}

#[test]
fn static_credentials_for_local_mode() {
    let cfg = AppConfig::load_merged(Some(root_source()), None, empty_source()).unwrap();
    assert_eq!(cfg.runtime.mode, RuntimeMode::Local);
    assert!(cfg.use_static_credentials());
}

#[test]
fn static_credentials_for_explicit_endpoint() {
    let root = ConfigSource {
        mode: Some(RuntimeMode::Remote),
        ..root_source()
    };
    let cfg = AppConfig::load_merged(Some(root), None, empty_source()).unwrap();
    assert!(cfg.sqs.endpoint_url.is_some());
    assert!(cfg.use_static_credentials());
}

#[test]
fn ambient_credentials_for_plain_remote() {
    let root = ConfigSource {
        mode: Some(RuntimeMode::Remote),
        endpoint_url: None,
        ..root_source()
    };
    let cfg = AppConfig::load_merged(Some(root), None, empty_source()).unwrap();
    assert!(!cfg.use_static_credentials());
}
