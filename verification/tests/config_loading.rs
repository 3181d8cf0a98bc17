use springql::config::SpringConfigDeserialize;
use springql::config::config_from_toml;
use springql::config::default_config;
use springql::error::SpringError;

#[test]
fn test_empty_overwrite_gives_defaults() {
    let c = config_from_toml("").unwrap();
    let d = default_config();
    assert_eq!(c.worker.n_generic_worker_threads, 1);
    assert_eq!(c.worker.n_source_worker_threads, 1);
    assert_eq!(c.memory.upper_limit_bytes, 10_000_000);
    assert_eq!(c.memory.moderate_to_severe_percent, 60);
    assert_eq!(c.memory.severe_to_critical_percent, 95);
    assert_eq!(c.memory.critical_to_severe_percent, 80);
    assert_eq!(c.memory.severe_to_moderate_percent, 40);
    assert_eq!(c.memory.memory_state_transition_interval_msec, 10);
    assert_eq!(c.memory.performance_metrics_summary_report_interval_msec, 10);
    assert!(!c.web_console.enable_report_post);
    assert_eq!(c.web_console.report_interval_msec, 3_000);
    assert_eq!(c.web_console.host, "127.0.0.1".to_string());
    assert_eq!(c.web_console.port, 8050);
    assert_eq!(c.web_console.timeout_msec, 3_000);
    assert_eq!(c.source_reader.net_connect_timeout_msec, 1_000);
    assert_eq!(c.source_reader.net_read_timeout_msec, 100);
    assert_eq!(c.source_reader.can_read_timeout_msec, 100);
    assert_eq!(c.sink_writer.net_connect_timeout_msec, 1_000);
    assert_eq!(c.sink_writer.net_write_timeout_msec, 100);
    assert_eq!(d.memory.upper_limit_bytes, c.memory.upper_limit_bytes);
}

#[test]
fn test_overwrite_lays_keys_over_defaults() {
    let toml_text = "
[worker]
n_generic_worker_threads = 2

[memory]
upper_limit_bytes = 1000000
moderate_to_severe_percent = 50

[web_console]
host = \"192.168.0.1\"
enable_report_post = true
";
    let c = SpringConfigDeserialize::load(toml_text).unwrap();
    assert_eq!(c.worker.n_generic_worker_threads, 2);
    // untouched keys keep their defaults
    assert_eq!(c.worker.n_source_worker_threads, 1);
    assert_eq!(c.memory.upper_limit_bytes, 1_000_000);
    assert_eq!(c.memory.moderate_to_severe_percent, 50);
    assert_eq!(c.memory.severe_to_critical_percent, 95);
    assert_eq!(c.web_console.host, "192.168.0.1".to_string());
    assert!(c.web_console.enable_report_post);
    assert_eq!(c.web_console.port, 8050);
}

#[test]
fn test_text_that_is_not_toml_is_invalid_format() {
    let e = SpringConfigDeserialize::load("this is { not toml").unwrap_err();
    match e {
        SpringError::InvalidFormat { s } => assert_eq!(s, "this is { not toml".to_string()),
        other => panic!("unexpected error: {:?}", other),
    }
}

#[test]
fn test_unknown_section_is_invalid_config() {
    let e = SpringConfigDeserialize::from_toml("[observability]\nlevel = 3\n").unwrap_err();
    assert!(matches!(e, SpringError::InvalidConfig { .. }));
}

#[test]
fn test_unknown_key_is_invalid_config() {
    let e = config_from_toml("[worker]\nn_turbo_threads = 4\n").unwrap_err();
    assert!(matches!(e, SpringError::InvalidConfig { .. }));
}

#[test]
fn test_wrong_value_type_is_invalid_config() {
    let e = config_from_toml("[worker]\nn_generic_worker_threads = \"two\"\n").unwrap_err();
    assert!(matches!(e, SpringError::InvalidConfig { .. }));
    let e2 = config_from_toml("[memory]\nupper_limit_bytes = 1.5\n").unwrap_err();
    assert!(matches!(e2, SpringError::InvalidConfig { .. }));
}

#[test]
fn test_out_of_range_value_is_invalid_config() {
    let e = config_from_toml("[web_console]\nport = 70000\n").unwrap_err();
    assert!(matches!(e, SpringError::InvalidConfig { .. }));
    let e2 = config_from_toml("[memory]\nupper_limit_bytes = -1\n").unwrap_err();
    assert!(matches!(e2, SpringError::InvalidConfig { .. }));
}

#[test]
fn test_section_that_is_not_a_table_is_invalid_config() {
    let e = config_from_toml("worker = 1\n").unwrap_err();
    assert!(matches!(e, SpringError::InvalidConfig { .. }));
}
