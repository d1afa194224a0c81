use magister::config::{Config, ContemplantConfig, EnvOverrides, ConfigError, VastQueryConfig};

fn sample_query() -> VastQueryConfig {
    VastQueryConfig {
        allocated_storage: 16,
        gpu_name: "RTX 4090".to_string(),
        reliability_milli: 980,
        min_cuda_version_milli: 12800,
        gpu_ram: 21,
        disk_space: 16,
        duration_milli: 192679000,
        cost_per_hour_milli: 530,
    }
}

fn empty_env() -> EnvOverrides {
    EnvOverrides {
        http_port: None,
        this_magister_addr: None,
        hierophant_ip: None,
        hierophant_http_port: None,
        vast_api_key: None,
        vast_api_call_backoff_secs: None,
        task_polling_interval_secs: None,
        contemplant_verification_timeout_secs: None,
        template_hash: None,
        number_instances: None,
        query_allocated_storage: None,
        query_gpu_name: None,
        query_reliability_milli: None,
        query_min_cuda_version_milli: None,
        query_gpu_ram: None,
        query_disk_space: None,
        query_duration_milli: None,
        query_cost_per_hour_milli: None,
        bad_hosts: None,
        bad_machines: None,
        good_hosts: None,
        good_machines: None,
        contemplant_prover_type: None,
        contemplant_name: None,
        contemplant_http_port: None,
        contemplant_moongate_endpoint: None,
        contemplant_heartbeat_interval_seconds: None,
        contemplant_max_proofs_stored: None,
        contemplant_moongate_log_path: None,
        contemplant_watcher_polling_interval_ms: None,
        contemplant_ssh_authorized_keys: None,
    }
}

#[test]
fn query_string_matches_marketplace_format() {
    let q = sample_query();
    assert_eq!(
        q.to_query_string(),
        "{\"disk_space\":{\"gte\": 16},\"reliability2\":{\"gte\":0.98},\"duration\":{\"gte\":192679},\"verified\":{\"eq\":true}, \"dph_total\":{\"lte\":0.53},\"gpu_ram\":{\"gte\":21000},\"sort_option\": {\"0\":[\"score\", \"desc\"]},\"rentable\":{\"eq\":true}, \"cuda_max_good\":{\"gte\":\"12.8\"},\"gpu_name\":{\"in\":[\"RTX 4090\"]},\"allocated_storage\":16,\"order\": [[\"score\", \"desc\"]],\"type\":\"ask\"}"
    );
}

#[test]
fn defaults_fill_optional_fields() {
    let c = Config::defaults();
    assert_eq!(c.http_port, 8555);
    assert_eq!(c.vast_api_call_backoff_secs, 10);
    assert_eq!(c.task_polling_interval_secs, 30);
    assert_eq!(c.contemplant_verification_timeout_secs, 180);
    assert_eq!(c.number_instances, 0);
    assert!(c.bad_hosts.is_none());
}

#[test]
fn default_contemplant_settings() {
    let c = ContemplantConfig::default();
    assert_eq!(c.prover_type, "cpu");
    assert_eq!(c.http_port, 9011);
    assert_eq!(c.heartbeat_interval_seconds, 30);
    assert_eq!(c.max_proofs_stored, 2);
    assert_eq!(c.moongate_log_path, "./moongate.log");
    assert_eq!(c.watcher_polling_interval_ms, 2000);
    assert!(c.contemplant_name.is_none());
}

#[test]
fn env_exports_defaults() {
    let c = ContemplantConfig::default();
    assert_eq!(
        c.to_env_exports(),
        "export PROVER_TYPE=\\\"cpu\\\"; export HTTP_PORT=\\\"9011\\\"; export HEARTBEAT_INTERVAL_SECONDS=\\\"30\\\"; export MAX_PROOFS_STORED=\\\"2\\\"; export MOONGATE_LOG_PATH=\\\"./moongate.log\\\"; export WATCHER_POLLING_INTERVAL_MS=\\\"2000\\\""
    );
}

#[test]
fn env_exports_with_optionals_and_escaping() {
    let mut c = ContemplantConfig::default();
    c.contemplant_name = Some("worker one".to_string());
    c.ssh_authorized_keys = Some("ssh-rsa AAA\nssh-ed25519 \"B\\C".to_string());
    let out = c.to_env_exports();
    assert!(out.starts_with(
        "export PROVER_TYPE=\\\"cpu\\\"; export CONTEMPLANT_NAME=\\\"worker one\\\"; export HTTP_PORT=\\\"9011\\\""
    ));
    assert!(out.ends_with(
        "export SSH_AUTHORIZED_KEYS=\\\"ssh-rsa AAA\\nssh-ed25519 \\\"B\\\\C\\\""
    ));
}

#[test]
fn env_overrides_win() {
    let base = Config::defaults();
    let mut env = empty_env();
    env.http_port = Some(9000);
    env.this_magister_addr = Some("1.2.3.4".to_string());
    env.number_instances = Some(3);
    env.bad_hosts = Some(vec![5, 6]);
    let merged = base.apply_env(env);
    assert_eq!(merged.http_port, 9000);
    assert_eq!(merged.this_magister_addr, "1.2.3.4");
    assert_eq!(merged.number_instances, 3);
    assert_eq!(merged.bad_hosts, Some(vec![5, 6]));
    assert_eq!(merged.task_polling_interval_secs, 30);
}

#[test]
fn validation_names_first_missing_field() {
    let mut c = Config::defaults();
    assert_eq!(c.validate(), Err(ConfigError::MissingThisMagisterAddr));
    c.this_magister_addr = "addr".to_string();
    assert_eq!(c.validate(), Err(ConfigError::MissingHierophantIp));
    c.hierophant_ip = "5.6.7.8".to_string();
    assert_eq!(c.validate(), Err(ConfigError::MissingHierophantHttpPort));
    c.hierophant_http_port = 1234;
    assert_eq!(c.validate(), Err(ConfigError::MissingVastApiKey));
    c.vast_api_key = "key".to_string();
    assert_eq!(c.validate(), Err(ConfigError::MissingTemplateHash));
    c.template_hash = "hash".to_string();
    assert_eq!(c.validate(), Err(ConfigError::MissingNumberInstances));
    c.number_instances = 2;
    assert_eq!(c.validate(), Ok(()));
}
