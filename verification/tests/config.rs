use deping::config::{AppConfig, EnvSettings};

fn no_env() -> EnvSettings {
    EnvSettings {
        node_id: None,
        grpc_endpoint: None,
        server_url: None,
        deping_max_concurrent_jobs: None,
        max_concurrent_jobs: None,
        heartbeat_interval: None,
        connect_timeout: None,
    }
}

fn argv(items: &[&str]) -> Vec<String> {
    items.iter().map(|s| s.to_string()).collect()
}

#[test]
fn defaults_without_identity_env_or_flags() {
    let c = AppConfig::load_from_env(None, no_env(), &argv(&["deping"]));
    assert_eq!(c.node_id, "anonymous_node");
    assert_eq!(c.server_url, "http://127.0.0.1:50051");
    assert_eq!(c.max_concurrent_jobs, 10);
    assert_eq!(c.heartbeat_interval_secs, 30);
    assert_eq!(c.connect_timeout_secs, 5);
}

#[test]
fn stored_identity_supplies_node_id() {
    let stored = r#"{"private_key":"sk","public_key":"PK123"}"#.to_string();
    let c = AppConfig::load_from_env(Some(stored), no_env(), &argv(&[]));
    assert_eq!(c.node_id, "PK123");
}

#[test]
fn stored_file_without_key_gives_empty_node_id() {
    let c = AppConfig::load_from_env(Some("{}".to_string()), no_env(), &argv(&["deping"]));
    assert_eq!(c.node_id, "");
    let c = AppConfig::load_from_env(Some(r#"{"public_key": 5}"#.to_string()), no_env(), &argv(&["deping"]));
    assert_eq!(c.node_id, "");
}

#[test]
fn unreadable_stored_file_falls_back_to_anonymous() {
    let c = AppConfig::load_from_env(Some("not json".to_string()), no_env(), &argv(&["deping"]));
    assert_eq!(c.node_id, "anonymous_node");
}

#[test]
fn load_id_from_file_reads_public_key() {
    assert_eq!(AppConfig::load_id_from_file(r#"{"public_key":"abc"}"#), Some("abc".to_string()));
    assert_eq!(AppConfig::load_id_from_file(r#"[1,2]"#), Some(String::new()));
    assert_eq!(AppConfig::load_id_from_file("{"), None);
}

#[test]
fn environment_overrides_defaults() {
    let env = EnvSettings {
        node_id: Some("node-env".to_string()),
        server_url: Some("http://backend:9000".to_string()),
        max_concurrent_jobs: Some("25".to_string()),
        ..no_env()
    };
    let stored = r#"{"public_key":"PK"}"#.to_string();
    let c = AppConfig::load_from_env(Some(stored), env, &argv(&["deping"]));
    assert_eq!(c.node_id, "node-env");
    assert_eq!(c.server_url, "http://backend:9000");
    assert_eq!(c.max_concurrent_jobs, 25);
}

#[test]
fn unreadable_env_job_count_gives_ten() {
    let env = EnvSettings { max_concurrent_jobs: Some("lots".to_string()), ..no_env() };
    let c = AppConfig::load_from_env(None, env, &argv(&["deping"]));
    assert_eq!(c.max_concurrent_jobs, 10);
}

#[test]
fn flags_override_environment() {
    let env = EnvSettings {
        node_id: Some("node-env".to_string()),
        max_concurrent_jobs: Some("3".to_string()),
        ..no_env()
    };
    let c = AppConfig::load_from_env(
        None,
        env,
        &argv(&["deping", "-node_id=n1", "-server_url=http://x:1/a=b", "-max_jobs=40"]),
    );
    assert_eq!(c.node_id, "n1");
    assert_eq!(c.server_url, "http://x:1/a=b");
    assert_eq!(c.max_concurrent_jobs, 40);
}

#[test]
fn last_flag_wins_and_bad_values_are_ignored() {
    let c = AppConfig::load_from_env(
        None,
        no_env(),
        &argv(&["deping", "-max_jobs=5", "-node_id=a", "-node_id=b", "-max_jobs=five", "-max_jobs=-1"]),
    );
    assert_eq!(c.node_id, "b");
    assert_eq!(c.max_concurrent_jobs, 5);
}

#[test]
fn program_name_and_odd_arguments_are_not_flags() {
    let c = AppConfig::load_from_env(
        None,
        no_env(),
        &argv(&["-node_id=prog", "node_id=x", "--node_id=y", "-node_id", "-unknown=1", "start", "-=v"]),
    );
    assert_eq!(c.node_id, "anonymous_node");
    let c = AppConfig::load_from_env(None, no_env(), &argv(&["deping", "-node_id="]));
    assert_eq!(c.node_id, "");
}

#[test]
fn documented_variables_alone_set_endpoint_and_job_limit() {
    let env = EnvSettings {
        grpc_endpoint: Some("http://10.0.0.1:50051".to_string()),
        deping_max_concurrent_jobs: Some("4".to_string()),
        ..no_env()
    };
    let c = AppConfig::load_from_env(None, env, &argv(&["deping"]));
    assert_eq!(c.server_url, "http://10.0.0.1:50051");
    assert_eq!(c.max_concurrent_jobs, 4);
}

#[test]
fn documented_variables_win_over_older_names() {
    let env = EnvSettings {
        grpc_endpoint: Some("http://10.0.0.1:50051".to_string()),
        server_url: Some("http://backend:9000".to_string()),
        deping_max_concurrent_jobs: Some("4".to_string()),
        max_concurrent_jobs: Some("25".to_string()),
        ..no_env()
    };
    let c = AppConfig::load_from_env(None, env, &argv(&["deping"]));
    assert_eq!(c.server_url, "http://10.0.0.1:50051");
    assert_eq!(c.max_concurrent_jobs, 4);
    let env = EnvSettings {
        deping_max_concurrent_jobs: Some("many".to_string()),
        max_concurrent_jobs: Some("25".to_string()),
        ..no_env()
    };
    let c = AppConfig::load_from_env(None, env, &argv(&["deping"]));
    assert_eq!(c.max_concurrent_jobs, 10);
}

#[test]
fn heartbeat_and_connect_timeout_read_positive_seconds() {
    let env = EnvSettings {
        heartbeat_interval: Some("15".to_string()),
        connect_timeout: Some("2".to_string()),
        ..no_env()
    };
    let c = AppConfig::load_from_env(None, env, &argv(&["deping"]));
    assert_eq!(c.heartbeat_interval_secs, 15);
    assert_eq!(c.connect_timeout_secs, 2);
    let env = EnvSettings {
        heartbeat_interval: Some("0".to_string()),
        connect_timeout: Some("soon".to_string()),
        ..no_env()
    };
    let c = AppConfig::load_from_env(None, env, &argv(&["deping", "-max_jobs=7"]));
    assert_eq!(c.heartbeat_interval_secs, 30);
    assert_eq!(c.connect_timeout_secs, 5);
    assert_eq!(c.max_concurrent_jobs, 7);
}
