use esgraph::config::{default_batch_size, default_flush_interval_ms, Config, EventsConfig, MuteConfig, StoreConfig};
use esgraph::error::ConfigError;
use esgraph::events::EsEventName;
use esgraph::model::{
    is_false, EventDetails, FileNode, GraphNode, NodeKind, ProcessIdentity, ProcessNode, SocketNode,
};

fn config_with(process: &[&str], file: &[&str], network: &[&str], path: &str, batch_size: usize) -> Config {
    Config {
        events: EventsConfig {
            process: process.iter().map(|s| s.to_string()).collect(),
            file: file.iter().map(|s| s.to_string()).collect(),
            network: network.iter().map(|s| s.to_string()).collect(),
        },
        store: StoreConfig { path: path.to_string(), batch_size, flush_interval_ms: 1000 },
        mute: MuteConfig::default(),
    }
}

#[test]
fn default_config_validates() {
    let cfg = Config::default();
    cfg.validate().unwrap();
    let names = cfg.resolved_event_names().unwrap();
    assert!(!names.is_empty());
    assert!(!names.iter().any(|n| n.is_auth()));
}

#[test]
fn rejects_unknown_event_name() {
    let cfg = config_with(&["not_a_real_event"], &[], &[], "/tmp/x.graph", 500);
    let err = cfg.validate().unwrap_err();
    match err {
        ConfigError::Validation(msg) => assert!(msg.contains("not_a_real_event")),
        other => panic!("expected Validation, got {other:?}"),
    }
}

#[test]
fn parse_event_names_roundtrip() {
    for &name in EsEventName::all_names() {
        let parsed: EsEventName = name.parse().unwrap();
        assert_eq!(parsed.to_string(), name);
    }
}

#[test]
fn default_subscription_set_is_notify_only() {
    for ev in EsEventName::default_subscription_set() {
        assert!(!ev.is_auth(), "{} should not be AUTH in default set", ev.to_string());
    }
}

#[test]
fn default_config_values() {
    let cfg = Config::default();
    assert_eq!(cfg.store.path, "data/events.lbug");
    assert_eq!(cfg.store.batch_size, 500);
    assert_eq!(cfg.store.flush_interval_ms, 1000);
    assert_eq!(cfg.mute.paths, vec!["/System".to_string(), "/private/var/db".to_string()]);
    assert_eq!(default_batch_size(), 500);
    assert_eq!(default_flush_interval_ms(), 1000);
    assert_eq!(cfg.resolved_event_names().unwrap(), EsEventName::default_subscription_set());
}

#[test]
fn resolve_keeps_group_order_and_first_occurrence() {
    let cfg = config_with(
        &["notify_fork", "notify_exec", "notify_fork"],
        &["notify_write", "notify_exec"],
        &["notify_uipc_bind", "notify_write"],
        "db",
        1,
    );
    let names = cfg.resolved_event_names().unwrap();
    assert_eq!(
        names,
        vec![
            EsEventName::NotifyFork,
            EsEventName::NotifyExec,
            EsEventName::NotifyWrite,
            EsEventName::NotifyUipcBind,
        ]
    );
}

#[test]
fn resolve_reports_first_unknown_name() {
    let cfg = config_with(&["notify_exec"], &["bogus_one"], &["bogus_two"], "db", 1);
    let err = cfg.resolved_event_names().unwrap_err();
    let expected = format!(
        "unknown ESF event name 'bogus_one'; valid names: {}",
        EsEventName::all_names().join(", ")
    );
    assert_eq!(err, ConfigError::Validation(expected.clone()));
    assert_eq!(err.to_string(), format!("invalid config: {expected}"));
}

#[test]
fn auth_names_are_accepted_in_config() {
    let cfg = config_with(&["auth_exec"], &["auth_open"], &[], "db", 1);
    cfg.validate().unwrap();
    let names = cfg.resolved_event_names().unwrap();
    assert_eq!(names, vec![EsEventName::AuthExec, EsEventName::AuthOpen]);
    assert!(names.iter().all(|n| n.is_auth()));
}

#[test]
fn validate_rejects_zero_batch_size() {
    let cfg = config_with(&["notify_exec"], &[], &[], "db", 0);
    assert_eq!(
        cfg.validate(),
        Err(ConfigError::Validation("store.batch_size must be > 0".to_string()))
    );
}

#[test]
fn validate_rejects_blank_store_path() {
    let cfg = config_with(&["notify_exec"], &[], &[], " \t\n", 10);
    assert_eq!(
        cfg.validate(),
        Err(ConfigError::Validation("store.path must not be empty".to_string()))
    );
    let cfg = config_with(&["notify_exec"], &[], &[], "", 10);
    assert!(cfg.validate().is_err());
}

#[test]
fn config_error_descriptions() {
    let read = ConfigError::Read { path: "a.toml".into(), message: "missing".into() };
    assert_eq!(read.to_string(), "failed to read config file a.toml: missing");
    let parse = ConfigError::Parse { path: "b.toml".into(), message: "bad key".into() };
    assert_eq!(parse.to_string(), "failed to parse config file b.toml: bad key");
}

#[test]
fn event_name_spellings() {
    assert_eq!(EsEventName::all_names().len(), 15);
    assert_eq!(EsEventName::NotifyRemoteThreadCreate.as_str(), "notify_remote_thread_create");
    assert_eq!(EsEventName::AuthOpen.to_string(), "auth_open");
    assert!(EsEventName::AuthExec.is_auth());
    assert!(!EsEventName::NotifyOpen.is_auth());
    assert!(!EsEventName::default_subscription_set().contains(&EsEventName::NotifyOpen));
    match EsEventName::parse_name("Notify_Exec") {
        Err(ConfigError::Validation(m)) => assert!(m.starts_with("unknown ESF event name 'Notify_Exec'")),
        other => panic!("unexpected {other:?}"),
    }
    assert!("".parse::<EsEventName>().is_err());
}

fn process(token: &str) -> ProcessNode {
    ProcessNode {
        identity: ProcessIdentity { audit_token_hex: token.into(), pid: 7 },
        path: "/bin/ls".into(),
        signing_id: None,
        team_id: None,
        cdhash: None,
        ppid: None,
        euid: None,
        egid: None,
        ruid: None,
        rgid: None,
        session_id: None,
        is_platform_binary: None,
        parent_audit_token_hex: None,
        args_json: None,
        exit_status: None,
    }
}

#[test]
fn node_keys_and_labels() {
    let p = GraphNode::Process(process("00ff"));
    assert_eq!(p.id(), "00ff");
    assert_eq!(p.kind_label(), "process");
    let f = GraphNode::File(FileNode {
        path: "/tmp/x".into(),
        inode: None,
        mode: None,
        owner_uid: None,
        owner_gid: None,
        path_truncated: false,
    });
    assert_eq!(f.id(), "/tmp/x");
    assert_eq!(f.kind_label(), "file");
    let s = GraphNode::Socket(SocketNode { path: "/var/run/s.sock".into() });
    assert_eq!(s.id(), "/var/run/s.sock");
    assert_eq!(s.kind_label(), "socket");
    assert_eq!(NodeKind::Process.as_str(), "process");
    assert_eq!(NodeKind::File.as_str(), "file");
    assert_eq!(NodeKind::Socket.as_str(), "socket");
}

#[test]
fn details_emptiness() {
    let d = EventDetails::default();
    assert!(d.is_empty());
    let d = EventDetails { exit_status: Some(0), ..EventDetails::default() };
    assert!(!d.is_empty());
    let d = EventDetails { path_truncated: Some(false), ..EventDetails::default() };
    assert!(!d.is_empty());
    assert!(is_false(&false));
    assert!(!is_false(&true));
}
