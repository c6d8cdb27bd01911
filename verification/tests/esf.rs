use esgraph::config::Config;
use esgraph::esf::{
    es_type_to_event_name, event_names_to_es_types, format_client_error, mute_prefixes,
    normalise_message, parse_product_version, subscription_types, unix_time_ns,
    EsCreateDestination, EsEvent, EsFile, EsMessage, EsProcess, EsRenameDestination, EsfError,
};
use esgraph::events::EsEventName;
use esgraph::model::{EdgeKind, EventDetails, FileNode, GraphEdge, GraphNode, SocketNode};

fn instigator() -> EsProcess {
    EsProcess {
        audit_token_hex: "a1".into(),
        pid: 10,
        euid: 501,
        egid: 20,
        ruid: 502,
        rgid: 21,
        executable_path: "/bin/zsh".into(),
        signing_id: "com.apple.zsh".into(),
        team_id: "".into(),
        cdhash: vec![0; 20],
        ppid: 1,
        session_id: 5,
        is_platform_binary: true,
        parent_audit_token_hex: Some("p0".into()),
    }
}

fn target() -> EsProcess {
    EsProcess {
        audit_token_hex: "b2".into(),
        pid: 11,
        euid: 0,
        egid: 0,
        ruid: 0,
        rgid: 0,
        executable_path: "/usr/bin/python3".into(),
        signing_id: "".into(),
        team_id: "TEAM1".into(),
        cdhash: vec![0xab, 0x01, 0x00],
        ppid: 10,
        session_id: 5,
        is_platform_binary: false,
        parent_audit_token_hex: None,
    }
}

fn file(path: &str) -> EsFile {
    EsFile { path: path.into(), path_truncated: false, inode: 77, mode: 0o100600, uid: 501, gid: 20 }
}

fn message(event_type: u32, event: Option<EsEvent>) -> EsMessage {
    EsMessage {
        event_type,
        event_type_label: format!("es_event_type_t::X({event_type})"),
        time_since_epoch: Some((1_700_000_000, 5)),
        process: instigator(),
        event,
    }
}

const TS: i64 = 1_700_000_000_000_000_005;

fn instigator_details() -> EventDetails {
    EventDetails {
        instigator_pid: Some(10),
        instigator_euid: Some(501),
        instigator_egid: Some(20),
        instigator_path: Some("/bin/zsh".into()),
        instigator_audit_token_hex: Some("a1".into()),
        ..EventDetails::default()
    }
}

fn edge(kind: EdgeKind, src: &str, dst: &str, dst_kind: &str, metadata: Option<&str>) -> GraphEdge {
    GraphEdge {
        kind,
        src_id: src.into(),
        src_kind: "process".into(),
        dst_id: dst.into(),
        dst_kind: dst_kind.into(),
        timestamp_unix_ns: TS,
        metadata: metadata.map(|m| m.to_string()),
    }
}

#[test]
fn normalises_exec() {
    let args = vec!["/usr/bin/python3".to_string(), "-c".to_string(), "print(\"x\")".to_string()];
    let msg = message(9, Some(EsEvent::NotifyExec { target: target(), args: args.clone() }));
    let ev = normalise_message(&msg).unwrap().unwrap();
    assert_eq!(ev.event_name, "notify_exec");
    assert_eq!(ev.timestamp_unix_ns, TS);
    assert_eq!(ev.raw_json, None);
    assert_eq!(ev.nodes.len(), 2);
    match &ev.nodes[0] {
        GraphNode::Process(p) => {
            assert_eq!(p.identity.audit_token_hex, "a1");
            assert_eq!(p.identity.pid, 10);
            assert_eq!(p.path, "/bin/zsh");
            assert_eq!(p.signing_id.as_deref(), Some("com.apple.zsh"));
            assert_eq!(p.team_id, None);
            assert_eq!(p.cdhash, None);
            assert_eq!(p.ppid, Some(1));
            assert_eq!((p.euid, p.egid, p.ruid, p.rgid), (Some(501), Some(20), Some(502), Some(21)));
            assert_eq!(p.session_id, Some(5));
            assert_eq!(p.is_platform_binary, Some(true));
            assert_eq!(p.parent_audit_token_hex.as_deref(), Some("p0"));
            assert_eq!(p.args_json, None);
            assert_eq!(p.exit_status, None);
        }
        other => panic!("unexpected {other:?}"),
    }
    match &ev.nodes[1] {
        GraphNode::Process(c) => {
            assert_eq!(c.identity.audit_token_hex, "b2");
            assert_eq!(c.signing_id, None);
            assert_eq!(c.team_id.as_deref(), Some("TEAM1"));
            assert_eq!(c.cdhash.as_deref(), Some("ab0100"));
            assert_eq!(
                c.args_json.as_deref(),
                Some(r#"["/usr/bin/python3","-c","print(\"x\")"]"#)
            );
        }
        other => panic!("unexpected {other:?}"),
    }
    assert_eq!(ev.edges, vec![edge(EdgeKind::Executed, "a1", "b2", "process", None)]);
    let expected = EventDetails {
        target_audit_token_hex: Some("b2".into()),
        target_path: Some("/usr/bin/python3".into()),
        exec_args: Some(args),
        ..instigator_details()
    };
    assert_eq!(ev.details, Some(expected));
}

#[test]
fn normalises_fork() {
    let ev = normalise_message(&message(11, Some(EsEvent::NotifyFork { child: target() }))).unwrap().unwrap();
    assert_eq!(ev.event_name, "notify_fork");
    assert_eq!(ev.nodes.len(), 2);
    assert_eq!(ev.nodes[0].id(), "a1");
    assert_eq!(ev.nodes[1].id(), "b2");
    assert_eq!(ev.edges, vec![edge(EdgeKind::Forked, "a1", "b2", "process", None)]);
    assert_eq!(ev.details, Some(instigator_details()));
}

#[test]
fn task_and_thread_events_are_instigator_self_loops() {
    for (ty, event, kind, name) in [
        (
            97,
            EsEvent::NotifyRemoteThreadCreate { target: target() },
            EdgeKind::RemoteThreadCreated,
            "notify_remote_thread_create",
        ),
        (16, EsEvent::NotifyGetTask { target: target() }, EdgeKind::GotTask, "notify_get_task"),
    ] {
        let ev = normalise_message(&message(ty, Some(event))).unwrap().unwrap();
        assert_eq!(ev.event_name, name);
        assert_eq!(ev.nodes.len(), 1);
        match &ev.nodes[0] {
            GraphNode::Process(p) => {
                assert_eq!(p.identity.audit_token_hex, "a1");
                assert_eq!(p.path, "/bin/zsh");
            }
            other => panic!("unexpected {other:?}"),
        }
        assert_eq!(ev.edges, vec![edge(kind, "a1", "a1", "process", None)]);
        assert_eq!(ev.details, Some(instigator_details()));
    }
}

#[test]
fn normalises_exit() {
    let ev = normalise_message(&message(15, Some(EsEvent::NotifyExit { stat: -1 }))).unwrap().unwrap();
    assert_eq!(ev.nodes.len(), 1);
    match &ev.nodes[0] {
        GraphNode::Process(p) => assert_eq!(p.exit_status, Some(-1)),
        other => panic!("unexpected {other:?}"),
    }
    assert_eq!(
        ev.edges,
        vec![edge(EdgeKind::Exited, "a1", "a1", "process", Some(r#"{"exit_status":-1}"#))]
    );
    assert_eq!(ev.details, Some(EventDetails { exit_status: Some(-1), ..instigator_details() }));
}

#[test]
fn normalises_file_events() {
    let cases = [
        (33, EsEvent::NotifyWrite { target: file("/tmp/w") }, EdgeKind::Wrote),
        (32, EsEvent::NotifyUnlink { target: file("/tmp/w") }, EdgeKind::Unlinked),
        (10, EsEvent::NotifyOpen { file: file("/tmp/w") }, EdgeKind::Opened),
        (12, EsEvent::NotifyClose { target: file("/tmp/w") }, EdgeKind::Closed),
        (
            13,
            EsEvent::NotifyCreate { destination: Some(EsCreateDestination::ExistingFile(file("/tmp/w"))) },
            EdgeKind::Created,
        ),
    ];
    for (ty, event, kind) in cases {
        let ev = normalise_message(&message(ty, Some(event))).unwrap().unwrap();
        assert_eq!(
            ev.nodes[1],
            GraphNode::File(FileNode {
                path: "/tmp/w".into(),
                inode: Some(77),
                mode: Some(0o100600),
                owner_uid: Some(501),
                owner_gid: Some(20),
                path_truncated: false,
            })
        );
        assert_eq!(ev.edges, vec![edge(kind, "a1", "/tmp/w", "file", None)]);
        let expected = EventDetails {
            file_mode: Some(0o100600),
            file_inode: Some(77),
            file_owner_uid: Some(501),
            file_owner_gid: Some(20),
            path_truncated: Some(false),
            ..instigator_details()
        };
        assert_eq!(ev.details, Some(expected));
    }
}

#[test]
fn normalises_create_at_new_path() {
    let dest = EsCreateDestination::NewPath { directory: file("/tmp/dir"), filename: "new.txt".into(), mode: 0o644 };
    let ev = normalise_message(&message(13, Some(EsEvent::NotifyCreate { destination: Some(dest) })))
        .unwrap()
        .unwrap();
    assert_eq!(
        ev.nodes[1],
        GraphNode::File(FileNode {
            path: "/tmp/dir/new.txt".into(),
            inode: None,
            mode: Some(0o644),
            owner_uid: None,
            owner_gid: None,
            path_truncated: false,
        })
    );
    assert_eq!(ev.edges, vec![edge(EdgeKind::Created, "a1", "/tmp/dir/new.txt", "file", None)]);
    assert_eq!(ev.details, Some(EventDetails { file_mode: Some(0o644), ..instigator_details() }));
    let none = normalise_message(&message(13, Some(EsEvent::NotifyCreate { destination: None }))).unwrap();
    assert_eq!(none, None);
}

#[test]
fn normalises_rename() {
    let dest = EsRenameDestination::NewPath { directory: file("/tmp/dir"), filename: "b.txt".into() };
    let ev = normalise_message(&message(
        25,
        Some(EsEvent::NotifyRename { source: file("/tmp/a.txt"), destination: Some(dest) }),
    ))
    .unwrap()
    .unwrap();
    assert_eq!(
        ev.edges,
        vec![edge(EdgeKind::Renamed, "a1", "/tmp/a.txt", "file", Some(r#"{"destination":"/tmp/dir/b.txt"}"#))]
    );
    let existing = EsRenameDestination::ExistingFile(file("/tmp/c.txt"));
    let ev = normalise_message(&message(
        25,
        Some(EsEvent::NotifyRename { source: file("/tmp/a.txt"), destination: Some(existing) }),
    ))
    .unwrap()
    .unwrap();
    assert_eq!(ev.edges[0].metadata.as_deref(), Some(r#"{"destination":"/tmp/c.txt"}"#));
    let ev = normalise_message(&message(
        25,
        Some(EsEvent::NotifyRename { source: file("/tmp/a.txt"), destination: None }),
    ))
    .unwrap()
    .unwrap();
    assert_eq!(ev.edges[0].metadata.as_deref(), Some(r#"{"destination":""}"#));
}

#[test]
fn normalises_socket_events() {
    let ev = normalise_message(&message(
        76,
        Some(EsEvent::NotifyUipcBind { dir: file("/var/run"), filename: "x.sock".into(), mode: 0o777 }),
    ))
    .unwrap()
    .unwrap();
    assert_eq!(ev.nodes[1], GraphNode::Socket(SocketNode { path: "/var/run/x.sock".into() }));
    assert_eq!(ev.edges, vec![edge(EdgeKind::UipcBound, "a1", "/var/run/x.sock", "socket", None)]);
    assert_eq!(ev.details, Some(EventDetails { file_mode: Some(0o777), ..instigator_details() }));

    let ev = normalise_message(&message(78, Some(EsEvent::NotifyUipcConnect { file: file("/var/run/y.sock") })))
        .unwrap()
        .unwrap();
    assert_eq!(ev.edges, vec![edge(EdgeKind::UipcConnected, "a1", "/var/run/y.sock", "socket", None)]);
    assert_eq!(ev.details, Some(instigator_details()));
}

#[test]
fn skips_and_rejects() {
    assert_eq!(normalise_message(&message(9, None)).unwrap(), None);
    assert_eq!(normalise_message(&message(1, Some(EsEvent::Other))).unwrap(), None);
    let err = normalise_message(&message(999, Some(EsEvent::Other))).unwrap_err();
    assert_eq!(err, EsfError::Normalise("unsupported event type: es_event_type_t::X(999)".into()));
    assert_eq!(err.to_string(), "normalisation error: unsupported event type: es_event_type_t::X(999)");
    // A message without an event is skipped before its type is looked at.
    assert_eq!(normalise_message(&message(999, None)).unwrap(), None);
}

#[test]
fn message_time() {
    assert_eq!(unix_time_ns(None), 0);
    assert_eq!(unix_time_ns(Some((2, 7))), 2_000_000_007);
    assert_eq!(unix_time_ns(Some((u64::MAX, 9))), 9);
    assert_eq!(unix_time_ns(Some((10_000_000_000, 0))), i64::MAX);
    assert_eq!(unix_time_ns(Some((9_223_372_036, 999_999_999))), i64::MAX);
    assert_eq!(unix_time_ns(Some((9_223_372_036, 854_775_807))), i64::MAX);
    assert_eq!(unix_time_ns(Some((9_223_372_036, 854_775_806))), i64::MAX - 1);
}

#[test]
fn event_type_codes() {
    assert_eq!(
        event_names_to_es_types(&[EsEventName::NotifyExec, EsEventName::AuthOpen, EsEventName::NotifyUipcConnect])
            .unwrap(),
        vec![9, 1, 78]
    );
    assert_eq!(event_names_to_es_types(&[]).unwrap(), Vec::<u32>::new());
    assert_eq!(es_type_to_event_name(97), Some("notify_remote_thread_create"));
    assert_eq!(es_type_to_event_name(0), Some("auth_exec"));
    assert_eq!(es_type_to_event_name(2), None);
    for name in EsEventName::all_names() {
        let n: EsEventName = name.parse().unwrap();
        let code = event_names_to_es_types(&[n]).unwrap()[0];
        assert_eq!(es_type_to_event_name(code), Some(*name));
    }
}

#[test]
fn subscription_types_follow_config() {
    assert_eq!(subscription_types(&Config::default()).unwrap(), vec![9, 11, 15, 13, 33, 32, 25, 76, 78]);
    let mut cfg = Config::default();
    cfg.events.file.push("notify_bogus".into());
    match subscription_types(&cfg) {
        Err(EsfError::Subscription(m)) => {
            assert!(m.starts_with("invalid config: unknown ESF event name 'notify_bogus'"))
        }
        other => panic!("unexpected {other:?}"),
    }
}

#[test]
fn client_error_hints() {
    assert_eq!(
        format_client_error("ES_NEW_CLIENT_RESULT_ERR_NOT_ENTITLED"),
        "ES_NEW_CLIENT_RESULT_ERR_NOT_ENTITLED\nhint: embed com.apple.developer.endpoint-security.client and ad-hoc sign (see docs/vm-setup.md)"
    );
    assert_eq!(
        format_client_error("NotPermitted"),
        "NotPermitted\nhint: grant Full Disk Access to esgraphd and Terminal in System Settings"
    );
    assert_eq!(format_client_error("x NOT_PRIVILEGED y"), "x NOT_PRIVILEGED y\nhint: run with sudo");
    assert_eq!(format_client_error("too many clients"), "too many clients");
    assert_eq!(format_client_error(""), "");
}

#[test]
fn mute_list() {
    let paths = vec!["/System".to_string(), "/private/var/db".to_string()];
    assert_eq!(
        mute_prefixes(&paths, Some("/opt/esgraph/data".into())),
        vec!["/System".to_string(), "/private/var/db".to_string(), "/opt/esgraph/data".to_string()]
    );
    assert_eq!(mute_prefixes(&paths, Some("/System".into())), paths);
    assert_eq!(mute_prefixes(&paths, None), paths);
    assert_eq!(mute_prefixes(&vec![], Some("/d".into())), vec!["/d".to_string()]);
}

#[test]
fn product_versions() {
    assert_eq!(parse_product_version("14.2.1\n"), (14, 2, 1));
    assert_eq!(parse_product_version(" 15 "), (15, 15, 0));
    assert_eq!(parse_product_version(""), (10, 15, 0));
    assert_eq!(parse_product_version("14.x.3"), (14, 3, 0));
    assert_eq!(parse_product_version("a.b"), (10, 15, 0));
    assert_eq!(parse_product_version("+1.2.3.4"), (1, 2, 3));
    assert_eq!(parse_product_version("13..4"), (13, 4, 0));
}

#[test]
fn esf_error_descriptions() {
    assert_eq!(EsfError::UnsupportedPlatform.to_string(), "live ESF collection requires macOS");
    assert_eq!(EsfError::Client("x".into()).to_string(), "endpoint security client error: x");
    assert_eq!(EsfError::Subscription("y".into()).to_string(), "subscription error: y");
}
