use esgraph::cypher::{
    cypher_bool, cypher_i64, cypher_str, join_set_clauses, opt_bool_assign, opt_i64_assign,
    opt_str_assign, parse_count_value, value_to_string, CellValue,
};
use esgraph::ingest::{ingest_batch, sample_write_event, IngestStats, StoreError};
use esgraph::model::{
    EdgeKind, EventDetails, GraphEdge, GraphNode, NormalisedEvent, ProcessIdentity, ProcessNode,
    SocketNode,
};
use esgraph::store::{
    count_from_first_cell, count_label_query, count_relationship_query, next_ingest_id_from,
    tabulate, GraphStoreOptions, QueryResult, EXAMPLE_EXEC_HUNT_CYPHER, EXAMPLE_HUNT_CYPHER,
    MAX_INGEST_ID_CYPHER,
};

const TS: &str = "1700000000000000000";

#[test]
fn cypher_literals() {
    assert_eq!(cypher_str("plain"), "\"plain\"");
    assert_eq!(cypher_str(r#"a"b\c"#), r#""a\"b\\c""#);
    assert_eq!(cypher_str(""), "\"\"");
    assert_eq!(cypher_i64(-42), "-42");
    assert_eq!(cypher_i64(i64::MIN), "-9223372036854775808");
    assert_eq!(cypher_i64(0), "0");
    assert_eq!(cypher_bool(true), "true");
    assert_eq!(cypher_bool(false), "false");
}

#[test]
fn optional_assignments() {
    assert_eq!(opt_str_assign("n", "path", Some("/x\"y")), Some("n.path = \"/x\\\"y\"".to_string()));
    assert_eq!(opt_str_assign("n", "path", None), None);
    assert_eq!(opt_i64_assign("n", "pid", Some(12)), Some("n.pid = 12".to_string()));
    assert_eq!(opt_i64_assign("n", "pid", None), None);
    assert_eq!(opt_bool_assign("m", "flag", Some(false)), Some("m.flag = false".to_string()));
    assert_eq!(opt_bool_assign("m", "flag", None), None);
    let clauses = vec!["n.a = 1".to_string(), "n.b = 2".to_string(), "n.c = 3".to_string()];
    assert_eq!(join_set_clauses(&clauses), "n.a = 1, n.b = 2, n.c = 3");
    assert_eq!(join_set_clauses(&[]), "");
}

#[test]
fn cell_values() {
    assert_eq!(value_to_string(&CellValue::Null), "");
    assert_eq!(value_to_string(&CellValue::Text("/bin/zsh".into())), "/bin/zsh");
    assert_eq!(value_to_string(&CellValue::Int64(-5)), "-5");
    assert_eq!(value_to_string(&CellValue::Int32(17)), "17");
    assert_eq!(value_to_string(&CellValue::UInt64(u64::MAX)), "18446744073709551615");
    assert_eq!(value_to_string(&CellValue::Other("True".into())), "True");
    assert_eq!(parse_count_value(&CellValue::Int64(3)), Some(3));
    assert_eq!(parse_count_value(&CellValue::Int64(-3)), None);
    assert_eq!(parse_count_value(&CellValue::Int32(9)), Some(9));
    assert_eq!(parse_count_value(&CellValue::UInt64(8)), Some(8));
    assert_eq!(parse_count_value(&CellValue::Text("+12".into())), Some(12));
    assert_eq!(parse_count_value(&CellValue::Text("12a".into())), None);
    assert_eq!(parse_count_value(&CellValue::Text("18446744073709551616".into())), None);
    assert_eq!(parse_count_value(&CellValue::Text("18446744073709551615".into())), Some(u64::MAX));
    assert_eq!(parse_count_value(&CellValue::Null), None);
}

#[test]
fn count_queries_and_results() {
    assert_eq!(count_label_query("Process"), "MATCH (n:Process) RETURN count(n)");
    assert_eq!(count_relationship_query("WROTE"), "MATCH ()-[r:WROTE]->() RETURN count(r)");
    assert_eq!(count_from_first_cell(Some(&CellValue::Int64(4))), 4);
    assert_eq!(count_from_first_cell(Some(&CellValue::Null)), 0);
    assert_eq!(count_from_first_cell(None), 0);
    assert_eq!(
        MAX_INGEST_ID_CYPHER,
        "MATCH (e:IngestEvent) RETURN e.id AS id ORDER BY e.id DESC LIMIT 1"
    );
    assert_eq!(next_ingest_id_from(Some(&CellValue::Int64(41))), 42);
    assert_eq!(next_ingest_id_from(Some(&CellValue::UInt64(u64::MAX))), u64::MAX);
    assert_eq!(next_ingest_id_from(Some(&CellValue::Null)), 1);
    assert_eq!(next_ingest_id_from(None), 1);
    assert!(EXAMPLE_HUNT_CYPHER.contains("MATCH (p:Process)-[r:WROTE]->(f:File)"));
    assert!(EXAMPLE_EXEC_HUNT_CYPHER.contains("WHERE p.args_json IS NOT NULL"));
    assert_eq!(GraphStoreOptions::default(), GraphStoreOptions {});
}

#[test]
fn tabulate_stringifies_cells() {
    let rows = vec![
        vec![CellValue::Text("/bin/zsh".into()), CellValue::Text("/tmp/research.txt".into())],
        vec![CellValue::Null, CellValue::Int64(7)],
    ];
    let r = tabulate(vec!["p.path".into(), "f.path".into()], &rows);
    assert_eq!(
        r,
        QueryResult {
            columns: vec!["p.path".into(), "f.path".into()],
            rows: vec![
                vec!["/bin/zsh".into(), "/tmp/research.txt".into()],
                vec!["".into(), "7".into()],
            ],
        }
    );
}

fn statements(script: &str) -> Vec<String> {
    script.split(";\n").map(|s| s.to_string()).collect()
}

#[test]
fn sample_event_plan() {
    let mut next_id = 1u64;
    let batch = ingest_batch(&mut next_id, &[sample_write_event()]).unwrap();
    assert_eq!(batch.stats, IngestStats { events: 1, node_upserts: 2, edges_inserted: 1 });
    assert_eq!(next_id, 2);
    let st = statements(batch.script.as_deref().unwrap());
    assert_eq!(st.len(), 6);
    let context = r#""{\"instigator_pid\":4242,\"instigator_euid\":501,\"instigator_egid\":20,\"instigator_path\":\"/bin/zsh\",\"file_mode\":33188,\"file_inode\":12345,\"file_owner_uid\":501,\"file_owner_gid\":20,\"path_truncated\":false}""#;
    let sets = format!(
        "n.event_name = \"notify_write\", n.timestamp_unix_ns = {TS}, n.context_json = {context}, n.raw_json = \"{{\\\"fixture\\\":\\\"write_event\\\"}}\""
    );
    assert_eq!(st[0], format!("MERGE (n:IngestEvent {{id: 1}}) ON CREATE SET {sets} ON MATCH SET {sets}"));
    let psets = format!(
        "n.pid = 4242, n.path = \"/bin/zsh\", n.last_seen_unix_ns = {TS}, n.ppid = 1, n.euid = 501, n.egid = 20, n.ruid = 501, n.rgid = 20, n.session_id = 100, n.is_platform_binary = true"
    );
    assert_eq!(
        st[1],
        format!("MERGE (n:Process {{id: \"aabbccdd0011\"}}) ON CREATE SET {psets} ON MATCH SET {psets}")
    );
    let fsets = format!(
        "n.path = \"/tmp/research.txt\", n.last_seen_unix_ns = {TS}, n.path_truncated = false, n.inode = 12345, n.mode = 33188, n.owner_uid = 501, n.owner_gid = 20"
    );
    assert_eq!(
        st[2],
        format!("MERGE (n:File {{id: \"/tmp/research.txt\"}}) ON CREATE SET {fsets} ON MATCH SET {fsets}")
    );
    assert_eq!(st[3], "MERGE (n:Process {id: \"aabbccdd0011\"})");
    assert_eq!(st[4], "MERGE (n:File {id: \"/tmp/research.txt\"})");
    assert_eq!(
        st[5],
        format!("MATCH (a:Process {{id: \"aabbccdd0011\"}}), (b:File {{id: \"/tmp/research.txt\"}}) CREATE (a)-[:WROTE {{timestamp_unix_ns: {TS}, event_name: \"notify_write\", ingest_event_id: 1}}]->(b)")
    );
}

#[test]
fn empty_batch_plans_nothing() {
    let mut next_id = 9u64;
    let batch = ingest_batch(&mut next_id, &[]).unwrap();
    assert_eq!(batch.script, None);
    assert_eq!(batch.stats, IngestStats::default());
    assert_eq!(next_id, 9);
}

fn process_node(token: &str, pid: i32, path: &str, ppid: i32, args_json: Option<&str>) -> ProcessNode {
    ProcessNode {
        identity: ProcessIdentity { audit_token_hex: token.into(), pid },
        path: path.into(),
        signing_id: None,
        team_id: None,
        cdhash: None,
        ppid: Some(ppid),
        euid: None,
        egid: None,
        ruid: None,
        rgid: None,
        session_id: None,
        is_platform_binary: None,
        parent_audit_token_hex: None,
        args_json: args_json.map(|s| s.to_string()),
        exit_status: None,
    }
}

/// Reads a double-quoted Cypher literal at the start of `s`, undoing the
/// escaping of quotes and backslashes.
fn read_literal(s: &str) -> String {
    let mut chars = s.chars();
    assert_eq!(chars.next(), Some('"'));
    let mut out = String::new();
    while let Some(c) = chars.next() {
        match c {
            '\\' => out.push(chars.next().unwrap()),
            '"' => return out,
            other => out.push(other),
        }
    }
    panic!("unterminated literal");
}

/// The `args_json` that a process ends with after the planned statements
/// run: each upsert of the node applies its ON CREATE part the first time
/// the node is seen and its ON MATCH part afterwards.
fn stored_args_json(script: &str, token: &str) -> Option<String> {
    let head = format!("MERGE (n:Process {{id: \"{token}\"}})");
    let mut exists = false;
    let mut args = None;
    for st in statements(script) {
        if !st.starts_with(&head) {
            continue;
        }
        let sets = match st.split_once(" ON CREATE SET ") {
            Some((_, rest)) => {
                let (create, on_match) = rest.split_once(" ON MATCH SET ").unwrap();
                if exists { on_match.to_string() } else { create.to_string() }
            }
            None => String::new(),
        };
        exists = true;
        if let Some((_, value)) = sets.split_once("n.args_json = ") {
            args = Some(read_literal(value));
        }
    }
    args
}

#[test]
fn exec_args_preserved_on_non_exec_upsert() {
    let token = "execchild".to_string();
    let exec_event = NormalisedEvent {
        event_name: "notify_exec".into(),
        timestamp_unix_ns: 1,
        details: Some(EventDetails {
            exec_args: Some(vec!["/bin/sh".into(), "-c".into(), "id".into()]),
            ..Default::default()
        }),
        nodes: vec![GraphNode::Process(process_node(&token, 100, "/bin/sh", 99, Some(r#"["/bin/sh","-c","id"]"#)))],
        edges: vec![GraphEdge {
            kind: EdgeKind::Executed,
            src_id: "parent".into(),
            src_kind: "process".into(),
            dst_id: token.clone(),
            dst_kind: "process".into(),
            timestamp_unix_ns: 1,
            metadata: None,
        }],
        raw_json: None,
    };
    let write_event = NormalisedEvent {
        event_name: "notify_write".into(),
        timestamp_unix_ns: 2,
        details: None,
        nodes: vec![GraphNode::Process(process_node(&token, 100, "/bin/sh", 99, None))],
        edges: vec![],
        raw_json: None,
    };
    let parent = NormalisedEvent {
        event_name: "notify_exec".into(),
        timestamp_unix_ns: 0,
        details: None,
        nodes: vec![GraphNode::Process(process_node("parent", 99, "/bin/bash", 1, None))],
        edges: vec![],
        raw_json: None,
    };

    let mut next_id = 1u64;
    let batch = ingest_batch(&mut next_id, &[parent, exec_event, write_event]).unwrap();
    let script = batch.script.unwrap();

    let args = stored_args_json(&script, &token).unwrap();
    assert_eq!(args, r#"["/bin/sh","-c","id"]"#);
}

#[test]
fn process_without_audit_token_is_rejected() {
    let mut bad = sample_write_event();
    if let GraphNode::Process(p) = &mut bad.nodes[0] {
        p.identity.audit_token_hex = String::new();
    }
    let mut next_id = 5u64;
    let err = ingest_batch(&mut next_id, &[sample_write_event(), bad]).unwrap_err();
    assert_eq!(err, StoreError::InvalidEvent("process node missing audit_token_hex".into()));
    assert_eq!(err.to_string(), "invalid event for ingest: process node missing audit_token_hex");
    assert_eq!(next_id, 7);
}

#[test]
fn ingest_ids_advance_per_event_and_socket_nodes_upsert() {
    let sock = NormalisedEvent {
        event_name: "notify_uipc_bind".into(),
        timestamp_unix_ns: -5,
        details: Some(EventDetails { instigator_path: Some("/tmp/a\"b".into()), ..Default::default() }),
        nodes: vec![GraphNode::Socket(SocketNode { path: "/tmp/s.sock".into() })],
        edges: vec![GraphEdge {
            kind: EdgeKind::UipcBound,
            src_id: "aa".into(),
            src_kind: "process".into(),
            dst_id: "/tmp/s.sock".into(),
            dst_kind: "socket".into(),
            timestamp_unix_ns: -5,
            metadata: Some("{\"k\":1}".into()),
        }],
        raw_json: None,
    };
    let mut next_id = 10u64;
    let batch = ingest_batch(&mut next_id, &[sample_write_event(), sock]).unwrap();
    assert_eq!(next_id, 12);
    assert_eq!(batch.stats, IngestStats { events: 2, node_upserts: 3, edges_inserted: 2 });
    let st = statements(batch.script.as_deref().unwrap());
    assert_eq!(st.len(), 6 + 5);
    assert!(st[0].starts_with("MERGE (n:IngestEvent {id: 10})"));
    assert!(st[6].starts_with("MERGE (n:IngestEvent {id: 11})"));
    // The instigator path goes through JSON escaping, then Cypher escaping.
    assert!(st[6].contains(r#"n.context_json = "{\"instigator_path\":\"/tmp/a\\\"b\"}""#));
    assert_eq!(
        st[7],
        "MERGE (n:Socket {id: \"/tmp/s.sock\"}) ON CREATE SET n.path = \"/tmp/s.sock\", n.last_seen_unix_ns = -5 ON MATCH SET n.path = \"/tmp/s.sock\", n.last_seen_unix_ns = -5"
    );
    assert_eq!(st[8], "MERGE (n:Process {id: \"aa\"})");
    assert_eq!(st[9], "MERGE (n:Socket {id: \"/tmp/s.sock\"})");
    assert_eq!(
        st[10],
        "MATCH (a:Process {id: \"aa\"}), (b:Socket {id: \"/tmp/s.sock\"}) CREATE (a)-[:UIPC_BOUND {timestamp_unix_ns: -5, event_name: \"notify_uipc_bind\", ingest_event_id: 11, metadata: \"{\\\"k\\\":1}\"}]->(b)"
    );
}

#[test]
fn ingest_ids_wrap_at_the_top() {
    let mut next_id = u64::MAX;
    let batch = ingest_batch(&mut next_id, &[sample_write_event(), sample_write_event()]).unwrap();
    assert_eq!(next_id, 1);
    let script = batch.script.unwrap();
    assert!(script.starts_with("MERGE (n:IngestEvent {id: 9223372036854775807})"));
    assert!(script.contains("MERGE (n:IngestEvent {id: 0})"));
}

#[test]
fn store_error_descriptions() {
    assert_eq!(StoreError::Ladybug("boom".into()).to_string(), "ladybug error: boom");
    assert_eq!(StoreError::Io("denied".into()).to_string(), "io error: denied");
}

#[test]
fn edges_after_a_failing_event_are_not_reached() {
    let mut bad = sample_write_event();
    if let GraphNode::Process(p) = &mut bad.nodes[0] {
        p.identity.audit_token_hex = String::new();
    }
    let mut later = sample_write_event();
    later.edges[0].dst_kind = "pipe".into();
    let mut next_id = 1u64;
    let err = ingest_batch(&mut next_id, &[sample_write_event(), bad, later]).unwrap_err();
    assert_eq!(err, StoreError::InvalidEvent("process node missing audit_token_hex".into()));
    assert_eq!(next_id, 3);
}

#[test]
fn remote_thread_edges_use_the_injected_thread_label() {
    let ev = NormalisedEvent {
        event_name: "notify_remote_thread_create".into(),
        timestamp_unix_ns: 3,
        details: None,
        nodes: vec![],
        edges: vec![GraphEdge {
            kind: EdgeKind::RemoteThreadCreated,
            src_id: "aa".into(),
            src_kind: "process".into(),
            dst_id: "aa".into(),
            dst_kind: "process".into(),
            timestamp_unix_ns: 3,
            metadata: None,
        }],
        raw_json: None,
    };
    let mut next_id = 1u64;
    let script = ingest_batch(&mut next_id, &[ev]).unwrap().script.unwrap();
    assert!(script.ends_with(
        "MATCH (a:Process {id: \"aa\"}), (b:Process {id: \"aa\"}) CREATE (a)-[:INJECTED_THREAD {timestamp_unix_ns: 3, event_name: \"notify_remote_thread_create\", ingest_event_id: 1}]->(b)"
    ));
}

#[test]
fn cypher_integers_read_back() {
    for v in [i64::MIN, -1, 0, 7, 1_700_000_000_000_000_000, i64::MAX] {
        assert_eq!(cypher_i64(v), v.to_string());
        assert_eq!(cypher_i64(v).parse::<i64>(), Ok(v));
    }
    assert_eq!(cypher_i64(i64::MIN), "-9223372036854775808");
}
