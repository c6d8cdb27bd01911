//! Batch ingest planning: the Cypher statements that upsert nodes, append
//! edges and record one audit node per event, with the batch counters.

use vstd::prelude::*;
use crate::cypher::{
    assign_text, bool_text, cypher_bool, cypher_i64, cypher_literal, cypher_str, join_set_clauses,
    opt_bool_assign, opt_i64_assign, opt_str_assign,
};
use crate::json::{json_array_of_strings, json_quote, json_string_array, json_string_literal};
use crate::model::{
    EdgeKind, EventDetails, FileNode, GraphEdge, GraphNode, NormalisedEvent, ProcessIdentity,
    ProcessNode, SocketNode, details_empty, edge_kind_ident,
};
use crate::text::{ascii_upper, i64_decimal, int_decimal, join, join_strings, nat_decimal, str_eq, string_views, u64_decimal};

verus! {

/// Counters returned after a successful batch ingest.
#[derive(Debug, Clone, Copy, PartialEq, Eq, Structural)]
pub struct IngestStats {
    /// Number of normalised events ingested.
    pub events: usize,
    /// Number of node upserts performed.
    pub node_upserts: usize,
    /// Number of edges appended.
    pub edges_inserted: usize,
}

impl Default for IngestStats {
    fn default() -> (r: Self)
        ensures
            r.events == 0,
            r.node_upserts == 0,
            r.edges_inserted == 0,
    {
        IngestStats { events: 0, node_upserts: 0, edges_inserted: 0 }
    }
}

/// Errors from storage and ingest validation.
///
/// Database and I/O failures are carried as their message text.
#[derive(Debug, Clone, PartialEq, Eq)]
pub enum StoreError {
    /// LadybugDB driver error.
    Ladybug(String),
    /// I/O error creating database parent directories.
    Io(String),
    /// Semantic validation of a [`NormalisedEvent`] failed.
    InvalidEvent(String),
}

/// The description of a storage error.
pub open spec fn store_error_text(e: StoreError) -> Seq<char> {
    match e {
        StoreError::Ladybug(m) => "ladybug error: "@ + m@,
        StoreError::Io(m) => "io error: "@ + m@,
        StoreError::InvalidEvent(m) => "invalid event for ingest: "@ + m@,
    }
}

impl StoreError {
    /// The error's description.
    pub fn to_string(&self) -> (r: String)
        ensures
            r@ == store_error_text(*self),
    {
        let (prefix, m) = match self {
            StoreError::Ladybug(m) => ("ladybug error: ", m),
            StoreError::Io(m) => ("io error: ", m),
            StoreError::InvalidEvent(m) => ("invalid event for ingest: ", m),
        };
        let mut s = String::from_str(prefix);
        s.append(m.as_str());
        s
    }
}

// ---------------------------------------------------------------------------
// Statement text, stated over views.
// ---------------------------------------------------------------------------

/// `n.key = value`.
pub open spec fn n_assign(key: Seq<char>, value: Seq<char>) -> Seq<char> {
    assign_text("n"@, key, value)
}

/// The assignment of an optional string property, if present.
pub open spec fn opt_str_clause(key: Seq<char>, v: Option<String>) -> Seq<Seq<char>> {
    match v {
        Some(s) => seq![n_assign(key, cypher_literal(s@))],
        None => seq![],
    }
}

/// The assignment of an optional integer property, if present.
pub open spec fn opt_int_clause(key: Seq<char>, v: Option<int>) -> Seq<Seq<char>> {
    match v {
        Some(x) => seq![n_assign(key, int_decimal(x))],
        None => seq![],
    }
}

/// The assignment of an optional boolean property, if present.
pub open spec fn opt_bool_clause(key: Seq<char>, v: Option<bool>) -> Seq<Seq<char>> {
    match v {
        Some(b) => seq![n_assign(key, bool_text(b))],
        None => seq![],
    }
}

/// An optional `i32` as an integer.
pub open spec fn i32_int(o: Option<i32>) -> Option<int> {
    match o {
        Some(x) => Some(x as int),
        None => None,
    }
}

/// An optional `u32` as an integer.
pub open spec fn u32_int(o: Option<u32>) -> Option<int> {
    match o {
        Some(x) => Some(x as int),
        None => None,
    }
}

/// An optional `u64` reinterpreted as `i64` (as the `as` cast does), as an integer.
pub open spec fn u64_as_i64_int(o: Option<u64>) -> Option<int> {
    match o {
        Some(x) => Some((x as i64) as int),
        None => None,
    }
}

/// Property assignments for a process node; `args_json` is included only
/// when `include_args` holds.
pub open spec fn process_set_clause_list(p: ProcessNode, seen: i64, include_args: bool) -> Seq<
    Seq<char>,
> {
    seq![
        n_assign("pid"@, int_decimal(p.identity.pid as int)),
        n_assign("path"@, cypher_literal(p.path@)),
        n_assign("last_seen_unix_ns"@, int_decimal(seen as int)),
    ] + opt_str_clause("signing_id"@, p.signing_id) + opt_str_clause("team_id"@, p.team_id)
        + opt_str_clause("cdhash"@, p.cdhash) + opt_int_clause("ppid"@, i32_int(p.ppid))
        + opt_int_clause("euid"@, u32_int(p.euid)) + opt_int_clause("egid"@, u32_int(p.egid))
        + opt_int_clause("ruid"@, u32_int(p.ruid)) + opt_int_clause("rgid"@, u32_int(p.rgid))
        + opt_int_clause("session_id"@, i32_int(p.session_id)) + opt_bool_clause(
        "is_platform_binary"@,
        p.is_platform_binary,
    ) + opt_str_clause("parent_audit_token_hex"@, p.parent_audit_token_hex) + (if include_args {
        opt_str_clause("args_json"@, p.args_json)
    } else {
        seq![]
    }) + opt_int_clause("exit_status"@, i32_int(p.exit_status))
}

/// The upsert of a process node: every property on create; on match, the
/// same properties except that `args_json` is set only when this node has it.
pub open spec fn merge_process_text(p: ProcessNode, seen: i64) -> Seq<char> {
    "MERGE (n:Process {id: "@ + cypher_literal(p.identity.audit_token_hex@) + "}) ON CREATE SET "@
        + join(process_set_clause_list(p, seen, true), ", "@) + " ON MATCH SET "@ + join(
        process_set_clause_list(p, seen, p.args_json is Some),
        ", "@,
    )
}

/// Property assignments for a file node.
pub open spec fn file_set_clause_list(f: FileNode, seen: i64) -> Seq<Seq<char>> {
    seq![
        n_assign("path"@, cypher_literal(f.path@)),
        n_assign("last_seen_unix_ns"@, int_decimal(seen as int)),
        n_assign("path_truncated"@, bool_text(f.path_truncated)),
    ] + opt_int_clause("inode"@, u64_as_i64_int(f.inode)) + opt_int_clause(
        "mode"@,
        u32_int(f.mode),
    ) + opt_int_clause("owner_uid"@, u32_int(f.owner_uid)) + opt_int_clause(
        "owner_gid"@,
        u32_int(f.owner_gid),
    )
}

/// The upsert of a file node, keyed by path.
pub open spec fn merge_file_text(f: FileNode, seen: i64) -> Seq<char> {
    let sets = join(file_set_clause_list(f, seen), ", "@);
    "MERGE (n:File {id: "@ + cypher_literal(f.path@) + "}) ON CREATE SET "@ + sets
        + " ON MATCH SET "@ + sets
}

/// The upsert of a socket node, keyed by path.
pub open spec fn merge_socket_text(s: SocketNode, seen: i64) -> Seq<char> {
    let sets = join(
        seq![
            n_assign("path"@, cypher_literal(s.path@)),
            n_assign("last_seen_unix_ns"@, int_decimal(seen as int)),
        ],
        ", "@,
    );
    "MERGE (n:Socket {id: "@ + cypher_literal(s.path@) + "}) ON CREATE SET "@ + sets
        + " ON MATCH SET "@ + sets
}

/// The upsert of any node; a process node without an audit token has none.
pub open spec fn merge_node_text(node: GraphNode, seen: i64) -> Option<Seq<char>> {
    match node {
        GraphNode::Process(p) => if p.identity.audit_token_hex@.len() == 0 {
            None
        } else {
            Some(merge_process_text(p, seen))
        },
        GraphNode::File(f) => Some(merge_file_text(f, seen)),
        GraphNode::Socket(s) => Some(merge_socket_text(s, seen)),
    }
}

/// A bare upsert of a node by label and id.
pub open spec fn stub_text(label: Seq<char>, id: Seq<char>) -> Seq<char> {
    "MERGE (n:"@ + label + " {id: "@ + cypher_literal(id) + "})"@
}

/// The relationship type for an edge kind.
pub open spec fn edge_kind_text(k: EdgeKind) -> Seq<char> {
    match k {
        EdgeKind::Executed => "EXECUTED"@,
        EdgeKind::Forked => "FORKED"@,
        EdgeKind::Exited => "EXITED"@,
        EdgeKind::RemoteThreadCreated => "INJECTED_THREAD"@,
        EdgeKind::GotTask => "GOT_TASK"@,
        EdgeKind::Created => "CREATED"@,
        EdgeKind::Wrote => "WROTE"@,
        EdgeKind::Unlinked => "UNLINKED"@,
        EdgeKind::Renamed => "RENAMED"@,
        EdgeKind::Opened => "OPENED"@,
        EdgeKind::Closed => "CLOSED"@,
        EdgeKind::UipcBound => "UIPC_BOUND"@,
        EdgeKind::UipcConnected => "UIPC_CONNECTED"@,
    }
}

/// Each edge kind is written under its own name: its variant's name in
/// upper case (the remote-thread kind under `INJECTED_THREAD`), so distinct
/// kinds get distinct relationship types.
pub proof fn lemma_edge_kind_names(k: EdgeKind, m: EdgeKind)
    ensures
        k != EdgeKind::RemoteThreadCreated ==> edge_kind_text(k) == ascii_upper(edge_kind_ident(k)),
        k == EdgeKind::RemoteThreadCreated ==> edge_kind_text(k) == "INJECTED_THREAD"@,
        k != m ==> edge_kind_text(k) != edge_kind_text(m),
{
    reveal_strlit("EXECUTED");
    reveal_strlit("executed");
    reveal_strlit("FORKED");
    reveal_strlit("forked");
    reveal_strlit("EXITED");
    reveal_strlit("exited");
    reveal_strlit("INJECTED_THREAD");
    reveal_strlit("GOT_TASK");
    reveal_strlit("got_task");
    reveal_strlit("CREATED");
    reveal_strlit("created");
    reveal_strlit("WROTE");
    reveal_strlit("wrote");
    reveal_strlit("UNLINKED");
    reveal_strlit("unlinked");
    reveal_strlit("RENAMED");
    reveal_strlit("renamed");
    reveal_strlit("OPENED");
    reveal_strlit("opened");
    reveal_strlit("CLOSED");
    reveal_strlit("closed");
    reveal_strlit("UIPC_BOUND");
    reveal_strlit("uipc_bound");
    reveal_strlit("UIPC_CONNECTED");
    reveal_strlit("uipc_connected");
    if k != EdgeKind::RemoteThreadCreated {
        assert(edge_kind_text(k) =~= ascii_upper(edge_kind_ident(k)));
    }
    if k != m {
        let a = edge_kind_text(k);
        let b = edge_kind_text(m);
        if a.len() == b.len() {
            assert(a[0] != b[0] || a[1] != b[1] || a[2] != b[2] || a[a.len() - 1] != b[b.len() - 1]
                || a[4] != b[4]);
        }
    }
}

/// A node kind label that edges may carry.
pub open spec fn valid_node_kind(kind: Seq<char>) -> bool {
    kind == "process"@ || kind == "file"@ || kind == "socket"@
}

/// The node label for a node kind label.
pub open spec fn node_label_text(kind: Seq<char>) -> Seq<char> {
    if kind == "process"@ {
        "Process"@
    } else if kind == "file"@ {
        "File"@
    } else {
        "Socket"@
    }
}

/// Both endpoint kinds of an edge are valid node kinds.
pub open spec fn edge_kinds_valid(e: GraphEdge) -> bool {
    valid_node_kind(e.src_kind@) && valid_node_kind(e.dst_kind@)
}

/// An ingest id as a Cypher integer: ids beyond `i64::MAX` are clamped.
pub open spec fn clamp_id(id: u64) -> int {
    if id <= i64::MAX {
        id as int
    } else {
        i64::MAX as int
    }
}

/// Properties recorded on an edge.
pub open spec fn edge_props(e: GraphEdge, event_name: Seq<char>, id: u64) -> Seq<Seq<char>> {
    seq![
        "timestamp_unix_ns: "@ + int_decimal(e.timestamp_unix_ns as int),
        "event_name: "@ + cypher_literal(event_name),
        "ingest_event_id: "@ + int_decimal(clamp_id(id)),
    ] + match e.metadata {
        Some(m) => seq!["metadata: "@ + cypher_literal(m@)],
        None => seq![],
    }
}

/// The statement that appends an edge between two existing nodes.
pub open spec fn insert_edge_text(e: GraphEdge, event_name: Seq<char>, id: u64) -> Seq<char> {
    "MATCH (a:"@ + node_label_text(e.src_kind@) + " {id: "@ + cypher_literal(e.src_id@)
        + "}), (b:"@ + node_label_text(e.dst_kind@) + " {id: "@ + cypher_literal(e.dst_id@)
        + "}) CREATE (a)-[:"@ + edge_kind_text(e.kind) + " {"@ + join(
        edge_props(e, event_name, id),
        ", "@,
    ) + "}]->(b)"@
}

/// A JSON object member `"key":value`.
pub open spec fn json_member(key: Seq<char>, value: Seq<char>) -> Seq<char> {
    "\""@ + key + "\":"@ + value
}

/// The member for an optional integer field, if present.
pub open spec fn opt_int_member(key: Seq<char>, v: Option<int>) -> Seq<Seq<char>> {
    match v {
        Some(x) => seq![json_member(key, int_decimal(x))],
        None => seq![],
    }
}

/// The member for an optional string field, if present.
pub open spec fn opt_str_member(key: Seq<char>, v: Option<String>) -> Seq<Seq<char>> {
    match v {
        Some(s) => seq![json_member(key, json_string_literal(s@))],
        None => seq![],
    }
}

/// The JSON object for event details: members in field order, absent
/// fields left out.
pub open spec fn details_json(d: EventDetails) -> Seq<char> {
    let members = opt_int_member("instigator_pid"@, i32_int(d.instigator_pid)) + opt_int_member(
        "instigator_euid"@,
        u32_int(d.instigator_euid),
    ) + opt_int_member("instigator_egid"@, u32_int(d.instigator_egid)) + opt_str_member(
        "instigator_path"@,
        d.instigator_path,
    ) + opt_str_member("instigator_audit_token_hex"@, d.instigator_audit_token_hex)
        + opt_str_member("target_audit_token_hex"@, d.target_audit_token_hex) + opt_str_member(
        "target_path"@,
        d.target_path,
    ) + match d.exec_args {
        Some(a) => seq![json_member("exec_args"@, json_string_array(string_views(a@)))],
        None => seq![],
    } + opt_int_member("exit_status"@, i32_int(d.exit_status)) + opt_int_member(
        "file_mode"@,
        u32_int(d.file_mode),
    ) + opt_int_member(
        "file_inode"@,
        match d.file_inode {
            Some(x) => Some(x as int),
            None => None,
        },
    ) + opt_int_member("file_owner_uid"@, u32_int(d.file_owner_uid)) + opt_int_member(
        "file_owner_gid"@,
        u32_int(d.file_owner_gid),
    ) + match d.path_truncated {
        Some(b) => seq![json_member("path_truncated"@, bool_text(b))],
        None => seq![],
    };
    "{"@ + join(members, ","@) + "}"@
}

/// The context JSON stored for an event: none when there are no details
/// or none of their fields is set.
pub open spec fn context_json(d: Option<EventDetails>) -> Option<Seq<char>> {
    match d {
        Some(x) => if details_empty(x) {
            None
        } else {
            Some(details_json(x))
        },
        None => None,
    }
}

/// The audit-node upsert for one ingested event.
pub open spec fn ingest_event_text(id: u64, e: NormalisedEvent) -> Seq<char> {
    let sets = join(
        seq![
            n_assign("event_name"@, cypher_literal(e.event_name@)),
            n_assign("timestamp_unix_ns"@, int_decimal(e.timestamp_unix_ns as int)),
        ] + match context_json(e.details) {
            Some(c) => seq![n_assign("context_json"@, cypher_literal(c))],
            None => seq![],
        } + match e.raw_json {
            Some(r) => seq![n_assign("raw_json"@, cypher_literal(r@))],
            None => seq![],
        },
        ", "@,
    );
    "MERGE (n:IngestEvent {id: "@ + int_decimal(clamp_id(id)) + "}) ON CREATE SET "@ + sets
        + " ON MATCH SET "@ + sets
}

/// Node upserts of an event, or none if some node cannot be upserted.
pub open spec fn node_statements(nodes: Seq<GraphNode>, seen: i64) -> Option<Seq<Seq<char>>>
    decreases nodes.len(),
{
    if nodes.len() == 0 {
        Some(seq![])
    } else {
        match node_statements(nodes.drop_last(), seen) {
            None => None,
            Some(ss) => match merge_node_text(nodes.last(), seen) {
                None => None,
                Some(t) => Some(ss.push(t)),
            },
        }
    }
}

/// For each edge: upserts of both endpoints, then the edge itself.
pub open spec fn edge_statements(edges: Seq<GraphEdge>, event_name: Seq<char>, id: u64) -> Seq<
    Seq<char>,
>
    decreases edges.len(),
{
    if edges.len() == 0 {
        seq![]
    } else {
        let e = edges.last();
        edge_statements(edges.drop_last(), event_name, id) + seq![
            stub_text(node_label_text(e.src_kind@), e.src_id@),
            stub_text(node_label_text(e.dst_kind@), e.dst_id@),
            insert_edge_text(e, event_name, id),
        ]
    }
}

/// Statements for one event under ingest id `id`.
pub open spec fn event_statements(id: u64, e: NormalisedEvent) -> Option<Seq<Seq<char>>> {
    match node_statements(e.nodes@, e.timestamp_unix_ns) {
        None => None,
        Some(ns) => Some(
            seq![ingest_event_text(id, e)] + ns + edge_statements(e.edges@, e.event_name@, id),
        ),
    }
}

/// The ingest id after `id` (wrapping at the top of the range).
pub open spec fn next_ingest_id(id: u64) -> u64 {
    if id == u64::MAX {
        0
    } else {
        (id + 1) as u64
    }
}

/// The ingest id of the `i`-th event of a batch that starts at `start`.
pub open spec fn ingest_id_at(start: u64, i: nat) -> u64
    decreases i,
{
    if i == 0 {
        start
    } else {
        next_ingest_id(ingest_id_at(start, (i - 1) as nat))
    }
}

/// Statements for a batch, or the index of the first event that cannot be
/// ingested.
pub open spec fn batch_statements(start: u64, events: Seq<NormalisedEvent>) -> Result<
    Seq<Seq<char>>,
    nat,
>
    decreases events.len(),
{
    if events.len() == 0 {
        Ok(seq![])
    } else {
        let k = (events.len() - 1) as nat;
        match batch_statements(start, events.drop_last()) {
            Err(j) => Err(j),
            Ok(ss) => match event_statements(ingest_id_at(start, k), events.last()) {
                None => Err(k),
                Some(es) => Ok(ss + es),
            },
        }
    }
}

/// Total number of nodes over a batch.
pub open spec fn total_nodes(events: Seq<NormalisedEvent>) -> nat
    decreases events.len(),
{
    if events.len() == 0 {
        0
    } else {
        total_nodes(events.drop_last()) + events.last().nodes@.len()
    }
}

/// Total number of edges over a batch.
pub open spec fn total_edges(events: Seq<NormalisedEvent>) -> nat
    decreases events.len(),
{
    if events.len() == 0 {
        0
    } else {
        total_edges(events.drop_last()) + events.last().edges@.len()
    }
}


// ---------------------------------------------------------------------------
// Statement builders.
// ---------------------------------------------------------------------------

/// The views of an optional string, as a list of zero or one items.
pub open spec fn opt_view(o: Option<String>) -> Seq<Seq<char>> {
    match o {
        Some(s) => seq![s@],
        None => seq![],
    }
}

/// The clause `c` assigns property `key` of `n`.
pub open spec fn assigns_key(c: Seq<char>, key: Seq<char>) -> bool {
    exists|v: Seq<char>| c == n_assign(key, v)
}

spec fn third_char_not(cs: Seq<Seq<char>>, x: char) -> bool {
    forall|i: int| 0 <= i < cs.len() ==> (#[trigger] cs[i]).len() > 2 && cs[i][2] != x
}

proof fn lemma_n_assign_third(key: Seq<char>, v: Seq<char>)
    requires
        key.len() > 0,
    ensures
        n_assign(key, v).len() > 2,
        n_assign(key, v)[2] == key[0],
{
    reveal_strlit("n");
    reveal_strlit(".");
    reveal_strlit(" = ");
    assert(n_assign(key, v) =~= seq!['n', '.'] + key + " = "@ + v);
}

proof fn lemma_third_concat(a: Seq<Seq<char>>, b: Seq<Seq<char>>, x: char)
    requires
        third_char_not(a, x),
        third_char_not(b, x),
    ensures
        third_char_not(a + b, x),
{
    assert forall|i: int| 0 <= i < (a + b).len() implies (#[trigger] (a + b)[i]).len() > 2 && (a
        + b)[i][2] != x by {
        if i < a.len() {
            assert((a + b)[i] == a[i]);
        } else {
            assert((a + b)[i] == b[i - a.len()]);
        }
    }
}

proof fn lemma_key_not_a(key: Seq<char>)
    requires
        key.len() > 0 && key[0] != 'a',
    ensures
        forall|v: Seq<char>|
            #![trigger n_assign(key, v)]
            n_assign(key, v).len() > 2 && n_assign(key, v)[2] != 'a',
{
    assert forall|v: Seq<char>|
        #![trigger n_assign(key, v)]
        n_assign(key, v).len() > 2 && n_assign(key, v)[2] != 'a' by {
        lemma_n_assign_third(key, v);
    }
}

proof fn lemma_opt_str_not_a(key: Seq<char>, v: Option<String>)
    requires
        key.len() > 0 && key[0] != 'a',
    ensures
        third_char_not(opt_str_clause(key, v), 'a'),
{
    lemma_key_not_a(key);
}

proof fn lemma_opt_int_not_a(key: Seq<char>, v: Option<int>)
    requires
        key.len() > 0 && key[0] != 'a',
    ensures
        third_char_not(opt_int_clause(key, v), 'a'),
{
    lemma_key_not_a(key);
}

proof fn lemma_opt_bool_not_a(key: Seq<char>, v: Option<bool>)
    requires
        key.len() > 0 && key[0] != 'a',
    ensures
        third_char_not(opt_bool_clause(key, v), 'a'),
{
    lemma_key_not_a(key);
}

/// Upserting a process node that carries no `args_json` never assigns
/// `args_json` on match, so argv recorded by an earlier exec is kept.
#[verifier::rlimit(40)]
pub proof fn lemma_on_match_keeps_args_json(p: ProcessNode, seen: i64)
    requires
        p.args_json is None,
    ensures
        forall|i: int|
            0 <= i < process_set_clause_list(p, seen, p.args_json is Some).len() ==> !assigns_key(
                #[trigger] process_set_clause_list(p, seen, p.args_json is Some)[i],
                "args_json"@,
            ),
{
    let list = process_set_clause_list(p, seen, false);
    let a = 'a';
    let t0 = seq![
        n_assign("pid"@, int_decimal(p.identity.pid as int)),
        n_assign("path"@, cypher_literal(p.path@)),
        n_assign("last_seen_unix_ns"@, int_decimal(seen as int)),
    ];
    assert("pid"@.len() > 0 && "pid"@[0] != 'a') by { reveal_strlit("pid"); }
    assert("path"@.len() > 0 && "path"@[0] != 'a') by { reveal_strlit("path"); }
    assert("last_seen_unix_ns"@.len() > 0 && "last_seen_unix_ns"@[0] != 'a') by { reveal_strlit("last_seen_unix_ns"); }
    lemma_key_not_a("pid"@);
    lemma_key_not_a("path"@);
    lemma_key_not_a("last_seen_unix_ns"@);
    assert(third_char_not(t0, a));
    assert("signing_id"@.len() > 0 && "signing_id"@[0] != 'a') by { reveal_strlit("signing_id"); }
    lemma_opt_str_not_a("signing_id"@, p.signing_id);
    lemma_third_concat(t0, opt_str_clause("signing_id"@, p.signing_id), a);
    let t1 = t0 + opt_str_clause("signing_id"@, p.signing_id);
    assert("team_id"@.len() > 0 && "team_id"@[0] != 'a') by { reveal_strlit("team_id"); }
    lemma_opt_str_not_a("team_id"@, p.team_id);
    lemma_third_concat(t1, opt_str_clause("team_id"@, p.team_id), a);
    let t2 = t1 + opt_str_clause("team_id"@, p.team_id);
    assert("cdhash"@.len() > 0 && "cdhash"@[0] != 'a') by { reveal_strlit("cdhash"); }
    lemma_opt_str_not_a("cdhash"@, p.cdhash);
    lemma_third_concat(t2, opt_str_clause("cdhash"@, p.cdhash), a);
    let t3 = t2 + opt_str_clause("cdhash"@, p.cdhash);
    assert("ppid"@.len() > 0 && "ppid"@[0] != 'a') by { reveal_strlit("ppid"); }
    lemma_opt_int_not_a("ppid"@, i32_int(p.ppid));
    lemma_third_concat(t3, opt_int_clause("ppid"@, i32_int(p.ppid)), a);
    let t4 = t3 + opt_int_clause("ppid"@, i32_int(p.ppid));
    assert("euid"@.len() > 0 && "euid"@[0] != 'a') by { reveal_strlit("euid"); }
    lemma_opt_int_not_a("euid"@, u32_int(p.euid));
    lemma_third_concat(t4, opt_int_clause("euid"@, u32_int(p.euid)), a);
    let t5 = t4 + opt_int_clause("euid"@, u32_int(p.euid));
    assert("egid"@.len() > 0 && "egid"@[0] != 'a') by { reveal_strlit("egid"); }
    lemma_opt_int_not_a("egid"@, u32_int(p.egid));
    lemma_third_concat(t5, opt_int_clause("egid"@, u32_int(p.egid)), a);
    let t6 = t5 + opt_int_clause("egid"@, u32_int(p.egid));
    assert("ruid"@.len() > 0 && "ruid"@[0] != 'a') by { reveal_strlit("ruid"); }
    lemma_opt_int_not_a("ruid"@, u32_int(p.ruid));
    lemma_third_concat(t6, opt_int_clause("ruid"@, u32_int(p.ruid)), a);
    let t7 = t6 + opt_int_clause("ruid"@, u32_int(p.ruid));
    assert("rgid"@.len() > 0 && "rgid"@[0] != 'a') by { reveal_strlit("rgid"); }
    lemma_opt_int_not_a("rgid"@, u32_int(p.rgid));
    lemma_third_concat(t7, opt_int_clause("rgid"@, u32_int(p.rgid)), a);
    let t8 = t7 + opt_int_clause("rgid"@, u32_int(p.rgid));
    assert("session_id"@.len() > 0 && "session_id"@[0] != 'a') by { reveal_strlit("session_id"); }
    lemma_opt_int_not_a("session_id"@, i32_int(p.session_id));
    lemma_third_concat(t8, opt_int_clause("session_id"@, i32_int(p.session_id)), a);
    let t9 = t8 + opt_int_clause("session_id"@, i32_int(p.session_id));
    assert("is_platform_binary"@.len() > 0 && "is_platform_binary"@[0] != 'a') by { reveal_strlit("is_platform_binary"); }
    lemma_opt_bool_not_a("is_platform_binary"@, p.is_platform_binary);
    lemma_third_concat(t9, opt_bool_clause("is_platform_binary"@, p.is_platform_binary), a);
    let t10 = t9 + opt_bool_clause("is_platform_binary"@, p.is_platform_binary);
    assert("parent_audit_token_hex"@.len() > 0 && "parent_audit_token_hex"@[0] != 'a') by { reveal_strlit("parent_audit_token_hex"); }
    lemma_opt_str_not_a("parent_audit_token_hex"@, p.parent_audit_token_hex);
    lemma_third_concat(t10, opt_str_clause("parent_audit_token_hex"@, p.parent_audit_token_hex), a);
    let t11 = t10 + opt_str_clause("parent_audit_token_hex"@, p.parent_audit_token_hex);
    lemma_third_concat(t11, Seq::<Seq<char>>::empty(), a);
    let t11b = t11 + Seq::<Seq<char>>::empty();
    assert("exit_status"@.len() > 0 && "exit_status"@[0] != 'a') by { reveal_strlit("exit_status"); }
    lemma_opt_int_not_a("exit_status"@, i32_int(p.exit_status));
    lemma_third_concat(t11b, opt_int_clause("exit_status"@, i32_int(p.exit_status)), a);
    let t12 = t11b + opt_int_clause("exit_status"@, i32_int(p.exit_status));
    assert(t12 == list);
    assert forall|i: int| 0 <= i < list.len() implies !assigns_key(#[trigger] list[i], "args_json"@) by {
        if assigns_key(list[i], "args_json"@) {
            let v = choose|v: Seq<char>| list[i] == n_assign("args_json"@, v);
            assert("args_json"@.len() > 0 && "args_json"@[0] == 'a') by { reveal_strlit("args_json"); }
            lemma_n_assign_third("args_json"@, v);
        }
    }
}

fn push_some(v: &mut Vec<String>, o: Option<String>)
    ensures
        string_views(final(v)@) == string_views(old(v)@) + opt_view(o),
{
    match o {
        Some(s) => {
            v.push(s);
            assert(string_views(v@) =~= string_views(old(v)@) + seq![s@]);
        },
        None => {
            assert(string_views(v@) =~= string_views(old(v)@) + Seq::<Seq<char>>::empty());
        },
    }
}

fn opt_as_str(o: &Option<String>) -> (r: Option<&str>)
    ensures
        match *o {
            Some(s) => r matches Some(t) && t@ == s@,
            None => r is None,
        },
{
    match o {
        Some(s) => Some(s.as_str()),
        None => None,
    }
}

fn n_clause(key: &str, value: String) -> (r: String)
    ensures
        r@ == n_assign(key@, value@),
{
    let mut s = String::from_str("n.");
    s.append(key);
    s.append(" = ");
    s.append(value.as_str());
    assert("n"@ + "."@ =~= "n."@) by {
        reveal_strlit("n");
        reveal_strlit(".");
        reveal_strlit("n.");
    }
    s
}

fn str_clause(key: &str, v: &Option<String>) -> (r: Option<String>)
    ensures
        opt_view(r) == opt_str_clause(key@, *v),
{
    let r = opt_str_assign("n", key, opt_as_str(v));
    proof {
        if r is Some {
            assert(opt_view(r) =~= opt_str_clause(key@, *v));
        }
    }
    r
}

fn i32_clause(key: &str, v: Option<i32>) -> (r: Option<String>)
    ensures
        opt_view(r) == opt_int_clause(key@, i32_int(v)),
{
    let w = match v {
        Some(x) => Some(x as i64),
        None => None,
    };
    let r = opt_i64_assign("n", key, w);
    proof {
        if r is Some {
            assert(opt_view(r) =~= opt_int_clause(key@, i32_int(v)));
        }
    }
    r
}

fn u32_clause(key: &str, v: Option<u32>) -> (r: Option<String>)
    ensures
        opt_view(r) == opt_int_clause(key@, u32_int(v)),
{
    let w = match v {
        Some(x) => Some(x as i64),
        None => None,
    };
    let r = opt_i64_assign("n", key, w);
    proof {
        if r is Some {
            assert(opt_view(r) =~= opt_int_clause(key@, u32_int(v)));
        }
    }
    r
}

fn process_set_clauses(p: &ProcessNode, seen_ns: i64, include_args: bool) -> (r: Vec<String>)
    ensures
        string_views(r@) == process_set_clause_list(*p, seen_ns, include_args),
{
    let mut clauses: Vec<String> = Vec::new();
    clauses.push(n_clause("pid", cypher_i64(p.identity.pid as i64)));
    clauses.push(n_clause("path", cypher_str(p.path.as_str())));
    clauses.push(n_clause("last_seen_unix_ns", cypher_i64(seen_ns)));
    assert(string_views(clauses@) =~= seq![
        n_assign("pid"@, int_decimal(p.identity.pid as int)),
        n_assign("path"@, cypher_literal(p.path@)),
        n_assign("last_seen_unix_ns"@, int_decimal(seen_ns as int)),
    ]);
    push_some(&mut clauses, str_clause("signing_id", &p.signing_id));
    push_some(&mut clauses, str_clause("team_id", &p.team_id));
    push_some(&mut clauses, str_clause("cdhash", &p.cdhash));
    push_some(&mut clauses, i32_clause("ppid", p.ppid));
    push_some(&mut clauses, u32_clause("euid", p.euid));
    push_some(&mut clauses, u32_clause("egid", p.egid));
    push_some(&mut clauses, u32_clause("ruid", p.ruid));
    push_some(&mut clauses, u32_clause("rgid", p.rgid));
    push_some(&mut clauses, i32_clause("session_id", p.session_id));
    let b = opt_bool_assign("n", "is_platform_binary", p.is_platform_binary);
    proof {
        if b is Some {
            assert(opt_view(b) =~= opt_bool_clause("is_platform_binary"@, p.is_platform_binary));
        }
    }
    push_some(&mut clauses, b);
    push_some(&mut clauses, str_clause("parent_audit_token_hex", &p.parent_audit_token_hex));
    if include_args {
        push_some(&mut clauses, str_clause("args_json", &p.args_json));
    } else {
        assert(string_views(clauses@) =~= string_views(clauses@) + Seq::<Seq<char>>::empty());
    }
    push_some(&mut clauses, i32_clause("exit_status", p.exit_status));
    clauses
}


fn merge_process_stmt(p: &ProcessNode, seen_ns: i64) -> (r: Result<String, StoreError>)
    ensures
        p.identity.audit_token_hex@.len() == 0 ==> (r matches Err(StoreError::InvalidEvent(m))
            && m@ == "process node missing audit_token_hex"@),
        p.identity.audit_token_hex@.len() > 0 ==> (r matches Ok(t) && t@ == merge_process_text(
            *p,
            seen_ns,
        )),
{
    let id = p.identity.audit_token_hex.as_str();
    if id.is_empty() {
        return Err(StoreError::InvalidEvent(String::from_str("process node missing audit_token_hex")));
    }
    let create_clauses = process_set_clauses(p, seen_ns, true);
    let match_clauses = process_set_clauses(p, seen_ns, p.args_json.is_some());
    let create = join_set_clauses(create_clauses.as_slice());
    let on_match = join_set_clauses(match_clauses.as_slice());
    let mut s = String::from_str("MERGE (n:Process {id: ");
    s.append(cypher_str(id).as_str());
    s.append("}) ON CREATE SET ");
    s.append(create.as_str());
    s.append(" ON MATCH SET ");
    s.append(on_match.as_str());
    Ok(s)
}

fn file_set_clauses(f: &FileNode, seen_ns: i64) -> (r: Vec<String>)
    ensures
        string_views(r@) == file_set_clause_list(*f, seen_ns),
{
    let mut clauses: Vec<String> = Vec::new();
    clauses.push(n_clause("path", cypher_str(f.path.as_str())));
    clauses.push(n_clause("last_seen_unix_ns", cypher_i64(seen_ns)));
    clauses.push(n_clause("path_truncated", cypher_bool(f.path_truncated)));
    assert(string_views(clauses@) =~= seq![
        n_assign("path"@, cypher_literal(f.path@)),
        n_assign("last_seen_unix_ns"@, int_decimal(seen_ns as int)),
        n_assign("path_truncated"@, bool_text(f.path_truncated)),
    ]);
    let inode = match f.inode {
        Some(v) => Some(v as i64),
        None => None,
    };
    let ic = opt_i64_assign("n", "inode", inode);
    proof {
        if ic is Some {
            assert(opt_view(ic) =~= opt_int_clause("inode"@, u64_as_i64_int(f.inode)));
        }
    }
    push_some(&mut clauses, ic);
    push_some(&mut clauses, u32_clause("mode", f.mode));
    push_some(&mut clauses, u32_clause("owner_uid", f.owner_uid));
    push_some(&mut clauses, u32_clause("owner_gid", f.owner_gid));
    clauses
}

fn merge_file_stmt(f: &FileNode, seen_ns: i64) -> (r: String)
    ensures
        r@ == merge_file_text(*f, seen_ns),
{
    let clauses = file_set_clauses(f, seen_ns);
    let sets = join_set_clauses(clauses.as_slice());
    let mut s = String::from_str("MERGE (n:File {id: ");
    s.append(cypher_str(f.path.as_str()).as_str());
    s.append("}) ON CREATE SET ");
    s.append(sets.as_str());
    s.append(" ON MATCH SET ");
    s.append(sets.as_str());
    s
}

fn merge_socket_stmt(sock: &SocketNode, seen_ns: i64) -> (r: String)
    ensures
        r@ == merge_socket_text(*sock, seen_ns),
{
    let clauses = vec![
        n_clause("path", cypher_str(sock.path.as_str())),
        n_clause("last_seen_unix_ns", cypher_i64(seen_ns)),
    ];
    assert(string_views(clauses@) =~= seq![
        n_assign("path"@, cypher_literal(sock.path@)),
        n_assign("last_seen_unix_ns"@, int_decimal(seen_ns as int)),
    ]);
    let sets = join_set_clauses(clauses.as_slice());
    let mut s = String::from_str("MERGE (n:Socket {id: ");
    s.append(cypher_str(sock.path.as_str()).as_str());
    s.append("}) ON CREATE SET ");
    s.append(sets.as_str());
    s.append(" ON MATCH SET ");
    s.append(sets.as_str());
    s
}

fn merge_node_stmt(node: &GraphNode, seen_ns: i64) -> (r: Result<String, StoreError>)
    ensures
        match merge_node_text(*node, seen_ns) {
            Some(t) => r matches Ok(x) && x@ == t,
            None => r matches Err(StoreError::InvalidEvent(m)) && m@
                == "process node missing audit_token_hex"@,
        },
{
    match node {
        GraphNode::Process(p) => merge_process_stmt(p, seen_ns),
        GraphNode::File(f) => Ok(merge_file_stmt(f, seen_ns)),
        GraphNode::Socket(sock) => Ok(merge_socket_stmt(sock, seen_ns)),
    }
}

fn merge_stub_node_stmt(label: &str, id: &str) -> (r: String)
    ensures
        r@ == stub_text(label@, id@),
{
    let mut s = String::from_str("MERGE (n:");
    s.append(label);
    s.append(" {id: ");
    s.append(cypher_str(id).as_str());
    s.append("})");
    s
}

fn edge_kind_name(kind: EdgeKind) -> (r: &'static str)
    ensures
        r@ == edge_kind_text(kind),
{
    match kind {
        EdgeKind::Executed => "EXECUTED",
        EdgeKind::Forked => "FORKED",
        EdgeKind::Exited => "EXITED",
        EdgeKind::RemoteThreadCreated => "INJECTED_THREAD",
        EdgeKind::GotTask => "GOT_TASK",
        EdgeKind::Created => "CREATED",
        EdgeKind::Wrote => "WROTE",
        EdgeKind::Unlinked => "UNLINKED",
        EdgeKind::Renamed => "RENAMED",
        EdgeKind::Opened => "OPENED",
        EdgeKind::Closed => "CLOSED",
        EdgeKind::UipcBound => "UIPC_BOUND",
        EdgeKind::UipcConnected => "UIPC_CONNECTED",
    }
}

fn node_label(kind: &str) -> (r: &'static str)
    requires
        valid_node_kind(kind@),
    ensures
        r@ == node_label_text(kind@),
{
    if str_eq(kind, "process") {
        "Process"
    } else if str_eq(kind, "file") {
        "File"
    } else {
        "Socket"
    }
}

fn json_member_text(key: &str, value: String) -> (r: String)
    ensures
        r@ == json_member(key@, value@),
{
    let mut s = String::from_str("\"");
    s.append(key);
    s.append("\":");
    s.append(value.as_str());
    s
}

fn int_member(key: &str, v: Option<i64>, Ghost(w): Ghost<Option<int>>) -> (r: Option<String>)
    requires
        match v {
            Some(x) => w == Some(x as int),
            None => w is None,
        },
    ensures
        opt_view(r) == opt_int_member(key@, w),
{
    match v {
        Some(x) => {
            let t = json_member_text(key, i64_decimal(x));
            assert(opt_view(Some(t)) =~= opt_int_member(key@, w));
            Some(t)
        },
        None => None,
    }
}

fn str_member(key: &str, v: &Option<String>) -> (r: Option<String>)
    ensures
        opt_view(r) == opt_str_member(key@, *v),
{
    match v {
        Some(x) => {
            let t = json_member_text(key, json_quote(x.as_str()));
            assert(opt_view(Some(t)) =~= opt_str_member(key@, *v));
            Some(t)
        },
        None => None,
    }
}

fn widen_i32(o: Option<i32>) -> (r: Option<i64>)
    ensures
        match o {
            Some(x) => r == Some(x as i64),
            None => r is None,
        },
{
    match o {
        Some(x) => Some(x as i64),
        None => None,
    }
}

fn widen_u32(o: Option<u32>) -> (r: Option<i64>)
    ensures
        match o {
            Some(x) => r == Some(x as i64),
            None => r is None,
        },
{
    match o {
        Some(x) => Some(x as i64),
        None => None,
    }
}

fn details_object(d: &EventDetails) -> (r: String)
    ensures
        r@ == details_json(*d),
{
    let mut m: Vec<String> = Vec::new();
    push_some(&mut m, int_member("instigator_pid", widen_i32(d.instigator_pid), Ghost(i32_int(d.instigator_pid))));
    push_some(&mut m, int_member("instigator_euid", widen_u32(d.instigator_euid), Ghost(u32_int(d.instigator_euid))));
    push_some(&mut m, int_member("instigator_egid", widen_u32(d.instigator_egid), Ghost(u32_int(d.instigator_egid))));
    push_some(&mut m, str_member("instigator_path", &d.instigator_path));
    push_some(&mut m, str_member("instigator_audit_token_hex", &d.instigator_audit_token_hex));
    push_some(&mut m, str_member("target_audit_token_hex", &d.target_audit_token_hex));
    push_some(&mut m, str_member("target_path", &d.target_path));
    let args = match &d.exec_args {
        Some(a) => Some(json_member_text("exec_args", json_array_of_strings(a.as_slice()))),
        None => None,
    };
    push_some(&mut m, args);
    push_some(&mut m, int_member("exit_status", widen_i32(d.exit_status), Ghost(i32_int(d.exit_status))));
    push_some(&mut m, int_member("file_mode", widen_u32(d.file_mode), Ghost(u32_int(d.file_mode))));
    let inode = match d.file_inode {
        Some(x) => Some(json_member_text("file_inode", u64_decimal(x))),
        None => None,
    };
    push_some(&mut m, inode);
    push_some(&mut m, int_member("file_owner_uid", widen_u32(d.file_owner_uid), Ghost(u32_int(d.file_owner_uid))));
    push_some(&mut m, int_member("file_owner_gid", widen_u32(d.file_owner_gid), Ghost(u32_int(d.file_owner_gid))));
    let pt = match d.path_truncated {
        Some(b) => Some(json_member_text("path_truncated", cypher_bool(b))),
        None => None,
    };
    push_some(&mut m, pt);
    let body = join_strings(m.as_slice(), ",");
    let mut s = String::from_str("{");
    s.append(body.as_str());
    s.append("}");
    proof {
        let members = string_views(m@);
        assert(s@ == "{"@ + join(members, ","@) + "}"@);
    }
    s
}

/// Serialise event details to the JSON stored as `context_json`; none when
/// there are no details or all their fields are absent.
fn details_to_json(details: &Option<EventDetails>) -> (r: Option<String>)
    ensures
        match context_json(*details) {
            Some(c) => r matches Some(t) && t@ == c,
            None => r is None,
        },
{
    match details {
        None => None,
        Some(d) => {
            if d.is_empty() {
                None
            } else {
                Some(details_object(d))
            }
        },
    }
}


fn clamped_id(id: u64) -> (r: i64)
    ensures
        r as int == clamp_id(id),
{
    if id <= i64::MAX as u64 {
        id as i64
    } else {
        i64::MAX
    }
}

fn insert_ingest_event_stmt(ingest_id: u64, event: &NormalisedEvent) -> (r: String)
    ensures
        r@ == ingest_event_text(ingest_id, *event),
{
    let mut sets: Vec<String> = Vec::new();
    sets.push(n_clause("event_name", cypher_str(event.event_name.as_str())));
    sets.push(n_clause("timestamp_unix_ns", cypher_i64(event.timestamp_unix_ns)));
    assert(string_views(sets@) =~= seq![
        n_assign("event_name"@, cypher_literal(event.event_name@)),
        n_assign("timestamp_unix_ns"@, int_decimal(event.timestamp_unix_ns as int)),
    ]);
    let ctx = match details_to_json(&event.details) {
        Some(c) => Some(n_clause("context_json", cypher_str(c.as_str()))),
        None => None,
    };
    assert(opt_view(ctx) =~= match context_json(event.details) {
        Some(c) => seq![n_assign("context_json"@, cypher_literal(c))],
        None => Seq::<Seq<char>>::empty(),
    });
    push_some(&mut sets, ctx);
    let raw = match &event.raw_json {
        Some(rj) => Some(n_clause("raw_json", cypher_str(rj.as_str()))),
        None => None,
    };
    assert(opt_view(raw) =~= match event.raw_json {
        Some(rj) => seq![n_assign("raw_json"@, cypher_literal(rj@))],
        None => Seq::<Seq<char>>::empty(),
    });
    push_some(&mut sets, raw);
    let set_clause = join_set_clauses(sets.as_slice());
    let mut s = String::from_str("MERGE (n:IngestEvent {id: ");
    s.append(cypher_i64(clamped_id(ingest_id)).as_str());
    s.append("}) ON CREATE SET ");
    s.append(set_clause.as_str());
    s.append(" ON MATCH SET ");
    s.append(set_clause.as_str());
    s
}

fn insert_edge_stmt(edge: &GraphEdge, event_name: &str, ingest_event_id: u64) -> (r: String)
    requires
        edge_kinds_valid(*edge),
    ensures
        r@ == insert_edge_text(*edge, event_name@, ingest_event_id),
{
    let rel = edge_kind_name(edge.kind);
    let src_label = node_label(edge.src_kind.as_str());
    let dst_label = node_label(edge.dst_kind.as_str());
    let mut props: Vec<String> = Vec::new();
    let mut p0 = String::from_str("timestamp_unix_ns: ");
    p0.append(cypher_i64(edge.timestamp_unix_ns).as_str());
    props.push(p0);
    let mut p1 = String::from_str("event_name: ");
    p1.append(cypher_str(event_name).as_str());
    props.push(p1);
    let mut p2 = String::from_str("ingest_event_id: ");
    p2.append(cypher_i64(clamped_id(ingest_event_id)).as_str());
    props.push(p2);
    let meta = match &edge.metadata {
        Some(m) => {
            let mut t = String::from_str("metadata: ");
            t.append(cypher_str(m.as_str()).as_str());
            Some(t)
        },
        None => None,
    };
    assert(string_views(props@) + opt_view(meta) =~= edge_props(*edge, event_name@, ingest_event_id));
    push_some(&mut props, meta);
    let body = join_strings(props.as_slice(), ", ");
    let mut s = String::from_str("MATCH (a:");
    s.append(src_label);
    s.append(" {id: ");
    s.append(cypher_str(edge.src_id.as_str()).as_str());
    s.append("}), (b:");
    s.append(dst_label);
    s.append(" {id: ");
    s.append(cypher_str(edge.dst_id.as_str()).as_str());
    s.append("}) CREATE (a)-[:");
    s.append(rel);
    s.append(" {");
    s.append(body.as_str());
    s.append("}]->(b)");
    s
}

fn ensure_edge_endpoints(edge: &GraphEdge) -> (r: (String, String))
    requires
        edge_kinds_valid(*edge),
    ensures
        r.0@ == stub_text(node_label_text(edge.src_kind@), edge.src_id@),
        r.1@ == stub_text(node_label_text(edge.dst_kind@), edge.dst_id@),
{
    let src_label = node_label(edge.src_kind.as_str());
    let dst_label = node_label(edge.dst_kind.as_str());
    (
        merge_stub_node_stmt(src_label, edge.src_id.as_str()),
        merge_stub_node_stmt(dst_label, edge.dst_id.as_str()),
    )
}


/// A planned ingest batch: the multi-statement script to run (none for an
/// empty batch) and the counters it will report.
#[derive(Debug, Clone, PartialEq, Eq)]
pub struct IngestBatch {
    /// Statements joined by `;` and a newline.
    pub script: Option<String>,
    /// Counters for the batch.
    pub stats: IngestStats,
}

proof fn lemma_node_statements_none_sticks(nodes: Seq<GraphNode>, seen: i64, j: int)
    requires
        0 <= j <= nodes.len(),
        node_statements(nodes.take(j), seen) is None,
    ensures
        node_statements(nodes, seen) is None,
    decreases nodes.len() - j,
{
    if j < nodes.len() {
        assert(nodes.take(j + 1).drop_last() =~= nodes.take(j));
        lemma_node_statements_none_sticks(nodes, seen, j + 1);
    } else {
        assert(nodes.take(j) =~= nodes);
    }
}

proof fn lemma_batch_err_sticks(start: u64, events: Seq<NormalisedEvent>, i: int)
    requires
        0 <= i <= events.len(),
        batch_statements(start, events.take(i)) is Err,
    ensures
        batch_statements(start, events) == batch_statements(start, events.take(i)),
    decreases events.len() - i,
{
    if i < events.len() {
        assert(events.take(i + 1).drop_last() =~= events.take(i));
        lemma_batch_err_sticks(start, events, i + 1);
    } else {
        assert(events.take(i) =~= events);
    }
}

proof fn lemma_totals_prefix(events: Seq<NormalisedEvent>, i: int)
    requires
        0 <= i <= events.len(),
    ensures
        total_nodes(events.take(i)) <= total_nodes(events),
        total_edges(events.take(i)) <= total_edges(events),
    decreases events.len() - i,
{
    if i < events.len() {
        assert(events.take(i + 1).drop_last() =~= events.take(i));
        lemma_totals_prefix(events, i + 1);
    } else {
        assert(events.take(i) =~= events);
    }
}

/// Every node of the event can be upserted: no process node lacks its
/// audit token.
pub open spec fn nodes_upsertable(e: NormalisedEvent) -> bool {
    node_statements(e.nodes@, e.timestamp_unix_ns) is Some
}

/// Every edge that ingest reaches names known node kinds. Ingest stops at
/// the first event with a node it cannot upsert, before that event's edges,
/// so only the edges of events up to that point are reached.
pub open spec fn reached_edges_valid(events: Seq<NormalisedEvent>) -> bool {
    forall|i: int, j: int|
        0 <= i < events.len() && 0 <= j < events[i].edges@.len() && (forall|k: int|
            0 <= k <= i ==> #[trigger] nodes_upsertable(events[k])) ==> edge_kinds_valid(
            #[trigger] events[i].edges@[j],
        )
}

proof fn lemma_batch_ok_nodes(start: u64, events: Seq<NormalisedEvent>)
    requires
        batch_statements(start, events) is Ok,
    ensures
        forall|k: int| 0 <= k < events.len() ==> #[trigger] nodes_upsertable(events[k]),
    decreases events.len(),
{
    if events.len() > 0 {
        let prefix = events.drop_last();
        lemma_batch_ok_nodes(start, prefix);
        assert forall|k: int| 0 <= k < events.len() implies #[trigger] nodes_upsertable(events[k]) by {
            if k < events.len() - 1 {
                assert(prefix[k] == events[k]);
            }
        }
    }
}

fn plan_nodes(statements: &mut Vec<String>, upserts: &mut usize, nodes: &Vec<GraphNode>, seen: i64) -> (r: Result<(), StoreError>)
    requires
        *old(upserts) + nodes@.len() <= usize::MAX,
    ensures
        match node_statements(nodes@, seen) {
            Some(ns) => r is Ok && string_views(final(statements)@) == string_views(old(statements)@) + ns
                && *final(upserts) == *old(upserts) + nodes@.len(),
            None => r matches Err(StoreError::InvalidEvent(m)) && m@
                == "process node missing audit_token_hex"@,
        },
{
    let ghost base = string_views(statements@);
    let ghost up0 = *upserts;
    let nn = nodes.len();
    let mut j: usize = 0;
    assert(nodes@.take(0) =~= Seq::<GraphNode>::empty());
    assert(base + Seq::<Seq<char>>::empty() =~= base);
    while j < nn
        invariant
            nn == nodes@.len(),
            j <= nn,
            up0 + nn <= usize::MAX,
            *upserts == up0 + j,
            node_statements(nodes@.take(j as int), seen) matches Some(ns) && string_views(
                statements@,
            ) == base + ns,
        decreases nn - j,
    {
        let ghost prev = string_views(statements@);
        let ghost ns = node_statements(nodes@.take(j as int), seen)->Some_0;
        assert(nodes@.take(j + 1).drop_last() =~= nodes@.take(j as int));
        assert(nodes@.take(j + 1).last() == nodes@[j as int]);
        match merge_node_stmt(&nodes[j], seen) {
            Err(e) => {
                proof {
                    lemma_node_statements_none_sticks(nodes@, seen, j + 1);
                }
                return Err(e);
            },
            Ok(stmt) => {
                statements.push(stmt);
                assert(string_views(statements@) =~= prev.push(stmt@));
                assert(base + ns.push(stmt@) =~= prev.push(stmt@));
                *upserts = *upserts + 1;
            },
        }
        j = j + 1;
    }
    assert(nodes@.take(nn as int) =~= nodes@);
    Ok(())
}

fn plan_edges(
    statements: &mut Vec<String>,
    inserted: &mut usize,
    edges: &Vec<GraphEdge>,
    event_name: &str,
    ingest_id: u64,
)
    requires
        *old(inserted) + edges@.len() <= usize::MAX,
        forall|b: int| 0 <= b < edges@.len() ==> edge_kinds_valid(#[trigger] edges@[b]),
    ensures
        string_views(final(statements)@) == string_views(old(statements)@) + edge_statements(
            edges@,
            event_name@,
            ingest_id,
        ),
        *final(inserted) == *old(inserted) + edges@.len(),
{
    let ghost base = string_views(statements@);
    let ghost in0 = *inserted;
    let ne = edges.len();
    let mut k: usize = 0;
    assert(edges@.take(0) =~= Seq::<GraphEdge>::empty());
    assert(base + edge_statements(edges@.take(0), event_name@, ingest_id) =~= base);
    while k < ne
        invariant
            ne == edges@.len(),
            k <= ne,
            forall|b: int| 0 <= b < edges@.len() ==> edge_kinds_valid(#[trigger] edges@[b]),
            in0 + ne <= usize::MAX,
            *inserted == in0 + k,
            string_views(statements@) == base + edge_statements(
                edges@.take(k as int),
                event_name@,
                ingest_id,
            ),
        decreases ne - k,
    {
        let edge = &edges[k];
        assert(edge_kinds_valid(edges@[k as int]));
        let ghost prev = string_views(statements@);
        let ghost pre_edges = edge_statements(edges@.take(k as int), event_name@, ingest_id);
        assert(edges@.take(k + 1).drop_last() =~= edges@.take(k as int));
        assert(edges@.take(k + 1).last() == *edge);
        let (s0, s1) = ensure_edge_endpoints(edge);
        let s2 = insert_edge_stmt(edge, event_name, ingest_id);
        statements.push(s0);
        statements.push(s1);
        statements.push(s2);
        assert(string_views(statements@) =~= prev + seq![s0@, s1@, s2@]);
        assert(edge_statements(edges@.take(k + 1), event_name@, ingest_id) == pre_edges + seq![
            s0@,
            s1@,
            s2@,
        ]);
        assert(base + (pre_edges + seq![s0@, s1@, s2@]) =~= (base + pre_edges) + seq![
            s0@,
            s1@,
            s2@,
        ]);
        *inserted = *inserted + 1;
        k = k + 1;
    }
    assert(edges@.take(ne as int) =~= edges@);
}

fn plan_event(
    statements: &mut Vec<String>,
    stats: &mut IngestStats,
    ingest_id: u64,
    event: &NormalisedEvent,
) -> (r: Result<(), StoreError>)
    requires
        forall|b: int|
            0 <= b < event.edges@.len() && nodes_upsertable(*event) ==> edge_kinds_valid(
                #[trigger] event.edges@[b],
            ),
        old(stats).node_upserts + event.nodes@.len() <= usize::MAX,
        old(stats).edges_inserted + event.edges@.len() <= usize::MAX,
    ensures
        match event_statements(ingest_id, *event) {
            Some(es) => r is Ok && string_views(final(statements)@) == string_views(old(statements)@) + es
                && final(stats).node_upserts == old(stats).node_upserts + event.nodes@.len()
                && final(stats).edges_inserted == old(stats).edges_inserted + event.edges@.len()
                && final(stats).events == old(stats).events,
            None => r matches Err(StoreError::InvalidEvent(m)) && m@
                == "process node missing audit_token_hex"@,
        },
{
    let ghost base = string_views(statements@);
    statements.push(insert_ingest_event_stmt(ingest_id, event));
    assert(string_views(statements@) =~= base + seq![ingest_event_text(ingest_id, *event)]);
    let ghost b1 = string_views(statements@);
    match plan_nodes(statements, &mut stats.node_upserts, &event.nodes, event.timestamp_unix_ns) {
        Err(e) => {
            return Err(e);
        },
        Ok(()) => {},
    }
    let ghost b2 = string_views(statements@);
    assert(nodes_upsertable(*event));
    plan_edges(
        statements,
        &mut stats.edges_inserted,
        &event.edges,
        event.event_name.as_str(),
        ingest_id,
    );
    proof {
        let ns = node_statements(event.nodes@, event.timestamp_unix_ns)->Some_0;
        let es = edge_statements(event.edges@, event.event_name@, ingest_id);
        assert(string_views(statements@) =~= base + (seq![ingest_event_text(ingest_id, *event)]
            + ns + es));
    }
    Ok(())
}

/// Plan the ingest of a batch of normalised events as one multi-statement
/// write.
///
/// Each event takes the next ingest id (wrapping at the top of the range):
/// its audit node is upserted, then its nodes, then for each edge both
/// endpoints and the edge itself. A process node without an audit token
/// makes the batch fail; the ids taken up to and including that event stay
/// taken. Edges are reached only up to that event, and those must name
/// known node kinds.
pub fn ingest_batch(next_ingest_id: &mut u64, events: &[NormalisedEvent]) -> (r: Result<
    IngestBatch,
    StoreError,
>)
    requires
        reached_edges_valid(events@),
        total_nodes(events@) <= usize::MAX,
        total_edges(events@) <= usize::MAX,
    ensures
        events@.len() == 0 ==> r == Ok::<IngestBatch, StoreError>(
            IngestBatch { script: None, stats: IngestStats { events: 0, node_upserts: 0, edges_inserted: 0 } },
        ) && *final(next_ingest_id) == *old(next_ingest_id),
        events@.len() > 0 ==> match batch_statements(*old(next_ingest_id), events@) {
            Ok(ss) => r matches Ok(b) && b.script matches Some(t) && t@ == join(ss, ";\n"@)
                && b.stats == IngestStats {
                events: events@.len() as usize,
                node_upserts: total_nodes(events@) as usize,
                edges_inserted: total_edges(events@) as usize,
            } && *final(next_ingest_id) == ingest_id_at(
                *old(next_ingest_id),
                events@.len(),
            ),
            Err(k) => r matches Err(StoreError::InvalidEvent(m)) && m@
                == "process node missing audit_token_hex"@ && *final(next_ingest_id)
                == ingest_id_at(*old(next_ingest_id), k + 1),
        },
{
    let mut stats = IngestStats::default();
    if events.len() == 0 {
        return Ok(IngestBatch { script: None, stats });
    }
    let ghost start = *next_ingest_id;
    let mut statements: Vec<String> = Vec::new();
    let n = events.len();
    let mut i: usize = 0;
    assert(events@.take(0) =~= Seq::<NormalisedEvent>::empty());
    assert(string_views(statements@) =~= Seq::<Seq<char>>::empty());
    while i < n
        invariant
            n == events@.len(),
            i <= n,
            reached_edges_valid(events@),
            total_nodes(events@) <= usize::MAX,
            total_edges(events@) <= usize::MAX,
            *next_ingest_id == ingest_id_at(start, i as nat),
            start == *old(next_ingest_id),
            batch_statements(start, events@.take(i as int)) == Ok::<Seq<Seq<char>>, nat>(
                string_views(statements@),
            ),
            stats.events == i,
            stats.node_upserts == total_nodes(events@.take(i as int)),
            stats.edges_inserted == total_edges(events@.take(i as int)),
        decreases n - i,
    {
        let event = &events[i];
        let ingest_id = *next_ingest_id;
        *next_ingest_id = if ingest_id == u64::MAX {
            0
        } else {
            ingest_id + 1
        };
        assert(*next_ingest_id == ingest_id_at(start, (i + 1) as nat));
        let ghost cur = events@.take(i + 1);
        assert(cur.drop_last() =~= events@.take(i as int));
        assert(cur.last() == *event);
        proof {
            lemma_totals_prefix(events@, i + 1);
        }
        proof {
            lemma_batch_ok_nodes(start, events@.take(i as int));
        }
        assert forall|b: int|
            0 <= b < event.edges@.len() && nodes_upsertable(*event) implies edge_kinds_valid(
            #[trigger] event.edges@[b],
        ) by {
            assert forall|k: int| 0 <= k <= i implies #[trigger] nodes_upsertable(events@[k]) by {
                if k < i {
                    assert(events@.take(i as int)[k] == events@[k]);
                }
            }
            assert(event.edges@[b] == events@[i as int].edges@[b]);
        }
        match plan_event(&mut statements, &mut stats, ingest_id, event) {
            Err(e) => {
                proof {
                    assert(batch_statements(start, cur) == Err::<Seq<Seq<char>>, nat>(i as nat));
                    lemma_batch_err_sticks(start, events@, i + 1);
                }
                return Err(e);
            },
            Ok(()) => {},
        }
        stats.events = stats.events + 1;
        i = i + 1;
    }
    assert(events@.take(n as int) =~= events@);
    let script = join_strings(statements.as_slice(), ";\n");
    Ok(IngestBatch { script: Some(script), stats })
}


/// The sample `notify_write` event: `/bin/zsh` (audit token
/// `aabbccdd0011`, PID 4242) wrote `/tmp/research.txt`.
pub open spec fn is_sample_write_event(e: NormalisedEvent) -> bool {
    &&& e.event_name@ == "notify_write"@
    &&& e.timestamp_unix_ns == 1_700_000_000_000_000_000
    &&& e.nodes@.len() == 2
    &&& e.nodes@[0] matches GraphNode::Process(p) && {
        &&& p.identity.audit_token_hex@ == "aabbccdd0011"@
        &&& p.identity.pid == 4242
        &&& p.path@ == "/bin/zsh"@
        &&& p.signing_id is None && p.team_id is None && p.cdhash is None
        &&& p.ppid == Some(1i32)
        &&& p.euid == Some(501u32) && p.egid == Some(20u32)
        &&& p.ruid == Some(501u32) && p.rgid == Some(20u32)
        &&& p.session_id == Some(100i32)
        &&& p.is_platform_binary == Some(true)
        &&& p.parent_audit_token_hex is None && p.args_json is None && p.exit_status is None
    }
    &&& e.nodes@[1] matches GraphNode::File(f) && {
        &&& f.path@ == "/tmp/research.txt"@
        &&& f.inode == Some(12345u64)
        &&& f.mode == Some(0o100644u32)
        &&& f.owner_uid == Some(501u32) && f.owner_gid == Some(20u32)
        &&& !f.path_truncated
    }
    &&& e.edges@.len() == 1
    &&& e.edges@[0].kind == EdgeKind::Wrote
    &&& e.edges@[0].src_id@ == "aabbccdd0011"@
    &&& e.edges@[0].src_kind@ == "process"@
    &&& e.edges@[0].dst_id@ == "/tmp/research.txt"@
    &&& e.edges@[0].dst_kind@ == "file"@
    &&& e.edges@[0].timestamp_unix_ns == 1_700_000_000_000_000_000
    &&& e.edges@[0].metadata is None
    &&& e.details matches Some(d) && {
        &&& d.instigator_pid == Some(4242i32)
        &&& d.instigator_euid == Some(501u32) && d.instigator_egid == Some(20u32)
        &&& d.instigator_path matches Some(ip) && ip@ == "/bin/zsh"@
        &&& d.instigator_audit_token_hex is None && d.target_audit_token_hex is None
        &&& d.target_path is None && d.exec_args is None && d.exit_status is None
        &&& d.file_mode == Some(0o100644u32) && d.file_inode == Some(12345u64)
        &&& d.file_owner_uid == Some(501u32) && d.file_owner_gid == Some(20u32)
        &&& d.path_truncated == Some(false)
    }
    &&& e.raw_json matches Some(r) && r@ == "{\"fixture\":\"write_event\"}"@
}

/// Sample `notify_write` event used in tests and demonstrations.
pub fn sample_write_event() -> (r: NormalisedEvent)
    ensures
        is_sample_write_event(r),
{
    let details = EventDetails {
        instigator_pid: Some(4242),
        instigator_euid: Some(501),
        instigator_egid: Some(20),
        instigator_path: Some(String::from_str("/bin/zsh")),
        instigator_audit_token_hex: None,
        target_audit_token_hex: None,
        target_path: None,
        exec_args: None,
        exit_status: None,
        file_mode: Some(0o100644),
        file_inode: Some(12345),
        file_owner_uid: Some(501),
        file_owner_gid: Some(20),
        path_truncated: Some(false),
    };
    let process = ProcessNode {
        identity: ProcessIdentity { audit_token_hex: String::from_str("aabbccdd0011"), pid: 4242 },
        path: String::from_str("/bin/zsh"),
        signing_id: None,
        team_id: None,
        cdhash: None,
        ppid: Some(1),
        euid: Some(501),
        egid: Some(20),
        ruid: Some(501),
        rgid: Some(20),
        session_id: Some(100),
        is_platform_binary: Some(true),
        parent_audit_token_hex: None,
        args_json: None,
        exit_status: None,
    };
    let file = FileNode {
        path: String::from_str("/tmp/research.txt"),
        inode: Some(12345),
        mode: Some(0o100644),
        owner_uid: Some(501),
        owner_gid: Some(20),
        path_truncated: false,
    };
    let edge = GraphEdge {
        kind: EdgeKind::Wrote,
        src_id: String::from_str("aabbccdd0011"),
        src_kind: String::from_str("process"),
        dst_id: String::from_str("/tmp/research.txt"),
        dst_kind: String::from_str("file"),
        timestamp_unix_ns: 1_700_000_000_000_000_000,
        metadata: None,
    };
    NormalisedEvent {
        event_name: String::from_str("notify_write"),
        timestamp_unix_ns: 1_700_000_000_000_000_000,
        details: Some(details),
        nodes: vec![GraphNode::Process(process), GraphNode::File(file)],
        edges: vec![edge],
        raw_json: Some(String::from_str("{\"fixture\":\"write_event\"}")),
    }
}

} // verus!
