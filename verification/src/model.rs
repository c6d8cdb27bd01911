//! Graph-oriented representation of Endpoint Security events: process, file
//! and socket nodes, typed timestamped edges, and per-event analyst details.

use vstd::prelude::*;

verus! {

/// Stable key for a process node: the audit token is unique per process
/// instance, while PIDs are reused after exit.
#[derive(Debug, Clone, PartialEq, Eq, Hash)]
pub struct ProcessIdentity {
    /// Hex-encoded `audit_token_t` (primary graph key).
    pub audit_token_hex: String,
    /// PID at event time (informational; may be reused later).
    pub pid: i32,
}

/// Process vertex: executable identity and signing metadata.
#[derive(Debug, Clone, PartialEq, Eq)]
pub struct ProcessNode {
    /// Graph key and PID.
    pub identity: ProcessIdentity,
    /// Path to the executable image.
    pub path: String,
    /// Code-signing identifier, when signed.
    pub signing_id: Option<String>,
    /// Team identifier, when signed.
    pub team_id: Option<String>,
    /// Code directory hash (hex), when present.
    pub cdhash: Option<String>,
    /// Parent PID.
    pub ppid: Option<i32>,
    /// Effective user ID.
    pub euid: Option<u32>,
    /// Effective group ID.
    pub egid: Option<u32>,
    /// Real user ID.
    pub ruid: Option<u32>,
    /// Real group ID.
    pub rgid: Option<u32>,
    /// Session ID.
    pub session_id: Option<i32>,
    /// Whether the binary is signed with platform certificates.
    pub is_platform_binary: Option<bool>,
    /// Parent process audit token (hex), when available.
    pub parent_audit_token_hex: Option<String>,
    /// Command-line argv as a JSON array string (set on exec for the child).
    pub args_json: Option<String>,
    /// Last known exit status (set on exit).
    pub exit_status: Option<i32>,
}

/// File path vertex.
#[derive(Debug, Clone, PartialEq, Eq, Hash)]
pub struct FileNode {
    /// The file's path (graph key).
    pub path: String,
    /// Inode at event time.
    pub inode: Option<u64>,
    /// File mode (`st_mode`) at event time.
    pub mode: Option<u32>,
    /// Owner UID.
    pub owner_uid: Option<u32>,
    /// Owner GID.
    pub owner_gid: Option<u32>,
    /// True when the path was truncated at the source.
    pub path_truncated: bool,
}

/// Whether a flag is unset; a file node's `path_truncated` is left out of
/// its serialised form when it is.
pub fn is_false(v: &bool) -> (r: bool)
    ensures
        r == !*v,
{
    !*v
}

/// UNIX domain socket path vertex.
#[derive(Debug, Clone, PartialEq, Eq, Hash)]
pub struct SocketNode {
    /// The socket's path (graph key).
    pub path: String,
}

/// Discriminated union of graph node payloads.
#[derive(Debug, Clone, PartialEq, Eq)]
pub enum GraphNode {
    /// A process.
    Process(ProcessNode),
    /// A file.
    File(FileNode),
    /// A UNIX domain socket.
    Socket(SocketNode),
}

/// The key under which a node is stored and referenced by edges.
pub open spec fn node_id(n: GraphNode) -> Seq<char> {
    match n {
        GraphNode::Process(p) => p.identity.audit_token_hex@,
        GraphNode::File(f) => f.path@,
        GraphNode::Socket(s) => s.path@,
    }
}

/// The kind label of a node as edges record it.
pub open spec fn node_kind_label(n: GraphNode) -> Seq<char> {
    match n {
        GraphNode::Process(_) => "process"@,
        GraphNode::File(_) => "file"@,
        GraphNode::Socket(_) => "socket"@,
    }
}

impl GraphNode {
    /// Stable string id used as `src_id` / `dst_id` on edges.
    pub fn id(&self) -> (r: String)
        ensures
            r@ == node_id(*self),
    {
        match self {
            GraphNode::Process(p) => p.identity.audit_token_hex.clone(),
            GraphNode::File(f) => f.path.clone(),
            GraphNode::Socket(s) => s.path.clone(),
        }
    }

    /// Node kind label stored on edges (`process`, `file`, `socket`).
    pub fn kind_label(&self) -> (r: &'static str)
        ensures
            r@ == node_kind_label(*self),
    {
        match self {
            GraphNode::Process(_) => "process",
            GraphNode::File(_) => "file",
            GraphNode::Socket(_) => "socket",
        }
    }
}

/// Relationship type between two nodes.
#[derive(Debug, Clone, Copy, PartialEq, Eq, Hash, Structural)]
pub enum EdgeKind {
    /// Process executed another process.
    Executed,
    /// Parent forked child.
    Forked,
    /// Process exited (self-loop).
    Exited,
    /// Remote thread creation in another process.
    RemoteThreadCreated,
    /// Task port access.
    GotTask,
    /// File created.
    Created,
    /// File written.
    Wrote,
    /// File unlinked.
    Unlinked,
    /// File renamed (destination in metadata).
    Renamed,
    /// File opened.
    Opened,
    /// File closed.
    Closed,
    /// UNIX socket bound.
    UipcBound,
    /// UNIX socket connected.
    UipcConnected,
}

/// The name of an edge kind's variant, in snake_case.
pub open spec fn edge_kind_ident(k: EdgeKind) -> Seq<char> {
    match k {
        EdgeKind::Executed => "executed"@,
        EdgeKind::Forked => "forked"@,
        EdgeKind::Exited => "exited"@,
        EdgeKind::RemoteThreadCreated => "remote_thread_created"@,
        EdgeKind::GotTask => "got_task"@,
        EdgeKind::Created => "created"@,
        EdgeKind::Wrote => "wrote"@,
        EdgeKind::Unlinked => "unlinked"@,
        EdgeKind::Renamed => "renamed"@,
        EdgeKind::Opened => "opened"@,
        EdgeKind::Closed => "closed"@,
        EdgeKind::UipcBound => "uipc_bound"@,
        EdgeKind::UipcConnected => "uipc_connected"@,
    }
}

/// Directed, timestamped edge in the event graph.
#[derive(Debug, Clone, PartialEq, Eq)]
pub struct GraphEdge {
    /// Relationship type.
    pub kind: EdgeKind,
    /// Key of the source node.
    pub src_id: String,
    /// Kind label of the source node.
    pub src_kind: String,
    /// Key of the destination node.
    pub dst_id: String,
    /// Kind label of the destination node.
    pub dst_kind: String,
    /// Event time in Unix nanoseconds.
    pub timestamp_unix_ns: i64,
    /// Optional JSON metadata (e.g. rename destination path).
    pub metadata: Option<String>,
}

/// Event-type-specific fields useful for hunting.
#[derive(Debug, Clone, PartialEq, Eq)]
pub struct EventDetails {
    /// Instigator PID.
    pub instigator_pid: Option<i32>,
    /// Instigator effective UID.
    pub instigator_euid: Option<u32>,
    /// Instigator effective GID.
    pub instigator_egid: Option<u32>,
    /// Instigator executable path.
    pub instigator_path: Option<String>,
    /// Instigator audit token (hex).
    pub instigator_audit_token_hex: Option<String>,
    /// Target process audit token (hex), for exec.
    pub target_audit_token_hex: Option<String>,
    /// Target executable path, for exec.
    pub target_path: Option<String>,
    /// Full argv, for exec.
    pub exec_args: Option<Vec<String>>,
    /// Exit status, for exit.
    pub exit_status: Option<i32>,
    /// Target file mode when a file is involved.
    pub file_mode: Option<u32>,
    /// Target file inode when a file is involved.
    pub file_inode: Option<u64>,
    /// Target file owner UID.
    pub file_owner_uid: Option<u32>,
    /// Target file owner GID.
    pub file_owner_gid: Option<u32>,
    /// Whether the target path was truncated.
    pub path_truncated: Option<bool>,
}

/// No analyst-facing field is set.
pub open spec fn details_empty(d: EventDetails) -> bool {
    &&& d.instigator_pid is None
    &&& d.instigator_euid is None
    &&& d.instigator_egid is None
    &&& d.instigator_path is None
    &&& d.instigator_audit_token_hex is None
    &&& d.target_audit_token_hex is None
    &&& d.target_path is None
    &&& d.exec_args is None
    &&& d.exit_status is None
    &&& d.file_mode is None
    &&& d.file_inode is None
    &&& d.file_owner_uid is None
    &&& d.file_owner_gid is None
    &&& d.path_truncated is None
}

impl Default for EventDetails {
    fn default() -> (r: Self)
        ensures
            details_empty(r),
    {
        EventDetails {
            instigator_pid: None,
            instigator_euid: None,
            instigator_egid: None,
            instigator_path: None,
            instigator_audit_token_hex: None,
            target_audit_token_hex: None,
            target_path: None,
            exec_args: None,
            exit_status: None,
            file_mode: None,
            file_inode: None,
            file_owner_uid: None,
            file_owner_gid: None,
            path_truncated: None,
        }
    }
}

impl EventDetails {
    /// True when no analyst-facing fields are set.
    pub fn is_empty(&self) -> (r: bool)
        ensures
            r == details_empty(*self),
    {
        self.instigator_pid.is_none() && self.instigator_euid.is_none()
            && self.instigator_egid.is_none() && self.instigator_path.is_none()
            && self.instigator_audit_token_hex.is_none() && self.target_audit_token_hex.is_none()
            && self.target_path.is_none() && self.exec_args.is_none()
            && self.exit_status.is_none() && self.file_mode.is_none()
            && self.file_inode.is_none() && self.file_owner_uid.is_none()
            && self.file_owner_gid.is_none() && self.path_truncated.is_none()
    }
}

/// One event reduced to graph primitives for storage.
#[derive(Debug, Clone, PartialEq, Eq)]
pub struct NormalisedEvent {
    /// Registry name (e.g. `notify_write`).
    pub event_name: String,
    /// Event time in Unix nanoseconds.
    pub timestamp_unix_ns: i64,
    /// Nodes to upsert.
    pub nodes: Vec<GraphNode>,
    /// Edges to append.
    pub edges: Vec<GraphEdge>,
    /// Event-type-specific analyst fields.
    pub details: Option<EventDetails>,
    /// Optional serialised raw payload for forensics.
    pub raw_json: Option<String>,
}

/// Node kind for Cypher filters (mirrors the [`GraphNode`] variants).
#[derive(Debug, Clone, Copy, PartialEq, Eq, Structural)]
pub enum NodeKind {
    /// Process nodes.
    Process,
    /// File nodes.
    File,
    /// Socket nodes.
    Socket,
}

/// The label of a node kind.
pub open spec fn node_kind_text(k: NodeKind) -> Seq<char> {
    match k {
        NodeKind::Process => "process"@,
        NodeKind::File => "file"@,
        NodeKind::Socket => "socket"@,
    }
}

impl NodeKind {
    /// The lower-case label (`process`, `file`, `socket`).
    pub fn as_str(self) -> (r: &'static str)
        ensures
            r@ == node_kind_text(self),
    {
        match self {
            NodeKind::Process => "process",
            NodeKind::File => "file",
            NodeKind::Socket => "socket",
        }
    }
}


/// The text of an optional string.
pub open spec fn opt_text(o: Option<String>) -> Option<Seq<char>> {
    match o {
        Some(s) => Some(s@),
        None => None,
    }
}

/// Mathematical view of a process node.
pub struct ProcessNodeView {
    /// Audit token (hex), the node's key.
    pub audit_token_hex: Seq<char>,
    /// PID at event time.
    pub pid: i32,
    /// Executable path.
    pub path: Seq<char>,
    /// Signing identifier.
    pub signing_id: Option<Seq<char>>,
    /// Team identifier.
    pub team_id: Option<Seq<char>>,
    /// Code directory hash (hex).
    pub cdhash: Option<Seq<char>>,
    /// Parent PID.
    pub ppid: Option<i32>,
    /// Effective UID.
    pub euid: Option<u32>,
    /// Effective GID.
    pub egid: Option<u32>,
    /// Real UID.
    pub ruid: Option<u32>,
    /// Real GID.
    pub rgid: Option<u32>,
    /// Session ID.
    pub session_id: Option<i32>,
    /// Platform binary flag.
    pub is_platform_binary: Option<bool>,
    /// Parent audit token (hex).
    pub parent_audit_token_hex: Option<Seq<char>>,
    /// Argv as JSON.
    pub args_json: Option<Seq<char>>,
    /// Exit status.
    pub exit_status: Option<i32>,
}

impl View for ProcessNode {
    type V = ProcessNodeView;

    open spec fn view(&self) -> ProcessNodeView {
        ProcessNodeView {
            audit_token_hex: self.identity.audit_token_hex@,
            pid: self.identity.pid,
            path: self.path@,
            signing_id: opt_text(self.signing_id),
            team_id: opt_text(self.team_id),
            cdhash: opt_text(self.cdhash),
            ppid: self.ppid,
            euid: self.euid,
            egid: self.egid,
            ruid: self.ruid,
            rgid: self.rgid,
            session_id: self.session_id,
            is_platform_binary: self.is_platform_binary,
            parent_audit_token_hex: opt_text(self.parent_audit_token_hex),
            args_json: opt_text(self.args_json),
            exit_status: self.exit_status,
        }
    }
}

/// Mathematical view of a file node.
pub struct FileNodeView {
    /// The path (key).
    pub path: Seq<char>,
    /// Inode.
    pub inode: Option<u64>,
    /// Mode.
    pub mode: Option<u32>,
    /// Owner UID.
    pub owner_uid: Option<u32>,
    /// Owner GID.
    pub owner_gid: Option<u32>,
    /// Path truncated at the source.
    pub path_truncated: bool,
}

impl View for FileNode {
    type V = FileNodeView;

    open spec fn view(&self) -> FileNodeView {
        FileNodeView {
            path: self.path@,
            inode: self.inode,
            mode: self.mode,
            owner_uid: self.owner_uid,
            owner_gid: self.owner_gid,
            path_truncated: self.path_truncated,
        }
    }
}

/// Mathematical view of a node.
pub enum GraphNodeView {
    /// A process.
    Process(ProcessNodeView),
    /// A file.
    File(FileNodeView),
    /// A socket, by path.
    Socket(Seq<char>),
}

impl View for GraphNode {
    type V = GraphNodeView;

    open spec fn view(&self) -> GraphNodeView {
        match self {
            GraphNode::Process(p) => GraphNodeView::Process(p@),
            GraphNode::File(f) => GraphNodeView::File(f@),
            GraphNode::Socket(s) => GraphNodeView::Socket(s.path@),
        }
    }
}

/// Mathematical view of an edge.
pub struct GraphEdgeView {
    /// Relationship type.
    pub kind: EdgeKind,
    /// Source key.
    pub src_id: Seq<char>,
    /// Source kind label.
    pub src_kind: Seq<char>,
    /// Destination key.
    pub dst_id: Seq<char>,
    /// Destination kind label.
    pub dst_kind: Seq<char>,
    /// Event time.
    pub timestamp_unix_ns: i64,
    /// JSON metadata.
    pub metadata: Option<Seq<char>>,
}

impl View for GraphEdge {
    type V = GraphEdgeView;

    open spec fn view(&self) -> GraphEdgeView {
        GraphEdgeView {
            kind: self.kind,
            src_id: self.src_id@,
            src_kind: self.src_kind@,
            dst_id: self.dst_id@,
            dst_kind: self.dst_kind@,
            timestamp_unix_ns: self.timestamp_unix_ns,
            metadata: opt_text(self.metadata),
        }
    }
}

/// Mathematical view of event details.
pub struct EventDetailsView {
    /// Instigator PID.
    pub instigator_pid: Option<i32>,
    /// Instigator effective UID.
    pub instigator_euid: Option<u32>,
    /// Instigator effective GID.
    pub instigator_egid: Option<u32>,
    /// Instigator path.
    pub instigator_path: Option<Seq<char>>,
    /// Instigator audit token.
    pub instigator_audit_token_hex: Option<Seq<char>>,
    /// Target audit token.
    pub target_audit_token_hex: Option<Seq<char>>,
    /// Target path.
    pub target_path: Option<Seq<char>>,
    /// Argv.
    pub exec_args: Option<Seq<Seq<char>>>,
    /// Exit status.
    pub exit_status: Option<i32>,
    /// File mode.
    pub file_mode: Option<u32>,
    /// File inode.
    pub file_inode: Option<u64>,
    /// File owner UID.
    pub file_owner_uid: Option<u32>,
    /// File owner GID.
    pub file_owner_gid: Option<u32>,
    /// Path truncated.
    pub path_truncated: Option<bool>,
}

impl View for EventDetails {
    type V = EventDetailsView;

    open spec fn view(&self) -> EventDetailsView {
        EventDetailsView {
            instigator_pid: self.instigator_pid,
            instigator_euid: self.instigator_euid,
            instigator_egid: self.instigator_egid,
            instigator_path: opt_text(self.instigator_path),
            instigator_audit_token_hex: opt_text(self.instigator_audit_token_hex),
            target_audit_token_hex: opt_text(self.target_audit_token_hex),
            target_path: opt_text(self.target_path),
            exec_args: match self.exec_args {
                Some(a) => Some(a@.map_values(|s: String| s@)),
                None => None,
            },
            exit_status: self.exit_status,
            file_mode: self.file_mode,
            file_inode: self.file_inode,
            file_owner_uid: self.file_owner_uid,
            file_owner_gid: self.file_owner_gid,
            path_truncated: self.path_truncated,
        }
    }
}

/// Mathematical view of a normalised event.
pub struct NormalisedEventView {
    /// Registry name.
    pub event_name: Seq<char>,
    /// Event time.
    pub timestamp_unix_ns: i64,
    /// Nodes.
    pub nodes: Seq<GraphNodeView>,
    /// Edges.
    pub edges: Seq<GraphEdgeView>,
    /// Details.
    pub details: Option<EventDetailsView>,
    /// Raw payload.
    pub raw_json: Option<Seq<char>>,
}

impl View for NormalisedEvent {
    type V = NormalisedEventView;

    open spec fn view(&self) -> NormalisedEventView {
        NormalisedEventView {
            event_name: self.event_name@,
            timestamp_unix_ns: self.timestamp_unix_ns,
            nodes: self.nodes@.map_values(|n: GraphNode| n@),
            edges: self.edges@.map_values(|e: GraphEdge| e@),
            details: match self.details {
                Some(d) => Some(d@),
                None => None,
            },
            raw_json: opt_text(self.raw_json),
        }
    }
}

/// The key of a node view.
pub open spec fn node_view_id(n: GraphNodeView) -> Seq<char> {
    match n {
        GraphNodeView::Process(p) => p.audit_token_hex,
        GraphNodeView::File(f) => f.path,
        GraphNodeView::Socket(p) => p,
    }
}

/// The kind label of a node view.
pub open spec fn node_view_kind(n: GraphNodeView) -> Seq<char> {
    match n {
        GraphNodeView::Process(_) => "process"@,
        GraphNodeView::File(_) => "file"@,
        GraphNodeView::Socket(_) => "socket"@,
    }
}

} // verus!
