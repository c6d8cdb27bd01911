//! Endpoint Security messages as plain values, the mapping between event
//! names and `es_event_type_t` codes, and normalisation of a message into
//! graph nodes, edges and analyst details.

use vstd::prelude::*;
use crate::config::{Config, raw_event_names, resolve_event_names};
use crate::events::{EsEventName, unknown_event_message};
use crate::ingest::valid_node_kind;
use crate::json::{json_array_of_strings, json_string_array};
use crate::model::{
    EdgeKind, EventDetails, EventDetailsView, FileNode, FileNodeView, GraphEdge, GraphEdgeView,
    GraphNode, GraphNodeView, NormalisedEvent, NormalisedEventView, ProcessIdentity, ProcessNode,
    ProcessNodeView, SocketNode, node_view_id, node_view_kind, opt_text,
};
use crate::text::{
    bytes_hex, i64_decimal, int_decimal, parse_u64, parse_u64_spec, push_byte_hex, push_char,
    str_contains, str_eq, string_views, trim_text, trimmed_chars, contains_text, nat_decimal,
    lemma_nat_decimal_digits, lemma_decimal_roundtrip, all_digits, is_digit, is_unicode_whitespace,
    trim_start_text, trim_end_text,
};

verus! {

/// Errors from live Endpoint Security collection.
#[derive(Debug, Clone, PartialEq, Eq)]
pub enum EsfError {
    /// This build target does not include live collection.
    UnsupportedPlatform,
    /// Failed to create or operate the client.
    Client(String),
    /// Normalisation failed for a single message (logged and skipped).
    Normalise(String),
    /// Configuration could not be turned into event type codes.
    Subscription(String),
}

/// The description of a collection error.
pub open spec fn esf_error_text(e: EsfError) -> Seq<char> {
    match e {
        EsfError::UnsupportedPlatform => "live ESF collection requires macOS"@,
        EsfError::Client(m) => "endpoint security client error: "@ + m@,
        EsfError::Normalise(m) => "normalisation error: "@ + m@,
        EsfError::Subscription(m) => "subscription error: "@ + m@,
    }
}

impl EsfError {
    /// The error's description.
    pub fn to_string(&self) -> (r: String)
        ensures
            r@ == esf_error_text(*self),
    {
        match self {
            EsfError::UnsupportedPlatform => String::from_str("live ESF collection requires macOS"),
            EsfError::Client(m) => {
                let mut s = String::from_str("endpoint security client error: ");
                s.append(m.as_str());
                s
            },
            EsfError::Normalise(m) => {
                let mut s = String::from_str("normalisation error: ");
                s.append(m.as_str());
                s
            },
            EsfError::Subscription(m) => {
                let mut s = String::from_str("subscription error: ");
                s.append(m.as_str());
                s
            },
        }
    }
}

// ---------------------------------------------------------------------------
// es_event_type_t codes.
// ---------------------------------------------------------------------------

/// The `es_event_type_t` code of an event name (values of Apple's
/// `es_event_type_t` enumeration).
pub open spec fn es_type_code(n: EsEventName) -> u32 {
    match n {
        EsEventName::AuthExec => 0,
        EsEventName::AuthOpen => 1,
        EsEventName::NotifyExec => 9,
        EsEventName::NotifyOpen => 10,
        EsEventName::NotifyFork => 11,
        EsEventName::NotifyClose => 12,
        EsEventName::NotifyCreate => 13,
        EsEventName::NotifyExit => 15,
        EsEventName::NotifyGetTask => 16,
        EsEventName::NotifyRename => 25,
        EsEventName::NotifyUnlink => 32,
        EsEventName::NotifyWrite => 33,
        EsEventName::NotifyUipcBind => 76,
        EsEventName::NotifyUipcConnect => 78,
        EsEventName::NotifyRemoteThreadCreate => 97,
    }
}

/// The registry name of an `es_event_type_t` code, for the codes modelled.
pub open spec fn es_type_name(ty: u32) -> Option<Seq<char>> {
    if ty == 0 {
        Some("auth_exec"@)
    } else if ty == 1 {
        Some("auth_open"@)
    } else if ty == 9 {
        Some("notify_exec"@)
    } else if ty == 10 {
        Some("notify_open"@)
    } else if ty == 11 {
        Some("notify_fork"@)
    } else if ty == 12 {
        Some("notify_close"@)
    } else if ty == 13 {
        Some("notify_create"@)
    } else if ty == 15 {
        Some("notify_exit"@)
    } else if ty == 16 {
        Some("notify_get_task"@)
    } else if ty == 25 {
        Some("notify_rename"@)
    } else if ty == 32 {
        Some("notify_unlink"@)
    } else if ty == 33 {
        Some("notify_write"@)
    } else if ty == 76 {
        Some("notify_uipc_bind"@)
    } else if ty == 78 {
        Some("notify_uipc_connect"@)
    } else if ty == 97 {
        Some("notify_remote_thread_create"@)
    } else {
        None
    }
}

/// Apple's `es_event_type_t` constants in declaration order, so that the
/// constant at index `i` has the value `i` (values 0 to 97), each written
/// without its `ES_EVENT_TYPE_` prefix and in lower case.
pub open spec fn apple_event_types() -> Seq<Seq<char>> {
    seq![
        "auth_exec"@,
        "auth_open"@,
        "auth_kextload"@,
        "auth_mmap"@,
        "auth_mprotect"@,
        "auth_mount"@,
        "auth_rename"@,
        "auth_signal"@,
        "auth_unlink"@,
        "notify_exec"@,
        "notify_open"@,
        "notify_fork"@,
        "notify_close"@,
        "notify_create"@,
        "notify_exchangedata"@,
        "notify_exit"@,
        "notify_get_task"@,
        "notify_kextload"@,
        "notify_kextunload"@,
        "notify_link"@,
        "notify_mmap"@,
        "notify_mprotect"@,
        "notify_mount"@,
        "notify_unmount"@,
        "notify_iokit_open"@,
        "notify_rename"@,
        "notify_setattrlist"@,
        "notify_setextattr"@,
        "notify_setflags"@,
        "notify_setmode"@,
        "notify_setowner"@,
        "notify_signal"@,
        "notify_unlink"@,
        "notify_write"@,
        "auth_file_provider_materialize"@,
        "notify_file_provider_materialize"@,
        "auth_file_provider_update"@,
        "notify_file_provider_update"@,
        "auth_readlink"@,
        "notify_readlink"@,
        "auth_truncate"@,
        "notify_truncate"@,
        "auth_link"@,
        "notify_lookup"@,
        "auth_create"@,
        "auth_setattrlist"@,
        "auth_setextattr"@,
        "auth_setflags"@,
        "auth_setmode"@,
        "auth_setowner"@,
        "auth_chdir"@,
        "notify_chdir"@,
        "auth_getattrlist"@,
        "notify_getattrlist"@,
        "notify_stat"@,
        "notify_access"@,
        "auth_chroot"@,
        "notify_chroot"@,
        "auth_utimes"@,
        "notify_utimes"@,
        "auth_clone"@,
        "notify_clone"@,
        "notify_fcntl"@,
        "auth_getextattr"@,
        "notify_getextattr"@,
        "auth_listextattr"@,
        "notify_listextattr"@,
        "auth_readdir"@,
        "notify_readdir"@,
        "auth_deleteextattr"@,
        "notify_deleteextattr"@,
        "auth_fsgetpath"@,
        "notify_fsgetpath"@,
        "notify_dup"@,
        "auth_settime"@,
        "notify_settime"@,
        "notify_uipc_bind"@,
        "auth_uipc_bind"@,
        "notify_uipc_connect"@,
        "auth_uipc_connect"@,
        "auth_exchangedata"@,
        "auth_setacl"@,
        "notify_setacl"@,
        "notify_pty_grant"@,
        "notify_pty_close"@,
        "auth_proc_check"@,
        "notify_proc_check"@,
        "auth_get_task"@,
        "auth_searchfs"@,
        "notify_searchfs"@,
        "auth_fcntl"@,
        "auth_iokit_open"@,
        "auth_proc_suspend_resume"@,
        "notify_proc_suspend_resume"@,
        "notify_cs_invalidated"@,
        "notify_get_task_name"@,
        "notify_trace"@,
        "notify_remote_thread_create"@,
    ]
}

/// Subscription codes are Apple's values: the constant at an event name's
/// code is that name's own spelling, and a code maps back to a name only
/// where Apple's constant at that value spells it.
pub proof fn lemma_codes_follow_apple_order(n: EsEventName, ty: u32)
    ensures
        apple_event_types().len() == 98,
        es_type_code(n) < 98,
        apple_event_types()[es_type_code(n) as int] == n.name_text(),
        es_type_name(ty) matches Some(t) ==> ty < 98 && apple_event_types()[ty as int] == t,
{
}

fn es_event_name_to_type(name: EsEventName) -> (r: Result<u32, EsfError>)
    ensures
        r == Ok::<u32, EsfError>(es_type_code(name)),
{
    let ty: u32 = match name {
        EsEventName::NotifyExec => 9,
        EsEventName::NotifyFork => 11,
        EsEventName::NotifyExit => 15,
        EsEventName::NotifyRemoteThreadCreate => 97,
        EsEventName::NotifyGetTask => 16,
        EsEventName::AuthExec => 0,
        EsEventName::NotifyCreate => 13,
        EsEventName::NotifyWrite => 33,
        EsEventName::NotifyUnlink => 32,
        EsEventName::NotifyRename => 25,
        EsEventName::NotifyOpen => 10,
        EsEventName::NotifyClose => 12,
        EsEventName::AuthOpen => 1,
        EsEventName::NotifyUipcBind => 76,
        EsEventName::NotifyUipcConnect => 78,
    };
    Ok(ty)
}

/// The `es_event_type_t` codes to subscribe to, one per name, in order.
pub fn event_names_to_es_types(names: &[EsEventName]) -> (r: Result<Vec<u32>, EsfError>)
    ensures
        r matches Ok(v) && v@ == names@.map_values(|n: EsEventName| es_type_code(n)),
{
    let mut out: Vec<u32> = Vec::new();
    let n = names.len();
    let mut i: usize = 0;
    while i < n
        invariant
            n == names@.len(),
            i <= n,
            out@ == names@.take(i as int).map_values(|x: EsEventName| es_type_code(x)),
        decreases n - i,
    {
        match es_event_name_to_type(names[i]) {
            Ok(ty) => out.push(ty),
            Err(e) => return Err(e),
        }
        assert(out@ =~= names@.take(i + 1).map_values(|x: EsEventName| es_type_code(x)));
        i = i + 1;
    }
    assert(names@.take(n as int) =~= names@);
    Ok(out)
}

/// Map an `es_event_type_t` code back to its registry name, if modelled.
pub fn es_type_to_event_name(ty: u32) -> (r: Option<&'static str>)
    ensures
        match es_type_name(ty) {
            Some(t) => r matches Some(x) && x@ == t,
            None => r is None,
        },
{
    match ty {
        0 => Some("auth_exec"),
        1 => Some("auth_open"),
        9 => Some("notify_exec"),
        10 => Some("notify_open"),
        11 => Some("notify_fork"),
        12 => Some("notify_close"),
        13 => Some("notify_create"),
        15 => Some("notify_exit"),
        16 => Some("notify_get_task"),
        25 => Some("notify_rename"),
        32 => Some("notify_unlink"),
        33 => Some("notify_write"),
        76 => Some("notify_uipc_bind"),
        78 => Some("notify_uipc_connect"),
        97 => Some("notify_remote_thread_create"),
        _ => None,
    }
}

/// Subscribing by name and mapping the code back gives the same name, and
/// distinct names have distinct codes.
pub proof fn lemma_es_type_roundtrip(n: EsEventName, m: EsEventName)
    ensures
        es_type_name(es_type_code(n)) == Some(n.name_text()),
        es_type_code(n) == es_type_code(m) ==> n == m,
{
}


// ---------------------------------------------------------------------------
// Messages as plain values.
// ---------------------------------------------------------------------------

/// What normalisation reads of an `es_process_t`.
#[derive(Debug, Clone, PartialEq, Eq)]
pub struct EsProcess {
    /// The audit token, hex-encoded as the bindings print it.
    pub audit_token_hex: String,
    /// PID from the audit token.
    pub pid: i32,
    /// Effective UID from the audit token.
    pub euid: u32,
    /// Effective GID from the audit token.
    pub egid: u32,
    /// Real UID from the audit token.
    pub ruid: u32,
    /// Real GID from the audit token.
    pub rgid: u32,
    /// Path of the executable image.
    pub executable_path: String,
    /// Signing identifier (empty when unsigned).
    pub signing_id: String,
    /// Team identifier (empty when none).
    pub team_id: String,
    /// Code directory hash bytes.
    pub cdhash: Vec<u8>,
    /// Parent PID.
    pub ppid: i32,
    /// Session ID.
    pub session_id: i32,
    /// Whether the binary is a platform binary.
    pub is_platform_binary: bool,
    /// Parent audit token (hex), when the message carries it.
    pub parent_audit_token_hex: Option<String>,
}

/// What normalisation reads of an `es_file_t` and its `stat`.
#[derive(Debug, Clone, PartialEq, Eq)]
pub struct EsFile {
    /// The file's path.
    pub path: String,
    /// Whether the path was truncated.
    pub path_truncated: bool,
    /// `st_ino`.
    pub inode: u64,
    /// `st_mode`.
    pub mode: u32,
    /// `st_uid`.
    pub uid: u32,
    /// `st_gid`.
    pub gid: u32,
}

/// Destination of a create event.
#[derive(Debug, Clone, PartialEq, Eq)]
pub enum EsCreateDestination {
    /// The file already existed.
    ExistingFile(EsFile),
    /// A new path under a directory.
    NewPath {
        /// Containing directory.
        directory: EsFile,
        /// Name within the directory.
        filename: String,
        /// Requested mode.
        mode: u32,
    },
}

/// Destination of a rename event.
#[derive(Debug, Clone, PartialEq, Eq)]
pub enum EsRenameDestination {
    /// An existing file is replaced.
    ExistingFile(EsFile),
    /// A new path under a directory.
    NewPath {
        /// Containing directory.
        directory: EsFile,
        /// Name within the directory.
        filename: String,
    },
}

/// The event payload of a message, for the event types modelled.
#[derive(Debug, Clone, PartialEq, Eq)]
pub enum EsEvent {
    /// Exec of a new image.
    NotifyExec {
        /// The process after exec.
        target: EsProcess,
        /// Its argv.
        args: Vec<String>,
    },
    /// Fork.
    NotifyFork {
        /// The child process.
        child: EsProcess,
    },
    /// Exit.
    NotifyExit {
        /// Exit status.
        stat: i32,
    },
    /// Remote thread creation; recorded on the instigator alone.
    NotifyRemoteThreadCreate {
        /// Process the thread was created in.
        target: EsProcess,
    },
    /// Task port access; recorded on the instigator alone.
    NotifyGetTask {
        /// Process whose task port was taken.
        target: EsProcess,
    },
    /// File creation; no destination when the bindings give none.
    NotifyCreate {
        /// Where the file was created.
        destination: Option<EsCreateDestination>,
    },
    /// File write.
    NotifyWrite {
        /// File written.
        target: EsFile,
    },
    /// File unlink.
    NotifyUnlink {
        /// File removed.
        target: EsFile,
    },
    /// File rename.
    NotifyRename {
        /// File renamed.
        source: EsFile,
        /// Where it went; none when the bindings give none.
        destination: Option<EsRenameDestination>,
    },
    /// File open.
    NotifyOpen {
        /// File opened.
        file: EsFile,
    },
    /// File close.
    NotifyClose {
        /// File closed.
        target: EsFile,
    },
    /// UNIX socket bind.
    NotifyUipcBind {
        /// Directory of the socket.
        dir: EsFile,
        /// Socket file name.
        filename: String,
        /// Socket mode.
        mode: u32,
    },
    /// UNIX socket connect.
    NotifyUipcConnect {
        /// The socket file.
        file: EsFile,
    },
    /// Any other event type.
    Other,
}

/// What normalisation reads of an `es_message_t`.
#[derive(Debug, Clone, PartialEq, Eq)]
pub struct EsMessage {
    /// The `es_event_type_t` code.
    pub event_type: u32,
    /// The event type as the bindings print it in diagnostics.
    pub event_type_label: String,
    /// Message time since the Unix epoch (seconds, sub-second nanoseconds);
    /// none when it lies before the epoch.
    pub time_since_epoch: Option<(u64, u32)>,
    /// The instigating process.
    pub process: EsProcess,
    /// The event payload; none when the bindings do not know the event.
    pub event: Option<EsEvent>,
}

// ---------------------------------------------------------------------------
// What normalisation produces, stated over views.
// ---------------------------------------------------------------------------

/// Message time in Unix nanoseconds: seconds beyond `i64` count as zero,
/// and multiplication and addition saturate at `i64::MAX`.
pub open spec fn time_ns(t: Option<(u64, u32)>) -> i64 {
    match t {
        None => 0,
        Some((secs, nanos)) => {
            let s: int = if secs <= i64::MAX {
                secs as int
            } else {
                0
            };
            let p: int = if s * 1_000_000_000 > i64::MAX {
                i64::MAX as int
            } else {
                s * 1_000_000_000
            };
            if p + nanos > i64::MAX {
                i64::MAX
            } else {
                (p + nanos) as i64
            }
        },
    }
}

/// Some(text) unless the text is empty.
pub open spec fn nonempty_text(s: Seq<char>) -> Option<Seq<char>> {
    if s.len() == 0 {
        None
    } else {
        Some(s)
    }
}

/// The code directory hash as hex, unless it is all zero.
pub open spec fn cdhash_text(bs: Seq<u8>) -> Option<Seq<char>> {
    if forall|i: int| 0 <= i < bs.len() ==> #[trigger] bs[i] == 0 {
        None
    } else {
        Some(bytes_hex(bs))
    }
}

/// The process node for an ESF process, with argv (for an exec target) and
/// exit status (for an exit) when known.
pub open spec fn process_view(p: EsProcess, args: Option<Seq<Seq<char>>>, exit: Option<i32>) -> ProcessNodeView {
    ProcessNodeView {
        audit_token_hex: p.audit_token_hex@,
        pid: p.pid,
        path: p.executable_path@,
        signing_id: nonempty_text(p.signing_id@),
        team_id: nonempty_text(p.team_id@),
        cdhash: cdhash_text(p.cdhash@),
        ppid: Some(p.ppid),
        euid: Some(p.euid),
        egid: Some(p.egid),
        ruid: Some(p.ruid),
        rgid: Some(p.rgid),
        session_id: Some(p.session_id),
        is_platform_binary: Some(p.is_platform_binary),
        parent_audit_token_hex: opt_text(p.parent_audit_token_hex),
        args_json: match args {
            Some(a) => Some(json_string_array(a)),
            None => None,
        },
        exit_status: exit,
    }
}

/// The file node for an ESF file.
pub open spec fn file_view(f: EsFile) -> FileNodeView {
    FileNodeView {
        path: f.path@,
        inode: Some(f.inode),
        mode: Some(f.mode),
        owner_uid: Some(f.uid),
        owner_gid: Some(f.gid),
        path_truncated: f.path_truncated,
    }
}

/// Details with only the instigator's fields set.
pub open spec fn instigator_view(p: EsProcess) -> EventDetailsView {
    EventDetailsView {
        instigator_pid: Some(p.pid),
        instigator_euid: Some(p.euid),
        instigator_egid: Some(p.egid),
        instigator_path: Some(p.executable_path@),
        instigator_audit_token_hex: Some(p.audit_token_hex@),
        target_audit_token_hex: None,
        target_path: None,
        exec_args: None,
        exit_status: None,
        file_mode: None,
        file_inode: None,
        file_owner_uid: None,
        file_owner_gid: None,
        path_truncated: None,
    }
}

/// Details `d` with the file fields replaced by those of `f`.
pub open spec fn with_file_fields(
    d: EventDetailsView,
    mode: Option<u32>,
    inode: Option<u64>,
    uid: Option<u32>,
    gid: Option<u32>,
    truncated: Option<bool>,
) -> EventDetailsView {
    EventDetailsView {
        file_mode: mode,
        file_inode: inode,
        file_owner_uid: uid,
        file_owner_gid: gid,
        path_truncated: truncated,
        ..d
    }
}

/// The instigator's details with the stat fields of a file.
pub open spec fn file_details_view(p: EsProcess, f: EsFile) -> EventDetailsView {
    with_file_fields(
        instigator_view(p),
        Some(f.mode),
        Some(f.inode),
        Some(f.uid),
        Some(f.gid),
        Some(f.path_truncated),
    )
}

/// An edge view.
pub open spec fn edge_view(
    kind: EdgeKind,
    src: Seq<char>,
    src_kind: Seq<char>,
    dst: Seq<char>,
    dst_kind: Seq<char>,
    ts: i64,
    metadata: Option<Seq<char>>,
) -> GraphEdgeView {
    GraphEdgeView {
        kind,
        src_id: src,
        src_kind,
        dst_id: dst,
        dst_kind,
        timestamp_unix_ns: ts,
        metadata,
    }
}

/// `directory/filename`.
pub open spec fn join_path(dir: Seq<char>, name: Seq<char>) -> Seq<char> {
    dir + "/"@ + name
}

/// Nodes, edges and details of a process-to-process event.
pub open spec fn process_pair_parts(p: EsProcess, target: EsProcess, kind: EdgeKind, ts: i64) -> (
    Seq<GraphNodeView>,
    Seq<GraphEdgeView>,
    EventDetailsView,
) {
    (
        seq![
            GraphNodeView::Process(process_view(p, None, None)),
            GraphNodeView::Process(process_view(target, None, None)),
        ],
        seq![
            edge_view(
                kind,
                p.audit_token_hex@,
                "process"@,
                target.audit_token_hex@,
                "process"@,
                ts,
                None,
            ),
        ],
        instigator_view(p),
    )
}

/// Nodes, edges and details of an event recorded on the instigator alone:
/// its process node and a self-loop edge.
pub open spec fn self_loop_parts(p: EsProcess, kind: EdgeKind, ts: i64) -> (
    Seq<GraphNodeView>,
    Seq<GraphEdgeView>,
    EventDetailsView,
) {
    (
        seq![GraphNodeView::Process(process_view(p, None, None))],
        seq![
            edge_view(
                kind,
                p.audit_token_hex@,
                "process"@,
                p.audit_token_hex@,
                "process"@,
                ts,
                None,
            ),
        ],
        instigator_view(p),
    )
}

/// Nodes, edges and details of an event on an existing file.
pub open spec fn file_parts(p: EsProcess, f: EsFile, kind: EdgeKind, ts: i64) -> (
    Seq<GraphNodeView>,
    Seq<GraphEdgeView>,
    EventDetailsView,
) {
    (
        seq![
            GraphNodeView::Process(process_view(p, None, None)),
            GraphNodeView::File(file_view(f)),
        ],
        seq![edge_view(kind, p.audit_token_hex@, "process"@, f.path@, "file"@, ts, None)],
        file_details_view(p, f),
    )
}

/// Nodes, edges and details of an event on a new path.
pub open spec fn path_file_parts(
    p: EsProcess,
    path: Seq<char>,
    mode: Option<u32>,
    kind: EdgeKind,
    ts: i64,
) -> (Seq<GraphNodeView>, Seq<GraphEdgeView>, EventDetailsView) {
    (
        seq![
            GraphNodeView::Process(process_view(p, None, None)),
            GraphNodeView::File(
                FileNodeView {
                    path,
                    inode: None,
                    mode,
                    owner_uid: None,
                    owner_gid: None,
                    path_truncated: false,
                },
            ),
        ],
        seq![edge_view(kind, p.audit_token_hex@, "process"@, path, "file"@, ts, None)],
        with_file_fields(instigator_view(p), mode, None, None, None, None),
    )
}

/// Nodes, edges and details of a socket event.
pub open spec fn socket_parts(
    p: EsProcess,
    path: Seq<char>,
    mode: Option<u32>,
    kind: EdgeKind,
    ts: i64,
) -> (Seq<GraphNodeView>, Seq<GraphEdgeView>, EventDetailsView) {
    (
        seq![GraphNodeView::Process(process_view(p, None, None)), GraphNodeView::Socket(path)],
        seq![edge_view(kind, p.audit_token_hex@, "process"@, path, "socket"@, ts, None)],
        EventDetailsView { file_mode: mode, ..instigator_view(p) },
    )
}

/// Where a rename went, as a path (empty when unknown).
pub open spec fn rename_dest_text(d: Option<EsRenameDestination>) -> Seq<char> {
    match d {
        Some(EsRenameDestination::ExistingFile(f)) => f.path@,
        Some(EsRenameDestination::NewPath { directory, filename }) => join_path(
            directory.path@,
            filename@,
        ),
        None => seq![],
    }
}

/// Nodes, edges and details of a modelled event; none for the others.
pub open spec fn event_parts(p: EsProcess, ev: EsEvent, ts: i64) -> Option<
    (Seq<GraphNodeView>, Seq<GraphEdgeView>, EventDetailsView),
> {
    match ev {
        EsEvent::NotifyExec { target, args } => Some(
            (
                seq![
                    GraphNodeView::Process(process_view(p, None, None)),
                    GraphNodeView::Process(process_view(target, Some(string_views(args@)), None)),
                ],
                seq![
                    edge_view(
                        EdgeKind::Executed,
                        p.audit_token_hex@,
                        "process"@,
                        target.audit_token_hex@,
                        "process"@,
                        ts,
                        None,
                    ),
                ],
                EventDetailsView {
                    target_path: Some(target.executable_path@),
                    exec_args: Some(string_views(args@)),
                    target_audit_token_hex: Some(target.audit_token_hex@),
                    ..instigator_view(p)
                },
            ),
        ),
        EsEvent::NotifyFork { child } => Some(process_pair_parts(p, child, EdgeKind::Forked, ts)),
        EsEvent::NotifyExit { stat } => Some(
            (
                seq![GraphNodeView::Process(process_view(p, None, Some(stat)))],
                seq![
                    edge_view(
                        EdgeKind::Exited,
                        p.audit_token_hex@,
                        "process"@,
                        p.audit_token_hex@,
                        "process"@,
                        ts,
                        Some("{\"exit_status\":"@ + int_decimal(stat as int) + "}"@),
                    ),
                ],
                EventDetailsView { exit_status: Some(stat), ..instigator_view(p) },
            ),
        ),
        EsEvent::NotifyRemoteThreadCreate { .. } => Some(
            self_loop_parts(p, EdgeKind::RemoteThreadCreated, ts),
        ),
        EsEvent::NotifyGetTask { .. } => Some(self_loop_parts(p, EdgeKind::GotTask, ts)),
        EsEvent::NotifyCreate { destination } => match destination {
            Some(EsCreateDestination::ExistingFile(f)) => Some(
                file_parts(p, f, EdgeKind::Created, ts),
            ),
            Some(EsCreateDestination::NewPath { directory, filename, mode }) => Some(
                path_file_parts(
                    p,
                    join_path(directory.path@, filename@),
                    Some(mode),
                    EdgeKind::Created,
                    ts,
                ),
            ),
            None => None,
        },
        EsEvent::NotifyWrite { target } => Some(file_parts(p, target, EdgeKind::Wrote, ts)),
        EsEvent::NotifyUnlink { target } => Some(file_parts(p, target, EdgeKind::Unlinked, ts)),
        EsEvent::NotifyRename { source, destination } => Some(
            (
                seq![
                    GraphNodeView::Process(process_view(p, None, None)),
                    GraphNodeView::File(file_view(source)),
                ],
                seq![
                    edge_view(
                        EdgeKind::Renamed,
                        p.audit_token_hex@,
                        "process"@,
                        source.path@,
                        "file"@,
                        ts,
                        Some("{\"destination\":\""@ + rename_dest_text(destination) + "\"}"@),
                    ),
                ],
                file_details_view(p, source),
            ),
        ),
        EsEvent::NotifyOpen { file } => Some(file_parts(p, file, EdgeKind::Opened, ts)),
        EsEvent::NotifyClose { target } => Some(file_parts(p, target, EdgeKind::Closed, ts)),
        EsEvent::NotifyUipcBind { dir, filename, mode } => Some(
            socket_parts(
                p,
                join_path(dir.path@, filename@),
                Some(mode),
                EdgeKind::UipcBound,
                ts,
            ),
        ),
        EsEvent::NotifyUipcConnect { file } => Some(
            socket_parts(p, file.path@, None, EdgeKind::UipcConnected, ts),
        ),
        EsEvent::Other => None,
    }
}

/// The normalised form of a message: none for messages without a modelled
/// event, an error message for an event whose type has no registry name.
pub open spec fn spec_normalise(msg: EsMessage) -> Result<Option<NormalisedEventView>, Seq<char>> {
    match msg.event {
        None => Ok(None),
        Some(ev) => match es_type_name(msg.event_type) {
            None => Err("unsupported event type: "@ + msg.event_type_label@),
            Some(name) => {
                let ts = time_ns(msg.time_since_epoch);
                match event_parts(msg.process, ev, ts) {
                    None => Ok(None),
                    Some(parts) => Ok(
                        Some(
                            NormalisedEventView {
                                event_name: name,
                                timestamp_unix_ns: ts,
                                nodes: parts.0,
                                edges: parts.1,
                                details: Some(parts.2),
                                raw_json: None,
                            },
                        ),
                    ),
                }
            },
        },
    }
}


// ---------------------------------------------------------------------------
// Normalisation.
// ---------------------------------------------------------------------------

/// Message time in Unix nanoseconds, saturating at `i64::MAX`.
pub fn unix_time_ns(since_epoch: Option<(u64, u32)>) -> (r: i64)
    ensures
        r == time_ns(since_epoch),
{
    match since_epoch {
        None => 0,
        Some((secs, nanos)) => {
            let s: i64 = if secs <= i64::MAX as u64 {
                secs as i64
            } else {
                0
            };
            let p: i64 = if s > i64::MAX / 1_000_000_000 {
                i64::MAX
            } else {
                s * 1_000_000_000
            };
            assert(s > i64::MAX / 1_000_000_000 <==> s * 1_000_000_000 > i64::MAX) by (nonlinear_arith)
                requires
                    0 <= s,
            ;
            if p > i64::MAX - (nanos as i64) {
                i64::MAX
            } else {
                p + nanos as i64
            }
        },
    }
}

fn cdhash_hex(bs: &Vec<u8>) -> (r: Option<String>)
    ensures
        opt_text(r) == cdhash_text(bs@),
{
    let n = bs.len();
    let mut all_zero = true;
    let mut out = String::new();
    let mut i: usize = 0;
    assert(bs@.take(0) =~= Seq::<u8>::empty());
    while i < n
        invariant
            n == bs@.len(),
            i <= n,
            out@ == bytes_hex(bs@.take(i as int)),
            all_zero == (forall|k: int| 0 <= k < i ==> #[trigger] bs@[k] == 0),
        decreases n - i,
    {
        assert(bs@.take(i + 1).drop_last() =~= bs@.take(i as int));
        if bs[i] != 0 {
            all_zero = false;
        }
        push_byte_hex(&mut out, bs[i]);
        i = i + 1;
    }
    assert(bs@.take(n as int) =~= bs@);
    if all_zero {
        None
    } else {
        Some(out)
    }
}

fn nonempty_string(s: &String) -> (r: Option<String>)
    ensures
        opt_text(r) == nonempty_text(s@),
{
    if s.as_str().is_empty() {
        None
    } else {
        Some(s.clone())
    }
}

fn clone_strings(v: &Vec<String>) -> (r: Vec<String>)
    ensures
        string_views(r@) == string_views(v@),
{
    let mut out: Vec<String> = Vec::new();
    let n = v.len();
    let mut i: usize = 0;
    while i < n
        invariant
            n == v@.len(),
            i <= n,
            out@.len() == i,
            forall|k: int| 0 <= k < i ==> #[trigger] out@[k]@ == v@[k]@,
        decreases n - i,
    {
        out.push(v[i].clone());
        i = i + 1;
    }
    assert(string_views(out@) =~= string_views(v@));
    out
}

fn opt_clone(o: &Option<String>) -> (r: Option<String>)
    ensures
        opt_text(r) == opt_text(*o),
{
    match o {
        Some(s) => Some(s.clone()),
        None => None,
    }
}

fn process_node(p: &EsProcess, exec_args: Option<&Vec<String>>, exit_status: Option<i32>) -> (r: ProcessNode)
    ensures
        r@ == process_view(
            *p,
            match exec_args {
                Some(a) => Some(string_views(a@)),
                None => None,
            },
            exit_status,
        ),
{
    ProcessNode {
        identity: ProcessIdentity { audit_token_hex: p.audit_token_hex.clone(), pid: p.pid },
        path: p.executable_path.clone(),
        signing_id: nonempty_string(&p.signing_id),
        team_id: nonempty_string(&p.team_id),
        cdhash: cdhash_hex(&p.cdhash),
        ppid: Some(p.ppid),
        euid: Some(p.euid),
        egid: Some(p.egid),
        ruid: Some(p.ruid),
        rgid: Some(p.rgid),
        session_id: Some(p.session_id),
        is_platform_binary: Some(p.is_platform_binary),
        parent_audit_token_hex: opt_clone(&p.parent_audit_token_hex),
        args_json: match exec_args {
            Some(a) => Some(json_array_of_strings(a.as_slice())),
            None => None,
        },
        exit_status,
    }
}

fn empty_details() -> (r: EventDetails)
    ensures
        r@ == (EventDetailsView {
            instigator_pid: None,
            instigator_euid: None,
            instigator_egid: None,
            instigator_path: None,
            instigator_audit_token_hex: None,
            target_audit_token_hex: None,
            target_path: None,
            exec_args: None,
            exit_status: None,
            file_mode: None,
            file_inode: None,
            file_owner_uid: None,
            file_owner_gid: None,
            path_truncated: None,
        }),
{
    EventDetails {
        instigator_pid: None,
        instigator_euid: None,
        instigator_egid: None,
        instigator_path: None,
        instigator_audit_token_hex: None,
        target_audit_token_hex: None,
        target_path: None,
        exec_args: None,
        exit_status: None,
        file_mode: None,
        file_inode: None,
        file_owner_uid: None,
        file_owner_gid: None,
        path_truncated: None,
    }
}

fn file_from_esf(f: &EsFile) -> (r: (FileNode, EventDetails))
    ensures
        r.0@ == file_view(*f),
        r.1@ == with_file_fields(
            empty_details_view(),
            Some(f.mode),
            Some(f.inode),
            Some(f.uid),
            Some(f.gid),
            Some(f.path_truncated),
        ),
{
    let file = FileNode {
        path: f.path.clone(),
        inode: Some(f.inode),
        mode: Some(f.mode),
        owner_uid: Some(f.uid),
        owner_gid: Some(f.gid),
        path_truncated: f.path_truncated,
    };
    let mut details = empty_details();
    details.file_mode = file.mode;
    details.file_inode = file.inode;
    details.file_owner_uid = file.owner_uid;
    details.file_owner_gid = file.owner_gid;
    details.path_truncated = Some(file.path_truncated);
    (file, details)
}

/// Details with no field set.
pub open spec fn empty_details_view() -> EventDetailsView {
    EventDetailsView {
        instigator_pid: None,
        instigator_euid: None,
        instigator_egid: None,
        instigator_path: None,
        instigator_audit_token_hex: None,
        target_audit_token_hex: None,
        target_path: None,
        exec_args: None,
        exit_status: None,
        file_mode: None,
        file_inode: None,
        file_owner_uid: None,
        file_owner_gid: None,
        path_truncated: None,
    }
}

fn instigator_details(p: &EsProcess) -> (r: EventDetails)
    ensures
        r@ == instigator_view(*p),
{
    let mut d = empty_details();
    d.instigator_pid = Some(p.pid);
    d.instigator_euid = Some(p.euid);
    d.instigator_egid = Some(p.egid);
    d.instigator_path = Some(p.executable_path.clone());
    d.instigator_audit_token_hex = Some(p.audit_token_hex.clone());
    d
}

fn with_exec(d: EventDetails, target_path: &String, args: &Vec<String>) -> (r: EventDetails)
    ensures
        r@ == (EventDetailsView {
            target_path: Some(target_path@),
            exec_args: Some(string_views(args@)),
            ..d@
        }),
{
    let mut d = d;
    d.target_path = Some(target_path.clone());
    d.exec_args = Some(clone_strings(args));
    d
}

fn with_exit(d: EventDetails, status: i32) -> (r: EventDetails)
    ensures
        r@ == (EventDetailsView { exit_status: Some(status), ..d@ }),
{
    let mut d = d;
    d.exit_status = Some(status);
    d
}

fn merge_file(d: EventDetails, file: &EventDetails) -> (r: EventDetails)
    ensures
        r@ == with_file_fields(
            d@,
            file.file_mode,
            file.file_inode,
            file.file_owner_uid,
            file.file_owner_gid,
            file.path_truncated,
        ),
{
    let mut d = d;
    d.file_mode = file.file_mode;
    d.file_inode = file.file_inode;
    d.file_owner_uid = file.file_owner_uid;
    d.file_owner_gid = file.file_owner_gid;
    d.path_truncated = file.path_truncated;
    d
}

fn join_dir_filename(dir: &EsFile, name: &String) -> (r: String)
    ensures
        r@ == join_path(dir.path@, name@),
{
    let mut path = dir.path.clone();
    path.append("/");
    path.append(name.as_str());
    path
}

fn rename_dest_path(destination: &Option<EsRenameDestination>) -> (r: String)
    ensures
        r@ == rename_dest_text(*destination),
{
    match destination {
        Some(EsRenameDestination::ExistingFile(f)) => f.path.clone(),
        Some(EsRenameDestination::NewPath { directory, filename }) => join_dir_filename(
            directory,
            filename,
        ),
        None => String::new(),
    }
}

fn edge(
    kind: EdgeKind,
    src_id: String,
    src_kind: &str,
    dst_id: String,
    dst_kind: &str,
    ts: i64,
    metadata: Option<String>,
) -> (r: GraphEdge)
    ensures
        r@ == edge_view(kind, src_id@, src_kind@, dst_id@, dst_kind@, ts, opt_text(metadata)),
{
    GraphEdge {
        kind,
        src_id,
        src_kind: String::from_str(src_kind),
        dst_id,
        dst_kind: String::from_str(dst_kind),
        timestamp_unix_ns: ts,
        metadata,
    }
}


/// Views of the nodes, edges and details an event builder returns.
pub open spec fn parts_view(r: (Vec<GraphNode>, Vec<GraphEdge>, EventDetails)) -> (
    Seq<GraphNodeView>,
    Seq<GraphEdgeView>,
    EventDetailsView,
) {
    (r.0@.map_values(|n: GraphNode| n@), r.1@.map_values(|e: GraphEdge| e@), r.2@)
}

fn process_pair_event(p: &EsProcess, target: &EsProcess, kind: EdgeKind, ts: i64) -> (r: (
    Vec<GraphNode>,
    Vec<GraphEdge>,
    EventDetails,
))
    ensures
        parts_view(r) == process_pair_parts(*p, *target, kind, ts),
{
    let parent = process_node(p, None, None);
    let child = process_node(target, None, None);
    let nodes = vec![GraphNode::Process(parent), GraphNode::Process(child)];
    let edges = vec![
        edge(
            kind,
            p.audit_token_hex.clone(),
            "process",
            target.audit_token_hex.clone(),
            "process",
            ts,
            None,
        ),
    ];
    let r = (nodes, edges, instigator_details(p));
    assert(parts_view(r).0 =~= process_pair_parts(*p, *target, kind, ts).0);
    assert(parts_view(r).1 =~= process_pair_parts(*p, *target, kind, ts).1);
    r
}

fn self_loop_event(p: &EsProcess, kind: EdgeKind, ts: i64) -> (r: (
    Vec<GraphNode>,
    Vec<GraphEdge>,
    EventDetails,
))
    ensures
        parts_view(r) == self_loop_parts(*p, kind, ts),
{
    let nodes = vec![GraphNode::Process(process_node(p, None, None))];
    let edges = vec![
        edge(
            kind,
            p.audit_token_hex.clone(),
            "process",
            p.audit_token_hex.clone(),
            "process",
            ts,
            None,
        ),
    ];
    let r = (nodes, edges, instigator_details(p));
    assert(parts_view(r).0 =~= self_loop_parts(*p, kind, ts).0);
    assert(parts_view(r).1 =~= self_loop_parts(*p, kind, ts).1);
    r
}

fn file_event(p: &EsProcess, f: &EsFile, kind: EdgeKind, ts: i64) -> (r: (
    Vec<GraphNode>,
    Vec<GraphEdge>,
    EventDetails,
))
    ensures
        parts_view(r) == file_parts(*p, *f, kind, ts),
{
    let (file_node, file_details) = file_from_esf(f);
    let details = merge_file(instigator_details(p), &file_details);
    let nodes = vec![GraphNode::Process(process_node(p, None, None)), GraphNode::File(file_node)];
    let edges = vec![
        edge(kind, p.audit_token_hex.clone(), "process", f.path.clone(), "file", ts, None),
    ];
    let r = (nodes, edges, details);
    assert(parts_view(r).0 =~= file_parts(*p, *f, kind, ts).0);
    assert(parts_view(r).1 =~= file_parts(*p, *f, kind, ts).1);
    r
}

fn path_file_event(p: &EsProcess, path: String, mode: Option<u32>, kind: EdgeKind, ts: i64) -> (r: (
    Vec<GraphNode>,
    Vec<GraphEdge>,
    EventDetails,
))
    ensures
        parts_view(r) == path_file_parts(*p, path@, mode, kind, ts),
{
    let file = FileNode {
        path: path.clone(),
        inode: None,
        mode,
        owner_uid: None,
        owner_gid: None,
        path_truncated: false,
    };
    let mut file_details = empty_details();
    file_details.file_mode = mode;
    let details = merge_file(instigator_details(p), &file_details);
    let nodes = vec![GraphNode::Process(process_node(p, None, None)), GraphNode::File(file)];
    let edges = vec![edge(kind, p.audit_token_hex.clone(), "process", path, "file", ts, None)];
    let r = (nodes, edges, details);
    assert(parts_view(r).0 =~= path_file_parts(*p, path@, mode, kind, ts).0);
    assert(parts_view(r).1 =~= path_file_parts(*p, path@, mode, kind, ts).1);
    r
}

fn socket_path_event(
    p: &EsProcess,
    path: String,
    socket_mode: Option<u32>,
    kind: EdgeKind,
    ts: i64,
) -> (r: (Vec<GraphNode>, Vec<GraphEdge>, EventDetails))
    ensures
        parts_view(r) == socket_parts(*p, path@, socket_mode, kind, ts),
{
    let mut details = instigator_details(p);
    details.file_mode = socket_mode;
    let nodes = vec![
        GraphNode::Process(process_node(p, None, None)),
        GraphNode::Socket(SocketNode { path: path.clone() }),
    ];
    let edges = vec![edge(kind, p.audit_token_hex.clone(), "process", path, "socket", ts, None)];
    let r = (nodes, edges, details);
    assert(parts_view(r).0 =~= socket_parts(*p, path@, socket_mode, kind, ts).0);
    assert(parts_view(r).1 =~= socket_parts(*p, path@, socket_mode, kind, ts).1);
    r
}

fn socket_event(p: &EsProcess, f: &EsFile, kind: EdgeKind, ts: i64) -> (r: (
    Vec<GraphNode>,
    Vec<GraphEdge>,
    EventDetails,
))
    ensures
        parts_view(r) == socket_parts(*p, f.path@, None, kind, ts),
{
    socket_path_event(p, f.path.clone(), None, kind, ts)
}

fn exec_event(p: &EsProcess, target: &EsProcess, args: &Vec<String>, ts: i64) -> (r: (
    Vec<GraphNode>,
    Vec<GraphEdge>,
    EventDetails,
))
    ensures
        Some(parts_view(r)) == event_parts(
            *p,
            EsEvent::NotifyExec { target: *target, args: *args },
            ts,
        ),
{
    let child = process_node(target, Some(args), None);
    let parent = process_node(p, None, None);
    let mut details = with_exec(instigator_details(p), &target.executable_path, args);
    details.target_audit_token_hex = Some(target.audit_token_hex.clone());
    let nodes = vec![GraphNode::Process(parent), GraphNode::Process(child)];
    let edges = vec![
        edge(
            EdgeKind::Executed,
            p.audit_token_hex.clone(),
            "process",
            target.audit_token_hex.clone(),
            "process",
            ts,
            None,
        ),
    ];
    let r = (nodes, edges, details);
    let ghost want = event_parts(*p, EsEvent::NotifyExec { target: *target, args: *args }, ts);
    assert(parts_view(r).0 =~= want.unwrap().0);
    assert(parts_view(r).1 =~= want.unwrap().1);
    r
}

fn exit_event(p: &EsProcess, stat: i32, ts: i64) -> (r: (
    Vec<GraphNode>,
    Vec<GraphEdge>,
    EventDetails,
))
    ensures
        Some(parts_view(r)) == event_parts(*p, EsEvent::NotifyExit { stat }, ts),
{
    let proc = process_node(p, None, Some(stat));
    let details = with_exit(instigator_details(p), stat);
    let mut metadata = String::from_str("{\"exit_status\":");
    let status_text = i64_decimal(stat as i64);
    metadata.append(status_text.as_str());
    metadata.append("}");
    let src = proc.identity.audit_token_hex.clone();
    let dst = proc.identity.audit_token_hex.clone();
    let nodes = vec![GraphNode::Process(proc)];
    let edges = vec![edge(EdgeKind::Exited, src, "process", dst, "process", ts, Some(metadata))];
    let r = (nodes, edges, details);
    let ghost want = event_parts(*p, EsEvent::NotifyExit { stat }, ts);
    assert(parts_view(r).0 =~= want.unwrap().0);
    assert(parts_view(r).1 =~= want.unwrap().1);
    r
}

fn rename_event(
    p: &EsProcess,
    source: &EsFile,
    destination: &Option<EsRenameDestination>,
    ts: i64,
) -> (r: (Vec<GraphNode>, Vec<GraphEdge>, EventDetails))
    ensures
        Some(parts_view(r)) == event_parts(
            *p,
            EsEvent::NotifyRename { source: *source, destination: *destination },
            ts,
        ),
{
    let (file, file_details) = file_from_esf(source);
    let proc = process_node(p, None, None);
    let dest = rename_dest_path(destination);
    let details = merge_file(instigator_details(p), &file_details);
    let mut metadata = String::from_str("{\"destination\":\"");
    metadata.append(dest.as_str());
    metadata.append("\"}");
    let nodes = vec![GraphNode::Process(proc), GraphNode::File(file)];
    let edges = vec![
        edge(
            EdgeKind::Renamed,
            p.audit_token_hex.clone(),
            "process",
            source.path.clone(),
            "file",
            ts,
            Some(metadata),
        ),
    ];
    let r = (nodes, edges, details);
    let ghost want = event_parts(
        *p,
        EsEvent::NotifyRename { source: *source, destination: *destination },
        ts,
    );
    assert(parts_view(r).0 =~= want.unwrap().0);
    assert(parts_view(r).1 =~= want.unwrap().1);
    r
}

fn event_to_parts(p: &EsProcess, ev: &EsEvent, ts: i64) -> (r: Option<
    (Vec<GraphNode>, Vec<GraphEdge>, EventDetails),
>)
    ensures
        match r {
            Some(parts) => event_parts(*p, *ev, ts) == Some(parts_view(parts)),
            None => event_parts(*p, *ev, ts) is None,
        },
{
    match ev {
        EsEvent::NotifyExec { target, args } => Some(exec_event(p, target, args, ts)),
        EsEvent::NotifyFork { child } => Some(process_pair_event(p, child, EdgeKind::Forked, ts)),
        EsEvent::NotifyExit { stat } => Some(exit_event(p, *stat, ts)),
        EsEvent::NotifyRemoteThreadCreate { .. } => Some(
            self_loop_event(p, EdgeKind::RemoteThreadCreated, ts),
        ),
        EsEvent::NotifyGetTask { .. } => Some(self_loop_event(p, EdgeKind::GotTask, ts)),
        EsEvent::NotifyCreate { destination } => match destination {
            Some(EsCreateDestination::ExistingFile(f)) => Some(
                file_event(p, f, EdgeKind::Created, ts),
            ),
            Some(EsCreateDestination::NewPath { directory, filename, mode }) => Some(
                path_file_event(
                    p,
                    join_dir_filename(directory, filename),
                    Some(*mode),
                    EdgeKind::Created,
                    ts,
                ),
            ),
            None => None,
        },
        EsEvent::NotifyWrite { target } => Some(file_event(p, target, EdgeKind::Wrote, ts)),
        EsEvent::NotifyUnlink { target } => Some(file_event(p, target, EdgeKind::Unlinked, ts)),
        EsEvent::NotifyRename { source, destination } => Some(
            rename_event(p, source, destination, ts),
        ),
        EsEvent::NotifyOpen { file } => Some(file_event(p, file, EdgeKind::Opened, ts)),
        EsEvent::NotifyClose { target } => Some(file_event(p, target, EdgeKind::Closed, ts)),
        EsEvent::NotifyUipcBind { dir, filename, mode } => Some(
            socket_path_event(
                p,
                join_dir_filename(dir, filename),
                Some(*mode),
                EdgeKind::UipcBound,
                ts,
            ),
        ),
        EsEvent::NotifyUipcConnect { file } => Some(
            socket_event(p, file, EdgeKind::UipcConnected, ts),
        ),
        EsEvent::Other => None,
    }
}

/// Convert one message. `Ok(None)` for messages whose event is not modelled
/// (or carries no destination); an error when the event's type code has no
/// registry name.
pub fn normalise_message(msg: &EsMessage) -> (r: Result<Option<NormalisedEvent>, EsfError>)
    ensures
        match spec_normalise(*msg) {
            Ok(None) => r == Ok::<Option<NormalisedEvent>, EsfError>(None),
            Ok(Some(v)) => r matches Ok(Some(e)) && e@ == v,
            Err(m) => r matches Err(EsfError::Normalise(t)) && t@ == m,
        },
{
    let event = match &msg.event {
        None => return Ok(None),
        Some(ev) => ev,
    };
    let event_name = match es_type_to_event_name(msg.event_type) {
        Some(name) => String::from_str(name),
        None => {
            let mut m = String::from_str("unsupported event type: ");
            m.append(msg.event_type_label.as_str());
            return Err(EsfError::Normalise(m));
        },
    };
    let timestamp_unix_ns = unix_time_ns(msg.time_since_epoch);
    let (nodes, edges, details) = match event_to_parts(&msg.process, event, timestamp_unix_ns) {
        Some(parts) => parts,
        None => return Ok(None),
    };
    let details = if details.is_empty() {
        None
    } else {
        Some(details)
    };
    Ok(Some(NormalisedEvent { event_name, timestamp_unix_ns, nodes, edges, details, raw_json: None }))
}

/// An exec is recorded as the instigator (first node) executing the exec
/// target (last node): the child node is built from the target alone (its
/// key, PID, executable path, IDs, parent PID and session) and carries the
/// argv as JSON, while the parent node carries the instigator's identity
/// and path; the edge is `Executed` from parent to child.
pub proof fn lemma_exec_records_target_as_child(msg: EsMessage)
    ensures
        msg.event matches Some(EsEvent::NotifyExec { target, args }) ==> (
        spec_normalise(msg) matches Ok(Some(e)) ==> {
            &&& e.nodes.len() == 2
            &&& e.nodes[0] matches GraphNodeView::Process(parent) && {
                &&& parent.audit_token_hex == msg.process.audit_token_hex@
                &&& parent.pid == msg.process.pid
                &&& parent.path == msg.process.executable_path@
                &&& parent.args_json is None
            }
            &&& e.nodes.last() matches GraphNodeView::Process(child) && {
                &&& child.audit_token_hex == target.audit_token_hex@
                &&& child.pid == target.pid
                &&& child.path == target.executable_path@
                &&& child.euid == Some(target.euid) && child.egid == Some(target.egid)
                &&& child.ruid == Some(target.ruid) && child.rgid == Some(target.rgid)
                &&& child.ppid == Some(target.ppid)
                &&& child.session_id == Some(target.session_id)
                &&& child.is_platform_binary == Some(target.is_platform_binary)
                &&& child.args_json == Some(json_string_array(string_views(args@)))
            }
            &&& e.edges[0].kind == EdgeKind::Executed
            &&& e.edges[0].src_id == msg.process.audit_token_hex@
            &&& e.edges[0].dst_id == target.audit_token_hex@
            &&& e.details matches Some(d) && d.target_path == Some(target.executable_path@)
                && d.exec_args == Some(string_views(args@))
        }),
{
}

/// Shape of every normalised message: one edge, from the first node (the
/// instigating process) to the last node, each endpoint named by its node's
/// key and kind label (so always a process, file or socket, as ingest
/// requires); the edge carries
/// the event's timestamp; the event is named after its type code; and the
/// details are present and name the instigator.
pub proof fn lemma_normalised_event_shape(msg: EsMessage)
    ensures
        spec_normalise(msg) matches Ok(Some(e)) ==> {
            &&& 1 <= e.nodes.len() <= 2
            &&& e.edges.len() == 1
            &&& e.event_name == es_type_name(msg.event_type).unwrap()
            &&& e.timestamp_unix_ns == time_ns(msg.time_since_epoch)
            &&& e.nodes[0] is Process
            &&& node_view_id(e.nodes[0]) == msg.process.audit_token_hex@
            &&& e.edges[0].src_id == node_view_id(e.nodes[0])
            &&& e.edges[0].src_kind == node_view_kind(e.nodes[0])
            &&& e.edges[0].dst_id == node_view_id(e.nodes.last())
            &&& e.edges[0].dst_kind == node_view_kind(e.nodes.last())
            &&& valid_node_kind(e.edges[0].src_kind) && valid_node_kind(e.edges[0].dst_kind)
            &&& e.edges[0].timestamp_unix_ns == e.timestamp_unix_ns
            &&& e.details matches Some(d) && d.instigator_pid == Some(msg.process.pid)
                && d.instigator_path == Some(msg.process.executable_path@)
                && d.instigator_audit_token_hex == Some(msg.process.audit_token_hex@)
        },
{
}


// ---------------------------------------------------------------------------
// Collector set-up decisions.
// ---------------------------------------------------------------------------

/// The pieces of `s` between `.` separators, as `str::split('.')` yields
/// them (an empty text gives one empty piece).
pub open spec fn split_dots(s: Seq<char>) -> Seq<Seq<char>>
    decreases s.len(),
{
    if s.len() == 0 {
        seq![seq![]]
    } else {
        let p = split_dots(s.drop_last());
        if s.last() == '.' {
            p.push(seq![])
        } else {
            p.drop_last().push(p.last().push(s.last()))
        }
    }
}

/// The pieces that parse as `u64`, in order.
pub open spec fn parsed_numbers(pieces: Seq<Seq<char>>) -> Seq<u64>
    decreases pieces.len(),
{
    if pieces.len() == 0 {
        seq![]
    } else {
        let r = parsed_numbers(pieces.drop_last());
        match parse_u64_spec(pieces.last()) {
            Some(v) => r.push(v),
            None => r,
        }
    }
}

/// `(major, minor, patch)` of a product version text such as `14.2.1`:
/// the trimmed text split at dots, the pieces that are not numbers
/// skipped, and 10, 15 and 0 in place of missing parts.
pub open spec fn product_version(s: Seq<char>) -> (u64, u64, u64) {
    let nums = parsed_numbers(split_dots(trim_text(s)));
    (
        if nums.len() > 0 { nums[0] } else { 10 },
        if nums.len() > 1 { nums[1] } else { 15 },
        if nums.len() > 2 { nums[2] } else { 0 },
    )
}

/// `s` holds no `.`.
pub open spec fn dot_free(s: Seq<char>) -> bool {
    forall|i: int| 0 <= i < s.len() ==> #[trigger] s[i] != '.'
}

proof fn lemma_split_dot_free(y: Seq<char>)
    requires
        dot_free(y),
    ensures
        split_dots(y) == seq![y],
    decreases y.len(),
{
    if y.len() > 0 {
        assert(dot_free(y.drop_last())) by {
            assert forall|i: int| 0 <= i < y.drop_last().len() implies #[trigger] y.drop_last()[i]
                != '.' by {
                assert(y.drop_last()[i] == y[i]);
            }
        }
        lemma_split_dot_free(y.drop_last());
        assert(y[y.len() - 1] != '.');
        assert(y.drop_last().push(y.last()) =~= y);
        assert(split_dots(y) =~= seq![y]);
    } else {
        assert(y =~= Seq::<char>::empty());
        assert(split_dots(y) =~= seq![y]);
    }
}

proof fn lemma_split_after_dot(x: Seq<char>, y: Seq<char>)
    requires
        dot_free(y),
    ensures
        split_dots(x + seq!['.'] + y) == split_dots(x).push(y),
    decreases y.len(),
{
    let z = x + seq!['.'] + y;
    if y.len() == 0 {
        assert(z.drop_last() =~= x);
        assert(z.last() == '.');
        assert(y =~= Seq::<char>::empty());
        assert(split_dots(z) == split_dots(z.drop_last()).push(seq![]));
        assert(split_dots(z) =~= split_dots(x).push(y));
    } else {
        assert(dot_free(y.drop_last())) by {
            assert forall|i: int| 0 <= i < y.drop_last().len() implies #[trigger] y.drop_last()[i]
                != '.' by {
                assert(y.drop_last()[i] == y[i]);
            }
        }
        assert(y[y.len() - 1] != '.');
        lemma_split_after_dot(x, y.drop_last());
        assert(z.drop_last() =~= x + seq!['.'] + y.drop_last());
        assert(z.last() == y.last());
        assert(y.drop_last().push(y.last()) =~= y);
        assert(split_dots(z) =~= split_dots(x).push(y));
    }
}

proof fn lemma_digits_not_special(s: Seq<char>)
    requires
        all_digits(s),
    ensures
        dot_free(s),
        forall|i: int| 0 <= i < s.len() ==> !is_unicode_whitespace(#[trigger] s[i]),
{
    assert forall|i: int| 0 <= i < s.len() implies !is_unicode_whitespace(#[trigger] s[i]) by {
        assert(is_digit(s[i]));
    }
    assert forall|i: int| 0 <= i < s.len() implies #[trigger] s[i] != '.' by {
        assert(is_digit(s[i]));
    }
}

/// When every piece is a number, every piece counts, in order, zeros
/// included.
pub proof fn lemma_parsed_numbers_keeps_numbers(pieces: Seq<Seq<char>>)
    requires
        forall|i: int| 0 <= i < pieces.len() ==> #[trigger] parse_u64_spec(pieces[i]) is Some,
    ensures
        parsed_numbers(pieces).len() == pieces.len(),
        forall|i: int|
            0 <= i < pieces.len() ==> Some(#[trigger] parsed_numbers(pieces)[i]) == parse_u64_spec(
                pieces[i],
            ),
    decreases pieces.len(),
{
    if pieces.len() > 0 {
        let pre = pieces.drop_last();
        assert forall|i: int| 0 <= i < pre.len() implies #[trigger] parse_u64_spec(pre[i]) is Some by {
            assert(pre[i] == pieces[i]);
        }
        lemma_parsed_numbers_keeps_numbers(pre);
        assert(parse_u64_spec(pieces[pieces.len() - 1]) is Some);
        assert forall|i: int| 0 <= i < pieces.len() implies Some(
            #[trigger] parsed_numbers(pieces)[i],
        ) == parse_u64_spec(pieces[i]) by {
            if i < pieces.len() - 1 {
                assert(pre[i] == pieces[i]);
                assert(parsed_numbers(pieces)[i] == parsed_numbers(pre)[i]);
            }
        }
    }
}

/// A version written as three decimal numbers joined by dots reads back as
/// those numbers, zeros included.
pub proof fn lemma_product_version_reads_numbers(a: u64, b: u64, c: u64)
    ensures
        product_version(
            nat_decimal(a as nat) + seq!['.'] + nat_decimal(b as nat) + seq!['.'] + nat_decimal(
                c as nat,
            ),
        ) == (a, b, c),
{
    let da = nat_decimal(a as nat);
    let db = nat_decimal(b as nat);
    let dc = nat_decimal(c as nat);
    lemma_nat_decimal_digits(a as nat);
    lemma_nat_decimal_digits(b as nat);
    lemma_nat_decimal_digits(c as nat);
    lemma_decimal_roundtrip(a);
    lemma_decimal_roundtrip(b);
    lemma_decimal_roundtrip(c);
    lemma_digits_not_special(da);
    lemma_digits_not_special(db);
    lemma_digits_not_special(dc);
    let x = da + seq!['.'] + db;
    let s = x + seq!['.'] + dc;
    // No whitespace at either end, so trimming keeps the text.
    assert(s[0] == da[0]);
    assert(s.last() == dc.last());
    assert(!is_unicode_whitespace(s[0]));
    assert(!is_unicode_whitespace(s.last()));
    assert(trim_start_text(s) == s);
    assert(trim_end_text(s) == s);
    assert(trim_text(s) == s);
    // Three pieces.
    lemma_split_dot_free(da);
    lemma_split_after_dot(da, db);
    lemma_split_after_dot(x, dc);
    let pieces = split_dots(s);
    assert(pieces =~= seq![da, db, dc]);
    assert(pieces.drop_last() =~= seq![da, db]);
    assert(pieces.drop_last().drop_last() =~= seq![da]);
    assert(pieces.drop_last().drop_last().drop_last() =~= Seq::<Seq<char>>::empty());
    let nums = parsed_numbers(pieces);
    assert(seq![da].drop_last() =~= Seq::<Seq<char>>::empty());
    assert(seq![da].last() == da);
    assert(parse_u64_spec(da) == Some(a));
    assert(parsed_numbers(seq![da].drop_last()) =~= Seq::<u64>::empty());
    assert(parsed_numbers(seq![da]) =~= seq![a]);
    assert(parsed_numbers(seq![da, db]) =~= seq![a, b]);
    assert(nums =~= seq![a, b, c]);
}

/// The runtime version to report to the Endpoint Security bindings, from
/// the text that `sw_vers -productVersion` printed.
pub fn parse_product_version(version: &str) -> (r: (u64, u64, u64))
    ensures
        r == product_version(version@),
{
    let t = trimmed_chars(version);
    let n = t.len();
    let mut nums: Vec<u64> = Vec::new();
    let mut cur = String::new();
    let ghost mut done: Seq<Seq<char>> = seq![];
    let mut i: usize = 0;
    assert(t@.take(0) =~= Seq::<char>::empty());
    assert(split_dots(t@.take(0)) =~= done.push(cur@));
    while i < n
        invariant
            n == t@.len(),
            t@ == trim_text(version@),
            i <= n,
            split_dots(t@.take(i as int)) == done.push(cur@),
            nums@ == parsed_numbers(done),
        decreases n - i,
    {
        let c = t[i];
        assert(t@.take(i + 1).drop_last() =~= t@.take(i as int));
        assert(t@.take(i + 1).last() == c);
        if c == '.' {
            let parsed = parse_u64(cur.as_str());
            match parsed {
                Some(v) => nums.push(v),
                None => {},
            }
            proof {
                assert(done.push(cur@).drop_last() =~= done);
                done = done.push(cur@);
            }
            cur = String::new();
            assert(split_dots(t@.take(i + 1)) =~= done.push(cur@));
        } else {
            let ghost before = cur@;
            push_char(&mut cur, c);
            assert(split_dots(t@.take(i + 1)) =~= done.push(cur@)) by {
                assert(done.push(before).drop_last() =~= done);
            }
        }
        i = i + 1;
    }
    let parsed = parse_u64(cur.as_str());
    match parsed {
        Some(v) => nums.push(v),
        None => {},
    }
    proof {
        assert(done.push(cur@).drop_last() =~= done);
        assert(t@.take(n as int) =~= t@);
    }
    let major = if nums.len() > 0 {
        nums[0]
    } else {
        10
    };
    let minor = if nums.len() > 1 {
        nums[1]
    } else {
        15
    };
    let patch = if nums.len() > 2 {
        nums[2]
    } else {
        0
    };
    (major, minor, patch)
}

/// The client-creation error text with a remedy appended for the failures
/// an operator can fix: a missing entitlement, missing Full Disk Access, or
/// missing root privileges.
pub open spec fn client_error_text(msg: Seq<char>) -> Seq<char> {
    if contains_text(msg, "NOT_ENTITLED"@) || contains_text(msg, "NotEntitled"@) {
        msg
            + "\nhint: embed com.apple.developer.endpoint-security.client and ad-hoc sign (see docs/vm-setup.md)"@
    } else if contains_text(msg, "NOT_PERMITTED"@) || contains_text(msg, "NotPermitted"@) {
        msg + "\nhint: grant Full Disk Access to esgraphd and Terminal in System Settings"@
    } else if contains_text(msg, "NOT_PRIVILEGED"@) || contains_text(msg, "NotPrivileged"@) {
        msg + "\nhint: run with sudo"@
    } else {
        msg
    }
}

/// The text reported when the client cannot be created, from the text of
/// the bindings' error.
pub fn format_client_error(msg: &str) -> (r: String)
    ensures
        r@ == client_error_text(msg@),
{
    let mut out = String::from_str(msg);
    if str_contains(msg, "NOT_ENTITLED") || str_contains(msg, "NotEntitled") {
        out.append(
            "\nhint: embed com.apple.developer.endpoint-security.client and ad-hoc sign (see docs/vm-setup.md)",
        );
    } else if str_contains(msg, "NOT_PERMITTED") || str_contains(msg, "NotPermitted") {
        out.append("\nhint: grant Full Disk Access to esgraphd and Terminal in System Settings");
    } else if str_contains(msg, "NOT_PRIVILEGED") || str_contains(msg, "NotPrivileged") {
        out.append("\nhint: run with sudo");
    }
    out
}

/// The path prefixes to mute: the configured ones, then the store's own
/// directory unless it is already listed.
pub open spec fn mute_list(paths: Seq<Seq<char>>, store_prefix: Option<Seq<char>>) -> Seq<Seq<char>> {
    match store_prefix {
        Some(p) => if paths.contains(p) {
            paths
        } else {
            paths.push(p)
        },
        None => paths,
    }
}

/// The path prefixes to mute at the source, given the configured prefixes
/// and the store directory's prefix (when it has one).
pub fn mute_prefixes(paths: &Vec<String>, store_prefix: Option<String>) -> (r: Vec<String>)
    ensures
        string_views(r@) == mute_list(string_views(paths@), opt_text(store_prefix)),
{
    let mut muted = clone_strings(paths);
    if let Some(prefix) = store_prefix {
        let n = muted.len();
        let mut found = false;
        let mut i: usize = 0;
        while i < n
            invariant
                n == muted@.len(),
                string_views(muted@) == string_views(paths@),
                i <= n,
                found == (exists|k: int| 0 <= k < i && #[trigger] muted@[k]@ == prefix@),
            decreases n - i,
        {
            if str_eq(muted[i].as_str(), prefix.as_str()) {
                found = true;
            }
            i = i + 1;
        }
        proof {
            let sv = string_views(paths@);
            if found {
                let k = choose|k: int| 0 <= k < n && #[trigger] muted@[k]@ == prefix@;
                assert(sv[k] == prefix@);
            } else {
                assert forall|k: int| 0 <= k < sv.len() implies sv[k] != prefix@ by {
                    assert(sv[k] == muted@[k]@);
                }
            }
        }
        if !found {
            muted.push(prefix);
            assert(string_views(muted@) =~= string_views(paths@).push(prefix@));
        }
    }
    muted
}

/// The event type codes a configuration subscribes to, in resolution order;
/// a configuration naming an unknown event is a subscription error.
pub fn subscription_types(config: &Config) -> (r: Result<Vec<u32>, EsfError>)
    ensures
        match resolve_event_names(raw_event_names(*config)) {
            Ok(ns) => r matches Ok(v) && v@ == ns.map_values(|n: EsEventName| es_type_code(n)),
            Err(bad) => r matches Err(EsfError::Subscription(m)) && m@ == "invalid config: "@
                + unknown_event_message(bad),
        },
{
    let names = match config.resolved_event_names() {
        Ok(ns) => ns,
        Err(e) => return Err(EsfError::Subscription(e.to_string())),
    };
    event_names_to_es_types(names.as_slice())
}

} // verus!
