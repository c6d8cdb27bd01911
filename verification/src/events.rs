//! Registry of Endpoint Security event names.
//!
//! Configuration names event types in snake_case (`notify_exec`); this module
//! maps those names to [`EsEventName`] and back, and records which types are
//! synchronous AUTH events.

use vstd::prelude::*;
use crate::error::ConfigError;
use crate::text::{join, join_strs, str_eq, str_views};

verus! {

/// High-level grouping used in configuration (`[events].process`, etc.).
#[derive(Debug, Clone, Copy, PartialEq, Eq, Hash, Structural)]
pub enum EsEventCategory {
    /// Process lifecycle and task-port events.
    Process,
    /// File and filesystem events.
    File,
    /// UNIX-domain socket events.
    Network,
}

/// Human-readable name for a single Endpoint Security event type.
#[derive(Debug, Clone, Copy, PartialEq, Eq, Hash, Structural)]
pub enum EsEventName {
    /// A new process image is about to run.
    NotifyExec,
    /// A process forked a child.
    NotifyFork,
    /// A process is exiting.
    NotifyExit,
    /// Remote thread creation in another process.
    NotifyRemoteThreadCreate,
    /// Task port access.
    NotifyGetTask,
    /// Block/allow exec (synchronous).
    AuthExec,
    /// File created.
    NotifyCreate,
    /// File written.
    NotifyWrite,
    /// File deleted.
    NotifyUnlink,
    /// File renamed.
    NotifyRename,
    /// File opened (very high volume on desktop systems).
    NotifyOpen,
    /// File closed.
    NotifyClose,
    /// Block/allow file open (synchronous).
    AuthOpen,
    /// UNIX domain socket bind.
    NotifyUipcBind,
    /// UNIX domain socket connect.
    NotifyUipcConnect,
}

/// Every event name, in registry order.
pub open spec fn all_event_names() -> Seq<EsEventName> {
    seq![
        EsEventName::NotifyExec,
        EsEventName::NotifyFork,
        EsEventName::NotifyExit,
        EsEventName::NotifyRemoteThreadCreate,
        EsEventName::NotifyGetTask,
        EsEventName::AuthExec,
        EsEventName::NotifyCreate,
        EsEventName::NotifyWrite,
        EsEventName::NotifyUnlink,
        EsEventName::NotifyRename,
        EsEventName::NotifyOpen,
        EsEventName::NotifyClose,
        EsEventName::AuthOpen,
        EsEventName::NotifyUipcBind,
        EsEventName::NotifyUipcConnect,
    ]
}

/// The configuration spelling of every event name, in registry order.
pub open spec fn all_name_texts() -> Seq<Seq<char>> {
    all_event_names().map_values(|n: EsEventName| n.name_text())
}

/// The message given for a configured name that is not in the registry.
pub open spec fn unknown_event_message(s: Seq<char>) -> Seq<char> {
    "unknown ESF event name '"@ + s + "'; valid names: "@ + join(all_name_texts(), ", "@)
}

/// The default NOTIFY-only subscription set.
pub open spec fn default_subscription_names() -> Seq<EsEventName> {
    seq![
        EsEventName::NotifyExec,
        EsEventName::NotifyFork,
        EsEventName::NotifyExit,
        EsEventName::NotifyCreate,
        EsEventName::NotifyWrite,
        EsEventName::NotifyUnlink,
        EsEventName::NotifyRename,
        EsEventName::NotifyUipcBind,
        EsEventName::NotifyUipcConnect,
    ]
}

impl EsEventName {
    /// The snake_case spelling used in configuration.
    pub open spec fn name_text(self) -> Seq<char> {
        match self {
            EsEventName::NotifyExec => "notify_exec"@,
            EsEventName::NotifyFork => "notify_fork"@,
            EsEventName::NotifyExit => "notify_exit"@,
            EsEventName::NotifyRemoteThreadCreate => "notify_remote_thread_create"@,
            EsEventName::NotifyGetTask => "notify_get_task"@,
            EsEventName::AuthExec => "auth_exec"@,
            EsEventName::NotifyCreate => "notify_create"@,
            EsEventName::NotifyWrite => "notify_write"@,
            EsEventName::NotifyUnlink => "notify_unlink"@,
            EsEventName::NotifyRename => "notify_rename"@,
            EsEventName::NotifyOpen => "notify_open"@,
            EsEventName::NotifyClose => "notify_close"@,
            EsEventName::AuthOpen => "auth_open"@,
            EsEventName::NotifyUipcBind => "notify_uipc_bind"@,
            EsEventName::NotifyUipcConnect => "notify_uipc_connect"@,
        }
    }

    /// Whether this is an AUTH (synchronous) event type.
    pub open spec fn is_auth_spec(self) -> bool {
        self == EsEventName::AuthExec || self == EsEventName::AuthOpen
    }

    /// Whether this is an AUTH (synchronous) event type.
    ///
    /// AUTH handlers must respond before the message deadline or the client
    /// may be terminated.
    pub fn is_auth(self) -> (r: bool)
        ensures
            r == self.is_auth_spec(),
    {
        match self {
            EsEventName::AuthExec | EsEventName::AuthOpen => true,
            _ => false,
        }
    }

    /// Default NOTIFY-only subscription set; excludes high-volume `notify_open`.
    pub fn default_subscription_set() -> (r: Vec<Self>)
        ensures
            r@ == default_subscription_names(),
    {
        let r = vec![
            EsEventName::NotifyExec,
            EsEventName::NotifyFork,
            EsEventName::NotifyExit,
            EsEventName::NotifyCreate,
            EsEventName::NotifyWrite,
            EsEventName::NotifyUnlink,
            EsEventName::NotifyRename,
            EsEventName::NotifyUipcBind,
            EsEventName::NotifyUipcConnect,
        ];
        assert(r@ =~= default_subscription_names());
        r
    }

    /// All valid string names, in registry order.
    pub fn all_names() -> (r: &'static [&'static str])
        ensures
            str_views(r@) == all_name_texts(),
    {
        let r: &'static [&'static str] = &[
            "notify_exec",
            "notify_fork",
            "notify_exit",
            "notify_remote_thread_create",
            "notify_get_task",
            "auth_exec",
            "notify_create",
            "notify_write",
            "notify_unlink",
            "notify_rename",
            "notify_open",
            "notify_close",
            "auth_open",
            "notify_uipc_bind",
            "notify_uipc_connect",
        ];
        assert(str_views(r@) =~= all_name_texts());
        r
    }

    /// The configuration spelling, as a string slice.
    pub fn as_str(&self) -> (r: &'static str)
        ensures
            r@ == self.name_text(),
    {
        match self {
            EsEventName::NotifyExec => "notify_exec",
            EsEventName::NotifyFork => "notify_fork",
            EsEventName::NotifyExit => "notify_exit",
            EsEventName::NotifyRemoteThreadCreate => "notify_remote_thread_create",
            EsEventName::NotifyGetTask => "notify_get_task",
            EsEventName::AuthExec => "auth_exec",
            EsEventName::NotifyCreate => "notify_create",
            EsEventName::NotifyWrite => "notify_write",
            EsEventName::NotifyUnlink => "notify_unlink",
            EsEventName::NotifyRename => "notify_rename",
            EsEventName::NotifyOpen => "notify_open",
            EsEventName::NotifyClose => "notify_close",
            EsEventName::AuthOpen => "auth_open",
            EsEventName::NotifyUipcBind => "notify_uipc_bind",
            EsEventName::NotifyUipcConnect => "notify_uipc_connect",
        }
    }

    /// The configuration spelling, as an owned string.
    pub fn to_string(&self) -> (r: String)
        ensures
            r@ == self.name_text(),
    {
        String::from_str(self.as_str())
    }

    /// Parse a configuration spelling; unknown names are a validation error
    /// listing every valid name.
    pub fn parse_name(s: &str) -> (r: Result<EsEventName, ConfigError>)
        ensures
            r matches Ok(n) ==> n.name_text() == s@,
            r is Err <==> (forall|n: EsEventName| #[trigger] n.name_text() != s@),
            r matches Err(e) ==> (e matches ConfigError::Validation(m) && m@
                == unknown_event_message(s@)),
    {
        if str_eq(s, "notify_exec") {
            assert(EsEventName::NotifyExec.name_text() == s@);
            return Ok(EsEventName::NotifyExec);
        }
        if str_eq(s, "notify_fork") {
            assert(EsEventName::NotifyFork.name_text() == s@);
            return Ok(EsEventName::NotifyFork);
        }
        if str_eq(s, "notify_exit") {
            assert(EsEventName::NotifyExit.name_text() == s@);
            return Ok(EsEventName::NotifyExit);
        }
        if str_eq(s, "notify_remote_thread_create") {
            assert(EsEventName::NotifyRemoteThreadCreate.name_text() == s@);
            return Ok(EsEventName::NotifyRemoteThreadCreate);
        }
        if str_eq(s, "notify_get_task") {
            assert(EsEventName::NotifyGetTask.name_text() == s@);
            return Ok(EsEventName::NotifyGetTask);
        }
        if str_eq(s, "auth_exec") {
            assert(EsEventName::AuthExec.name_text() == s@);
            return Ok(EsEventName::AuthExec);
        }
        if str_eq(s, "notify_create") {
            assert(EsEventName::NotifyCreate.name_text() == s@);
            return Ok(EsEventName::NotifyCreate);
        }
        if str_eq(s, "notify_write") {
            assert(EsEventName::NotifyWrite.name_text() == s@);
            return Ok(EsEventName::NotifyWrite);
        }
        if str_eq(s, "notify_unlink") {
            assert(EsEventName::NotifyUnlink.name_text() == s@);
            return Ok(EsEventName::NotifyUnlink);
        }
        if str_eq(s, "notify_rename") {
            assert(EsEventName::NotifyRename.name_text() == s@);
            return Ok(EsEventName::NotifyRename);
        }
        if str_eq(s, "notify_open") {
            assert(EsEventName::NotifyOpen.name_text() == s@);
            return Ok(EsEventName::NotifyOpen);
        }
        if str_eq(s, "notify_close") {
            assert(EsEventName::NotifyClose.name_text() == s@);
            return Ok(EsEventName::NotifyClose);
        }
        if str_eq(s, "auth_open") {
            assert(EsEventName::AuthOpen.name_text() == s@);
            return Ok(EsEventName::AuthOpen);
        }
        if str_eq(s, "notify_uipc_bind") {
            assert(EsEventName::NotifyUipcBind.name_text() == s@);
            return Ok(EsEventName::NotifyUipcBind);
        }
        if str_eq(s, "notify_uipc_connect") {
            assert(EsEventName::NotifyUipcConnect.name_text() == s@);
            return Ok(EsEventName::NotifyUipcConnect);
        }
        assert forall|n: EsEventName| #[trigger] n.name_text() != s@ by {
            match n {
                _ => {},
            }
        }
        let mut m = String::from_str("unknown ESF event name '");
        m.append(s);
        m.append("'; valid names: ");
        let names = join_strs(Self::all_names(), ", ");
        m.append(names.as_str());
        Err(ConfigError::Validation(m))
    }
}

spec fn spelling_fingerprint(s: Seq<char>) -> (nat, char, char, char) {
    (s.len(), s[5], s[7], s[9])
}

spec fn expected_fingerprint(n: EsEventName) -> (nat, char, char, char) {
    match n {
        EsEventName::NotifyExec => (11, 'y', 'e', 'e'),
        EsEventName::NotifyFork => (11, 'y', 'f', 'r'),
        EsEventName::NotifyExit => (11, 'y', 'e', 'i'),
        EsEventName::NotifyRemoteThreadCreate => (27, 'y', 'r', 'm'),
        EsEventName::NotifyGetTask => (15, 'y', 'g', 't'),
        EsEventName::AuthExec => (9, 'e', 'e', n.name_text()[9]),
        EsEventName::NotifyCreate => (13, 'y', 'c', 'e'),
        EsEventName::NotifyWrite => (12, 'y', 'w', 'i'),
        EsEventName::NotifyUnlink => (13, 'y', 'u', 'l'),
        EsEventName::NotifyRename => (13, 'y', 'r', 'n'),
        EsEventName::NotifyOpen => (11, 'y', 'o', 'e'),
        EsEventName::NotifyClose => (12, 'y', 'c', 'o'),
        EsEventName::AuthOpen => (9, 'o', 'e', n.name_text()[9]),
        EsEventName::NotifyUipcBind => (16, 'y', 'u', 'p'),
        EsEventName::NotifyUipcConnect => (19, 'y', 'u', 'p'),
    }
}

proof fn lemma_fingerprint(n: EsEventName)
    ensures
        spelling_fingerprint(n.name_text()) == expected_fingerprint(n),
{
    match n {
        EsEventName::NotifyExec => {
            reveal_strlit("notify_exec");
        },
        EsEventName::NotifyFork => {
            reveal_strlit("notify_fork");
        },
        EsEventName::NotifyExit => {
            reveal_strlit("notify_exit");
        },
        EsEventName::NotifyRemoteThreadCreate => {
            reveal_strlit("notify_remote_thread_create");
        },
        EsEventName::NotifyGetTask => {
            reveal_strlit("notify_get_task");
        },
        EsEventName::AuthExec => {
            reveal_strlit("auth_exec");
        },
        EsEventName::NotifyCreate => {
            reveal_strlit("notify_create");
        },
        EsEventName::NotifyWrite => {
            reveal_strlit("notify_write");
        },
        EsEventName::NotifyUnlink => {
            reveal_strlit("notify_unlink");
        },
        EsEventName::NotifyRename => {
            reveal_strlit("notify_rename");
        },
        EsEventName::NotifyOpen => {
            reveal_strlit("notify_open");
        },
        EsEventName::NotifyClose => {
            reveal_strlit("notify_close");
        },
        EsEventName::AuthOpen => {
            reveal_strlit("auth_open");
        },
        EsEventName::NotifyUipcBind => {
            reveal_strlit("notify_uipc_bind");
        },
        EsEventName::NotifyUipcConnect => {
            reveal_strlit("notify_uipc_connect");
        },
    }
}

/// Distinct event names have distinct spellings, so parsing the spelling of
/// a name gives back that name.
pub proof fn lemma_name_text_injective(a: EsEventName, b: EsEventName)
    requires
        a.name_text() == b.name_text(),
    ensures
        a == b,
{
    lemma_fingerprint(a);
    lemma_fingerprint(b);
    if a != b {
        assert(expected_fingerprint(a) != expected_fingerprint(b)) by {
            match a {
                _ => {},
            }
        }
    }
}

/// The registry list holds the spelling of every event name.
pub proof fn lemma_all_names_complete(n: EsEventName)
    ensures
        all_name_texts().contains(n.name_text()),
{
    let k: int = match n {
        EsEventName::NotifyExec => 0,
        EsEventName::NotifyFork => 1,
        EsEventName::NotifyExit => 2,
        EsEventName::NotifyRemoteThreadCreate => 3,
        EsEventName::NotifyGetTask => 4,
        EsEventName::AuthExec => 5,
        EsEventName::NotifyCreate => 6,
        EsEventName::NotifyWrite => 7,
        EsEventName::NotifyUnlink => 8,
        EsEventName::NotifyRename => 9,
        EsEventName::NotifyOpen => 10,
        EsEventName::NotifyClose => 11,
        EsEventName::AuthOpen => 12,
        EsEventName::NotifyUipcBind => 13,
        EsEventName::NotifyUipcConnect => 14,
    };
    assert(all_event_names()[k] == n);
    assert(all_name_texts()[k] == n.name_text());
}

/// The default subscription set holds only NOTIFY events and leaves out the
/// high-volume `notify_open`.
pub proof fn lemma_default_subscription_notify_only()
    ensures
        forall|i: int|
            0 <= i < default_subscription_names().len() ==> {
                &&& !(#[trigger] default_subscription_names()[i]).is_auth_spec()
                &&& default_subscription_names()[i] != EsEventName::NotifyOpen
            },
{
}

impl core::str::FromStr for EsEventName {
    type Err = ConfigError;

    fn from_str(s: &str) -> (r: Result<Self, Self::Err>)
        ensures
            r matches Ok(n) ==> n.name_text() == s@,
            r is Err <==> (forall|n: EsEventName| #[trigger] n.name_text() != s@),
            r matches Err(e) ==> (e matches ConfigError::Validation(m) && m@
                == unknown_event_message(s@)),
    {
        EsEventName::parse_name(s)
    }
}

} // verus!
