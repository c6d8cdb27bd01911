//! Configuration: which events to subscribe to, where the graph lives, and
//! which paths to mute; with the semantic checks applied after loading.

use vstd::prelude::*;
use crate::error::ConfigError;
use crate::events::{
    EsEventName, default_subscription_names, lemma_name_text_injective, unknown_event_message,
};
use crate::text::{is_blank, is_unicode_whitespace, str_is_blank, string_views};

verus! {

/// Root configuration structure.
#[derive(Debug, Clone, PartialEq, Eq)]
pub struct Config {
    /// Event subscription lists.
    pub events: EventsConfig,
    /// Graph storage settings.
    pub store: StoreConfig,
    /// Optional muting rules (reduces noise from system paths).
    pub mute: MuteConfig,
}

/// Event subscription groups; each entry is a snake_case event name.
#[derive(Debug, Clone, PartialEq, Eq)]
pub struct EventsConfig {
    /// Process-related events.
    pub process: Vec<String>,
    /// File-related events.
    pub file: Vec<String>,
    /// UNIX-domain socket events.
    pub network: Vec<String>,
}

/// Graph persistence settings.
#[derive(Debug, Clone, PartialEq, Eq)]
pub struct StoreConfig {
    /// Path to the database file.
    pub path: String,
    /// Max normalised events per writer batch before flush.
    pub batch_size: usize,
    /// Max milliseconds between flushes even if the batch is not full.
    pub flush_interval_ms: u64,
}

/// Path prefixes to mute at the event source.
#[derive(Debug, Clone, PartialEq, Eq)]
pub struct MuteConfig {
    /// Prefix paths to mute.
    pub paths: Vec<String>,
}

impl Default for MuteConfig {
    fn default() -> (r: Self)
        ensures
            r.paths@.len() == 0,
    {
        MuteConfig { paths: Vec::new() }
    }
}

/// Batch size used when the configuration does not give one.
pub fn default_batch_size() -> (r: usize)
    ensures
        r == 500,
{
    500
}

/// Flush interval used when the configuration does not give one.
pub fn default_flush_interval_ms() -> (r: u64)
    ensures
        r == 1000,
{
    1000
}

/// The event names of the default configuration, group by group.
pub open spec fn default_process_names() -> Seq<Seq<char>> {
    seq!["notify_exec"@, "notify_fork"@, "notify_exit"@]
}

/// File events of the default configuration.
pub open spec fn default_file_names() -> Seq<Seq<char>> {
    seq!["notify_create"@, "notify_write"@, "notify_unlink"@, "notify_rename"@]
}

/// Socket events of the default configuration.
pub open spec fn default_network_names() -> Seq<Seq<char>> {
    seq!["notify_uipc_bind"@, "notify_uipc_connect"@]
}

/// Muted prefixes of the default configuration.
pub open spec fn default_mute_paths() -> Seq<Seq<char>> {
    seq!["/System"@, "/private/var/db"@]
}

impl Default for Config {
    /// The built-in configuration: the NOTIFY event groups without
    /// `notify_open`, the store under `data/`, and system paths muted.
    fn default() -> (r: Self)
        ensures
            string_views(r.events.process@) == default_process_names(),
            string_views(r.events.file@) == default_file_names(),
            string_views(r.events.network@) == default_network_names(),
            r.store.path@ == "data/events.lbug"@,
            r.store.batch_size == 500,
            r.store.flush_interval_ms == 1000,
            string_views(r.mute.paths@) == default_mute_paths(),
    {
        let process = vec![
            String::from_str("notify_exec"),
            String::from_str("notify_fork"),
            String::from_str("notify_exit"),
        ];
        let file = vec![
            String::from_str("notify_create"),
            String::from_str("notify_write"),
            String::from_str("notify_unlink"),
            String::from_str("notify_rename"),
        ];
        let network = vec![
            String::from_str("notify_uipc_bind"),
            String::from_str("notify_uipc_connect"),
        ];
        let paths = vec![String::from_str("/System"), String::from_str("/private/var/db")];
        assert(string_views(process@) =~= default_process_names());
        assert(string_views(file@) =~= default_file_names());
        assert(string_views(network@) =~= default_network_names());
        assert(string_views(paths@) =~= default_mute_paths());
        Config {
            events: EventsConfig { process, file, network },
            store: StoreConfig {
                path: String::from_str("data/events.lbug"),
                batch_size: default_batch_size(),
                flush_interval_ms: default_flush_interval_ms(),
            },
            mute: MuteConfig { paths },
        }
    }
}

/// The event name that a spelling denotes, if any.
pub open spec fn parse_name_spec(s: Seq<char>) -> Option<EsEventName> {
    if exists|n: EsEventName| #[trigger] n.name_text() == s {
        Some(choose|n: EsEventName| #[trigger] n.name_text() == s)
    } else {
        None
    }
}

/// A spelling denotes exactly the name that it spells.
pub proof fn lemma_parse_name_spec(n: EsEventName)
    ensures
        parse_name_spec(n.name_text()) == Some(n),
{
    let m = choose|m: EsEventName| #[trigger] m.name_text() == n.name_text();
    lemma_name_text_injective(m, n);
}

/// Configured names in order: the process group, then file, then network.
pub open spec fn raw_event_names(cfg: Config) -> Seq<Seq<char>> {
    string_views(cfg.events.process@) + string_views(cfg.events.file@) + string_views(
        cfg.events.network@,
    )
}

/// Flatten configured spellings into event names, keeping the first
/// occurrence of each; the error is the first spelling that names nothing.
pub open spec fn resolve_event_names(raw: Seq<Seq<char>>) -> Result<Seq<EsEventName>, Seq<char>>
    decreases raw.len(),
{
    if raw.len() == 0 {
        Ok(seq![])
    } else {
        match resolve_event_names(raw.drop_last()) {
            Err(bad) => Err(bad),
            Ok(acc) => match parse_name_spec(raw.last()) {
                None => Err(raw.last()),
                Some(n) => Ok(
                    if acc.contains(n) {
                        acc
                    } else {
                        acc.push(n)
                    },
                ),
            },
        }
    }
}

/// The validation message for a configuration, if it is refused.
pub open spec fn validation_error(cfg: Config) -> Option<Seq<char>> {
    if cfg.store.batch_size == 0 {
        Some("store.batch_size must be > 0"@)
    } else if is_blank(cfg.store.path@) {
        Some("store.path must not be empty"@)
    } else {
        match resolve_event_names(raw_event_names(cfg)) {
            Ok(_) => None,
            Err(bad) => Some(unknown_event_message(bad)),
        }
    }
}

/// Once resolution has failed, later spellings do not change the error.
pub proof fn lemma_resolve_error_sticks(x: Seq<Seq<char>>, y: Seq<Seq<char>>)
    requires
        resolve_event_names(x) is Err,
    ensures
        resolve_event_names(x + y) == resolve_event_names(x),
    decreases y.len(),
{
    if y.len() == 0 {
        assert(x + y =~= x);
    } else {
        lemma_resolve_error_sticks(x, y.drop_last());
        assert((x + y).drop_last() =~= x + y.drop_last());
    }
}

proof fn lemma_contains_push<T>(s: Seq<T>, x: T, y: T)
    ensures
        s.push(x).contains(y) <==> (s.contains(y) || x == y),
{
    if s.contains(y) {
        let i = choose|i: int| 0 <= i < s.len() && s[i] == y;
        assert(s.push(x)[i] == y);
    }
    if x == y {
        assert(s.push(x)[s.len() as int] == y);
    }
    if s.push(x).contains(y) {
        let i = choose|i: int| 0 <= i < s.len() + 1 && s.push(x)[i] == y;
        if i < s.len() {
            assert(s[i] == y);
        }
    }
}

fn resolve_group(
    out: &mut Vec<EsEventName>,
    group: &Vec<String>,
    Ghost(before): Ghost<Seq<Seq<char>>>,
) -> (r: Result<(), ConfigError>)
    requires
        resolve_event_names(before) == Ok::<Seq<EsEventName>, Seq<char>>(old(out)@),
    ensures
        match resolve_event_names(before + string_views(group@)) {
            Ok(ns) => r is Ok && final(out)@ == ns,
            Err(bad) => r matches Err(e) && e matches ConfigError::Validation(m) && m@
                == unknown_event_message(bad),
        },
{
    let n = group.len();
    let mut i: usize = 0;
    while i < n
        invariant
            n == group@.len(),
            i <= n,
            resolve_event_names(before + string_views(group@.take(i as int)))
                == Ok::<Seq<EsEventName>, Seq<char>>(out@),
        decreases n - i,
    {
        let ghost prefix = before + string_views(group@.take(i as int));
        let ghost next = before + string_views(group@.take(i + 1));
        assert(next.drop_last() =~= prefix);
        assert(next.last() == group@[i as int]@);
        assert(before + string_views(group@) =~= next + string_views(group@.skip(i + 1)));
        match EsEventName::parse_name(group[i].as_str()) {
            Err(e) => {
                proof {
                    assert(forall|m: EsEventName| #[trigger] m.name_text() != group@[i as int]@);
                    assert(parse_name_spec(next.last()) is None);
                    lemma_resolve_error_sticks(next, string_views(group@.skip(i + 1)));
                }
                return Err(e);
            },
            Ok(name) => {
                proof {
                    lemma_parse_name_spec(name);
                }
                let mut found = false;
                let mut k: usize = 0;
                while k < out.len()
                    invariant
                        k <= out@.len(),
                        found == out@.take(k as int).contains(name),
                    decreases out@.len() - k,
                {
                    assert(out@.take(k + 1) =~= out@.take(k as int).push(out@[k as int]));
                    proof {
                        lemma_contains_push(out@.take(k as int), out@[k as int], name);
                    }
                    if out[k] == name {
                        found = true;
                    }
                    k = k + 1;
                }
                assert(out@.take(out@.len() as int) =~= out@);
                if !found {
                    out.push(name);
                }
            },
        }
        i = i + 1;
    }
    assert(group@.take(n as int) =~= group@);
    Ok(())
}

/// A spelling names an event exactly when some name spells it.
proof fn lemma_parse_name_spec_some(s: Seq<char>, n: EsEventName)
    requires
        parse_name_spec(s) == Some(n),
    ensures
        n.name_text() == s,
        forall|m: EsEventName| m.name_text() == s ==> m == n,
{
    assert forall|m: EsEventName| m.name_text() == s implies m == n by {
        lemma_name_text_injective(m, n);
    }
}

/// Resolution succeeds exactly when every configured spelling names an
/// event; otherwise the error is the first spelling that names nothing.
pub proof fn lemma_resolve_outcome(raw: Seq<Seq<char>>)
    ensures
        resolve_event_names(raw) is Ok <==> (forall|i: int|
            0 <= i < raw.len() ==> #[trigger] parse_name_spec(raw[i]) is Some),
        resolve_event_names(raw) matches Err(bad) ==> exists|i: int|
            0 <= i < raw.len() && raw[i] == bad && parse_name_spec(raw[i]) is None && (forall|
                j: int,
            | 0 <= j < i ==> #[trigger] parse_name_spec(raw[j]) is Some),
    decreases raw.len(),
{
    if raw.len() > 0 {
        let pre = raw.drop_last();
        lemma_resolve_outcome(pre);
        assert forall|i: int| 0 <= i < pre.len() implies pre[i] == raw[i] by {}
        if resolve_event_names(pre) is Ok && parse_name_spec(raw.last()) is None {
            assert(parse_name_spec(raw[raw.len() - 1]) is None);
        }
        if resolve_event_names(pre) is Err {
            let bad = resolve_event_names(pre)->Err_0;
            let i = choose|i: int|
                0 <= i < pre.len() && pre[i] == bad && parse_name_spec(pre[i]) is None && (forall|
                    j: int,
                | 0 <= j < i ==> #[trigger] parse_name_spec(pre[j]) is Some);
            assert(raw[i] == bad);
            assert(parse_name_spec(raw[i]) is None);
        }
    }
}

/// Resolved names hold no duplicates.
pub proof fn lemma_resolve_no_duplicates(raw: Seq<Seq<char>>)
    ensures
        resolve_event_names(raw) matches Ok(ns) ==> ns.no_duplicates(),
    decreases raw.len(),
{
    if raw.len() > 0 {
        lemma_resolve_no_duplicates(raw.drop_last());
        if let Ok(acc) = resolve_event_names(raw.drop_last()) {
            if let Some(n) = parse_name_spec(raw.last()) {
                if !acc.contains(n) {
                    let ns = acc.push(n);
                    assert forall|i: int, j: int|
                        0 <= i < ns.len() && 0 <= j < ns.len() && i != j implies ns[i]
                        != ns[j] by {
                        if i == acc.len() as int {
                            assert(acc[j] == ns[j]);
                        } else if j == acc.len() as int {
                            assert(acc[i] == ns[i]);
                        }
                    }
                }
            }
        }
    }
}

/// A name is among the resolved names exactly when some configured
/// spelling spells it.
pub proof fn lemma_resolve_members(raw: Seq<Seq<char>>, n: EsEventName)
    ensures
        resolve_event_names(raw) matches Ok(ns) ==> (ns.contains(n) <==> exists|i: int|
            0 <= i < raw.len() && raw[i] == n.name_text()),
    decreases raw.len(),
{
    if raw.len() > 0 {
        let pre = raw.drop_last();
        lemma_resolve_members(pre, n);
        if let Ok(acc) = resolve_event_names(pre) {
            if let Some(m) = parse_name_spec(raw.last()) {
                lemma_parse_name_spec_some(raw.last(), m);
                lemma_contains_push(acc, m, n);
                if exists|i: int| 0 <= i < raw.len() && raw[i] == n.name_text() {
                    let i = choose|i: int| 0 <= i < raw.len() && raw[i] == n.name_text();
                    if i < pre.len() {
                        assert(pre[i] == n.name_text());
                    } else {
                        assert(m == n);
                    }
                }
                if exists|i: int| 0 <= i < pre.len() && pre[i] == n.name_text() {
                    let i = choose|i: int| 0 <= i < pre.len() && pre[i] == n.name_text();
                    assert(raw[i] == n.name_text());
                }
                if m == n {
                    assert(raw[raw.len() - 1] == n.name_text());
                }
            }
        }
    }
}

proof fn lemma_order_step(raw: Seq<Seq<char>>, i: int, j: int, k: int)
    requires
        resolve_event_names(raw) is Ok,
        0 <= i < j < resolve_event_names(raw)->Ok_0.len(),
        0 <= k < raw.len(),
        raw[k] == resolve_event_names(raw)->Ok_0[j].name_text(),
    ensures
        spelled_before(raw, resolve_event_names(raw)->Ok_0[i], k),
    decreases raw.len(),
{
    let ns = resolve_event_names(raw)->Ok_0;
    let pre = raw.drop_last();
    let acc = resolve_event_names(pre)->Ok_0;
    let m = parse_name_spec(raw.last())->Some_0;
    lemma_parse_name_spec_some(raw.last(), m);
    assert(i < acc.len());
    assert(ns[i] == acc[i]);
    if k < pre.len() {
        assert(pre[k] == raw[k]);
        if j < acc.len() {
            assert(ns[j] == acc[j]);
            lemma_order_step(pre, i, j, k);
            let q = choose|q: int| 0 <= q < k && pre[q] == acc[i].name_text();
            assert(raw[q] == pre[q]);
        } else {
            assert(ns[j] == m);
            lemma_resolve_members(pre, m);
            assert(acc.contains(m));
        }
    } else {
        lemma_resolve_members(pre, acc[i]);
        assert(acc.contains(acc[i]));
        let q = choose|q: int| 0 <= q < pre.len() && pre[q] == acc[i].name_text();
        assert(raw[q] == pre[q]);
    }
}

/// Names come in the order of their first occurrence among the spellings:
/// before any spelling of a later name, there is a spelling of every
/// earlier one.
pub open spec fn ordered_by_first_occurrence(raw: Seq<Seq<char>>, ns: Seq<EsEventName>) -> bool {
    forall|i: int, j: int, k: int|
        #![trigger ns[i], ns[j], raw[k]]
        0 <= i < j < ns.len() && 0 <= k < raw.len() && raw[k] == ns[j].name_text()
            ==> spelled_before(raw, ns[i], k)
}

/// Some spelling before position `k` spells `n`.
pub open spec fn spelled_before(raw: Seq<Seq<char>>, n: EsEventName, k: int) -> bool {
    exists|q: int| 0 <= q < k && raw[q] == n.name_text()
}

/// Resolved names come in the order of their first occurrence.
pub proof fn lemma_resolve_first_occurrence_order(raw: Seq<Seq<char>>)
    ensures
        resolve_event_names(raw) matches Ok(ns) ==> ordered_by_first_occurrence(raw, ns),
{
    if resolve_event_names(raw) is Ok {
        let ns = resolve_event_names(raw)->Ok_0;
        assert forall|i: int, j: int, k: int|
            #![trigger ns[i], ns[j], raw[k]]
            0 <= i < j < ns.len() && 0 <= k < raw.len() && raw[k] == ns[j].name_text()
            implies spelled_before(raw, ns[i], k) by {
            lemma_order_step(raw, i, j, k);
        }
    }
}

/// The default configuration passes validation, and its event groups
/// resolve to exactly the default NOTIFY-only subscription set.
pub proof fn lemma_default_config_resolves(cfg: Config)
    requires
        string_views(cfg.events.process@) == default_process_names(),
        string_views(cfg.events.file@) == default_file_names(),
        string_views(cfg.events.network@) == default_network_names(),
        cfg.store.path@ == "data/events.lbug"@,
        cfg.store.batch_size == 500,
    ensures
        resolve_event_names(raw_event_names(cfg)) == Ok::<Seq<EsEventName>, Seq<char>>(
            default_subscription_names(),
        ),
        validation_error(cfg) is None,
{
    let raw = raw_event_names(cfg);
    let names = default_subscription_names();
    assert(raw =~= names.map_values(|n: EsEventName| n.name_text()));
    assert forall|k: nat| k <= raw.len() implies resolve_event_names(raw.take(k as int))
        == Ok::<Seq<EsEventName>, Seq<char>>(names.take(k as int)) by {
        lemma_default_prefix(raw, k);
    }
    assert(raw.take(raw.len() as int) =~= raw);
    assert(names.take(names.len() as int) =~= names);
    reveal_strlit("data/events.lbug");
    assert(!is_unicode_whitespace(cfg.store.path@[0]));
}

proof fn lemma_default_prefix(raw: Seq<Seq<char>>, k: nat)
    requires
        raw == default_subscription_names().map_values(|n: EsEventName| n.name_text()),
        k <= raw.len(),
    ensures
        resolve_event_names(raw.take(k as int)) == Ok::<Seq<EsEventName>, Seq<char>>(
            default_subscription_names().take(k as int),
        ),
    decreases k,
{
    let names = default_subscription_names();
    if k > 0 {
        lemma_default_prefix(raw, (k - 1) as nat);
        let t = raw.take(k as int);
        assert(t.drop_last() =~= raw.take(k - 1));
        let n = names[k - 1];
        assert(t.last() == n.name_text());
        lemma_parse_name_spec(n);
        let acc = names.take(k - 1);
        assert(!acc.contains(n)) by {
            if acc.contains(n) {
                let i = choose|i: int| 0 <= i < acc.len() && acc[i] == n;
                assert(names[i] == names[k - 1]);
            }
        }
        assert(acc.push(n) =~= names.take(k as int));
    } else {
        assert(raw.take(0) =~= Seq::<Seq<char>>::empty());
        assert(names.take(0) =~= Seq::<EsEventName>::empty());
    }
}

/// Some event is spelled `s`.
pub open spec fn names_an_event(s: Seq<char>) -> bool {
    exists|n: EsEventName| #[trigger] n.name_text() == s
}

/// A configuration passes validation exactly when its batch size is
/// positive, its store path is not blank, and every spelling in each of the
/// process, file and network groups names an event.
pub proof fn lemma_validation_accepts(cfg: Config)
    ensures
        validation_error(cfg) is None <==> {
            &&& cfg.store.batch_size > 0
            &&& !is_blank(cfg.store.path@)
            &&& forall|i: int|
                0 <= i < cfg.events.process@.len() ==> names_an_event(
                    #[trigger] cfg.events.process@[i]@,
                )
            &&& forall|i: int|
                0 <= i < cfg.events.file@.len() ==> names_an_event(#[trigger] cfg.events.file@[i]@)
            &&& forall|i: int|
                0 <= i < cfg.events.network@.len() ==> names_an_event(
                    #[trigger] cfg.events.network@[i]@,
                )
        },
{
    let p = string_views(cfg.events.process@);
    let f = string_views(cfg.events.file@);
    let w = string_views(cfg.events.network@);
    let raw = raw_event_names(cfg);
    lemma_resolve_outcome(raw);
    assert forall|i: int| 0 <= i < raw.len() implies (#[trigger] parse_name_spec(raw[i]) is Some
        <==> names_an_event(raw[i])) by {}
    if cfg.store.batch_size > 0 && !is_blank(cfg.store.path@) {
        if resolve_event_names(raw) is Ok {
            assert forall|i: int| 0 <= i < cfg.events.process@.len() implies names_an_event(
                #[trigger] cfg.events.process@[i]@,
            ) by {
                assert(raw[i] == p[i]);
                assert(parse_name_spec(raw[i]) is Some);
            }
            assert forall|i: int| 0 <= i < cfg.events.file@.len() implies names_an_event(
                #[trigger] cfg.events.file@[i]@,
            ) by {
                assert(raw[p.len() + i] == f[i]);
                assert(parse_name_spec(raw[p.len() + i]) is Some);
            }
            assert forall|i: int| 0 <= i < cfg.events.network@.len() implies names_an_event(
                #[trigger] cfg.events.network@[i]@,
            ) by {
                assert(raw[p.len() + f.len() + i] == w[i]);
                assert(parse_name_spec(raw[p.len() + f.len() + i]) is Some);
            }
        } else {
            let bad = resolve_event_names(raw)->Err_0;
            let i = choose|i: int|
                0 <= i < raw.len() && raw[i] == bad && parse_name_spec(raw[i]) is None && (forall|
                    j: int,
                | 0 <= j < i ==> #[trigger] parse_name_spec(raw[j]) is Some);
            assert(!names_an_event(raw[i]));
            if i < p.len() {
                assert(raw[i] == cfg.events.process@[i]@);
            } else if i < p.len() + f.len() {
                assert(raw[i] == cfg.events.file@[i - p.len()]@);
            } else {
                assert(raw[i] == cfg.events.network@[i - p.len() - f.len()]@);
            }
        }
    }
}

impl Config {
    /// Flatten the `[events]` groups into a deduplicated list of event names.
    ///
    /// Order is preserved: process, then file, then network; the first
    /// occurrence of a name wins.
    pub fn resolved_event_names(&self) -> (r: Result<Vec<EsEventName>, ConfigError>)
        ensures
            match resolve_event_names(raw_event_names(*self)) {
                Ok(ns) => r matches Ok(v) && v@ == ns,
                Err(bad) => r matches Err(e) && e matches ConfigError::Validation(m) && m@
                    == unknown_event_message(bad),
            },
    {
        let mut out: Vec<EsEventName> = Vec::new();
        let ghost p = string_views(self.events.process@);
        let ghost f = string_views(self.events.file@);
        let ghost w = string_views(self.events.network@);
        let ghost empty: Seq<Seq<char>> = seq![];
        assert(empty + p =~= p);
        let r1 = resolve_group(&mut out, &self.events.process, Ghost(empty));
        if let Err(e) = r1 {
            proof {
                lemma_resolve_error_sticks(p, f + w);
                assert(p + (f + w) =~= raw_event_names(*self));
            }
            return Err(e);
        }
        let r2 = resolve_group(&mut out, &self.events.file, Ghost(p));
        if let Err(e) = r2 {
            proof {
                lemma_resolve_error_sticks(p + f, w);
            }
            return Err(e);
        }
        let r3 = resolve_group(&mut out, &self.events.network, Ghost(p + f));
        if let Err(e) = r3 {
            return Err(e);
        }
        Ok(out)
    }

    /// Semantic validation after loading: a positive batch size, a store
    /// path that is not blank, and only known event names.
    pub fn validate(&self) -> (r: Result<(), ConfigError>)
        ensures
            match validation_error(*self) {
                None => r is Ok,
                Some(msg) => r matches Err(e) && e matches ConfigError::Validation(m) && m@ == msg,
            },
    {
        if self.store.batch_size == 0 {
            return Err(ConfigError::Validation(String::from_str("store.batch_size must be > 0")));
        }
        if str_is_blank(self.store.path.as_str()) {
            return Err(ConfigError::Validation(String::from_str("store.path must not be empty")));
        }
        match self.resolved_event_names() {
            Ok(_) => Ok(()),
            Err(e) => Err(e),
        }
    }
}

} // verus!
