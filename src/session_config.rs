//! Tunnel parameters: the per-profile store, and how request values, stored
//! values and defaults combine.

use vstd::prelude::*;
use ini::Ini;
use crate::aws_config::AwsProfile;
use crate::error::AppError;
use crate::ini_store::{ini_order, order_after_use, parsed_order, fresh_view, ini_add_section, ini_keys, ini_single, plain, ini_delete, ini_get, ini_has_section, ini_section_names, ini_set, ini_text, ini_view, new_ini, parse_ini, parsed_ini, view_set};
use crate::text::{opt_text, text_opt};
use crate::text::{decimal_of, lemma_port_round_trip, format_u16, is_blank, is_blank_text, parse_u16, parsed_u16};

verus! {

pub const DEFAULT_LOCAL_PORT: u16 = 13389;

pub const DEFAULT_REMOTE_PORT: u16 = 3389;

/// The document that a port-forwarding session runs unless told otherwise.
pub open spec fn default_document() -> Seq<char> {
    "AWS-StartPortForwardingSession"@
}

pub open spec fn target_key() -> Seq<char> {
    "target"@
}

pub open spec fn local_port_key() -> Seq<char> {
    "local_port"@
}

pub open spec fn remote_port_key() -> Seq<char> {
    "remote_port"@
}

pub open spec fn document_key() -> Seq<char> {
    "document_name"@
}

/// Parameters of one port-forwarding session.
#[derive(Debug, Clone)]
pub struct SessionConfig {
    pub target: String,
    pub local_port: u16,
    pub remote_port: u16,
    pub document_name: String,
}

/// A session configuration as values.
pub struct ConfigModel {
    pub target: Seq<char>,
    pub local_port: u16,
    pub remote_port: u16,
    pub document_name: Seq<char>,
}

impl View for SessionConfig {
    type V = ConfigModel;

    open spec fn view(&self) -> ConfigModel {
        ConfigModel {
            target: self.target@,
            local_port: self.local_port,
            remote_port: self.remote_port,
            document_name: self.document_name@,
        }
    }
}

impl Default for SessionConfig {
    fn default() -> (r: Self)
        ensures
            r@ == (ConfigModel {
                target: Seq::empty(),
                local_port: DEFAULT_LOCAL_PORT,
                remote_port: DEFAULT_REMOTE_PORT,
                document_name: default_document(),
            }),
    {
        SessionConfig {
            target: String::new(),
            local_port: DEFAULT_LOCAL_PORT,
            remote_port: DEFAULT_REMOTE_PORT,
            document_name: String::from_str("AWS-StartPortForwardingSession"),
        }
    }
}

/// The view of an optional configuration.
pub open spec fn config_view(c: Option<SessionConfig>) -> Option<ConfigModel> {
    match c {
        Some(c) => Some(c@),
        None => None,
    }
}

/// The stored target, if there is one that is not blank.
pub open spec fn stored_target(stored: Option<ConfigModel>) -> Option<Seq<char>> {
    match stored {
        Some(c) => if is_blank(c.target) { None } else { Some(c.target) },
        None => None,
    }
}

/// The configuration that request values and a stored configuration resolve to:
/// for each field the request value, else the stored one, else the default; a
/// blank stored target counts as none, and with no target from either the
/// result is `TargetRequired`.
pub open spec fn resolved_config(
    stored: Option<ConfigModel>,
    target: Option<Seq<char>>,
    local_port: Option<u16>,
    remote_port: Option<u16>,
    document_name: Option<Seq<char>>,
) -> Result<ConfigModel, AppError> {
    if target is None && stored_target(stored) is None {
        Err(AppError::TargetRequired)
    } else {
        Ok(ConfigModel {
            target: match target {
                Some(t) => t,
                None => stored_target(stored).unwrap(),
            },
            local_port: match (local_port, stored) {
                (Some(p), _) => p,
                (None, Some(c)) => c.local_port,
                (None, None) => DEFAULT_LOCAL_PORT,
            },
            remote_port: match (remote_port, stored) {
                (Some(p), _) => p,
                (None, Some(c)) => c.remote_port,
                (None, None) => DEFAULT_REMOTE_PORT,
            },
            document_name: match (document_name, stored) {
                (Some(d), _) => d,
                (None, Some(c)) => c.document_name,
                (None, None) => default_document(),
            },
        })
    }
}

/// The configuration stored for `profile` in a store with view `v`: none without a
/// section; else the target (empty when missing), each port read as a number (the
/// default when missing or unreadable) and the document name (the default when
/// missing).
pub open spec fn stored_config(
    v: Map<Option<Seq<char>>, Map<Seq<char>, Seq<char>>>,
    profile: Seq<char>,
) -> Option<ConfigModel> {
    if !v.contains_key(Some(profile)) {
        None
    } else {
        let sec = v[Some(profile)];
        Some(ConfigModel {
            target: if sec.contains_key(target_key()) { sec[target_key()] } else { Seq::empty() },
            local_port: port_or(sec, local_port_key(), DEFAULT_LOCAL_PORT),
            remote_port: port_or(sec, remote_port_key(), DEFAULT_REMOTE_PORT),
            document_name: if sec.contains_key(document_key()) {
                sec[document_key()]
            } else {
                default_document()
            },
        })
    }
}

/// The view of the store text `store`: a fresh store when there is none.
pub open spec fn base_view(store: Option<Seq<char>>) -> Map<Option<Seq<char>>, Map<Seq<char>, Seq<char>>> {
    match store {
        Some(t) => parsed_ini(t).unwrap(),
        None => fresh_view(),
    }
}

/// `v` is the view of a new store holding a blank section for each profile.
pub open spec fn initial_view(v: Map<Option<Seq<char>>, Map<Seq<char>, Seq<char>>>, profiles: Seq<AwsProfile>) -> bool {
    &&& forall|n: Option<Seq<char>>| v.contains_key(n) <==> (n is None
        || exists|i: int| 0 <= i < profiles.len() && n == Some(#[trigger] profiles[i].name@))
    &&& forall|i: int| 0 <= i < profiles.len() ==> v[Some(#[trigger] profiles[i].name@)] == blank_section()
    &&& v[None] == Map::<Seq<char>, Seq<char>>::empty()
}

/// The port stored under `key`, or `fallback` when it is missing or not a number.
pub open spec fn port_or(sec: Map<Seq<char>, Seq<char>>, key: Seq<char>, fallback: u16) -> u16 {
    if sec.contains_key(key) && parsed_u16(sec[key]) is Some {
        parsed_u16(sec[key]).unwrap()
    } else {
        fallback
    }
}

/// The view after the given values are written to the section of `profile`.
pub open spec fn updated_view(
    v: Map<Option<Seq<char>>, Map<Seq<char>, Seq<char>>>,
    profile: Seq<char>,
    target: Option<Seq<char>>,
    local_port: Option<u16>,
    remote_port: Option<u16>,
    document_name: Option<Seq<char>>,
) -> Map<Option<Seq<char>>, Map<Seq<char>, Seq<char>>> {
    let v1 = match target {
        Some(t) => view_set(v, profile, target_key(), t),
        None => v,
    };
    let v2 = match local_port {
        Some(p) => view_set(v1, profile, local_port_key(), decimal_of(p as nat)),
        None => v1,
    };
    let v3 = match remote_port {
        Some(p) => view_set(v2, profile, remote_port_key(), decimal_of(p as nat)),
        None => v2,
    };
    match document_name {
        Some(d) => view_set(v3, profile, document_key(), d),
        None => v3,
    }
}

/// The section that a new store gives each profile: every key present and empty.
pub open spec fn blank_section() -> Map<Seq<char>, Seq<char>> {
    Map::empty()
        .insert(target_key(), Seq::empty())
        .insert(local_port_key(), Seq::empty())
        .insert(remote_port_key(), Seq::empty())
        .insert(document_key(), Seq::empty())
}

/// The named sections of a section order, in that order.
pub open spec fn named_sections(order: Seq<Option<Seq<char>>>) -> Seq<Seq<char>>
    decreases order.len(),
{
    if order.len() == 0 {
        Seq::empty()
    } else {
        let rest = named_sections(order.drop_last());
        match order.last() {
            Some(s) => rest.push(s),
            None => rest,
        }
    }
}

/// The names of the profiles, in order.
pub open spec fn profile_names(profiles: Seq<AwsProfile>) -> Seq<Seq<char>> {
    profiles.map_values(|p: AwsProfile| p.name@)
}

/// No two profiles share a name.
pub open spec fn distinct_profiles(profiles: Seq<AwsProfile>) -> bool {
    forall|i: int, j: int| 0 <= i < j < profiles.len() ==> profiles[i].name@ != profiles[j].name@
}

/// The order of a new store with a section for each of `profiles`.
pub open spec fn initial_order(profiles: Seq<AwsProfile>) -> Seq<Option<Seq<char>>> {
    seq![None::<Seq<char>>] + profiles.map_values(|p: AwsProfile| Some(p.name@))
}

/// Texts as views.
pub open spec fn names_view(v: Seq<String>) -> Seq<Seq<char>> {
    v.map_values(|s: String| s@)
}

/// A store whose order is that of `profiles` lists their names in that order.
pub proof fn lemma_initial_order_names(profiles: Seq<AwsProfile>)
    ensures
        named_sections(initial_order(profiles)) == profile_names(profiles),
    decreases profiles.len(),
{
    if profiles.len() > 0 {
        let shorter = profiles.drop_last();
        lemma_initial_order_names(shorter);
        assert(initial_order(profiles).drop_last() =~= initial_order(shorter));
        assert(initial_order(profiles).last() == Some(profiles.last().name@));
        assert(profile_names(profiles) =~= profile_names(shorter).push(profiles.last().name@));
    } else {
        let o = initial_order(profiles);
        assert(o.drop_last() =~= Seq::<Option<Seq<char>>>::empty());
        assert(named_sections(o.drop_last()) == Seq::<Seq<char>>::empty());
        assert(o.last() is None);
        assert(profile_names(profiles) =~= Seq::<Seq<char>>::empty());
    }
}

/// `names` lists each profile section of a store with view `v` exactly once.
pub open spec fn lists_sections(v: Map<Option<Seq<char>>, Map<Seq<char>, Seq<char>>>, names: Seq<String>) -> bool {
    &&& forall|i: int| 0 <= i < names.len() ==> v.contains_key(Some(#[trigger] names[i]@))
    &&& forall|s: Seq<char>| #[trigger] v.contains_key(Some(s)) ==> exists|i: int| 0 <= i < names.len() && names[i]@ == s
    &&& forall|i: int, j: int| 0 <= i < j < names.len() ==> names[i]@ != names[j]@
}

/// Each field resolves on its own: a request value wins over a stored one, and a
/// stored one over the default; resolution fails exactly when there is neither a
/// request target nor a stored target that is not blank.
pub proof fn lemma_resolution_precedence(
    stored: Option<ConfigModel>,
    target: Option<Seq<char>>,
    local_port: Option<u16>,
    remote_port: Option<u16>,
    document_name: Option<Seq<char>>,
)
    ensures
        resolved_config(stored, target, local_port, remote_port, document_name) is Err
            <==> (target is None && (stored is None || is_blank(stored.unwrap().target))),
        resolved_config(stored, target, local_port, remote_port, document_name) matches Ok(c) ==> {
            &&& target matches Some(t) ==> c.target == t
            &&& target is None ==> c.target == stored.unwrap().target && !is_blank(c.target)
            &&& local_port matches Some(p) ==> c.local_port == p
            &&& (local_port is None && stored is Some) ==> c.local_port == stored.unwrap().local_port
            &&& (local_port is None && stored is None) ==> c.local_port == DEFAULT_LOCAL_PORT
            &&& remote_port matches Some(p) ==> c.remote_port == p
            &&& (remote_port is None && stored is Some) ==> c.remote_port == stored.unwrap().remote_port
            &&& (remote_port is None && stored is None) ==> c.remote_port == DEFAULT_REMOTE_PORT
            &&& document_name matches Some(d) ==> c.document_name == d
            &&& (document_name is None && stored is Some) ==> c.document_name == stored.unwrap().document_name
            &&& (document_name is None && stored is None) ==> c.document_name == default_document()
        },
{
}

/// Writing all four values for a profile and reading them back gives those
/// values, whatever the store held before.
pub proof fn lemma_update_then_load(
    v: Map<Option<Seq<char>>, Map<Seq<char>, Seq<char>>>,
    profile: Seq<char>,
    target: Seq<char>,
    local_port: u16,
    remote_port: u16,
    document_name: Seq<char>,
)
    ensures
        stored_config(
            updated_view(v, profile, Some(target), Some(local_port), Some(remote_port), Some(document_name)),
            profile,
        ) == Some(ConfigModel { target, local_port, remote_port, document_name }),
{
    reveal_strlit("target");
    reveal_strlit("local_port");
    reveal_strlit("remote_port");
    reveal_strlit("document_name");
    lemma_port_round_trip(local_port);
    lemma_port_round_trip(remote_port);
    assert(target_key().len() != local_port_key().len());
    assert(target_key().len() != remote_port_key().len());
    assert(target_key().len() != document_key().len());
    assert(local_port_key().len() != remote_port_key().len());
    assert(local_port_key().len() != document_key().len());
    assert(remote_port_key().len() != document_key().len());
    let w = updated_view(v, profile, Some(target), Some(local_port), Some(remote_port), Some(document_name));
    let sec = w[Some(profile)];
    assert(sec[target_key()] == target);
    assert(sec[local_port_key()] == decimal_of(local_port as nat));
    assert(sec[remote_port_key()] == decimal_of(remote_port as nat));
    assert(sec[document_key()] == document_name);
}

/// After the section of a profile is removed, no configuration is read for it.
pub proof fn lemma_remove_then_load(v: Map<Option<Seq<char>>, Map<Seq<char>, Seq<char>>>, profile: Seq<char>)
    ensures
        stored_config(v.remove(Some(profile)), profile) is None,
{
}

/// Store text that parses to a store with all four values written for a profile
/// reads back, through the store's parser, as those values.
pub proof fn lemma_written_text_reads_back(
    text: Seq<char>,
    base: Map<Option<Seq<char>>, Map<Seq<char>, Seq<char>>>,
    profile: Seq<char>,
    target: Seq<char>,
    local_port: u16,
    remote_port: u16,
    document_name: Seq<char>,
)
    requires
        parsed_ini(text) == Some(updated_view(base, profile, Some(target), Some(local_port), Some(remote_port), Some(document_name))),
    ensures
        parsed_ini(text) is Some,
        stored_config(parsed_ini(text).unwrap(), profile) == Some(ConfigModel { target, local_port, remote_port, document_name }),
{
    lemma_update_then_load(base, profile, target, local_port, remote_port, document_name);
}

/// Store text that parses to a store without a profile's section gives no
/// configuration for it.
pub proof fn lemma_removed_text_reads_back(
    text: Seq<char>,
    base: Map<Option<Seq<char>>, Map<Seq<char>, Seq<char>>>,
    profile: Seq<char>,
)
    requires
        parsed_ini(text) == Some(base.remove(Some(profile))),
    ensures
        parsed_ini(text) is Some,
        stored_config(parsed_ini(text).unwrap(), profile) is None,
{
}

/// Writing values into a profile's section leaves the general section as it was.
pub proof fn lemma_update_keeps_general(
    v: Map<Option<Seq<char>>, Map<Seq<char>, Seq<char>>>,
    profile: Seq<char>,
    target: Option<Seq<char>>,
    local_port: Option<u16>,
    remote_port: Option<u16>,
    document_name: Option<Seq<char>>,
)
    ensures
        updated_view(v, profile, target, local_port, remote_port, document_name).contains_key(None) == v.contains_key(None),
        v.contains_key(None) ==> updated_view(v, profile, target, local_port, remote_port, document_name)[None] == v[None],
{
}

/// Reads, writes and resolves per-profile session configurations.
pub struct SessionConfigManager;

impl SessionConfigManager {
    /// Resolves the session parameters: the request value of each field, else the
    /// stored one, else the default.
    pub fn resolve_config(
        stored: Option<SessionConfig>,
        cli_target: Option<String>,
        cli_local_port: Option<u16>,
        cli_remote_port: Option<u16>,
        cli_document: Option<String>,
    ) -> (r: Result<SessionConfig, AppError>)
        ensures
            match r {
                Ok(c) => resolved_config(config_view(stored), opt_text(cli_target), cli_local_port,
                    cli_remote_port, opt_text(cli_document)) == Ok::<ConfigModel, AppError>(c@),
                Err(e) => resolved_config(config_view(stored), opt_text(cli_target), cli_local_port,
                    cli_remote_port, opt_text(cli_document)) == Err::<ConfigModel, AppError>(e),
            },
    {
        let target = match cli_target {
            Some(t) => t,
            None => match &stored {
                Some(c) => {
                    if is_blank_text(c.target.as_str()) {
                        return Err(AppError::TargetRequired);
                    }
                    c.target.clone()
                },
                None => return Err(AppError::TargetRequired),
            },
        };
        let local_port = match cli_local_port {
            Some(p) => p,
            None => match &stored {
                Some(c) => c.local_port,
                None => DEFAULT_LOCAL_PORT,
            },
        };
        let remote_port = match cli_remote_port {
            Some(p) => p,
            None => match &stored {
                Some(c) => c.remote_port,
                None => DEFAULT_REMOTE_PORT,
            },
        };
        let document_name = match cli_document {
            Some(d) => d,
            None => match &stored {
                Some(c) => c.document_name.clone(),
                None => String::from_str("AWS-StartPortForwardingSession"),
            },
        };
        proof {
            reveal_strlit("AWS-StartPortForwardingSession");
        }
        Ok(SessionConfig { target, local_port, remote_port, document_name })
    }

    /// Reads the configuration of `profile` from a parsed store.
    pub fn load_config_from(ini: &Ini, profile: &str) -> (r: Option<SessionConfig>)
        ensures
            config_view(r) == stored_config(ini_view(*ini), profile@),
    {
        if !ini_has_section(ini, profile) {
            return None;
        }
        proof {
            reveal_strlit("target");
            reveal_strlit("local_port");
            reveal_strlit("remote_port");
            reveal_strlit("document_name");
            reveal_strlit("AWS-StartPortForwardingSession");
        }
        let target = match ini_get(ini, profile, "target") {
            Some(t) => t,
            None => String::new(),
        };
        let local_port = match ini_get(ini, profile, "local_port") {
            Some(s) => match parse_u16(s.as_str()) {
                Some(p) => p,
                None => DEFAULT_LOCAL_PORT,
            },
            None => DEFAULT_LOCAL_PORT,
        };
        let remote_port = match ini_get(ini, profile, "remote_port") {
            Some(s) => match parse_u16(s.as_str()) {
                Some(p) => p,
                None => DEFAULT_REMOTE_PORT,
            },
            None => DEFAULT_REMOTE_PORT,
        };
        let document_name = match ini_get(ini, profile, "document_name") {
            Some(d) => d,
            None => String::from_str("AWS-StartPortForwardingSession"),
        };
        Some(SessionConfig { target, local_port, remote_port, document_name })
    }

    /// Reads the configuration of `profile` from the store text, `None` when the
    /// store does not exist.
    pub fn load_config(profile: &str, store: Option<&str>) -> (r: Result<Option<SessionConfig>, AppError>)
        ensures
            store is None ==> r == Ok::<Option<SessionConfig>, AppError>(None),
            store matches Some(text) ==> match parsed_ini(text@) {
                None => r == Err::<Option<SessionConfig>, AppError>(AppError::ConfigUnreadable),
                Some(v) => (r matches Ok(c) && config_view(c) == stored_config(v, profile@)),
            },
    {
        match store {
            None => Ok(None),
            Some(text) => match parse_ini(text) {
                None => Err(AppError::ConfigUnreadable),
                Some(ini) => Ok(Self::load_config_from(&ini, profile)),
            },
        }
    }

    /// A copy of a parsed store that holds what its view shows and nothing more:
    /// each section once and each key once, with an empty general section.
    pub fn normalized(ini: &Ini) -> (r: Ini)
        ensures
            ini_single(r),
            ini_view(r) == ini_view(*ini).insert(None, Map::empty()),
    {
        let ghost src = ini_view(*ini);
        let names = ini_section_names(ini);
        let mut out = new_ini();
        let mut k: usize = 0;
        while k < names.len()
            invariant
                k <= names@.len(),
                src == ini_view(*ini),
                ini_single(out),
                forall|i: int| 0 <= i < names@.len() ==> src.contains_key(#[trigger] opt_text(names@[i])),
                forall|n: Option<Seq<char>>| #[trigger] src.contains_key(n)
                    ==> exists|i: int| 0 <= i < names@.len() && opt_text(names@[i]) == n,
                forall|i: int, j: int| 0 <= i < j < names@.len() ==> opt_text(names@[i]) != opt_text(names@[j]),
                ini_view(out).contains_key(None),
                ini_view(out)[None] == Map::<Seq<char>, Seq<char>>::empty(),
                forall|n: Option<Seq<char>>| n is Some ==> (ini_view(out).contains_key(n)
                    <==> exists|j: int| 0 <= j < k && #[trigger] opt_text(names@[j]) == n),
                forall|n: Option<Seq<char>>| n is Some && #[trigger] ini_view(out).contains_key(n) ==> ini_view(out)[n] == src[n],
            decreases names@.len() - k,
        {
            if let Some(name) = &names[k] {
                let ghost before = ini_view(out);
                let ghost key = Some(name@);
                assert(opt_text(names@[k as int]) == key);
                assert(!before.contains_key(key)) by {
                    if before.contains_key(key) {
                        let j = choose|j: int| 0 <= j < k && #[trigger] opt_text(names@[j]) == key;
                        assert(opt_text(names@[j]) != opt_text(names@[k as int]));
                    }
                }
                assert(src.contains_key(key));
                ini_add_section(&mut out, name.as_str());
                let keys = ini_keys(ini, name.as_str());
                let mut i: usize = 0;
                while i < keys.len()
                    invariant
                        i <= keys@.len(),
                        src == ini_view(*ini),
                        src.contains_key(key),
                        key == Some(name@),
                        ini_single(out),
                        forall|m: int| 0 <= m < keys@.len() ==> src[key].contains_key(#[trigger] keys@[m]@),
                        forall|q: Seq<char>| #[trigger] src[key].contains_key(q) ==> exists|m: int| 0 <= m < keys@.len() && keys@[m]@ == q,
                        ini_view(out).contains_key(key),
                        ini_view(out).remove(key) == before,
                        forall|q: Seq<char>| #[trigger] ini_view(out)[key].contains_key(q)
                            <==> exists|m: int| 0 <= m < i && keys@[m]@ == q,
                        forall|q: Seq<char>| #[trigger] ini_view(out)[key].contains_key(q) ==> ini_view(out)[key][q] == src[key][q],
                    decreases keys@.len() - i,
                {
                    let kk = &keys[i];
                    assert(src[key].contains_key(keys@[i as int]@));
                    let value = ini_get(ini, name.as_str(), kk.as_str());
                    match value {
                        Some(v) => {
                            let ghost mid = ini_view(out);
                            ini_set(&mut out, name.as_str(), kk.as_str(), v.as_str());
                            proof {
                                assert(ini_view(out).remove(key) =~= mid.remove(key));
                                assert forall|q: Seq<char>| #[trigger] ini_view(out)[key].contains_key(q)
                                    <==> exists|m: int| 0 <= m < i + 1 && keys@[m]@ == q by {
                                    if q == keys@[i as int]@ {
                                        assert(0 <= i < i + 1 && keys@[i as int]@ == q);
                                    }
                                }
                            }
                        },
                        None => {},
                    }
                    i = i + 1;
                }
                proof {
                    assert(ini_view(out)[key] =~= src[key]) by {
                        assert forall|q: Seq<char>| ini_view(out)[key].contains_key(q) <==> src[key].contains_key(q) by {
                            if src[key].contains_key(q) {
                                let m = choose|m: int| 0 <= m < keys@.len() && keys@[m]@ == q;
                                assert(ini_view(out)[key].contains_key(keys@[m]@));
                            }
                        }
                    }
                    assert forall|n: Option<Seq<char>>| n is Some implies (ini_view(out).contains_key(n)
                        <==> exists|j: int| 0 <= j < k + 1 && #[trigger] opt_text(names@[j]) == n) by {
                        if n == key {
                            assert(opt_text(names@[k as int]) == n);
                        } else {
                            assert(ini_view(out).contains_key(n) == before.contains_key(n));
                        }
                    }
                    assert forall|n: Option<Seq<char>>| n is Some && #[trigger] ini_view(out).contains_key(n)
                        implies ini_view(out)[n] == src[n] by {
                        if n != key {
                            assert(before.contains_key(n));
                            assert(ini_view(out)[n] == before[n]);
                        }
                    }
                    assert(ini_view(out)[None] == before[None]);
                }
            }
            k = k + 1;
        }
        proof {
            assert(ini_view(out) =~= src.insert(None, Map::empty())) by {
                assert forall|n: Option<Seq<char>>| ini_view(out).contains_key(n) <==> src.insert(None, Map::empty()).contains_key(n) by {
                    if n is Some && src.contains_key(n) {
                        let i = choose|i: int| 0 <= i < names@.len() && opt_text(names@[i]) == n;
                        assert(opt_text(names@[i]) == n);
                    }
                    if n is Some && ini_view(out).contains_key(n) {
                        let j = choose|j: int| 0 <= j < k && #[trigger] opt_text(names@[j]) == n;
                        assert(src.contains_key(opt_text(names@[j])));
                    }
                }
            }
        }
        out
    }

    /// Writes each given value into the section of `profile`, creating it if needed.
    pub fn update_config_in(
        ini: &mut Ini,
        profile: &str,
        target: Option<String>,
        local_port: Option<u16>,
        remote_port: Option<u16>,
        document_name: Option<String>,
    )
        ensures
            ini_single(*old(ini)) ==> ini_single(*final(ini)),
            ini_view(*final(ini)) == updated_view(ini_view(*old(ini)), profile@, opt_text(target),
                local_port, remote_port, opt_text(document_name)),
    {
        proof {
            reveal_strlit("target");
            reveal_strlit("local_port");
            reveal_strlit("remote_port");
            reveal_strlit("document_name");
        }
        if let Some(t) = target {
            ini_set(ini, profile, "target", t.as_str());
        }
        if let Some(p) = local_port {
            let text = format_u16(p);
            ini_set(ini, profile, "local_port", text.as_str());
        }
        if let Some(p) = remote_port {
            let text = format_u16(p);
            ini_set(ini, profile, "remote_port", text.as_str());
        }
        if let Some(d) = document_name {
            ini_set(ini, profile, "document_name", d.as_str());
        }
    }

    /// Writes the given values for `profile` into the store text (a new store when
    /// `store` is `None`) and returns the text to save.
    pub fn update_config(
        store: Option<&str>,
        profile: &str,
        target: Option<String>,
        local_port: Option<u16>,
        remote_port: Option<u16>,
        document_name: Option<String>,
    ) -> (r: Result<String, AppError>)
        ensures
            r is Err <==> (store matches Some(text) && parsed_ini(text@) is None),
            r is Err ==> r == Err::<String, AppError>(AppError::ConfigUnreadable),
            r matches Ok(t) ==> {
                let after = updated_view(base_view(text_opt(store)), profile@, opt_text(target), local_port,
                    remote_port, opt_text(document_name));
                plain(after) ==> parsed_ini(t@) == Some(after)
            },
    {
        let ghost base = base_view(text_opt(store));
        let mut ini = match store {
            None => new_ini(),
            Some(text) => match parse_ini(text) {
                None => return Err(AppError::ConfigUnreadable),
                Some(parsed) => Self::normalized(&parsed),
            },
        };
        let ghost start = ini_view(ini);
        Self::update_config_in(&mut ini, profile, target, local_port, remote_port, document_name);
        let t = ini_text(&ini);
        proof {
            let after = updated_view(base, profile@, opt_text(target), local_port, remote_port, opt_text(document_name));
            if plain(after) {
                lemma_update_keeps_general(base, profile@, opt_text(target), local_port, remote_port, opt_text(document_name));
                assert(start =~= base);
            }
        }
        Ok(t)
    }

    /// Removes the section of `profile`.
    pub fn remove_config_in(ini: &mut Ini, profile: &str)
        ensures
            ini_single(*old(ini)) ==> ini_single(*final(ini)),
            ini_view(*final(ini)) == ini_view(*old(ini)).remove(Some(profile@)),
    {
        ini_delete(ini, profile);
    }

    /// Removes the section of `profile` from the store text; `None` when there is
    /// no store and so nothing to write.
    pub fn remove_config(store: Option<&str>, profile: &str) -> (r: Result<Option<String>, AppError>)
        ensures
            store is None ==> r == Ok::<Option<String>, AppError>(None),
            store matches Some(text) ==> (r is Err <==> parsed_ini(text@) is None),
            store matches Some(text) ==> (r is Ok ==> r.unwrap() is Some),
            r is Err ==> r == Err::<Option<String>, AppError>(AppError::ConfigUnreadable),
            match (store, r) {
                (Some(text), Ok(Some(t))) => {
                    let after = parsed_ini(text@).unwrap().remove(Some(profile@));
                    plain(after) ==> parsed_ini(t@) == Some(after)
                },
                _ => true,
            },
    {
        match store {
            None => Ok(None),
            Some(text) => match parse_ini(text) {
                None => Err(AppError::ConfigUnreadable),
                Some(parsed) => {
                    let mut ini = Self::normalized(&parsed);
                    Self::remove_config_in(&mut ini, profile);
                    let t = ini_text(&ini);
                    proof {
                        let after = parsed_ini(text@).unwrap().remove(Some(profile@));
                        if plain(after) {
                            assert(ini_view(ini) =~= after);
                        }
                    }
                    Ok(Some(t))
                },
            },
        }
    }

    /// Adds a section for `name` with every key present and empty.
    fn init_session_section(ini: &mut Ini, name: &str)
        ensures
            ini_single(*old(ini)) ==> ini_single(*final(ini)),
            ini_order(*final(ini)) == order_after_use(ini_view(*old(ini)), ini_order(*old(ini)), name@),
            ini_view(*final(ini)) == ini_view(*old(ini)).insert(Some(name@),
                (if ini_view(*old(ini)).contains_key(Some(name@)) { ini_view(*old(ini))[Some(name@)] }
                 else { Map::empty() }).union_prefer_right(blank_section())),
    {
        proof {
            reveal_strlit("target");
            reveal_strlit("local_port");
            reveal_strlit("remote_port");
            reveal_strlit("document_name");
            reveal_strlit("");
        }
        ini_set(ini, name, "target", "");
        ini_set(ini, name, "local_port", "");
        ini_set(ini, name, "remote_port", "");
        ini_set(ini, name, "document_name", "");
        assert(ini_view(*final(ini)) =~~= ini_view(*old(ini)).insert(Some(name@),
            (if ini_view(*old(ini)).contains_key(Some(name@)) { ini_view(*old(ini))[Some(name@)] }
             else { Map::empty() }).union_prefer_right(blank_section())));
    }

    /// A new store with a blank section for each profile.
    pub fn initial_store(profiles: &Vec<AwsProfile>) -> (r: Ini)
        ensures
            initial_view(ini_view(r), profiles@),
            ini_single(r),
            ini_order(r).len() > 0 && ini_order(r)[0] is None,
            distinct_profiles(profiles@) ==> ini_order(r) == initial_order(profiles@),
    {
        let mut ini = new_ini();
        let mut k: usize = 0;
        while k < profiles.len()
            invariant
                k <= profiles@.len(),
                forall|n: Option<Seq<char>>| ini_view(ini).contains_key(n) <==> (n is None
                    || exists|i: int| 0 <= i < k && n == Some(#[trigger] profiles@[i].name@)),
                forall|i: int| 0 <= i < k ==> ini_view(ini)[Some(#[trigger] profiles@[i].name@)] == blank_section(),
                ini_view(ini)[None] == Map::<Seq<char>, Seq<char>>::empty(),
                ini_single(ini),
                ini_order(ini).len() > 0 && ini_order(ini)[0] is None,
                distinct_profiles(profiles@) ==> ini_order(ini) == initial_order(profiles@.subrange(0, k as int)),
            decreases profiles@.len() - k,
        {
            let ghost before = ini_view(ini);
            let ghost before_order = ini_order(ini);
            Self::init_session_section(&mut ini, profiles[k].name.as_str());
            proof {
                let nm = profiles@[k as int].name@;
                if distinct_profiles(profiles@) {
                    assert(!before.contains_key(Some(nm))) by {
                        if before.contains_key(Some(nm)) {
                            let j = choose|j: int| 0 <= j < k && Some(nm) == Some(#[trigger] profiles@[j].name@);
                            assert(profiles@[j].name@ != profiles@[k as int].name@);
                        }
                    }
                    assert(initial_order(profiles@.subrange(0, k + 1)) =~= initial_order(profiles@.subrange(0, k as int)).push(Some(nm)));
                }
            }
            proof {
                let nm = profiles@[k as int].name@;
                let sec = if before.contains_key(Some(nm)) { before[Some(nm)] } else { Map::empty() };
                assert(sec.union_prefer_right(blank_section()) =~= blank_section()) by {
                    if before.contains_key(Some(nm)) {
                        let j = choose|j: int| 0 <= j < k && Some(nm) == Some(#[trigger] profiles@[j].name@);
                        assert(before[Some(profiles@[j].name@)] == blank_section());
                    }
                }
                assert forall|n: Option<Seq<char>>| ini_view(ini).contains_key(n) <==> (n is None
                    || exists|i: int| 0 <= i < k + 1 && n == Some(#[trigger] profiles@[i].name@)) by {
                    if n == Some(nm) {
                        assert(0 <= k < k + 1 && n == Some(profiles@[k as int].name@));
                    }
                    if exists|i: int| 0 <= i < k + 1 && n == Some(#[trigger] profiles@[i].name@) {
                        let i = choose|i: int| 0 <= i < k + 1 && n == Some(#[trigger] profiles@[i].name@);
                        if i < k {
                            assert(before.contains_key(n));
                        }
                    }
                }
            }
            k = k + 1;
        }
        ini
    }

    /// Creates the store with a blank section for each profile; refused when the
    /// store already exists, so that edits made by hand are kept.
    pub fn create_config_from_profiles(store_exists: bool, profiles: &Vec<AwsProfile>) -> (r: Result<String, AppError>)
        ensures
            store_exists <==> r == Err::<String, AppError>(AppError::ConfigAlreadyExists),
            !store_exists ==> r is Ok,
            r matches Ok(t) ==> exists|v: Map<Option<Seq<char>>, Map<Seq<char>, Seq<char>>>|
                initial_view(v, profiles@) && (plain(v) ==> parsed_ini(t@) == Some(v)
                    && (distinct_profiles(profiles@) ==> parsed_order(t@) == initial_order(profiles@))),
    {
        if store_exists {
            return Err(AppError::ConfigAlreadyExists);
        }
        let ini = Self::initial_store(profiles);
        let t = ini_text(&ini);
        proof {
            assert(profiles@.subrange(0, profiles@.len() as int) =~= profiles@);
        }
        assert(initial_view(ini_view(ini), profiles@) && (plain(ini_view(ini)) ==> parsed_ini(t@) == Some(ini_view(ini))
            && (distinct_profiles(profiles@) ==> parsed_order(t@) == initial_order(profiles@))));
        Ok(t)
    }

    /// The names of the profile sections of a parsed store, each once.
    pub fn configured_profiles(ini: &Ini) -> (r: Vec<String>)
        ensures
            lists_sections(ini_view(*ini), r@),
            names_view(r@) == named_sections(ini_order(*ini)),
    {
        let names = ini_section_names(ini);
        let mut out: Vec<String> = Vec::new();
        let mut k: usize = 0;
        while k < names.len()
            invariant
                k <= names@.len(),
                forall|i: int| 0 <= i < names@.len() ==> ini_view(*ini).contains_key(#[trigger] opt_text(names@[i])),
                forall|i: int, j: int| 0 <= i < j < names@.len() ==> opt_text(names@[i]) != opt_text(names@[j]),
                forall|i: int| 0 <= i < out@.len() ==> exists|j: int| 0 <= j < k
                    && opt_text(names@[j]) == Some(#[trigger] out@[i]@),
                forall|j: int| 0 <= j < k && #[trigger] names@[j] is Some ==> exists|i: int| 0 <= i < out@.len()
                    && Some(out@[i]@) == opt_text(names@[j]),
                forall|i: int, j: int| 0 <= i < j < out@.len() ==> out@[i]@ != out@[j]@,
                names@.map_values(|n: Option<String>| opt_text(n)) == ini_order(*ini),
                names_view(out@) == named_sections(ini_order(*ini).subrange(0, k as int)),
            decreases names@.len() - k,
        {
            proof {
                let o = ini_order(*ini);
                assert(o.subrange(0, k + 1).drop_last() =~= o.subrange(0, k as int));
                assert(o[k as int] == opt_text(names@[k as int]));
            }
            if let Some(n) = &names[k] {
                let ghost before = out@;
                out.push(n.clone());
                proof {
                    assert forall|i: int| 0 <= i < out@.len() - 1 implies out@[i]@ != n@ by {
                        assert(out@[i] == before[i]);
                        let j = choose|j: int| 0 <= j < k && opt_text(names@[j]) == Some(#[trigger] before[i]@);
                        assert(opt_text(names@[j]) != opt_text(names@[k as int]));
                    }
                    assert forall|i: int| 0 <= i < out@.len() implies exists|j: int| 0 <= j < k + 1
                        && opt_text(names@[j]) == Some(#[trigger] out@[i]@) by {
                        if i == out@.len() - 1 {
                            assert(opt_text(names@[k as int]) == Some(out@[i]@));
                        } else {
                            assert(out@[i] == before[i]);
                        }
                    }
                    assert forall|j: int| 0 <= j < k + 1 && #[trigger] names@[j] is Some implies exists|i: int|
                        0 <= i < out@.len() && Some(out@[i]@) == opt_text(names@[j]) by {
                        if j == k {
                            assert(Some(out@[out@.len() - 1]@) == opt_text(names@[j]));
                        } else {
                            let i = choose|i: int| 0 <= i < before.len() && Some(before[i]@) == opt_text(names@[j]);
                            assert(out@[i] == before[i]);
                        }
                    }
                }
            }
            assert(names_view(out@) =~= named_sections(ini_order(*ini).subrange(0, k + 1)));
            k = k + 1;
        }
        proof {
            assert(ini_order(*ini).subrange(0, k as int) =~= ini_order(*ini));
            assert forall|i: int, j: int| 0 <= i < j < out@.len() implies out@[i]@ != out@[j]@ by {}
            assert forall|i: int| 0 <= i < out@.len() implies ini_view(*ini).contains_key(Some(#[trigger] out@[i]@)) by {
                let j = choose|j: int| 0 <= j < k && opt_text(names@[j]) == Some(#[trigger] out@[i]@);
                assert(ini_view(*ini).contains_key(opt_text(names@[j])));
            }
            assert forall|s: Seq<char>| #[trigger] ini_view(*ini).contains_key(Some(s))
                implies exists|i: int| 0 <= i < out@.len() && out@[i]@ == s by {
                let j = choose|j: int| 0 <= j < names@.len() && opt_text(names@[j]) == Some(s);
                assert(names@[j] is Some);
            }
        }
        out
    }

    /// The names of the profiles that have a section in the store text; none when
    /// there is no store.
    pub fn list_configured_profiles(store: Option<&str>) -> (r: Result<Vec<String>, AppError>)
        ensures
            store is None ==> (r matches Ok(v) && v@.len() == 0),
            store matches Some(text) ==> match (parsed_ini(text@), r) {
                (None, Err(e)) => e == AppError::ConfigUnreadable,
                (Some(v), Ok(names)) => lists_sections(v, names@) && names_view(names@) == named_sections(parsed_order(text@)),
                _ => false,
            },
    {
        match store {
            None => Ok(Vec::new()),
            Some(text) => match parse_ini(text) {
                None => Err(AppError::ConfigUnreadable),
                Some(ini) => Ok(Self::configured_profiles(&ini)),
            },
        }
    }
}

} // verus!
