//! Identity-provider profiles, merged from the config and credentials stores.

use vstd::prelude::*;
use ini::Ini;
use crate::error::AppError;
use crate::ini_store::{ini_order, parsed_order, ini_get, ini_section_names, ini_view, parse_ini, parsed_ini, view_get};
use crate::text::{text_opt, has_slash, is_last_segment, last_segment, opt_text, same_text};

verus! {

/// A named identity-provider profile.
#[derive(Debug, Clone)]
pub struct AwsProfile {
    pub name: String,
    pub region: Option<String>,
    pub output: Option<String>,
}

/// The profile that a config section names: the section name without its
/// `profile ` prefix.
pub open spec fn profile_name(section: Seq<char>) -> Seq<char> {
    if section.len() >= 8 && section.subrange(0, 8) == "profile "@ {
        section.subrange(8, section.len() as int)
    } else {
        section
    }
}

/// Some section of the config store names `name`.
pub open spec fn in_config(cv: Map<Option<Seq<char>>, Map<Seq<char>, Seq<char>>>, name: Seq<char>) -> bool {
    exists|s: Seq<char>| #[trigger] cv.contains_key(Some(s)) && profile_name(s) == name
}

/// `p` is read from a config section that names it.
pub open spec fn from_config(cv: Map<Option<Seq<char>>, Map<Seq<char>, Seq<char>>>, p: AwsProfile) -> bool {
    exists|s: Seq<char>| #[trigger] cv.contains_key(Some(s)) && profile_name(s) == p.name@
        && opt_text(p.region) == view_get(cv, s, "region"@)
        && opt_text(p.output) == view_get(cv, s, "output"@)
}

/// `p` is read from the first section, in the store's order, that names it.
pub open spec fn reads_first_section(
    cv: Map<Option<Seq<char>>, Map<Seq<char>, Seq<char>>>,
    co: Seq<Option<Seq<char>>>,
    p: AwsProfile,
) -> bool {
    exists|j: int| #![trigger co[j]] 0 <= j < co.len() && co[j] is Some && profile_name(co[j].unwrap()) == p.name@
        && (forall|m: int| 0 <= m < j && (#[trigger] co[m]) is Some ==> profile_name(co[m].unwrap()) != p.name@)
        && opt_text(p.region) == view_get(cv, co[j].unwrap(), "region"@)
        && opt_text(p.output) == view_get(cv, co[j].unwrap(), "output"@)
}

/// `p` is only in the credentials store, and so has no settings.
pub open spec fn from_credentials(
    cv: Map<Option<Seq<char>>, Map<Seq<char>, Seq<char>>>,
    crv: Map<Option<Seq<char>>, Map<Seq<char>, Seq<char>>>,
    p: AwsProfile,
) -> bool {
    &&& !in_config(cv, p.name@)
    &&& crv.contains_key(Some(p.name@))
    &&& p.region is None
    &&& p.output is None
}

/// `names` is free of repeats.
pub open spec fn distinct_names(v: Seq<AwsProfile>) -> bool {
    forall|i: int, j: int| 0 <= i < j < v.len() ==> v[i].name@ != v[j].name@
}

/// `v` is the merge of the two stores: one profile per name; each name of the
/// config store read from there (from the first section, in the order `co`, that
/// names it), each other name of the credentials store with
/// no settings.
pub open spec fn merged_profiles(
    cv: Map<Option<Seq<char>>, Map<Seq<char>, Seq<char>>>,
    co: Seq<Option<Seq<char>>>,
    crv: Map<Option<Seq<char>>, Map<Seq<char>, Seq<char>>>,
    v: Seq<AwsProfile>,
) -> bool {
    &&& distinct_names(v)
    &&& forall|i: int| 0 <= i < v.len() ==> from_config(cv, #[trigger] v[i]) || from_credentials(cv, crv, v[i])
    &&& forall|i: int| 0 <= i < v.len() && in_config(cv, (#[trigger] v[i]).name@) ==> reads_first_section(cv, co, v[i])
    &&& forall|s: Seq<char>| #[trigger] cv.contains_key(Some(s)) ==> exists|i: int| 0 <= i < v.len() && v[i].name@ == profile_name(s)
    &&& forall|s: Seq<char>| #[trigger] crv.contains_key(Some(s)) ==> exists|i: int| 0 <= i < v.len() && v[i].name@ == s
}

/// The view of the credentials store text: empty when missing or unreadable.
pub open spec fn creds_view(credentials: Option<Seq<char>>) -> Map<Option<Seq<char>>, Map<Seq<char>, Seq<char>>> {
    match credentials {
        Some(t) => match parsed_ini(t) {
            Some(v) => v,
            None => Map::empty(),
        },
        None => Map::empty(),
    }
}

/// The store has a named section.
pub open spec fn has_named_section(v: Map<Option<Seq<char>>, Map<Seq<char>, Seq<char>>>) -> bool {
    exists|s: Seq<char>| #[trigger] v.contains_key(Some(s))
}

/// Some profile of the two stores is named `name`.
pub open spec fn is_listed(
    cv: Map<Option<Seq<char>>, Map<Seq<char>, Seq<char>>>,
    crv: Map<Option<Seq<char>>, Map<Seq<char>, Seq<char>>>,
    name: Seq<char>,
) -> bool {
    in_config(cv, name) || crv.contains_key(Some(name))
}

/// What looking up `name` among the profiles of the two store texts gives: the
/// listing errors, else the profile of that name as the merge reads it, else
/// `ProfileNotFound`.
pub open spec fn lookup_result(
    config: Option<Seq<char>>,
    credentials: Option<Seq<char>>,
    name: Seq<char>,
    r: Result<AwsProfile, AppError>,
) -> bool {
    match config {
        None => r == Err::<AwsProfile, AppError>(AppError::ConfigMissing),
        Some(t) => match parsed_ini(t) {
            None => r == Err::<AwsProfile, AppError>(AppError::ConfigUnreadable),
            Some(cv) => {
                let crv = creds_view(credentials);
                if !has_named_section(cv) && !has_named_section(crv) {
                    r == Err::<AwsProfile, AppError>(AppError::NoProfiles)
                } else if is_listed(cv, crv, name) {
                    r matches Ok(p) && p.name@ == name && (from_config(cv, p) || from_credentials(cv, crv, p))
                        && (in_config(cv, name) ==> reads_first_section(cv, parsed_order(t), p))
                } else {
                    r matches Err(AppError::ProfileNotFound(n)) && n@ == name
                }
            },
        },
    }
}

/// Reads profile definitions.
pub struct AwsConfig;

impl AwsConfig {
    /// The user name of an identity ARN: what follows its last `/`. An ARN
    /// without any `/` is malformed.
    pub fn username_from_arn(arn: &str) -> (r: Result<String, AppError>)
        ensures
            !has_slash(arn@) <==> r == Err::<String, AppError>(AppError::IdentityUnavailable),
            r is Err ==> r == Err::<String, AppError>(AppError::IdentityUnavailable),
            r matches Ok(u) ==> is_last_segment(arn@, u@),
    {
        let user = last_segment(arn);
        if user.as_str().unicode_len() == arn.unicode_len() {
            proof {
                assert(user@ =~= arn@);
                assert forall|i: int| 0 <= i < arn@.len() implies arn@[i] != '/' by {
                    assert(user@[i] == arn@[i]);
                }
            }
            Err(AppError::IdentityUnavailable)
        } else {
            assert(arn@[arn@.len() - user@.len() - 1] == '/');
            Ok(user)
        }
    }

    /// The profile that a config section names.
    pub fn profile_name(section: &str) -> (r: String)
        ensures
            r@ == profile_name(section@),
    {
        proof {
            reveal_strlit("profile ");
        }
        let n = section.unicode_len();
        if n >= 8 && same_text(section.substring_char(0, 8), "profile ") {
            String::from_str(section.substring_char(8, n))
        } else {
            String::from_str(section)
        }
    }

    /// Whether a profile named `name` is in `v`.
    pub fn has_name(v: &Vec<AwsProfile>, name: &str) -> (r: bool)
        ensures
            r == exists|i: int| 0 <= i < v@.len() && (#[trigger] v@[i]).name@ == name@,
    {
        let mut k: usize = 0;
        while k < v.len()
            invariant
                k <= v@.len(),
                forall|i: int| 0 <= i < k ==> (#[trigger] v@[i]).name@ != name@,
            decreases v@.len() - k,
        {
            if same_text(v[k].name.as_str(), name) {
                return true;
            }
            k = k + 1;
        }
        false
    }

    /// Merges the parsed config store with the parsed credentials store, if any.
    pub fn profiles_from(config: &Ini, credentials: Option<&Ini>) -> (r: Vec<AwsProfile>)
        ensures
            merged_profiles(ini_view(*config), ini_order(*config), match credentials {
                Some(c) => ini_view(*c),
                None => Map::empty(),
            }, r@),
    {
        let ghost cv = ini_view(*config);
        let ghost crv = match credentials {
            Some(c) => ini_view(*c),
            None => Map::<Option<Seq<char>>, Map<Seq<char>, Seq<char>>>::empty(),
        };
        proof {
            reveal_strlit("region");
            reveal_strlit("output");
        }
        let names = ini_section_names(config);
        let mut out: Vec<AwsProfile> = Vec::new();
        let mut k: usize = 0;
        while k < names.len()
            invariant
                k <= names@.len(),
                cv == ini_view(*config),
                forall|i: int| 0 <= i < names@.len() ==> cv.contains_key(#[trigger] opt_text(names@[i])),
                forall|n: Option<Seq<char>>| #[trigger] cv.contains_key(n)
                    ==> exists|i: int| 0 <= i < names@.len() && opt_text(names@[i]) == n,
                distinct_names(out@),
                forall|i: int| 0 <= i < out@.len() ==> from_config(cv, #[trigger] out@[i]),
                forall|i: int| 0 <= i < out@.len() ==> reads_first_section(cv, ini_order(*config), #[trigger] out@[i]),
                names@.map_values(|n: Option<String>| opt_text(n)) == ini_order(*config),
                forall|j: int| 0 <= j < k && (#[trigger] names@[j]) is Some ==> exists|i: int| 0 <= i < out@.len()
                    && out@[i].name@ == profile_name(names@[j].unwrap()@),
            decreases names@.len() - k,
        {
            let ghost before = out@;
            if let Some(section) = &names[k] {
                let name = Self::profile_name(section.as_str());
                assert(cv.contains_key(opt_text(names@[k as int])));
                if !Self::has_name(&out, name.as_str()) {
                    let region = ini_get(config, section.as_str(), "region");
                    let output = ini_get(config, section.as_str(), "output");
                    let p = AwsProfile { name, region, output };
                    assert(from_config(cv, p));
                    proof {
                        let co = ini_order(*config);
                        assert(co[k as int] == opt_text(names@[k as int]));
                        assert forall|m: int| 0 <= m < k && (#[trigger] co[m]) is Some implies profile_name(co[m].unwrap()) != p.name@ by {
                            assert(co[m] == opt_text(names@[m]));
                            assert(names@[m] is Some);
                        }
                        assert(reads_first_section(cv, co, p));
                    }
                    out.push(p);
                    assert(out@[out@.len() - 1] == p);
                }
                proof {
                    assert(exists|i: int| 0 <= i < out@.len() && out@[i].name@ == profile_name(names@[k as int].unwrap()@));
                }
            }
            proof {
                assert forall|j: int| 0 <= j < k + 1 && (#[trigger] names@[j]) is Some implies exists|i: int| 0 <= i < out@.len()
                    && out@[i].name@ == profile_name(names@[j].unwrap()@) by {
                    if j < k {
                        let i = choose|i: int| 0 <= i < before.len() && before[i].name@ == profile_name(names@[j].unwrap()@);
                        assert(out@[i] == before[i]);
                    }
                }
            }
            k = k + 1;
        }
        proof {
            assert forall|s: Seq<char>| #[trigger] cv.contains_key(Some(s)) implies
                exists|i: int| 0 <= i < out@.len() && out@[i].name@ == profile_name(s) by {
                let j = choose|j: int| 0 <= j < names@.len() && opt_text(names@[j]) == Some(s);
                assert(names@[j] is Some);
            }
        }
        if let Some(creds) = credentials {
            let cnames = ini_section_names(creds);
            let mut k: usize = 0;
            while k < cnames.len()
                invariant
                    k <= cnames@.len(),
                    cv == ini_view(*config),
                    crv == ini_view(*creds),
                    forall|i: int| 0 <= i < cnames@.len() ==> crv.contains_key(#[trigger] opt_text(cnames@[i])),
                    forall|n: Option<Seq<char>>| #[trigger] crv.contains_key(n)
                        ==> exists|i: int| 0 <= i < cnames@.len() && opt_text(cnames@[i]) == n,
                    distinct_names(out@),
                    forall|i: int| 0 <= i < out@.len() ==> from_config(cv, #[trigger] out@[i]) || from_credentials(cv, crv, out@[i]),
                    forall|i: int| 0 <= i < out@.len() && in_config(cv, (#[trigger] out@[i]).name@)
                        ==> reads_first_section(cv, ini_order(*config), out@[i]),
                    forall|s: Seq<char>| #[trigger] cv.contains_key(Some(s)) ==> exists|i: int| 0 <= i < out@.len() && out@[i].name@ == profile_name(s),
                    forall|j: int| 0 <= j < k && (#[trigger] cnames@[j]) is Some ==> exists|i: int| 0 <= i < out@.len()
                        && out@[i].name@ == cnames@[j].unwrap()@,
                decreases cnames@.len() - k,
            {
                let ghost before = out@;
                if let Some(section) = &cnames[k] {
                    assert(crv.contains_key(opt_text(cnames@[k as int])));
                    if !Self::has_name(&out, section.as_str()) {
                        let p = AwsProfile { name: section.clone(), region: None, output: None };
                        proof {
                            if in_config(cv, section@) {
                                let s = choose|s: Seq<char>| #[trigger] cv.contains_key(Some(s)) && profile_name(s) == section@;
                                assert(exists|i: int| 0 <= i < out@.len() && out@[i].name@ == profile_name(s));
                            }
                        }
                        out.push(p);
                        assert(out@[out@.len() - 1] == p);
                    }
                    proof {
                        assert(exists|i: int| 0 <= i < out@.len() && out@[i].name@ == cnames@[k as int].unwrap()@);
                    }
                }
                proof {
                    assert forall|j: int| 0 <= j < k + 1 && (#[trigger] cnames@[j]) is Some implies exists|i: int| 0 <= i < out@.len()
                        && out@[i].name@ == cnames@[j].unwrap()@ by {
                        if j < k {
                            let i = choose|i: int| 0 <= i < before.len() && before[i].name@ == cnames@[j].unwrap()@;
                            assert(out@[i] == before[i]);
                        }
                    }
                    assert forall|s: Seq<char>| #[trigger] cv.contains_key(Some(s)) implies exists|i: int| 0 <= i < out@.len()
                        && out@[i].name@ == profile_name(s) by {
                        let i = choose|i: int| 0 <= i < before.len() && before[i].name@ == profile_name(s);
                        assert(out@[i] == before[i]);
                    }
                }
                k = k + 1;
            }
            proof {
                assert forall|s: Seq<char>| #[trigger] crv.contains_key(Some(s)) implies
                    exists|i: int| 0 <= i < out@.len() && out@[i].name@ == s by {
                    let j = choose|j: int| 0 <= j < cnames@.len() && opt_text(cnames@[j]) == Some(s);
                    assert(cnames@[j] is Some);
                }
            }
        }
        out
    }

    /// Lists the profiles of the config store text (required) merged with those of
    /// the credentials store text (ignored when missing or unreadable).
    pub fn list_profiles(config: Option<&str>, credentials: Option<&str>) -> (r: Result<Vec<AwsProfile>, AppError>)
        ensures
            config is None ==> r == Err::<Vec<AwsProfile>, AppError>(AppError::ConfigMissing),
            config matches Some(text) ==> match parsed_ini(text@) {
                None => r == Err::<Vec<AwsProfile>, AppError>(AppError::ConfigUnreadable),
                Some(cv) => {
                    let crv = creds_view(text_opt(credentials));
                    match r {
                        Ok(v) => v@.len() > 0 && merged_profiles(cv, parsed_order(text@), crv, v@),
                        Err(e) => e == AppError::NoProfiles
                            && (forall|s: Seq<char>| !(#[trigger] cv.contains_key(Some(s))))
                            && (forall|s: Seq<char>| !(#[trigger] crv.contains_key(Some(s)))),
                    }
                },
            },
    {
        let text = match config {
            None => return Err(AppError::ConfigMissing),
            Some(t) => t,
        };
        let ini = match parse_ini(text) {
            None => return Err(AppError::ConfigUnreadable),
            Some(i) => i,
        };
        let creds = match credentials {
            Some(t) => parse_ini(t),
            None => None,
        };
        let profiles = match &creds {
            Some(c) => Self::profiles_from(&ini, Some(c)),
            None => Self::profiles_from(&ini, None),
        };
        if profiles.len() == 0 {
            return Err(AppError::NoProfiles);
        }
        Ok(profiles)
    }

    /// The profile named `name` among the listed ones.
    pub fn get_profile(name: &str, config: Option<&str>, credentials: Option<&str>) -> (r: Result<AwsProfile, AppError>)
        ensures
            lookup_result(text_opt(config), text_opt(credentials), name@, r),
    {
        let profiles = Self::list_profiles(config, credentials)?;
        let r = Self::find_profile(&profiles, name);
        proof {
            let cv = parsed_ini(config.unwrap()@).unwrap();
            let crv = creds_view(text_opt(credentials));
            assert(has_named_section(cv) || has_named_section(crv)) by {
                let p = profiles@[0];
                if from_config(cv, p) {
                    let s = choose|s: Seq<char>| #[trigger] cv.contains_key(Some(s)) && profile_name(s) == p.name@
                        && opt_text(p.region) == view_get(cv, s, "region"@)
                        && opt_text(p.output) == view_get(cv, s, "output"@);
                    assert(cv.contains_key(Some(s)));
                } else {
                    assert(crv.contains_key(Some(p.name@)));
                }
            }
            if is_listed(cv, crv, name@) {
                if in_config(cv, name@) {
                    let s = choose|s: Seq<char>| #[trigger] cv.contains_key(Some(s)) && profile_name(s) == name@;
                    assert(exists|i: int| 0 <= i < profiles@.len() && profiles@[i].name@ == profile_name(s));
                } else {
                    assert(exists|i: int| 0 <= i < profiles@.len() && profiles@[i].name@ == name@);
                }
                let i = choose|i: int| 0 <= i < profiles@.len() && profiles@[i] == r.unwrap();
                assert(from_config(cv, profiles@[i]) || from_credentials(cv, crv, profiles@[i]));
            } else {
                assert forall|i: int| 0 <= i < profiles@.len() implies (#[trigger] profiles@[i]).name@ != name@ by {
                    let p = profiles@[i];
                    if from_config(cv, p) {
                        let s = choose|s: Seq<char>| #[trigger] cv.contains_key(Some(s)) && profile_name(s) == p.name@
                            && opt_text(p.region) == view_get(cv, s, "region"@)
                            && opt_text(p.output) == view_get(cv, s, "output"@);
                        assert(cv.contains_key(Some(s)) && profile_name(s) == p.name@);
                    }
                }
            }
        }
        r
    }

    /// The first profile named `name` in `profiles`.
    pub fn find_profile(profiles: &Vec<AwsProfile>, name: &str) -> (r: Result<AwsProfile, AppError>)
        ensures
            r matches Ok(p) ==> p.name@ == name@ && exists|i: int| 0 <= i < profiles@.len() && profiles@[i] == p,
            r is Err <==> !exists|i: int| 0 <= i < profiles@.len() && (#[trigger] profiles@[i]).name@ == name@,
            r matches Err(e) ==> (e matches AppError::ProfileNotFound(n) && n@ == name@),
    {
        let mut k: usize = 0;
        while k < profiles.len()
            invariant
                k <= profiles@.len(),
                forall|i: int| 0 <= i < k ==> (#[trigger] profiles@[i]).name@ != name@,
            decreases profiles@.len() - k,
        {
            if same_text(profiles[k].name.as_str(), name) {
                let found = &profiles[k];
                let p = AwsProfile { name: found.name.clone(), region: found.region.clone(), output: found.output.clone() };
                assert(p == profiles@[k as int]);
                return Ok(p);
            }
            k = k + 1;
        }
        Err(AppError::ProfileNotFound(String::from_str(name)))
    }

    /// Whether a profile named `name` is listed.
    pub fn profile_exists(name: &str, config: Option<&str>, credentials: Option<&str>) -> (r: bool)
        ensures
            r <==> match text_opt(config) {
                Some(t) => match parsed_ini(t) {
                    Some(cv) => is_listed(cv, creds_view(text_opt(credentials)), name@),
                    None => false,
                },
                None => false,
            },
    {
        Self::get_profile(name, config, credentials).is_ok()
    }
}

} // verus!
