//! What each user-facing command reports, and how the reports are assembled.

use vstd::prelude::*;
use crate::aws_config::AwsProfile;
use crate::connect::ConnectFlow;
use crate::error::AppError;
use crate::mfa::MfaManager;
use crate::session_config::SessionConfig;
use crate::text::{is_last_segment, last_segment, opt_text, same_text};
use crate::totp::{remaining_in_step, totp_outcome};

verus! {

/// One profile in a listing.
#[derive(Debug, Clone)]
pub struct ProfileInfo {
    pub name: String,
    pub region: Option<String>,
    pub has_mfa: bool,
    pub has_config: bool,
    pub mfa_serial: Option<String>,
}

/// The profile listing.
#[derive(Debug, Clone)]
pub struct ProfileListResponse {
    pub profiles: Vec<ProfileInfo>,
    pub has_configurations: bool,
}

/// The session configuration of a profile, after an optional update.
#[derive(Debug, Clone)]
pub struct ConfigResponse {
    pub profile: String,
    pub config: Option<SessionConfig>,
    pub config_path: String,
    pub updated: bool,
}

/// Who the caller is.
#[derive(Debug, Clone)]
pub struct IdentityInfo {
    pub account: String,
    pub username: String,
    pub arn: String,
}

/// The MFA state of a profile.
#[derive(Debug, Clone)]
pub struct StatusResponse {
    pub profile: String,
    pub has_mfa_secret: bool,
    pub identity: Option<IdentityInfo>,
    pub mfa_device: Option<String>,
}

/// The outcome of an MFA setup or import.
#[derive(Debug, Clone)]
pub struct MfaSetupResponse {
    pub success: bool,
    pub profile: String,
    pub serial: String,
    pub imported: bool,
}

/// The established tunnel.
#[derive(Debug, Clone)]
pub struct ConnectResponse {
    pub profile: String,
    pub target: String,
    pub local_port: u16,
    pub remote_port: u16,
    pub document: String,
    pub expiration: String,
    pub using_cached: bool,
}

/// A current code and the seconds it stays current.
#[derive(Debug, Clone)]
pub struct CodeResponse {
    pub code: String,
    pub ttl: u64,
}

/// The outcome of a removal.
#[derive(Debug, Clone)]
pub struct RemoveResponse {
    pub profile: String,
    pub success: bool,
}

/// `name` is among `names`.
pub open spec fn contains_name(names: Seq<String>, name: Seq<char>) -> bool {
    exists|i: int| 0 <= i < names.len() && (#[trigger] names[i])@ == name
}

/// Whether `name` is among `names`.
pub fn contains_text(names: &Vec<String>, name: &str) -> (r: bool)
    ensures
        r == contains_name(names@, name@),
{
    let mut k: usize = 0;
    while k < names.len()
        invariant
            k <= names@.len(),
            forall|i: int| 0 <= i < k ==> (#[trigger] names@[i])@ != name@,
        decreases names@.len() - k,
    {
        if same_text(names[k].as_str(), name) {
            return true;
        }
        k = k + 1;
    }
    false
}

/// The listing of `profiles`: for each, whether a secret is stored (`has_mfa`),
/// whether it has a session section (`configured`), and its device serial, which
/// is reported only where a secret is stored.
pub fn profile_list(
    profiles: &Vec<AwsProfile>,
    has_mfa: &Vec<bool>,
    serials: &Vec<Option<String>>,
    configured: &Vec<String>,
) -> (r: ProfileListResponse)
    requires
        has_mfa@.len() == profiles@.len(),
        serials@.len() == profiles@.len(),
    ensures
        r.has_configurations == (configured@.len() > 0),
        r.profiles@.len() == profiles@.len(),
        forall|i: int| 0 <= i < profiles@.len() ==> {
            let p = #[trigger] r.profiles@[i];
            &&& p.name@ == profiles@[i].name@
            &&& opt_text(p.region) == opt_text(profiles@[i].region)
            &&& p.has_mfa == has_mfa@[i]
            &&& p.has_config == contains_name(configured@, profiles@[i].name@)
            &&& opt_text(p.mfa_serial) == if has_mfa@[i] { opt_text(serials@[i]) } else { None }
        },
{
    let mut out: Vec<ProfileInfo> = Vec::new();
    let mut k: usize = 0;
    while k < profiles.len()
        invariant
            k <= profiles@.len(),
            has_mfa@.len() == profiles@.len(),
            serials@.len() == profiles@.len(),
            out@.len() == k,
            forall|i: int| 0 <= i < k ==> {
                let p = #[trigger] out@[i];
                &&& p.name@ == profiles@[i].name@
                &&& opt_text(p.region) == opt_text(profiles@[i].region)
                &&& p.has_mfa == has_mfa@[i]
                &&& p.has_config == contains_name(configured@, profiles@[i].name@)
                &&& opt_text(p.mfa_serial) == if has_mfa@[i] { opt_text(serials@[i]) } else { None }
            },
        decreases profiles@.len() - k,
    {
        let p = &profiles[k];
        let mfa = has_mfa[k];
        let serial = if mfa { serials[k].clone() } else { None };
        let info = ProfileInfo {
            name: p.name.clone(),
            region: p.region.clone(),
            has_mfa: mfa,
            has_config: contains_text(configured, p.name.as_str()),
            mfa_serial: serial,
        };
        out.push(info);
        k = k + 1;
    }
    ProfileListResponse { profiles: out, has_configurations: configured.len() > 0 }
}

/// The caller's identity from the account and ARN of an identity answer; a
/// missing field reads `Unknown`, and the user name is the last segment of the ARN.
pub fn identity_info(account: Option<String>, arn: Option<String>) -> (r: IdentityInfo)
    ensures
        r.account@ == match account { Some(a) => a@, None => "Unknown"@ },
        r.arn@ == match arn { Some(a) => a@, None => "Unknown"@ },
        is_last_segment(r.arn@, r.username@),
{
    let account = match account {
        Some(a) => a,
        None => String::from_str("Unknown"),
    };
    let arn = match arn {
        Some(a) => a,
        None => String::from_str("Unknown"),
    };
    let username = last_segment(arn.as_str());
    IdentityInfo { account, username, arn }
}

/// Whether a configuration request carries any value to store.
pub fn update_requested(
    target: &Option<String>,
    local_port: Option<u16>,
    remote_port: Option<u16>,
    document: &Option<String>,
) -> (r: bool)
    ensures
        r == (target.is_some() || local_port.is_some() || remote_port.is_some() || document.is_some()),
{
    target.is_some() || local_port.is_some() || remote_port.is_some() || document.is_some()
}

impl MfaManager {
    /// The code of `secret` at `time` and the seconds it stays current.
    pub fn code_response_at(secret: &str, time: u64) -> (r: Result<CodeResponse, AppError>)
        ensures
            match r {
                Ok(c) => totp_outcome(secret@, time as nat) == Ok::<Seq<char>, AppError>(c.code@)
                    && c.ttl as nat == remaining_in_step(time as nat),
                Err(e) => totp_outcome(secret@, time as nat) == Err::<Seq<char>, AppError>(e),
            },
    {
        let code = Self::generate_totp_code_at(secret, time)?;
        let ttl = Self::time_remaining_at(time);
        Ok(CodeResponse { code, ttl })
    }
}

/// The UTC time of a UNIX timestamp as `YYYY-MM-DD HH:MM:SS UTC`, when the
/// timestamp is in the range that `time` represents.
pub uninterp spec fn utc_text(secs: i64) -> Option<Seq<char>>;

/// Relies on time::OffsetDateTime::from_unix_timestamp and OffsetDateTime::format
/// with the description `[year]-[month]-[day] [hour]:[minute]:[second] UTC`.
#[verifier::external_body]
fn format_utc(secs: i64) -> (r: Option<String>)
    ensures
        opt_text(r) == utc_text(secs),
{
    let description = time::format_description::parse("[year]-[month]-[day] [hour]:[minute]:[second] UTC").ok()?;
    time::OffsetDateTime::from_unix_timestamp(secs).ok()?.format(&description).ok()
}

/// The report's text of an expiry: its UTC time, or nothing when it cannot be shown.
pub open spec fn expiration_text(secs: i64) -> Seq<char> {
    match utc_text(secs) {
        Some(t) => t,
        None => Seq::empty(),
    }
}

impl ConnectFlow {
    /// The report of a launched tunnel: the resolved configuration, the expiry of
    /// the chosen credentials, and whether they came from the cache.
    pub fn response(&self, profile: &str) -> (r: ConnectResponse)
        requires
            self.credentials is Some,
        ensures
            r.profile@ == profile@,
            r.target@ == self.config.target@,
            r.local_port == self.config.local_port,
            r.remote_port == self.config.remote_port,
            r.document@ == self.config.document_name@,
            r.expiration@ == expiration_text(self.credentials.unwrap().expiration),
            r.using_cached == self.using_cached,
    {
        let expiration = match &self.credentials {
            Some(c) => match format_utc(c.expiration) {
                Some(t) => t,
                None => String::new(),
            },
            None => String::new(),
        };
        ConnectResponse {
            profile: String::from_str(profile),
            target: self.config.target.clone(),
            local_port: self.config.local_port,
            remote_port: self.config.remote_port,
            document: self.config.document_name.clone(),
            expiration,
            using_cached: self.using_cached,
        }
    }
}

} // verus!
