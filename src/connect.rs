//! The connect sequence as a state machine. The caller performs each action
//! (identity lookup, device listing, secret-store reads, the token exchange,
//! the port check, the launch) and hands the outcome back as an event; the
//! decisions in between are made here.

use vstd::prelude::*;
use crate::error::AppError;
use crate::mfa::MfaManager;
use crate::models::{MfaDevice, SessionCredentials};
use crate::session::{SessionManager, text_pairs_view, texts_view, tunnel_args_spec, tunnel_env_spec};
use crate::session_config::SessionConfig;
use crate::aws_config::AwsConfig;
use crate::text::{has_slash, is_last_segment};
use crate::totp::totp_outcome;

verus! {

/// What a read of the secret store gave.
#[derive(Debug, Clone)]
pub enum VaultRead {
    Found(String),
    Missing,
    Failed,
}

/// The outcome of the last action, handed back by the caller.
#[derive(Debug)]
pub enum ConnectEvent {
    /// The caller's identity ARN; `None` when the lookup failed or gave none.
    Identity(Option<String>),
    /// The user's MFA devices, or the message of the failed call.
    Devices(Result<Vec<MfaDevice>, String>),
    /// The cached credentials, if any, and the UNIX time of the read.
    Cached { credentials: Option<SessionCredentials>, now: i64 },
    /// The stored MFA secret and the UNIX time of the read.
    Secret { secret: VaultRead, now: i64 },
    /// The new credentials, or the message of the failed exchange.
    Exchanged(Result<SessionCredentials, String>),
    /// The attempt to cache the new credentials is over, whatever its outcome.
    CacheWritten,
    /// Whether the local port is already bound.
    PortChecked { in_use: bool },
}

/// What the caller is to do next.
#[derive(Debug, Clone)]
pub enum ConnectAction {
    ResolveIdentity,
    ListDevices { user_name: String },
    ReadCachedCredentials,
    ReadSecret,
    ExchangeCode { serial: String, code: String },
    /// Store `credentials` of the flow in the cache; a failure there is not fatal.
    CacheCredentials,
    CheckPort { port: u16 },
    Launch { args: Vec<String>, env: Vec<(String, String)> },
    Fail(AppError),
}

/// Where a connect sequence stands.
#[derive(Debug, Clone, Copy, PartialEq, Eq)]
pub enum ConnectPhase {
    Identity,
    Devices,
    Cache,
    Secret,
    Exchange,
    Caching,
    Port,
    Launched,
    Failed,
}

/// One connect sequence for a resolved session configuration.
#[derive(Debug, Clone)]
pub struct ConnectFlow {
    pub config: SessionConfig,
    pub phase: ConnectPhase,
    pub serial: String,
    pub credentials: Option<SessionCredentials>,
    pub using_cached: bool,
}

/// The event that each phase waits for.
pub open spec fn expects_spec(phase: ConnectPhase, event: ConnectEvent) -> bool {
    match (phase, event) {
        (ConnectPhase::Identity, ConnectEvent::Identity(_)) => true,
        (ConnectPhase::Devices, ConnectEvent::Devices(_)) => true,
        (ConnectPhase::Cache, ConnectEvent::Cached { .. }) => true,
        (ConnectPhase::Secret, ConnectEvent::Secret { .. }) => true,
        (ConnectPhase::Exchange, ConnectEvent::Exchanged(_)) => true,
        (ConnectPhase::Caching, ConnectEvent::CacheWritten) => true,
        (ConnectPhase::Port, ConnectEvent::PortChecked { .. }) => true,
        _ => false,
    }
}

/// Cached credentials are reused when present and valid at `now`.
pub open spec fn reuses_cache(credentials: Option<SessionCredentials>, now: i64) -> bool {
    credentials matches Some(c) && c.valid_at(now as int)
}

impl ConnectFlow {
    /// Once new or cached credentials are chosen, the flow holds them.
    pub open spec fn wf(&self) -> bool {
        (self.phase == ConnectPhase::Caching || self.phase == ConnectPhase::Port
            || self.phase == ConnectPhase::Launched) ==> self.credentials is Some
    }

    /// Starts a sequence; its first action is always `ResolveIdentity`.
    pub fn start(config: SessionConfig) -> (r: (ConnectFlow, ConnectAction))
        ensures
            r.0.config == config,
            r.0.phase == ConnectPhase::Identity,
            r.0.wf(),
            r.0.credentials is None,
            !r.0.using_cached,
            r.1 is ResolveIdentity,
    {
        (ConnectFlow {
            config,
            phase: ConnectPhase::Identity,
            serial: String::new(),
            credentials: None,
            using_cached: false,
        }, ConnectAction::ResolveIdentity)
    }

    /// Whether `event` is the one that the current phase waits for.
    pub fn expects(&self, event: &ConnectEvent) -> (r: bool)
        ensures
            r == expects_spec(self.phase, *event),
    {
        match (self.phase, event) {
            (ConnectPhase::Identity, ConnectEvent::Identity(_)) => true,
            (ConnectPhase::Devices, ConnectEvent::Devices(_)) => true,
            (ConnectPhase::Cache, ConnectEvent::Cached { .. }) => true,
            (ConnectPhase::Secret, ConnectEvent::Secret { .. }) => true,
            (ConnectPhase::Exchange, ConnectEvent::Exchanged(_)) => true,
            (ConnectPhase::Caching, ConnectEvent::CacheWritten) => true,
            (ConnectPhase::Port, ConnectEvent::PortChecked { .. }) => true,
            _ => false,
        }
    }

    fn fail(&mut self, e: AppError) -> (r: ConnectAction)
        ensures
            r == ConnectAction::Fail(e),
            final(self).phase == ConnectPhase::Failed,
            final(self).config == old(self).config,
            final(self).credentials == old(self).credentials,
            final(self).using_cached == old(self).using_cached,
            final(self).serial == old(self).serial,
    {
        self.phase = ConnectPhase::Failed;
        ConnectAction::Fail(e)
    }

    /// Takes the outcome of the last action and decides the next one.
    pub fn on_event(&mut self, event: ConnectEvent) -> (r: ConnectAction)
        requires
            old(self).wf(),
            expects_spec(old(self).phase, event),
        ensures
            final(self).wf(),
            final(self).config == old(self).config,
            !(event is Devices) ==> final(self).serial == old(self).serial,
            !(event is Cached || event is Exchanged) ==> final(self).credentials == old(self).credentials
                && final(self).using_cached == old(self).using_cached,
            r is Fail <==> final(self).phase == ConnectPhase::Failed,
            match event {
                ConnectEvent::Identity(None) => r == ConnectAction::Fail(AppError::IdentityUnavailable),
                ConnectEvent::Identity(Some(arn)) => if has_slash(arn@) {
                    (r matches ConnectAction::ListDevices { user_name }
                        && is_last_segment(arn@, user_name@) && final(self).phase == ConnectPhase::Devices)
                } else {
                    r == ConnectAction::Fail(AppError::IdentityUnavailable)
                },
                ConnectEvent::Devices(Err(msg)) => r == ConnectAction::Fail(AppError::IdentityCliError(msg)),
                ConnectEvent::Devices(Ok(devices)) => if devices@.len() == 0 {
                    r == ConnectAction::Fail(AppError::NoMfaDevice)
                } else {
                    r is ReadCachedCredentials && final(self).serial@ == devices@[0].serial_number@
                        && final(self).phase == ConnectPhase::Cache
                },
                ConnectEvent::Cached { credentials, now } => if reuses_cache(credentials, now) {
                    r == ConnectAction::CheckPort { port: old(self).config.local_port } && final(self).using_cached
                        && final(self).credentials == credentials && final(self).phase == ConnectPhase::Port
                } else {
                    r is ReadSecret && !final(self).using_cached && final(self).phase == ConnectPhase::Secret
                },
                ConnectEvent::Secret { secret, now } => match secret {
                    VaultRead::Missing => r == ConnectAction::Fail(AppError::SecretNotConfigured),
                    VaultRead::Failed => r == ConnectAction::Fail(AppError::SecretVaultError),
                    VaultRead::Found(s) => if now < 0 {
                        r == ConnectAction::Fail(AppError::TotpError)
                    } else {
                        match totp_outcome(s@, now as nat) {
                            Err(e) => r == ConnectAction::Fail(e),
                            Ok(code) => (r matches ConnectAction::ExchangeCode { serial, code: c }
                                && serial@ == old(self).serial@ && c@ == code
                                && final(self).phase == ConnectPhase::Exchange),
                        }
                    },
                },
                ConnectEvent::Exchanged(Err(msg)) => r == ConnectAction::Fail(AppError::IdentityCliError(msg)),
                ConnectEvent::Exchanged(Ok(c)) => r is CacheCredentials && final(self).credentials == Some(c)
                    && !final(self).using_cached && final(self).phase == ConnectPhase::Caching,
                ConnectEvent::CacheWritten => r == ConnectAction::CheckPort { port: old(self).config.local_port }
                    && final(self).phase == ConnectPhase::Port,
                ConnectEvent::PortChecked { in_use } => if in_use {
                    r == ConnectAction::Fail(AppError::PortInUse(old(self).config.local_port))
                } else {
                    (r matches ConnectAction::Launch { args, env }
                        && old(self).credentials matches Some(c)
                        && texts_view(args@) == tunnel_args_spec(old(self).config.target@,
                            old(self).config.local_port, old(self).config.remote_port, old(self).config.document_name@)
                        && text_pairs_view(env@) == tunnel_env_spec(c)
                        && final(self).phase == ConnectPhase::Launched)
                },
            },
    {
        match event {
            ConnectEvent::Identity(None) => self.fail(AppError::IdentityUnavailable),
            ConnectEvent::Identity(Some(arn)) => match AwsConfig::username_from_arn(arn.as_str()) {
                Err(e) => self.fail(e),
                Ok(user_name) => {
                    self.phase = ConnectPhase::Devices;
                    ConnectAction::ListDevices { user_name }
                },
            },
            ConnectEvent::Devices(Err(msg)) => self.fail(AppError::IdentityCliError(msg)),
            ConnectEvent::Devices(Ok(devices)) => match MfaManager::serial_from_devices(&devices) {
                Err(e) => self.fail(e),
                Ok(serial) => {
                    self.serial = serial;
                    self.phase = ConnectPhase::Cache;
                    ConnectAction::ReadCachedCredentials
                },
            },
            ConnectEvent::Cached { credentials, now } => {
                let reuse = match &credentials {
                    Some(c) => c.is_valid_at(now),
                    None => false,
                };
                if reuse {
                    self.credentials = credentials;
                    self.using_cached = true;
                    self.phase = ConnectPhase::Port;
                    ConnectAction::CheckPort { port: self.config.local_port }
                } else {
                    self.using_cached = false;
                    self.phase = ConnectPhase::Secret;
                    ConnectAction::ReadSecret
                }
            },
            ConnectEvent::Secret { secret, now } => match secret {
                VaultRead::Missing => self.fail(AppError::SecretNotConfigured),
                VaultRead::Failed => self.fail(AppError::SecretVaultError),
                VaultRead::Found(s) => {
                    if now < 0 {
                        return self.fail(AppError::TotpError);
                    }
                    match MfaManager::generate_totp_code_at(s.as_str(), now as u64) {
                        Err(e) => self.fail(e),
                        Ok(code) => {
                            self.phase = ConnectPhase::Exchange;
                            ConnectAction::ExchangeCode { serial: self.serial.clone(), code }
                        },
                    }
                },
            },
            ConnectEvent::Exchanged(Err(msg)) => self.fail(AppError::IdentityCliError(msg)),
            ConnectEvent::Exchanged(Ok(c)) => {
                self.credentials = Some(c);
                self.using_cached = false;
                self.phase = ConnectPhase::Caching;
                ConnectAction::CacheCredentials
            },
            ConnectEvent::CacheWritten => {
                self.phase = ConnectPhase::Port;
                ConnectAction::CheckPort { port: self.config.local_port }
            },
            ConnectEvent::PortChecked { in_use } => {
                if in_use {
                    return self.fail(AppError::PortInUse(self.config.local_port));
                }
                match &self.credentials {
                    None => self.fail(AppError::SecretNotConfigured),
                    Some(c) => {
                        let args = SessionManager::tunnel_args(self.config.target.as_str(),
                            self.config.local_port, self.config.remote_port, self.config.document_name.as_str());
                        let env = SessionManager::tunnel_env(c);
                        self.phase = ConnectPhase::Launched;
                        ConnectAction::Launch { args, env }
                    },
                }
            },
        }
    }
}

} // verus!
