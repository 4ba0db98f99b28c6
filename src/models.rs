use vstd::prelude::*;

verus! {

/// Seconds that cached credentials must still be valid for to be reused.
pub const VALIDITY_MARGIN_SECS: i64 = 300;

/// Temporary credentials returned by the session-token exchange.
/// `expiration` is a UNIX timestamp in seconds.
#[derive(Debug, Clone)]
pub struct SessionCredentials {
    pub access_key_id: String,
    pub secret_access_key: String,
    pub session_token: String,
    pub expiration: i64,
}

impl SessionCredentials {
    /// The credentials outlive the instant `now` by more than the margin.
    pub open spec fn valid_at(self, now: int) -> bool {
        self.expiration > now + VALIDITY_MARGIN_SECS
    }

    /// Whether the credentials are still usable at the UNIX time `now`.
    pub fn is_valid_at(&self, now: i64) -> (r: bool)
        ensures
            r == self.valid_at(now as int),
    {
        if now > i64::MAX - VALIDITY_MARGIN_SECS {
            false
        } else {
            self.expiration > now + VALIDITY_MARGIN_SECS
        }
    }

    /// Whether the credentials are still usable now, by the system clock.
    pub fn is_valid(&self) -> (r: bool)
        ensures
            exists|now: i64| r == self.valid_at(now as int),
    {
        let now = now_unix_seconds();
        self.is_valid_at(now)
    }
}

/// Relies on time::OffsetDateTime::now_utc and unix_timestamp: the current UTC
/// time in whole seconds since the UNIX epoch. Nothing is promised of the value.
#[verifier::external_body]
pub(crate) fn now_unix_seconds() -> (r: i64) {
    time::OffsetDateTime::now_utc().unix_timestamp()
}

/// The device-creation answer of the identity provider.
#[derive(Debug, Clone)]
pub struct VirtualMfaDevice {
    pub serial_number: String,
}

/// The credential part of the session-token answer.
#[derive(Debug, Clone)]
pub struct AwsCredentials {
    pub access_key_id: String,
    pub secret_access_key: String,
    pub session_token: String,
    pub expiration: i64,
}

/// An MFA device as listed by the identity provider; `enable_date` is a UNIX timestamp.
#[derive(Debug, Clone)]
pub struct MfaDevice {
    pub user_name: String,
    pub serial_number: String,
    pub enable_date: i64,
}

/// An answer of the identity provider: each call kind fills exactly one field.
#[derive(Debug, Clone)]
pub struct AwsCliOutput {
    pub virtual_mfa_device: Option<VirtualMfaDevice>,
    pub credentials: Option<AwsCredentials>,
    pub mfa_devices: Option<Vec<MfaDevice>>,
}

} // verus!
