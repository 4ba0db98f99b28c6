//! One-time codes: SHA-1, six digits, thirty-second steps, no look-around window.

use vstd::prelude::*;
use crate::error::AppError;
use crate::mfa::MfaManager;
use crate::models::now_unix_seconds;

verus! {

/// Length of one TOTP step, in seconds.
pub const TOTP_STEP_SECS: u64 = 30;

/// What unpadded RFC 4648 base32 decoding makes of `s`, if anything.
pub uninterp spec fn base32_decoded(s: Seq<char>) -> Option<Seq<u8>>;

/// The six-digit SHA-1 code of `key` for the step counter `counter`.
pub uninterp spec fn sha1_totp(key: Seq<u8>, counter: nat) -> Seq<char>;

/// `s` is a one-time code: exactly six decimal digits.
pub open spec fn is_code(s: Seq<char>) -> bool {
    &&& s.len() == 6
    &&& forall|i: int| 0 <= i < s.len() ==> '0' <= #[trigger] s[i] <= '9'
}

/// The step counter of the UNIX time `time`.
pub open spec fn step_of(time: nat) -> nat {
    time / (TOTP_STEP_SECS as nat)
}

/// The decoded key of a secret, or `InvalidSecret` when it is not base32.
pub open spec fn key_outcome(secret: Seq<char>) -> Result<Seq<u8>, AppError> {
    match base32_decoded(secret) {
        None => Err(AppError::InvalidSecret),
        Some(key) => Ok(key),
    }
}

/// The code that `secret` yields at the UNIX time `time`, or the error.
pub open spec fn totp_outcome(secret: Seq<char>, time: nat) -> Result<Seq<char>, AppError> {
    match key_outcome(secret) {
        Err(e) => Err(e),
        Ok(key) => Ok(sha1_totp(key, step_of(time))),
    }
}

/// Seconds left in the step that holds `time`; zero on a step boundary.
pub open spec fn remaining_in_step(time: nat) -> nat {
    if time % (TOTP_STEP_SECS as nat) == 0 {
        0
    } else {
        ((TOTP_STEP_SECS as nat) - time % (TOTP_STEP_SECS as nat)) as nat
    }
}

/// Relies on totp_rs::Secret::to_bytes for an encoded secret: it base32-decodes
/// the text (RFC 4648 alphabet, no padding) or fails.
#[verifier::external_body]
fn decode_base32(secret: &str) -> (r: Option<Vec<u8>>)
    ensures
        r.is_some() == base32_decoded(secret@).is_some(),
        r matches Some(bytes) ==> base32_decoded(secret@) == Some(bytes@),
{
    totp_rs::Secret::Encoded(secret.to_string()).to_bytes().ok()
}

/// Relies on totp_rs::TOTP::new_unchecked (SHA-1, 6 digits, skew 1, 30 s step), which
/// takes a key of any length, and on TOTP::generate, which signs `time / 30` with
/// HMAC-SHA-1 and formats the truncated value as six zero-padded decimal digits.
#[verifier::external_body]
fn sha1_code_at(key: &Vec<u8>, time: u64) -> (r: String)
    ensures
        r@ == sha1_totp(key@, step_of(time as nat)),
        is_code(r@),
{
    totp_rs::TOTP::new_unchecked(totp_rs::Algorithm::SHA1, 6, 1, 30, key.clone()).generate(time)
}

/// Codes at two instants of the same step are equal, for every secret.
pub proof fn lemma_same_step_same_code(secret: Seq<char>, t1: nat, t2: nat)
    requires
        step_of(t1) == step_of(t2),
    ensures
        totp_outcome(secret, t1) == totp_outcome(secret, t2),
{
}

/// The time left in a step is below one step, and zero exactly on a boundary.
pub proof fn lemma_remaining_in_step(time: nat)
    ensures
        remaining_in_step(time) < TOTP_STEP_SECS,
        remaining_in_step(time) == 0 <==> time % (TOTP_STEP_SECS as nat) == 0,
        remaining_in_step(time) > 0 ==> step_of(time + remaining_in_step(time)) == step_of(time) + 1,
{
    let r = time % 30;
    assert(time == 30 * step_of(time) + r);
    if r != 0 {
        assert(time + (30 - r) == 30 * (step_of(time) + 1));
        assert((30 * (step_of(time) + 1)) / 30 == step_of(time) + 1) by (nonlinear_arith);
    }
}

impl MfaManager {
    /// Decodes the base32 `secret` into the key that codes are derived from.
    pub fn decode_secret(secret: &str) -> (r: Result<Vec<u8>, AppError>)
        ensures
            match r {
                Ok(key) => key_outcome(secret@) == Ok::<Seq<u8>, AppError>(key@),
                Err(e) => key_outcome(secret@) == Err::<Seq<u8>, AppError>(e),
            },
    {
        match decode_base32(secret) {
            None => Err(AppError::InvalidSecret),
            Some(key) => Ok(key),
        }
    }

    /// The code of `secret` at the UNIX time `time`.
    pub fn generate_totp_code_at(secret: &str, time: u64) -> (r: Result<String, AppError>)
        ensures
            match r {
                Ok(code) => totp_outcome(secret@, time as nat) == Ok::<Seq<char>, AppError>(code@)
                    && is_code(code@),
                Err(e) => totp_outcome(secret@, time as nat) == Err::<Seq<char>, AppError>(e),
            },
    {
        let key = Self::decode_secret(secret)?;
        Ok(sha1_code_at(&key, time))
    }

    /// The code of `secret` now, by the system clock.
    pub fn generate_totp_code(secret: &str) -> (r: Result<String, AppError>)
        ensures
            key_outcome(secret@) matches Err(e) ==> r == Err::<String, AppError>(e),
            r matches Err(e) ==> (key_outcome(secret@) == Err::<Seq<u8>, AppError>(e) || e == AppError::TotpError),
            r matches Ok(code) ==> is_code(code@)
                && exists|t: nat| totp_outcome(secret@, t) == Ok::<Seq<char>, AppError>(code@),
    {
        let _key = Self::decode_secret(secret)?;
        let now = now_unix_seconds();
        if now < 0 {
            return Err(AppError::TotpError);
        }
        Self::generate_totp_code_at(secret, now as u64)
    }

    /// Seconds until the step after `time` begins; zero on a boundary.
    pub fn time_remaining_at(time: u64) -> (r: u64)
        ensures
            r as nat == remaining_in_step(time as nat),
    {
        let into = time % TOTP_STEP_SECS;
        if into == 0 {
            0
        } else {
            TOTP_STEP_SECS - into
        }
    }

    /// Seconds left in the current step at `time`, once `secret` is known to be usable.
    pub fn get_time_remaining_at(secret: &str, time: u64) -> (r: Result<u64, AppError>)
        ensures
            match r {
                Ok(n) => key_outcome(secret@) is Ok && n as nat == remaining_in_step(time as nat),
                Err(e) => key_outcome(secret@) == Err::<Seq<u8>, AppError>(e),
            },
    {
        let _key = Self::decode_secret(secret)?;
        Ok(Self::time_remaining_at(time))
    }

    /// Seconds left in the current step, by the system clock.
    pub fn get_time_remaining(secret: &str) -> (r: Result<u64, AppError>)
        ensures
            key_outcome(secret@) matches Err(e) ==> r == Err::<u64, AppError>(e),
            key_outcome(secret@) is Ok ==> r is Ok,
            r matches Ok(n) ==> n < TOTP_STEP_SECS,
    {
        let _key = Self::decode_secret(secret)?;
        let now = now_unix_seconds();
        if now < 0 {
            return Ok(0);
        }
        let n = Self::time_remaining_at(now as u64);
        proof {
            lemma_remaining_in_step(now as nat);
        }
        Ok(n)
    }
}

} // verus!
