//! The secret store: per-profile MFA secrets and cached session credentials,
//! kept by the platform keyring under one service name.

use vstd::prelude::*;
use crate::connect::VaultRead;
use crate::error::AppError;

verus! {

/// Declares keyring::Entry, a handle on one credential of the platform store.
#[verifier::external_type_specification]
#[verifier::external_body]
pub struct ExEntry(keyring::Entry);

/// Declares keyring::Error, the failure of a platform-store operation.
#[verifier::external_type_specification]
#[verifier::external_body]
pub struct ExKeyringError(keyring::Error);

/// Relies on keyring::Entry::new: a handle on the credential of `user` under `service`.
#[verifier::external_body]
fn open_entry(service: &str, user: &str) -> (r: Result<keyring::Entry, keyring::Error>) {
    keyring::Entry::new(service, user)
}

/// Relies on keyring::Entry::set_password: stores `secret` in the credential.
#[verifier::external_body]
fn entry_set(entry: &keyring::Entry, secret: &str) -> (r: Result<(), keyring::Error>) {
    entry.set_password(secret)
}

/// Relies on keyring::Entry::get_password: reads the stored text.
#[verifier::external_body]
fn entry_get(entry: &keyring::Entry) -> (r: Result<String, keyring::Error>) {
    entry.get_password()
}

/// Relies on keyring::Entry::delete_credential: removes the credential.
#[verifier::external_body]
fn entry_delete(entry: &keyring::Entry) -> (r: Result<(), keyring::Error>) {
    entry.delete_credential()
}

/// Relies on keyring::Error::NoEntry: the failure that means "nothing stored".
#[verifier::external_body]
fn is_no_entry(e: &keyring::Error) -> (r: bool) {
    matches!(e, keyring::Error::NoEntry)
}

/// The service name under which every entry is kept.
pub const SERVICE_NAME: &'static str = "amf-cli";

/// The entry that holds the MFA secret of `profile`.
pub open spec fn secret_key_spec(profile: Seq<char>) -> Seq<char> {
    "mfa_secret_"@ + profile
}

/// The entry that holds the cached session credentials of `profile`.
pub open spec fn session_key_spec(profile: Seq<char>) -> Seq<char> {
    "session_credentials_"@ + profile
}

/// Reads and writes per-profile entries of the secret store.
pub struct KeyringManager;

impl KeyringManager {
    /// The entry name of the MFA secret of `profile`.
    pub fn secret_key(profile: &str) -> (r: String)
        ensures
            r@ == secret_key_spec(profile@),
    {
        String::from_str("mfa_secret_").concat(profile)
    }

    /// The entry name of the cached session credentials of `profile`.
    pub fn session_credentials_key(profile: &str) -> (r: String)
        ensures
            r@ == session_key_spec(profile@),
    {
        String::from_str("session_credentials_").concat(profile)
    }

    fn write(user: &str, value: &str) -> (r: Result<(), AppError>)
        ensures
            r is Err ==> r == Err::<(), AppError>(AppError::SecretVaultError),
    {
        match open_entry(SERVICE_NAME, user) {
            Err(_) => Err(AppError::SecretVaultError),
            Ok(entry) => match entry_set(&entry, value) {
                Err(_) => Err(AppError::SecretVaultError),
                Ok(()) => Ok(()),
            },
        }
    }

    fn read(user: &str) -> (r: VaultRead) {
        match open_entry(SERVICE_NAME, user) {
            Err(_) => VaultRead::Failed,
            Ok(entry) => match entry_get(&entry) {
                Ok(text) => VaultRead::Found(text),
                Err(e) => if is_no_entry(&e) {
                    VaultRead::Missing
                } else {
                    VaultRead::Failed
                },
            },
        }
    }

    fn remove(user: &str) -> (r: Result<(), AppError>)
        ensures
            r is Err ==> (r == Err::<(), AppError>(AppError::SecretNotConfigured)
                || r == Err::<(), AppError>(AppError::SecretVaultError)),
    {
        match open_entry(SERVICE_NAME, user) {
            Err(_) => Err(AppError::SecretVaultError),
            Ok(entry) => match entry_delete(&entry) {
                Ok(()) => Ok(()),
                Err(e) => if is_no_entry(&e) {
                    Err(AppError::SecretNotConfigured)
                } else {
                    Err(AppError::SecretVaultError)
                },
            },
        }
    }

    /// Stores the MFA secret of `profile`.
    pub fn store_secret(profile: &str, secret: &str) -> (r: Result<(), AppError>)
        ensures
            r is Err ==> r == Err::<(), AppError>(AppError::SecretVaultError),
    {
        let key = Self::secret_key(profile);
        Self::write(key.as_str(), secret)
    }

    /// Reads the MFA secret of `profile`, telling "not stored" from other failures.
    pub fn read_secret(profile: &str) -> (r: VaultRead) {
        let key = Self::secret_key(profile);
        Self::read(key.as_str())
    }

    /// The MFA secret of `profile`.
    pub fn get_secret(profile: &str) -> (r: Result<String, AppError>)
        ensures
            r is Err ==> (r == Err::<String, AppError>(AppError::SecretNotConfigured)
                || r == Err::<String, AppError>(AppError::SecretVaultError)),
    {
        match Self::read_secret(profile) {
            VaultRead::Found(s) => Ok(s),
            VaultRead::Missing => Err(AppError::SecretNotConfigured),
            VaultRead::Failed => Err(AppError::SecretVaultError),
        }
    }

    /// Removes the MFA secret of `profile`.
    pub fn delete_secret(profile: &str) -> (r: Result<(), AppError>)
        ensures
            r is Err ==> (r == Err::<(), AppError>(AppError::SecretNotConfigured)
                || r == Err::<(), AppError>(AppError::SecretVaultError)),
    {
        let key = Self::secret_key(profile);
        Self::remove(key.as_str())
    }

    /// Whether an MFA secret is stored for `profile`.
    pub fn has_secret(profile: &str) -> (r: bool) {
        Self::get_secret(profile).is_ok()
    }

    /// Caches the serialized session credentials of `profile`.
    pub fn store_session_credentials(profile: &str, serialized: &str) -> (r: Result<(), AppError>)
        ensures
            r is Err ==> r == Err::<(), AppError>(AppError::SecretVaultError),
    {
        let key = Self::session_credentials_key(profile);
        Self::write(key.as_str(), serialized)
    }

    /// Reads the serialized session credentials cached for `profile`.
    pub fn get_session_credentials(profile: &str) -> (r: VaultRead) {
        let key = Self::session_credentials_key(profile);
        Self::read(key.as_str())
    }

    /// Removes the session credentials cached for `profile`.
    pub fn delete_session_credentials(profile: &str) -> (r: Result<(), AppError>)
        ensures
            r is Err ==> (r == Err::<(), AppError>(AppError::SecretNotConfigured)
                || r == Err::<(), AppError>(AppError::SecretVaultError)),
    {
        let key = Self::session_credentials_key(profile);
        Self::remove(key.as_str())
    }
}

} // verus!
