use vstd::prelude::*;

verus! {

/// Every failure that the library reports, one variant per cause.
#[derive(Debug, Clone, PartialEq, Eq)]
pub enum AppError {
    /// The user's home directory could not be determined.
    HomeNotFound,
    /// The primary profile store does not exist.
    ConfigMissing,
    /// A stored configuration text could not be parsed.
    ConfigUnreadable,
    /// No profile was found in either profile store.
    NoProfiles,
    /// The named profile is not defined.
    ProfileNotFound(String),
    /// The identity-provider command failed with this message.
    IdentityCliError(String),
    /// The caller's identity could not be determined.
    IdentityUnavailable,
    /// No MFA secret is stored for the profile.
    SecretNotConfigured,
    /// The secret store failed for another reason.
    SecretVaultError,
    /// The MFA secret is not valid base32.
    InvalidSecret,
    /// A one-time code could not be produced: the clock reads before the UNIX epoch.
    TotpError,
    /// The image holds no QR code.
    NoQrFound,
    /// The QR code was found but could not be decoded.
    QrDecodeFailed,
    /// The QR payload is not a URI that can be read.
    InvalidOtpUri,
    /// The URI carries no `secret` parameter.
    SecretMissing,
    /// The identity provider did not create the virtual device.
    DeviceCreationFailed,
    /// The identity provider refused to enable the device.
    EnableFailed,
    /// The enabled device is not listed for the user.
    VerificationFailed,
    /// The user has no MFA device.
    NoMfaDevice,
    /// The local port is already bound.
    PortInUse(u16),
    /// No tunnel target was given nor stored.
    TargetRequired,
    /// The session configuration store already exists.
    ConfigAlreadyExists,
    /// An identity-provider answer lacks the part that the call returns.
    MissingResponseField,
}

} // verus!
