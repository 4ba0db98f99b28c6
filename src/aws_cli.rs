//! The identity-provider command line: the arguments of each call, and what is
//! taken from each answer.

use vstd::prelude::*;
use crate::error::AppError;
use crate::models::{AwsCliOutput, MfaDevice, SessionCredentials, VirtualMfaDevice};
use crate::session::texts_view;

verus! {

/// `--profile <p>` when a profile is named.
pub open spec fn profile_args(profile: Option<Seq<char>>) -> Seq<Seq<char>> {
    match profile {
        Some(p) => seq!["--profile"@, p],
        None => Seq::empty(),
    }
}

/// Builds identity-provider calls and reads their answers.
pub struct AwsCli;

fn text(s: &str) -> (r: String)
    ensures
        r@ == s@,
{
    String::from_str(s)
}

fn add_profile(args: &mut Vec<String>, profile: Option<&str>)
    ensures
        texts_view(final(args)@) == texts_view(old(args)@) + profile_args(match profile {
            Some(p) => Some(p@),
            None => None,
        }),
{
    proof {
        reveal_strlit("--profile");
    }
    let ghost before = texts_view(args@);
    if let Some(p) = profile {
        args.push(text("--profile"));
        args.push(text(p));
    }
    assert(texts_view(args@) =~= before + profile_args(match profile {
        Some(p) => Some(p@),
        None => None,
    }));
}

impl AwsCli {
    /// `iam create-virtual-mfa-device`, writing the QR image to `outfile`.
    pub fn create_virtual_mfa_device_args(username: &str, outfile: &str, profile: Option<&str>) -> (r: Vec<String>)
        ensures
            texts_view(r@) == seq!["iam"@, "create-virtual-mfa-device"@, "--virtual-mfa-device-name"@, username@,
                "--outfile"@, outfile@, "--bootstrap-method"@, "QRCodePNG"@] + profile_args(match profile {
                    Some(p) => Some(p@),
                    None => None,
                }),
    {
        let mut args: Vec<String> = Vec::new();
        args.push(text("iam"));
        args.push(text("create-virtual-mfa-device"));
        args.push(text("--virtual-mfa-device-name"));
        args.push(text(username));
        args.push(text("--outfile"));
        args.push(text(outfile));
        args.push(text("--bootstrap-method"));
        args.push(text("QRCodePNG"));
        let ghost head = texts_view(args@);
        assert(head =~= seq!["iam"@, "create-virtual-mfa-device"@, "--virtual-mfa-device-name"@, username@,
            "--outfile"@, outfile@, "--bootstrap-method"@, "QRCodePNG"@]);
        add_profile(&mut args, profile);
        args
    }

    /// `iam enable-mfa-device` with two consecutive codes.
    pub fn enable_mfa_device_args(username: &str, serial_number: &str, code1: &str, code2: &str, profile: Option<&str>) -> (r: Vec<String>)
        ensures
            texts_view(r@) == seq!["iam"@, "enable-mfa-device"@, "--user-name"@, username@, "--serial-number"@,
                serial_number@, "--authentication-code1"@, code1@, "--authentication-code2"@, code2@] + profile_args(match profile {
                    Some(p) => Some(p@),
                    None => None,
                }),
    {
        let mut args: Vec<String> = Vec::new();
        args.push(text("iam"));
        args.push(text("enable-mfa-device"));
        args.push(text("--user-name"));
        args.push(text(username));
        args.push(text("--serial-number"));
        args.push(text(serial_number));
        args.push(text("--authentication-code1"));
        args.push(text(code1));
        args.push(text("--authentication-code2"));
        args.push(text(code2));
        let ghost head = texts_view(args@);
        assert(head =~= seq!["iam"@, "enable-mfa-device"@, "--user-name"@, username@, "--serial-number"@,
            serial_number@, "--authentication-code1"@, code1@, "--authentication-code2"@, code2@]);
        add_profile(&mut args, profile);
        args
    }

    /// `sts get-session-token` for the device and code; no duration is asked for.
    pub fn get_session_token_args(serial_number: &str, token_code: &str, profile: Option<&str>) -> (r: Vec<String>)
        ensures
            texts_view(r@) == seq!["sts"@, "get-session-token"@, "--serial-number"@, serial_number@,
                "--token-code"@, token_code@] + profile_args(match profile {
                    Some(p) => Some(p@),
                    None => None,
                }),
    {
        let mut args: Vec<String> = Vec::new();
        args.push(text("sts"));
        args.push(text("get-session-token"));
        args.push(text("--serial-number"));
        args.push(text(serial_number));
        args.push(text("--token-code"));
        args.push(text(token_code));
        let ghost head = texts_view(args@);
        assert(head =~= seq!["sts"@, "get-session-token"@, "--serial-number"@, serial_number@,
            "--token-code"@, token_code@]);
        add_profile(&mut args, profile);
        args
    }

    /// `iam list-mfa-devices` for the user.
    pub fn list_mfa_devices_args(username: &str, profile: Option<&str>) -> (r: Vec<String>)
        ensures
            texts_view(r@) == seq!["iam"@, "list-mfa-devices"@, "--user-name"@, username@] + profile_args(match profile {
                Some(p) => Some(p@),
                None => None,
            }),
    {
        let mut args: Vec<String> = Vec::new();
        args.push(text("iam"));
        args.push(text("list-mfa-devices"));
        args.push(text("--user-name"));
        args.push(text(username));
        let ghost head = texts_view(args@);
        assert(head =~= seq!["iam"@, "list-mfa-devices"@, "--user-name"@, username@]);
        add_profile(&mut args, profile);
        args
    }

    /// `sts get-caller-identity`.
    pub fn get_caller_identity_args(profile: Option<&str>) -> (r: Vec<String>)
        ensures
            texts_view(r@) == seq!["sts"@, "get-caller-identity"@] + profile_args(match profile {
                Some(p) => Some(p@),
                None => None,
            }),
    {
        let mut args: Vec<String> = Vec::new();
        args.push(text("sts"));
        args.push(text("get-caller-identity"));
        let ghost head = texts_view(args@);
        assert(head =~= seq!["sts"@, "get-caller-identity"@]);
        add_profile(&mut args, profile);
        args
    }

    /// The created device of a device-creation answer.
    pub fn create_virtual_mfa_device(output: AwsCliOutput) -> (r: Result<VirtualMfaDevice, AppError>)
        ensures
            match output.virtual_mfa_device {
                Some(d) => r == Ok::<VirtualMfaDevice, AppError>(d),
                None => r == Err::<VirtualMfaDevice, AppError>(AppError::MissingResponseField),
            },
    {
        match output.virtual_mfa_device {
            Some(d) => Ok(d),
            None => Err(AppError::MissingResponseField),
        }
    }

    /// The session credentials of a session-token answer.
    pub fn get_session_token(output: AwsCliOutput) -> (r: Result<SessionCredentials, AppError>)
        ensures
            match output.credentials {
                Some(c) => r == Ok::<SessionCredentials, AppError>(SessionCredentials {
                    access_key_id: c.access_key_id,
                    secret_access_key: c.secret_access_key,
                    session_token: c.session_token,
                    expiration: c.expiration,
                }),
                None => r == Err::<SessionCredentials, AppError>(AppError::MissingResponseField),
            },
    {
        match output.credentials {
            Some(c) => Ok(SessionCredentials {
                access_key_id: c.access_key_id,
                secret_access_key: c.secret_access_key,
                session_token: c.session_token,
                expiration: c.expiration,
            }),
            None => Err(AppError::MissingResponseField),
        }
    }

    /// The devices of a device-listing answer; none when the answer lists none.
    pub fn list_mfa_devices(output: AwsCliOutput) -> (r: Vec<MfaDevice>)
        ensures
            match output.mfa_devices {
                Some(v) => r == v,
                None => r@.len() == 0,
            },
    {
        match output.mfa_devices {
            Some(v) => v,
            None => Vec::new(),
        }
    }
}

} // verus!
