//! Enrollment of a new virtual MFA device as a state machine. The caller
//! performs each action and hands the outcome back; the temporary QR image is
//! removed whatever the outcome, once the device creation has been attempted.

use vstd::prelude::*;
use crate::error::AppError;
use crate::mfa::{lists_serial, payloads_view, scan_secret, MfaManager};
use crate::models::{MfaDevice, VirtualMfaDevice};
use crate::totp::{totp_outcome, TOTP_STEP_SECS};

verus! {

/// The outcome of the last action, handed back by the caller.
#[derive(Debug)]
pub enum EnrollEvent {
    /// The created device, or the message of the failed call.
    DeviceCreated(Result<VirtualMfaDevice, String>),
    /// What the QR regions of the image that the provider wrote decode to, in
    /// detection order (`None` if the image could not be read or scanned), and the UNIX time.
    ImageRead { payloads: Option<Vec<Option<String>>>, now: i64 },
    /// The wait of one step is over; the UNIX time.
    Waited { now: i64 },
    /// The outcome of enabling the device.
    Enabled(Result<(), String>),
    /// The user's MFA devices, or the message of the failed call.
    Devices(Result<Vec<MfaDevice>, String>),
}

/// What the caller is to do next.
#[derive(Debug)]
pub enum EnrollAction {
    CreateDevice { user_name: String, outfile: String },
    ReadImage { path: String },
    Wait { seconds: u64 },
    EnableDevice { user_name: String, serial: String, code1: String, code2: String },
    ListDevices { user_name: String },
    /// Remove the temporary image, then report `outcome`: the serial and the secret.
    Finish { path: String, outcome: Result<(String, String), AppError> },
}

/// Where an enrollment stands.
#[derive(Debug, Clone, Copy, PartialEq, Eq)]
pub enum EnrollPhase {
    Create,
    Image,
    Wait,
    Enable,
    Verify,
    Done,
}

/// One enrollment of a new device for a user.
#[derive(Debug)]
pub struct Enrollment {
    pub user_name: String,
    pub outfile: String,
    pub phase: EnrollPhase,
    pub serial: String,
    pub secret: String,
    pub first_code: String,
}

/// The event that each phase waits for.
pub open spec fn enroll_expects(phase: EnrollPhase, event: EnrollEvent) -> bool {
    match (phase, event) {
        (EnrollPhase::Create, EnrollEvent::DeviceCreated(_)) => true,
        (EnrollPhase::Image, EnrollEvent::ImageRead { .. }) => true,
        (EnrollPhase::Wait, EnrollEvent::Waited { .. }) => true,
        (EnrollPhase::Enable, EnrollEvent::Enabled(_)) => true,
        (EnrollPhase::Verify, EnrollEvent::Devices(_)) => true,
        _ => false,
    }
}

/// The action ends the enrollment with this failure, after the cleanup.
pub open spec fn fails_with(a: EnrollAction, path: Seq<char>, e: AppError) -> bool {
    a matches EnrollAction::Finish { path: p, outcome } && p@ == path && outcome == Err::<(String, String), AppError>(e)
}

impl Enrollment {
    /// Starts an enrollment; the temporary image is named after the profile.
    pub fn start(user_name: &str, profile: &str) -> (r: (Enrollment, EnrollAction))
        ensures
            r.0.phase == EnrollPhase::Create,
            r.0.user_name@ == user_name@,
            r.0.outfile@ == "qr_temp_"@ + profile@ + ".png"@,
            r.1 matches EnrollAction::CreateDevice { user_name: u, outfile } && u@ == user_name@
                && outfile@ == r.0.outfile@,
    {
        let outfile = String::from_str("qr_temp_").concat(profile).concat(".png");
        let flow = Enrollment {
            user_name: String::from_str(user_name),
            outfile: outfile.clone(),
            phase: EnrollPhase::Create,
            serial: String::new(),
            secret: String::new(),
            first_code: String::new(),
        };
        (flow, EnrollAction::CreateDevice { user_name: String::from_str(user_name), outfile })
    }

    /// Whether `event` is the one that the current phase waits for.
    pub fn expects(&self, event: &EnrollEvent) -> (r: bool)
        ensures
            r == enroll_expects(self.phase, *event),
    {
        match (self.phase, event) {
            (EnrollPhase::Create, EnrollEvent::DeviceCreated(_)) => true,
            (EnrollPhase::Image, EnrollEvent::ImageRead { .. }) => true,
            (EnrollPhase::Wait, EnrollEvent::Waited { .. }) => true,
            (EnrollPhase::Enable, EnrollEvent::Enabled(_)) => true,
            (EnrollPhase::Verify, EnrollEvent::Devices(_)) => true,
            _ => false,
        }
    }

    fn finish(&mut self, outcome: Result<(String, String), AppError>) -> (r: EnrollAction)
        ensures
            r matches EnrollAction::Finish { path, outcome: o } && path@ == old(self).outfile@ && o == outcome,
            final(self).phase == EnrollPhase::Done,
            final(self).outfile == old(self).outfile,
            final(self).user_name == old(self).user_name,
            final(self).serial == old(self).serial,
            final(self).secret == old(self).secret,
            final(self).first_code == old(self).first_code,
    {
        self.phase = EnrollPhase::Done;
        EnrollAction::Finish { path: self.outfile.clone(), outcome }
    }

    /// Takes the outcome of the last action and decides the next one.
    pub fn on_event(&mut self, event: EnrollEvent) -> (r: EnrollAction)
        requires
            enroll_expects(old(self).phase, event),
        ensures
            final(self).user_name == old(self).user_name,
            final(self).outfile == old(self).outfile,
            !(event is DeviceCreated) ==> final(self).serial == old(self).serial,
            !(event is ImageRead) ==> final(self).secret == old(self).secret
                && final(self).first_code == old(self).first_code,
            match event {
                EnrollEvent::DeviceCreated(Err(_)) => fails_with(r, old(self).outfile@, AppError::DeviceCreationFailed),
                EnrollEvent::DeviceCreated(Ok(d)) => (r matches EnrollAction::ReadImage { path }
                    && path@ == old(self).outfile@ && final(self).serial@ == d.serial_number@
                    && final(self).phase == EnrollPhase::Image),
                EnrollEvent::ImageRead { payloads: None, .. } => fails_with(r, old(self).outfile@, AppError::QrDecodeFailed),
                EnrollEvent::ImageRead { payloads: Some(scan), now } => {
                    match scan_secret(payloads_view(scan@)) {
                        Err(e) => fails_with(r, old(self).outfile@, e),
                        Ok(secret) => if now < 0 {
                            fails_with(r, old(self).outfile@, AppError::TotpError)
                        } else {
                            match totp_outcome(secret, now as nat) {
                                Err(e) => fails_with(r, old(self).outfile@, e),
                                Ok(code) => r == EnrollAction::Wait { seconds: TOTP_STEP_SECS }
                                    && final(self).secret@ == secret && final(self).first_code@ == code
                                    && final(self).phase == EnrollPhase::Wait,
                            }
                        },
                    }
                },
                EnrollEvent::Waited { now } => if now < 0 {
                    fails_with(r, old(self).outfile@, AppError::TotpError)
                } else {
                    match totp_outcome(old(self).secret@, now as nat) {
                        Err(e) => fails_with(r, old(self).outfile@, e),
                        Ok(code) => (r matches EnrollAction::EnableDevice { user_name, serial, code1, code2 }
                            && user_name@ == old(self).user_name@ && serial@ == old(self).serial@
                            && code1@ == old(self).first_code@ && code2@ == code
                            && final(self).phase == EnrollPhase::Enable),
                    }
                },
                EnrollEvent::Enabled(Err(_)) => fails_with(r, old(self).outfile@, AppError::EnableFailed),
                EnrollEvent::Enabled(Ok(())) => (r matches EnrollAction::ListDevices { user_name }
                    && user_name@ == old(self).user_name@ && final(self).phase == EnrollPhase::Verify),
                EnrollEvent::Devices(Err(msg)) => fails_with(r, old(self).outfile@, AppError::IdentityCliError(msg)),
                EnrollEvent::Devices(Ok(devices)) => if lists_serial(devices@, old(self).serial@) {
                    (r matches EnrollAction::Finish { path, outcome: Ok((serial, secret)) }
                        && path@ == old(self).outfile@ && serial@ == old(self).serial@ && secret@ == old(self).secret@)
                } else {
                    fails_with(r, old(self).outfile@, AppError::VerificationFailed)
                },
            },
    {
        match event {
            EnrollEvent::DeviceCreated(Err(_)) => self.finish(Err(AppError::DeviceCreationFailed)),
            EnrollEvent::DeviceCreated(Ok(d)) => {
                self.serial = d.serial_number;
                self.phase = EnrollPhase::Image;
                EnrollAction::ReadImage { path: self.outfile.clone() }
            },
            EnrollEvent::ImageRead { payloads: None, .. } => self.finish(Err(AppError::QrDecodeFailed)),
            EnrollEvent::ImageRead { payloads: Some(scan), now } => {
                let secret = match MfaManager::import_qr_code(&scan) {
                    Err(e) => return self.finish(Err(e)),
                    Ok(s) => s,
                };
                if now < 0 {
                    return self.finish(Err(AppError::TotpError));
                }
                match MfaManager::generate_totp_code_at(secret.as_str(), now as u64) {
                    Err(e) => self.finish(Err(e)),
                    Ok(code) => {
                        self.secret = secret;
                        self.first_code = code;
                        self.phase = EnrollPhase::Wait;
                        EnrollAction::Wait { seconds: TOTP_STEP_SECS }
                    },
                }
            },
            EnrollEvent::Waited { now } => {
                if now < 0 {
                    return self.finish(Err(AppError::TotpError));
                }
                match MfaManager::generate_totp_code_at(self.secret.as_str(), now as u64) {
                    Err(e) => self.finish(Err(e)),
                    Ok(code) => {
                        self.phase = EnrollPhase::Enable;
                        EnrollAction::EnableDevice {
                            user_name: self.user_name.clone(),
                            serial: self.serial.clone(),
                            code1: self.first_code.clone(),
                            code2: code,
                        }
                    },
                }
            },
            EnrollEvent::Enabled(Err(_)) => self.finish(Err(AppError::EnableFailed)),
            EnrollEvent::Enabled(Ok(())) => {
                self.phase = EnrollPhase::Verify;
                EnrollAction::ListDevices { user_name: self.user_name.clone() }
            },
            EnrollEvent::Devices(Err(msg)) => self.finish(Err(AppError::IdentityCliError(msg))),
            EnrollEvent::Devices(Ok(devices)) => match MfaManager::verify_device_listed(&devices, self.serial.as_str()) {
                Err(e) => self.finish(Err(e)),
                Ok(()) => {
                    let serial = self.serial.clone();
                    let secret = self.secret.clone();
                    self.finish(Ok((serial, secret)))
                },
            },
        }
    }
}

} // verus!
