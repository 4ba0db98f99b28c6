use mfa_session::aws_config::AwsConfig;
use mfa_session::error::AppError;
use mfa_session::keyring_manager::KeyringManager;
use mfa_session::mfa::MfaManager;
use mfa_session::models::MfaDevice;

const CONFIG: &str = "[default]\nregion = us-east-1\n\n[profile dev]\nregion = eu-west-1\noutput = json\n";
const CREDENTIALS: &str = "[default]\naws_access_key_id = A\n\n[ci]\naws_access_key_id = B\n";

#[test]
fn profiles_merge_both_stores() {
    let profiles = AwsConfig::list_profiles(Some(CONFIG), Some(CREDENTIALS)).unwrap();
    let names: Vec<&str> = profiles.iter().map(|p| p.name.as_str()).collect();
    assert_eq!(names, vec!["default", "dev", "ci"]);
    assert_eq!(profiles[0].region.as_deref(), Some("us-east-1"));
    assert_eq!(profiles[1].region.as_deref(), Some("eu-west-1"));
    assert_eq!(profiles[1].output.as_deref(), Some("json"));
    assert_eq!(profiles[2].region, None);
    assert_eq!(profiles[2].output, None);
}

#[test]
fn profiles_need_the_config_store() {
    assert_eq!(AwsConfig::list_profiles(None, Some(CREDENTIALS)).unwrap_err(), AppError::ConfigMissing);
    assert_eq!(AwsConfig::list_profiles(Some(""), None).unwrap_err(), AppError::NoProfiles);
    let only_creds = AwsConfig::list_profiles(Some(""), Some(CREDENTIALS)).unwrap();
    assert_eq!(only_creds.len(), 2);
}

#[test]
fn unreadable_credentials_are_ignored() {
    let profiles = AwsConfig::list_profiles(Some(CONFIG), Some("[broken\n")).unwrap();
    assert_eq!(profiles.len(), 2);
}

#[test]
fn profile_lookup() {
    let p = AwsConfig::get_profile("dev", Some(CONFIG), Some(CREDENTIALS)).unwrap();
    assert_eq!(p.name, "dev");
    assert_eq!(
        AwsConfig::get_profile("nope", Some(CONFIG), None).unwrap_err(),
        AppError::ProfileNotFound("nope".to_string())
    );
    assert!(AwsConfig::profile_exists("ci", Some(CONFIG), Some(CREDENTIALS)));
    assert!(!AwsConfig::profile_exists("ci", Some(CONFIG), None));
    assert_eq!(AwsConfig::profile_name("profile staging"), "staging");
    assert_eq!(AwsConfig::profile_name("default"), "default");
}

#[test]
fn secret_store_keys() {
    assert_eq!(KeyringManager::secret_key("dev"), "mfa_secret_dev");
    assert_eq!(KeyringManager::session_credentials_key("dev"), "session_credentials_dev");
}

#[test]
fn secret_from_otp_uri() {
    let uri = "otpauth://totp/Example:alice?secret=ABCD1234&issuer=Example";
    assert_eq!(MfaManager::parse_secret_from_uri(uri).unwrap(), "ABCD1234");
    let twice = "otpauth://totp/x?secret=FIRST&secret=LAST";
    assert_eq!(MfaManager::parse_secret_from_uri(twice).unwrap(), "LAST");
    assert_eq!(MfaManager::parse_secret_from_uri("otpauth://totp/x?issuer=E").unwrap_err(), AppError::SecretMissing);
    assert_eq!(MfaManager::parse_secret_from_uri("not a uri").unwrap_err(), AppError::InvalidOtpUri);
}

fn qr_pixels(payload: &str) -> (usize, Vec<u8>) {
    let code = qrcode::QrCode::new(payload.as_bytes()).unwrap();
    let modules = code.width();
    let colors = code.to_colors();
    let scale = 4;
    let quiet = 4;
    let side = (modules + 2 * quiet) * scale;
    let mut pixels = vec![255u8; side * side];
    for y in 0..side {
        for x in 0..side {
            let mx = x / scale;
            let my = y / scale;
            if mx >= quiet && my >= quiet && mx < quiet + modules && my < quiet + modules {
                if colors[(my - quiet) * modules + (mx - quiet)] == qrcode::Color::Dark {
                    pixels[y * side + x] = 0;
                }
            }
        }
    }
    (side, pixels)
}

fn scan(side: usize, pixels: &[u8]) -> Vec<Option<String>> {
    let mut prepared = rqrr::PreparedImage::prepare_from_greyscale(side, side, |x, y| pixels[y * side + x]);
    prepared.detect_grids().iter().map(|g| g.decode().ok().map(|(_, c)| c)).collect()
}

fn qr_scan(payload: &str) -> Vec<Option<String>> {
    let (side, pixels) = qr_pixels(payload);
    scan(side, &pixels)
}

#[test]
fn import_qr_code_reads_the_secret() {
    let payloads = qr_scan("otpauth://totp/AWS:alice?secret=ABCD1234&issuer=AWS");
    assert_eq!(MfaManager::import_qr_code(&payloads).unwrap(), "ABCD1234");
}

#[test]
fn import_qr_code_without_qr() {
    let blank = scan(40, &vec![255u8; 1600]);
    assert_eq!(MfaManager::import_qr_code(&blank).unwrap_err(), AppError::NoQrFound);
    assert_eq!(MfaManager::import_qr_code(&vec![None]).unwrap_err(), AppError::QrDecodeFailed);
    assert_eq!(MfaManager::payload_from_scan(&vec![None]).unwrap_err(), AppError::QrDecodeFailed);
    assert_eq!(MfaManager::payload_from_scan(&vec![Some("x".to_string()), None]).unwrap(), "x");
}

#[test]
fn qr_without_secret_parameter() {
    let payloads = qr_scan("otpauth://totp/AWS:alice?issuer=AWS");
    assert_eq!(MfaManager::import_qr_code(&payloads).unwrap_err(), AppError::SecretMissing);
}

fn device(serial: &str) -> MfaDevice {
    MfaDevice { user_name: "alice".to_string(), serial_number: serial.to_string(), enable_date: 0 }
}

#[test]
fn device_serials() {
    assert_eq!(MfaManager::serial_from_devices(&vec![]).unwrap_err(), AppError::NoMfaDevice);
    assert_eq!(MfaManager::serial_from_devices(&vec![device("s1"), device("s2")]).unwrap(), "s1");
    assert_eq!(MfaManager::verify_device_listed(&vec![device("s1"), device("s2")], "s2"), Ok(()));
    assert_eq!(MfaManager::verify_device_listed(&vec![device("s1")], "s9"), Err(AppError::VerificationFailed));
}

#[test]
fn username_needs_a_slash() {
    assert_eq!(AwsConfig::username_from_arn("arn:aws:iam::1:user/team/alice").unwrap(), "alice");
    assert_eq!(AwsConfig::username_from_arn("arn:aws:iam::1:root"), Err(AppError::IdentityUnavailable));
}

#[test]
fn first_config_section_wins() {
    let config = "[profile x]\nregion = first\n[x]\nregion = second\n";
    let p = AwsConfig::get_profile("x", Some(config), None).unwrap();
    assert_eq!(p.region.as_deref(), Some("first"));
    assert_eq!(AwsConfig::list_profiles(Some(config), None).unwrap().len(), 1);
}

#[test]
fn profile_lookup_errors_pass_through() {
    assert_eq!(AwsConfig::get_profile("dev", None, None).unwrap_err(), AppError::ConfigMissing);
    assert_eq!(AwsConfig::get_profile("dev", Some("[x\n"), None).unwrap_err(), AppError::ConfigUnreadable);
    assert_eq!(AwsConfig::get_profile("dev", Some(""), None).unwrap_err(), AppError::NoProfiles);
    let ci = AwsConfig::get_profile("ci", Some(CONFIG), Some(CREDENTIALS)).unwrap();
    assert_eq!(ci.region, None);
}
