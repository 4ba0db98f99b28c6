use mfa_session::error::AppError;
use mfa_session::mfa::MfaManager;
use mfa_session::models::SessionCredentials;

// base32 of the ASCII key "12345678901234567890"
const SECRET: &str = "GEZDGNBVGY3TQOJQGEZDGNBVGY3TQOJQ";

#[test]
fn code_matches_reference_vectors() {
    assert_eq!(MfaManager::generate_totp_code_at(SECRET, 59).unwrap(), "287082");
    assert_eq!(MfaManager::generate_totp_code_at(SECRET, 1111111109).unwrap(), "081804");
    assert_eq!(MfaManager::generate_totp_code_at(SECRET, 1234567890).unwrap(), "005924");
}

#[test]
fn code_is_six_digits_and_stable_within_a_step() {
    let a = MfaManager::generate_totp_code_at(SECRET, 60).unwrap();
    let b = MfaManager::generate_totp_code_at(SECRET, 89).unwrap();
    assert_eq!(a.len(), 6);
    assert!(a.chars().all(|c| c.is_ascii_digit()));
    assert_eq!(a, b);
    let c = MfaManager::generate_totp_code_at(SECRET, 90).unwrap();
    assert_ne!(a, c);
}

#[test]
fn current_code_is_six_digits() {
    let code = MfaManager::generate_totp_code(SECRET).unwrap();
    assert_eq!(code.len(), 6);
    assert!(code.chars().all(|c| c.is_ascii_digit()));
}

#[test]
fn invalid_base32_secret_is_rejected() {
    assert_eq!(MfaManager::generate_totp_code_at("not base32!", 59), Err(AppError::InvalidSecret));
    assert_eq!(MfaManager::generate_totp_code("not base32!"), Err(AppError::InvalidSecret));
}

#[test]
fn short_secret_still_gives_codes() {
    // ten bytes of key: any decodable secret gives a code
    let code = MfaManager::generate_totp_code_at("JBSWY3DPEHPK3PXP", 59).unwrap();
    assert_eq!(code.len(), 6);
    assert_eq!(code, MfaManager::generate_totp_code_at("JBSWY3DPEHPK3PXP", 30).unwrap());
    assert_eq!(MfaManager::decode_secret("JBSWY3DPEHPK3PXP").unwrap().len(), 10);
    assert_eq!(MfaManager::get_time_remaining_at("JBSWY3DPEHPK3PXP", 31), Ok(29));
    // '1' is outside the base32 alphabet
    assert_eq!(MfaManager::decode_secret("ABCD1234"), Err(AppError::InvalidSecret));
}

#[test]
fn time_remaining_in_step() {
    assert_eq!(MfaManager::time_remaining_at(60), 0);
    assert_eq!(MfaManager::time_remaining_at(61), 29);
    assert_eq!(MfaManager::time_remaining_at(89), 1);
    assert_eq!(MfaManager::get_time_remaining_at(SECRET, 75), Ok(15));
    assert_eq!(MfaManager::get_time_remaining_at("??", 75), Err(AppError::InvalidSecret));
    assert!(MfaManager::get_time_remaining(SECRET).unwrap() < 30);
}

fn creds(expiration: i64) -> SessionCredentials {
    SessionCredentials {
        access_key_id: "AKIA".to_string(),
        secret_access_key: "s".to_string(),
        session_token: "t".to_string(),
        expiration,
    }
}

#[test]
fn validity_needs_five_minutes_of_margin() {
    let now = 1_700_000_000;
    assert!(creds(now + 600).is_valid_at(now));
    assert!(!creds(now + 60).is_valid_at(now));
    assert!(!creds(now + 300).is_valid_at(now));
    assert!(creds(now + 301).is_valid_at(now));
    assert!(!creds(now - 10).is_valid_at(now));
    assert!(!creds(i64::MAX).is_valid_at(i64::MAX));
}

#[test]
fn validity_by_the_clock() {
    assert!(creds(i64::MAX).is_valid());
    assert!(!creds(0).is_valid());
}
