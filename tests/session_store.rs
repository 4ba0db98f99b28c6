use mfa_session::aws_config::AwsProfile;
use mfa_session::error::AppError;
use mfa_session::session_config::{SessionConfig, SessionConfigManager};
use mfa_session::text::{format_u16, is_blank_text, last_segment, parse_u16};

fn resolve(
    stored: Option<SessionConfig>,
    t: Option<&str>,
    l: Option<u16>,
    r: Option<u16>,
    d: Option<&str>,
) -> Result<SessionConfig, AppError> {
    SessionConfigManager::resolve_config(stored, t.map(String::from), l, r, d.map(String::from))
}

fn stored() -> SessionConfig {
    SessionConfig {
        target: "i-stored".to_string(),
        local_port: 2000,
        remote_port: 22,
        document_name: "Doc-Stored".to_string(),
    }
}

#[test]
fn defaults_fill_missing_fields() {
    let c = resolve(None, Some("i-123"), None, None, None).unwrap();
    assert_eq!(c.target, "i-123");
    assert_eq!(c.local_port, 13389);
    assert_eq!(c.remote_port, 3389);
    assert_eq!(c.document_name, "AWS-StartPortForwardingSession");
}

#[test]
fn request_values_beat_stored_values() {
    let c = resolve(Some(stored()), Some("i-9"), None, Some(443), None).unwrap();
    assert_eq!(c.target, "i-9");
    assert_eq!(c.local_port, 2000);
    assert_eq!(c.remote_port, 443);
    assert_eq!(c.document_name, "Doc-Stored");
    let c = resolve(Some(stored()), None, Some(1), None, Some("D")).unwrap();
    assert_eq!(c.target, "i-stored");
    assert_eq!(c.local_port, 1);
    assert_eq!(c.remote_port, 22);
    assert_eq!(c.document_name, "D");
}

#[test]
fn missing_target_is_an_error() {
    assert_eq!(resolve(None, None, Some(1), None, None).unwrap_err(), AppError::TargetRequired);
}

#[test]
fn default_config_values() {
    let c = SessionConfig::default();
    assert_eq!(c.target, "");
    assert_eq!(c.local_port, 13389);
    assert_eq!(c.remote_port, 3389);
    assert_eq!(c.document_name, "AWS-StartPortForwardingSession");
}

#[test]
fn update_then_load_round_trip() {
    let text = SessionConfigManager::update_config(None, "dev", Some("i-123".into()), Some(15000), Some(22), Some("Doc".into())).unwrap();
    let c = SessionConfigManager::load_config("dev", Some(&text)).unwrap().unwrap();
    assert_eq!(c.target, "i-123");
    assert_eq!(c.local_port, 15000);
    assert_eq!(c.remote_port, 22);
    assert_eq!(c.document_name, "Doc");
    let text = SessionConfigManager::update_config(Some(&text), "dev", None, Some(1), None, None).unwrap();
    let c = SessionConfigManager::load_config("dev", Some(&text)).unwrap().unwrap();
    assert_eq!(c.target, "i-123");
    assert_eq!(c.local_port, 1);
    assert_eq!(c.remote_port, 22);
}

#[test]
fn remove_then_load_gives_nothing() {
    let text = SessionConfigManager::update_config(None, "dev", Some("i-1".into()), None, None, None).unwrap();
    let text = SessionConfigManager::update_config(Some(&text), "prod", Some("i-2".into()), None, None, None).unwrap();
    let after = SessionConfigManager::remove_config(Some(&text), "dev").unwrap().unwrap();
    assert!(SessionConfigManager::load_config("dev", Some(&after)).unwrap().is_none());
    assert!(SessionConfigManager::load_config("prod", Some(&after)).unwrap().is_some());
    assert_eq!(SessionConfigManager::remove_config(None, "dev"), Ok(None));
}

#[test]
fn repeated_sections_and_keys_are_dropped_on_write() {
    let text = "[a]\nk=v\nk=\\\"x\n[b]\nm=n\n[a]\nz=1\n";
    let written = SessionConfigManager::update_config(Some(text), "b", None, Some(7), None, None).unwrap();
    assert!(SessionConfigManager::load_config("a", Some(&written)).is_ok());
    let b = SessionConfigManager::load_config("b", Some(&written)).unwrap().unwrap();
    assert_eq!(b.local_port, 7);
}

#[test]
fn values_with_separators_survive_a_write() {
    let doc = "arn:aws:ssm:eu-west-1:123:document/My=Doc;v#1";
    let text = SessionConfigManager::update_config(None, "dev", Some("i-1".into()), None, None, Some(doc.into())).unwrap();
    let c = SessionConfigManager::load_config("dev", Some(&text)).unwrap().unwrap();
    assert_eq!(c.document_name, doc);
}

#[test]
fn load_without_store_or_section() {
    assert!(SessionConfigManager::load_config("dev", None).unwrap().is_none());
    assert!(SessionConfigManager::load_config("dev", Some("[other]\ntarget = i-1\n")).unwrap().is_none());
}

#[test]
fn load_reads_values_and_defaults() {
    let text = "[dev]\ntarget = i-77\nlocal_port = abc\nremote_port = +8080\n";
    let c = SessionConfigManager::load_config("dev", Some(text)).unwrap().unwrap();
    assert_eq!(c.target, "i-77");
    assert_eq!(c.local_port, 13389);
    assert_eq!(c.remote_port, 8080);
    assert_eq!(c.document_name, "AWS-StartPortForwardingSession");
}

#[test]
fn blank_stored_target_defers_to_request() {
    let text = "[dev]\ntarget = \nlocal_port = 1\n";
    let stored = SessionConfigManager::load_config("dev", Some(text)).unwrap().unwrap();
    assert_eq!(stored.target, "");
    assert_eq!(stored.local_port, 1);
    let c = resolve(Some(stored.clone()), Some("i-5"), None, None, None).unwrap();
    assert_eq!(c.target, "i-5");
    assert_eq!(c.local_port, 1);
    assert_eq!(resolve(Some(stored), None, None, None, None).unwrap_err(), AppError::TargetRequired);
    let text = "[dev]\nlocal_port = 1\n";
    let stored = SessionConfigManager::load_config("dev", Some(text)).unwrap().unwrap();
    assert_eq!(stored.target, "");
}

#[test]
fn unreadable_store_is_an_error() {
    let bad = "[dev\ntarget = x\n";
    assert_eq!(SessionConfigManager::load_config("dev", Some(bad)).unwrap_err(), AppError::ConfigUnreadable);
    assert_eq!(SessionConfigManager::update_config(Some(bad), "dev", None, None, None, None).unwrap_err(), AppError::ConfigUnreadable);
}

fn profile(name: &str) -> AwsProfile {
    AwsProfile { name: name.to_string(), region: None, output: None }
}

#[test]
fn create_store_from_profiles() {
    assert_eq!(
        SessionConfigManager::create_config_from_profiles(true, &vec![profile("dev")]),
        Err(AppError::ConfigAlreadyExists)
    );
    let text = SessionConfigManager::create_config_from_profiles(false, &vec![profile("dev"), profile("prod")]).unwrap();
    let names = SessionConfigManager::list_configured_profiles(Some(&text)).unwrap();
    assert_eq!(names, vec!["dev".to_string(), "prod".to_string()]);
    let other = SessionConfigManager::create_config_from_profiles(false, &vec![profile("zeta"), profile("alpha"), profile("mid")]).unwrap();
    assert_eq!(SessionConfigManager::list_configured_profiles(Some(&other)).unwrap(), vec!["zeta", "alpha", "mid"]);
    let dev = SessionConfigManager::load_config("dev", Some(&text)).unwrap().unwrap();
    assert_eq!(dev.target, "");
    assert_eq!(dev.local_port, 13389);
    assert_eq!(dev.document_name, "");
}

#[test]
fn list_configured_without_store() {
    assert!(SessionConfigManager::list_configured_profiles(None).unwrap().is_empty());
}

#[test]
fn port_text_round_trip() {
    for n in [0u16, 7, 10, 3389, 13389, 65535] {
        assert_eq!(parse_u16(&format_u16(n)), Some(n));
    }
    assert_eq!(format_u16(13389), "13389");
    assert_eq!(parse_u16("65536"), None);
    assert_eq!(parse_u16(""), None);
    assert_eq!(parse_u16("+"), None);
    assert_eq!(parse_u16("-1"), None);
    assert_eq!(parse_u16("12a"), None);
    assert_eq!(parse_u16("0042"), Some(42));
}

#[test]
fn blank_and_segments() {
    assert!(is_blank_text(" \t\u{3000}"));
    assert!(is_blank_text(""));
    assert!(!is_blank_text(" x "));
    assert_eq!(last_segment("arn:aws:iam::123456789012:user/team/alice"), "alice");
    assert_eq!(last_segment("no-slash"), "no-slash");
    assert_eq!(last_segment("ends/"), "");
}
