use mfa_session::connect::{ConnectAction, ConnectEvent, ConnectFlow, ConnectPhase, VaultRead};
use mfa_session::enroll::{EnrollAction, EnrollEvent, EnrollPhase, Enrollment};
use mfa_session::error::AppError;
use mfa_session::models::{MfaDevice, SessionCredentials, VirtualMfaDevice};
use mfa_session::session::SessionManager;
use mfa_session::session_config::{SessionConfig, SessionConfigManager};

const SECRET: &str = "GEZDGNBVGY3TQOJQGEZDGNBVGY3TQOJQ";
const NOW: i64 = 1_700_000_000;

fn creds(expiration: i64) -> SessionCredentials {
    SessionCredentials {
        access_key_id: "AKIA1".to_string(),
        secret_access_key: "SECRET1".to_string(),
        session_token: "TOKEN1".to_string(),
        expiration,
    }
}

fn device(serial: &str) -> MfaDevice {
    MfaDevice { user_name: "alice".to_string(), serial_number: serial.to_string(), enable_date: 0 }
}

fn dev_config() -> SessionConfig {
    SessionConfigManager::resolve_config(None, Some("i-123".to_string()), None, None, None).unwrap()
}

fn flow_at_cache() -> ConnectFlow {
    let (mut flow, first) = ConnectFlow::start(dev_config());
    assert!(matches!(first, ConnectAction::ResolveIdentity));
    let a = flow.on_event(ConnectEvent::Identity(Some("arn:aws:iam::1:user/alice".to_string())));
    match a {
        ConnectAction::ListDevices { user_name } => assert_eq!(user_name, "alice"),
        other => panic!("unexpected {:?}", other),
    }
    let a = flow.on_event(ConnectEvent::Devices(Ok(vec![device("arn:mfa/alice")])));
    assert!(matches!(a, ConnectAction::ReadCachedCredentials));
    assert_eq!(flow.serial, "arn:mfa/alice");
    flow
}

#[test]
fn connect_resolves_defaults_for_dev() {
    let c = dev_config();
    assert_eq!(c.local_port, 13389);
    assert_eq!(c.remote_port, 3389);
    assert_eq!(c.document_name, "AWS-StartPortForwardingSession");
}

#[test]
fn cached_credentials_with_ten_minutes_are_reused() {
    let mut flow = flow_at_cache();
    let a = flow.on_event(ConnectEvent::Cached { credentials: Some(creds(NOW + 600)), now: NOW });
    assert!(matches!(a, ConnectAction::CheckPort { port: 13389 }));
    assert!(flow.using_cached);
    let a = flow.on_event(ConnectEvent::PortChecked { in_use: false });
    match a {
        ConnectAction::Launch { args, env } => {
            assert_eq!(args, vec!["ssm", "start-session", "--target", "i-123", "--document-name",
                "AWS-StartPortForwardingSession", "--parameters", "portNumber=3389,localPortNumber=13389"]);
            assert_eq!(env.len(), 3);
        },
        other => panic!("unexpected {:?}", other),
    }
    assert_eq!(flow.phase, ConnectPhase::Launched);
    let report = flow.response("dev");
    assert!(report.using_cached);
    assert_eq!(report.expiration, "2023-11-14 22:23:20 UTC");
    assert_eq!(report.local_port, 13389);
}

#[test]
fn cached_credentials_with_one_minute_are_not_reused() {
    let mut flow = flow_at_cache();
    let a = flow.on_event(ConnectEvent::Cached { credentials: Some(creds(NOW + 60)), now: NOW });
    assert!(matches!(a, ConnectAction::ReadSecret));
    assert!(!flow.using_cached);
    let a = flow.on_event(ConnectEvent::Secret { secret: VaultRead::Found(SECRET.to_string()), now: 59 });
    match a {
        ConnectAction::ExchangeCode { serial, code } => {
            assert_eq!(serial, "arn:mfa/alice");
            assert_eq!(code, "287082");
        },
        other => panic!("unexpected {:?}", other),
    }
    let a = flow.on_event(ConnectEvent::Exchanged(Ok(creds(NOW + 3600))));
    assert!(matches!(a, ConnectAction::CacheCredentials));
    assert_eq!(flow.credentials.as_ref().unwrap().expiration, NOW + 3600);
    let a = flow.on_event(ConnectEvent::CacheWritten);
    assert!(matches!(a, ConnectAction::CheckPort { port: 13389 }));
    assert!(!flow.using_cached);
}

#[test]
fn bound_port_fails_before_launch() {
    let mut flow = flow_at_cache();
    flow.on_event(ConnectEvent::Cached { credentials: Some(creds(NOW + 600)), now: NOW });
    let a = flow.on_event(ConnectEvent::PortChecked { in_use: true });
    match a {
        ConnectAction::Fail(e) => assert_eq!(e, AppError::PortInUse(13389)),
        other => panic!("unexpected {:?}", other),
    }
    assert_eq!(flow.phase, ConnectPhase::Failed);
}

#[test]
fn connect_failures() {
    let (mut flow, _) = ConnectFlow::start(dev_config());
    assert!(matches!(flow.on_event(ConnectEvent::Identity(None)), ConnectAction::Fail(AppError::IdentityUnavailable)));

    let (mut flow, _) = ConnectFlow::start(dev_config());
    assert!(matches!(
        flow.on_event(ConnectEvent::Identity(Some("no-slash-arn".to_string()))),
        ConnectAction::Fail(AppError::IdentityUnavailable)
    ));

    let (mut flow, _) = ConnectFlow::start(dev_config());
    flow.on_event(ConnectEvent::Identity(Some("arn/bob".to_string())));
    assert!(matches!(flow.on_event(ConnectEvent::Devices(Ok(vec![]))), ConnectAction::Fail(AppError::NoMfaDevice)));

    let mut flow = flow_at_cache();
    flow.on_event(ConnectEvent::Cached { credentials: None, now: NOW });
    assert!(!flow.expects(&ConnectEvent::CacheWritten));
    assert!(flow.expects(&ConnectEvent::Secret { secret: VaultRead::Missing, now: NOW }));
    assert!(matches!(
        flow.on_event(ConnectEvent::Secret { secret: VaultRead::Missing, now: NOW }),
        ConnectAction::Fail(AppError::SecretNotConfigured)
    ));

    let mut flow = flow_at_cache();
    flow.on_event(ConnectEvent::Cached { credentials: None, now: NOW });
    assert!(matches!(
        flow.on_event(ConnectEvent::Secret { secret: VaultRead::Found("!!".to_string()), now: NOW }),
        ConnectAction::Fail(AppError::InvalidSecret)
    ));

    let mut flow = flow_at_cache();
    flow.on_event(ConnectEvent::Cached { credentials: None, now: NOW });
    flow.on_event(ConnectEvent::Secret { secret: VaultRead::Found(SECRET.to_string()), now: NOW });
    match flow.on_event(ConnectEvent::Exchanged(Err("denied".to_string()))) {
        ConnectAction::Fail(e) => assert_eq!(e, AppError::IdentityCliError("denied".to_string())),
        other => panic!("unexpected {:?}", other),
    }
}

#[test]
fn tunnel_command_parts() {
    let args = SessionManager::tunnel_args("i-9", 15000, 22, "");
    assert_eq!(args, vec!["ssm", "start-session", "--target", "i-9", "--parameters", "portNumber=22,localPortNumber=15000"]);
    let mut c = creds(0);
    c.session_token = String::new();
    let env = SessionManager::tunnel_env(&c);
    assert_eq!(env, vec![
        ("AWS_ACCESS_KEY_ID".to_string(), "AKIA1".to_string()),
        ("AWS_SECRET_ACCESS_KEY".to_string(), "SECRET1".to_string()),
    ]);
}

fn qr_scan(payload: &str) -> Vec<Option<String>> {
    let code = qrcode::QrCode::new(payload.as_bytes()).unwrap();
    let modules = code.width();
    let colors = code.to_colors();
    let (scale, quiet) = (4, 4);
    let side = (modules + 2 * quiet) * scale;
    let mut pixels = vec![255u8; side * side];
    for y in 0..side {
        for x in 0..side {
            let (mx, my) = (x / scale, y / scale);
            if mx >= quiet && my >= quiet && mx < quiet + modules && my < quiet + modules
                && colors[(my - quiet) * modules + (mx - quiet)] == qrcode::Color::Dark
            {
                pixels[y * side + x] = 0;
            }
        }
    }
    let mut prepared = rqrr::PreparedImage::prepare_from_greyscale(side, side, |x, y| pixels[y * side + x]);
    prepared.detect_grids().iter().map(|g| g.decode().ok().map(|(_, c)| c)).collect()
}

#[test]
fn enrollment_happy_path() {
    let (mut flow, first) = Enrollment::start("alice", "dev");
    match first {
        EnrollAction::CreateDevice { user_name, outfile } => {
            assert_eq!(user_name, "alice");
            assert_eq!(outfile, "qr_temp_dev.png");
        },
        other => panic!("unexpected {:?}", other),
    }
    let a = flow.on_event(EnrollEvent::DeviceCreated(Ok(VirtualMfaDevice { serial_number: "arn:mfa/alice".to_string() })));
    assert!(matches!(a, EnrollAction::ReadImage { .. }));
    let payloads = qr_scan(&format!("otpauth://totp/AWS:alice?secret={}", SECRET));
    let a = flow.on_event(EnrollEvent::ImageRead { payloads: Some(payloads), now: 59 });
    assert!(matches!(a, EnrollAction::Wait { seconds: 30 }));
    let a = flow.on_event(EnrollEvent::Waited { now: 89 });
    match a {
        EnrollAction::EnableDevice { user_name, serial, code1, code2 } => {
            assert_eq!(user_name, "alice");
            assert_eq!(serial, "arn:mfa/alice");
            assert_eq!(code1, "287082");
            assert_eq!(code2, mfa_session::mfa::MfaManager::generate_totp_code_at(SECRET, 89).unwrap());
        },
        other => panic!("unexpected {:?}", other),
    }
    let a = flow.on_event(EnrollEvent::Enabled(Ok(())));
    assert!(matches!(a, EnrollAction::ListDevices { .. }));
    let a = flow.on_event(EnrollEvent::Devices(Ok(vec![device("other"), device("arn:mfa/alice")])));
    match a {
        EnrollAction::Finish { path, outcome } => {
            assert_eq!(path, "qr_temp_dev.png");
            assert_eq!(outcome, Ok(("arn:mfa/alice".to_string(), SECRET.to_string())));
        },
        other => panic!("unexpected {:?}", other),
    }
    assert_eq!(flow.phase, EnrollPhase::Done);
}

#[test]
fn enrollment_failures_still_clean_up() {
    let (mut flow, _) = Enrollment::start("alice", "dev");
    match flow.on_event(EnrollEvent::DeviceCreated(Err("boom".to_string()))) {
        EnrollAction::Finish { path, outcome } => {
            assert_eq!(path, "qr_temp_dev.png");
            assert_eq!(outcome, Err(AppError::DeviceCreationFailed));
        },
        other => panic!("unexpected {:?}", other),
    }
    let (mut flow, _) = Enrollment::start("alice", "dev");
    flow.on_event(EnrollEvent::DeviceCreated(Ok(VirtualMfaDevice { serial_number: "s".to_string() })));
    match flow.on_event(EnrollEvent::ImageRead { payloads: Some(vec![]), now: 59 }) {
        EnrollAction::Finish { outcome, .. } => assert_eq!(outcome, Err(AppError::NoQrFound)),
        other => panic!("unexpected {:?}", other),
    }
    let (mut flow, _) = Enrollment::start("alice", "dev");
    flow.on_event(EnrollEvent::DeviceCreated(Ok(VirtualMfaDevice { serial_number: "s".to_string() })));
    flow.on_event(EnrollEvent::ImageRead { payloads: Some(qr_scan(&format!("otpauth://totp/a?secret={}", SECRET))), now: 59 });
    flow.on_event(EnrollEvent::Waited { now: 89 });
    match flow.on_event(EnrollEvent::Enabled(Err("no".to_string()))) {
        EnrollAction::Finish { outcome, .. } => assert_eq!(outcome, Err(AppError::EnableFailed)),
        other => panic!("unexpected {:?}", other),
    }
}
