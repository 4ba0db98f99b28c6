//! Short-lived AWS access: MFA enrollment, one-time codes, cached session
//! credentials, tunnel configuration and the connect sequence.

pub mod error;
pub mod paths;
pub mod text;
pub mod aws_config;
pub mod ini_store;
pub mod session_config;
pub mod models;
pub mod totp;
pub mod mfa;
pub mod session;
pub mod connect;
pub mod enroll;
pub mod keyring_manager;
pub mod aws_cli;
pub mod responses;
