use cour::config::SmtpIdentityConfig;
use cour::error::AppError;
use cour::send::build_envelope;

fn identity(host: &str, email: &str) -> SmtpIdentityConfig {
    SmtpIdentityConfig {
        name: "default".to_string(),
        email_address: email.to_string(),
        host: host.to_string(),
        port: 465,
        username: Some("ash@example.com".to_string()),
        password_env: Some("MAILFOR_SMTP_PASSWORD".to_string()),
        tls_mode: Some("tls".to_string()),
        default: Some(true),
    }
}

#[test]
fn builds_transport_from_identity() {
    let envelope = build_envelope(&identity("smtp.example.com", "ash@example.com")).expect("build envelope");
    assert_eq!(envelope.host, "smtp.example.com");
    assert_eq!(envelope.port, 465);
    assert_eq!(envelope.from, "ash@example.com");
}

#[test]
fn refuses_envelope_without_host() {
    match build_envelope(&identity("  ", "ash@example.com")) {
        Err(AppError::Send(m)) => assert_eq!(m, "smtp host must not be empty"),
        other => panic!("unexpected {other:?}"),
    }
}
