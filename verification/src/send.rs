//! SMTP envelope construction.

use vstd::prelude::*;

use crate::config::SmtpIdentityConfig;
use crate::error::{is_send_error, AppError};
use crate::text::trim_ws;

verus! {

#[derive(Debug, Clone, PartialEq, Eq)]
pub struct SendEnvelope {
    pub from: String,
    pub host: String,
    pub port: u16,
    pub tls_mode: Option<String>,
}

/// The envelope for sending as `identity`: refused when the host or the
/// address is blank, else the identity's address, host, port and TLS mode.
pub fn build_envelope(identity: &SmtpIdentityConfig) -> (r: Result<SendEnvelope, AppError>)
    ensures
        trim_ws(identity.host@).len() == 0 ==> r is Err && is_send_error(
            r->Err_0,
            "smtp host must not be empty"@,
        ),
        trim_ws(identity.host@).len() != 0 && trim_ws(identity.email_address@).len() == 0 ==> r is Err
            && is_send_error(r->Err_0, "smtp email_address must not be empty"@),
        trim_ws(identity.host@).len() != 0 && trim_ws(identity.email_address@).len() != 0 ==> r
            == Ok::<SendEnvelope, AppError>(
            SendEnvelope {
                from: identity.email_address,
                host: identity.host,
                port: identity.port,
                tls_mode: identity.tls_mode,
            },
        ),
{
    if crate::text::is_blank(identity.host.as_str()) {
        return Err(AppError::Send("smtp host must not be empty".to_string()));
    }
    if crate::text::is_blank(identity.email_address.as_str()) {
        return Err(AppError::Send("smtp email_address must not be empty".to_string()));
    }
    let tls_mode = match &identity.tls_mode {
        Some(t) => Some(t.clone()),
        None => None,
    };
    Ok(
        SendEnvelope {
            from: identity.email_address.clone(),
            host: identity.host.clone(),
            port: identity.port,
            tls_mode,
        },
    )
}

/// Sends a draft as `identity`; delivery itself is not performed, so this
/// succeeds exactly when the envelope can be built.
pub fn send_draft(
    identity: &SmtpIdentityConfig,
    to: &[String],
    subject: &str,
    body_text: &str,
) -> (r: Result<(), AppError>)
    ensures
        r is Ok <==> (trim_ws(identity.host@).len() != 0 && trim_ws(identity.email_address@).len()
            != 0),
        trim_ws(identity.host@).len() == 0 ==> r is Err && is_send_error(
            r->Err_0,
            "smtp host must not be empty"@,
        ),
        trim_ws(identity.host@).len() != 0 && trim_ws(identity.email_address@).len() == 0 ==> r is Err
            && is_send_error(r->Err_0, "smtp email_address must not be empty"@),
{
    match build_envelope(identity) {
        Ok(_) => Ok(()),
        Err(e) => Err(e),
    }
}

} // verus!
