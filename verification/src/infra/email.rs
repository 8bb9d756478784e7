use vstd::prelude::*;

use crate::errors::{AppError, ErrorKind};
use crate::text::{chars_of, concat2, parse_unsigned, parse_unsigned_chars};

verus! {

broadcast use vstd::string::group_string_axioms;

/// Sends e-mail.
pub trait EmailService {
    fn send_email(&self, to: &str, subject: &str, body: &str) -> Result<(), AppError>;
}

/// An e-mail service that sends nothing and always succeeds.
pub struct MockEmailService;

impl EmailService for MockEmailService {
    fn send_email(&self, to: &str, subject: &str, body: &str) -> (r: Result<(), AppError>)
        ensures
            r is Ok,
    {
        Ok(())
    }
}

/// How the SMTP transport is set up.
#[derive(Debug, Clone)]
pub struct SmtpSettings {
    pub host: String,
    pub port: u16,
    /// User and password, where both are given.
    pub credentials: Option<(String, String)>,
    pub from_address: String,
}

pub open spec fn or_default(o: Option<String>, d: Seq<char>) -> Seq<char> {
    match o {
        Some(s) => s@,
        None => d,
    }
}

/// The SMTP port: the configured text read as a port number, 1025 where it
/// is missing or not a port number.
pub open spec fn smtp_port(raw: Option<String>) -> u16 {
    match parse_unsigned(or_default(raw, "1025"@), 65535) {
        Some(v) => v as u16,
        None => 1025,
    }
}

/// The SMTP settings from the configured values (each `None` where not
/// configured): host `localhost`, port 1025 and sender `no-reply@mage.com`
/// by default; credentials only where both user and password are given.
pub fn smtp_settings(
    host: Option<String>,
    port: Option<String>,
    user: Option<String>,
    pass: Option<String>,
    from: Option<String>,
) -> (r: SmtpSettings)
    ensures
        r.host@ == or_default(host, "localhost"@),
        r.port == smtp_port(port),
        r.from_address@ == or_default(from, "no-reply@mage.com"@),
        match (user, pass) {
            (Some(u), Some(p)) => r.credentials == Some((u, p)),
            _ => r.credentials is None,
        },
{
    let host = match host {
        Some(h) => h,
        None => String::from_str("localhost"),
    };
    let ghost old_port = port;
    let port_text = match port {
        Some(p) => p,
        None => String::from_str("1025"),
    };
    let port_chars = chars_of(port_text.as_str());
    let parsed = parse_unsigned_chars(&port_chars, 65535);
    let port: u16 = match parsed {
        Some(v) => v as u16,
        None => 1025,
    };
    assert(port_text@ == or_default(old_port, "1025"@));
    assert(port == smtp_port(old_port));
    let from_address = match from {
        Some(f) => f,
        None => String::from_str("no-reply@mage.com"),
    };
    let credentials = match (user, pass) {
        (Some(u), Some(p)) => Some((u, p)),
        _ => None,
    };
    SmtpSettings { host, port, credentials, from_address }
}

/// The e-mail operations that can fail.
#[derive(Debug, Clone, Copy, PartialEq, Eq)]
pub enum EmailFailure {
    /// The relay could not be set up (server error, with the relay's error).
    Relay,
    /// The sender address is not an address (server error).
    Sender,
    /// The recipient address is not an address (bad request).
    Recipient,
    /// The message could not be built (server error, with the builder's error).
    Build,
    /// The SMTP transport failed (server error, with the transport's error).
    Send,
}

pub open spec fn email_failure_view(kind: EmailFailure, detail: Seq<char>) -> (ErrorKind, Seq<char>) {
    match kind {
        EmailFailure::Relay => (ErrorKind::Internal, "Erro ao criar SMTP relay: "@ + detail),
        EmailFailure::Sender => (ErrorKind::Internal, "Formato de remetente SMTP inválido"@),
        EmailFailure::Recipient => (ErrorKind::BadRequest, "Formato de destinatário inválido"@),
        EmailFailure::Build => (ErrorKind::Internal, "Falha ao construir e-mail: "@ + detail),
        EmailFailure::Send => (ErrorKind::Internal, "Falha no envio de e-mail SMTP: "@ + detail),
    }
}

/// The error for a failed e-mail operation, given the text of the
/// underlying error (not shown for address errors).
pub fn email_error(kind: EmailFailure, detail: &str) -> (r: AppError)
    ensures
        r@ == email_failure_view(kind, detail@),
{
    match kind {
        EmailFailure::Relay => AppError::Internal(concat2("Erro ao criar SMTP relay: ", detail)),
        EmailFailure::Sender => AppError::with_text(
            ErrorKind::Internal,
            "Formato de remetente SMTP inválido",
        ),
        EmailFailure::Recipient => AppError::with_text(
            ErrorKind::BadRequest,
            "Formato de destinatário inválido",
        ),
        EmailFailure::Build => AppError::Internal(concat2("Falha ao construir e-mail: ", detail)),
        EmailFailure::Send => AppError::Internal(
            concat2("Falha no envio de e-mail SMTP: ", detail),
        ),
    }
}

} // verus!
