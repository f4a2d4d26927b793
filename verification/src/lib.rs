//! Transactional-notification mail library.
//!
//! Turns an account event (welcome, invite, new-device login, ...) into a
//! fully assembled outbound email: a template request, a normalized
//! recipient address, a fixed MIME multipart tree and a transport plan.
//! Rendering, signing and the SMTP session itself are collaborators that
//! the caller runs; everything this crate computes is verified.
use vstd::prelude::*;

pub mod address;
pub mod config;
pub mod datetime;
pub mod dispatch;
pub mod message;
pub mod chars;
pub mod template;
pub mod transport;

verus! {

/// Every failure this subsystem can surface to a caller.
#[derive(Clone, Copy, Debug, PartialEq, Eq, Structural)]
pub enum MailError {
    /// The SMTP host is unset: a startup-time misconfiguration.
    TransportConfig,
    /// The recipient address has no `@` separator.
    InvalidAddress,
    /// The IDNA to-ASCII transform rejected the domain segment.
    DomainEncoding,
    /// A reassembled mailbox address failed syntactic validation.
    AddressParse,
    /// A rendered template lacks the subject/body delimiter marker.
    TemplateFormat,
    /// The templating collaborator itself failed.
    TemplateRender,
    /// The SMTP session failed after the message was assembled.
    Send,
}

impl MailError {
    /// A short human-readable description of the failure.
    pub fn describe(&self) -> (r: &'static str)
        ensures
            r@ == describe_error(*self),
    {
        match self {
            MailError::TransportConfig => "SMTP host is not configured",
            MailError::InvalidAddress => "Invalid email address (no @)",
            MailError::DomainEncoding => "Can't convert email domain to ASCII representation",
            MailError::AddressParse => "Address is not a valid mailbox address",
            MailError::TemplateFormat => "Template doesn't contain subject and body",
            MailError::TemplateRender => "Template rendering failed",
            MailError::Send => "Sending the email failed",
        }
    }
}

/// The description each error variant carries.
pub open spec fn describe_error(e: MailError) -> Seq<char> {
    match e {
        MailError::TransportConfig => "SMTP host is not configured"@,
        MailError::InvalidAddress => "Invalid email address (no @)"@,
        MailError::DomainEncoding => "Can't convert email domain to ASCII representation"@,
        MailError::AddressParse => "Address is not a valid mailbox address"@,
        MailError::TemplateFormat => "Template doesn't contain subject and body"@,
        MailError::TemplateRender => "Template rendering failed"@,
        MailError::Send => "Sending the email failed"@,
    }
}

} // verus!
