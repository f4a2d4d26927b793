//! The operator configuration this subsystem reads. It is built by the
//! caller (environment, CLI) and passed in explicitly; this crate only
//! ever reads it.
use vstd::prelude::*;

verus! {

/// Everything the mail subsystem needs from the configuration source.
pub struct MailConfig {
    /// SMTP server host; unset is a fatal misconfiguration for any send.
    pub smtp_host: Option<String>,
    /// SMTP server port.
    pub smtp_port: u16,
    /// Whether TLS is enabled at all.
    pub smtp_ssl: bool,
    /// Whether to speak TLS from the first byte instead of STARTTLS.
    pub smtp_explicit_tls: bool,
    /// Optional account name; credentials are attached only when both the
    /// username and the password are present.
    pub smtp_username: Option<String>,
    /// Optional account password.
    pub smtp_password: Option<String>,
    /// Optional HELO/EHLO identity announced to the server.
    pub helo_name: Option<String>,
    /// Optional comma-separated auth-mechanism preference string.
    pub smtp_auth_mechanism: Option<String>,
    /// Timeout in seconds applied to every network operation.
    pub smtp_timeout: u64,
    /// The From header address.
    pub smtp_from: String,
    /// The From header display name.
    pub smtp_from_name: String,
    /// The service's public base URL, handed to every template.
    pub domain: String,
}

} // verus!
