//! The transport plan: every decision the SMTP client is configured with,
//! computed from the operator configuration as one pure function.
use vstd::prelude::*;

use crate::MailError;
use crate::chars::{lower, split_char, trim_token};
use crate::config::MailConfig;

verus! {

/// How the connection is secured.
#[derive(Clone, Copy, Debug, PartialEq, Eq, Structural)]
pub enum TlsMode {
    /// No TLS at all.
    NoTls,
    /// Connect plaintext, then upgrade via STARTTLS; fail if unavailable.
    Required,
    /// TLS from the first byte.
    Wrapper,
}

/// An SMTP authentication mechanism the transport may be restricted to.
#[derive(Clone, Copy, Debug, PartialEq, Eq, Structural)]
pub enum AuthMechanism {
    Plain,
    Login,
    Xoauth2,
}

/// The TLS parameter bundle built for a TLS-enabled transport. The minimum
/// accepted protocol version is always the TLS 1.1 floor.
pub struct TlsParams {
    /// The host name the certificate is validated against.
    pub domain: String,
}

/// A username/password pair attached to the transport.
pub struct SmtpCredentials {
    pub username: String,
    pub password: String,
}

/// A fully decided transport configuration, ready to be turned into an
/// SMTP client: no option below is recomputed at connect time.
pub struct TransportPlan {
    /// The server host.
    pub host: String,
    /// The server port.
    pub port: u16,
    /// How the connection is secured.
    pub tls_mode: TlsMode,
    /// Present exactly when `tls_mode` is not `NoTls`.
    pub tls_parameters: Option<TlsParams>,
    /// Present exactly when both a username and a password are configured.
    pub credentials: Option<SmtpCredentials>,
    /// The configured HELO/EHLO identity, when there is one.
    pub helo_name: Option<String>,
    /// The mechanisms the transport is restricted to; absent means the
    /// client library's own default selection.
    pub mechanisms: Option<Vec<AuthMechanism>>,
    /// Timeout in seconds for every network operation.
    pub timeout_seconds: u64,
    /// A preference string was configured but matched no known mechanism;
    /// non-fatal, the default selection stays.
    pub auth_warning: bool,
}

impl TransportPlan {
    /// A TLS parameter bundle exists exactly when some TLS mode is on.
    pub open spec fn wf(self) -> bool {
        (self.tls_mode is NoTls) <==> (self.tls_parameters is None)
    }
}

/// The canonical (lower-case) name of a mechanism.
pub open spec fn mech_name(m: AuthMechanism) -> Seq<char> {
    match m {
        AuthMechanism::Plain => "plain"@,
        AuthMechanism::Login => "login"@,
        AuthMechanism::Xoauth2 => "xoauth2"@,
    }
}

/// Whether one comma-separated token selects mechanism `m`: equal to its
/// name up to ASCII case once quotes and spaces are stripped.
pub open spec fn token_matches(tok: Seq<char>, m: AuthMechanism) -> bool {
    lower(trim_token(tok)) == lower(mech_name(m))
}

/// Whether any token of the preference string selects mechanism `m`.
pub open spec fn mech_selected(s: Seq<char>, m: AuthMechanism) -> bool {
    exists|i: int|
        0 <= i < split_char(s, ',').len() && token_matches(#[trigger] split_char(s, ',')[i], m)
}

/// The selected mechanisms, in the order the allowed set is iterated
/// (Plain, Login, Xoauth2) - not the order the tokens were written in.
pub open spec fn selected_mechanisms(s: Seq<char>) -> Seq<AuthMechanism> {
    let r0 = Seq::<AuthMechanism>::empty();
    let r1 = if mech_selected(s, AuthMechanism::Plain) {
        r0.push(AuthMechanism::Plain)
    } else {
        r0
    };
    let r2 = if mech_selected(s, AuthMechanism::Login) {
        r1.push(AuthMechanism::Login)
    } else {
        r1
    };
    if mech_selected(s, AuthMechanism::Xoauth2) {
        r2.push(AuthMechanism::Xoauth2)
    } else {
        r2
    }
}

/// Splits the preference string on commas, strips quotes and spaces from
/// each token, and matches it against the allowed set up to ASCII case.
pub fn parse_auth_mechanisms(s: &str) -> (r: Vec<AuthMechanism>)
    ensures
        r@ == selected_mechanisms(s@),
{
    let toks = crate::chars::split_commas(s);
    let mut has_plain = false;
    let mut has_login = false;
    let mut has_xoauth2 = false;
    let mut i: usize = 0;
    while i < toks.len()
        invariant
            i <= toks.len(),
            toks.deep_view() == split_char(s@, ','),
            has_plain == exists|j: int|
                0 <= j < i && token_matches(#[trigger] toks.deep_view()[j], AuthMechanism::Plain),
            has_login == exists|j: int|
                0 <= j < i && token_matches(#[trigger] toks.deep_view()[j], AuthMechanism::Login),
            has_xoauth2 == exists|j: int|
                0 <= j < i && token_matches(#[trigger] toks.deep_view()[j], AuthMechanism::Xoauth2),
        decreases toks.len() - i,
    {
        let tt = crate::chars::str_trim_token(toks[i]);
        proof {
            assert(toks.deep_view()[i as int] == toks@[i as int]@);
        }
        let m_plain = crate::chars::eq_ignore_ascii_case(tt, "plain");
        let m_login = crate::chars::eq_ignore_ascii_case(tt, "login");
        let m_xoauth2 = crate::chars::eq_ignore_ascii_case(tt, "xoauth2");
        proof {
            assert(m_plain == token_matches(toks.deep_view()[i as int], AuthMechanism::Plain));
            assert(m_login == token_matches(toks.deep_view()[i as int], AuthMechanism::Login));
            assert(m_xoauth2 == token_matches(toks.deep_view()[i as int], AuthMechanism::Xoauth2));
        }
        if m_plain {
            has_plain = true;
        }
        if m_login {
            has_login = true;
        }
        if m_xoauth2 {
            has_xoauth2 = true;
        }
        i += 1;
    }
    let mut out: Vec<AuthMechanism> = Vec::new();
    if has_plain {
        out.push(AuthMechanism::Plain);
    }
    if has_login {
        out.push(AuthMechanism::Login);
    }
    if has_xoauth2 {
        out.push(AuthMechanism::Xoauth2);
    }
    proof {
        assert(out@ =~= selected_mechanisms(s@));
    }
    out
}

/// Builds the transport plan from the configuration: host and port taken
/// as given, the TLS mode decided by the two TLS flags, credentials only
/// when complete, the HELO identity when present, and the mechanism
/// restriction from the preference string. Fails exactly when the host is
/// unset.
pub fn build_transport_plan(config: &MailConfig) -> (r: Result<TransportPlan, MailError>)
    ensures
        (r is Err) <==> (config.smtp_host is None),
        r is Err ==> r == Result::<TransportPlan, MailError>::Err(MailError::TransportConfig),
        r matches Ok(plan) ==> {
            &&& plan.wf()
            &&& plan.host@ == config.smtp_host->0@
            &&& plan.port == config.smtp_port
            &&& plan.tls_mode == (if config.smtp_ssl {
                if config.smtp_explicit_tls {
                    TlsMode::Wrapper
                } else {
                    TlsMode::Required
                }
            } else {
                TlsMode::NoTls
            })
            &&& config.smtp_ssl ==> (plan.tls_parameters matches Some(tp) && tp.domain@
                == config.smtp_host->0@)
            &&& (plan.credentials is Some) <==> (config.smtp_username is Some
                && config.smtp_password is Some)
            &&& plan.credentials matches Some(c) ==> (c.username@ == config.smtp_username->0@
                && c.password@ == config.smtp_password->0@)
            &&& (plan.helo_name is Some) <==> (config.helo_name is Some)
            &&& plan.helo_name matches Some(h) ==> h@ == config.helo_name->0@
            &&& match config.smtp_auth_mechanism {
                Some(pref) => {
                    if selected_mechanisms(pref@).len() > 0 {
                        &&& (plan.mechanisms matches Some(v) && v@ == selected_mechanisms(pref@))
                        &&& !plan.auth_warning
                    } else {
                        &&& plan.mechanisms is None
                        &&& plan.auth_warning
                    }
                },
                None => plan.mechanisms is None && !plan.auth_warning,
            }
            &&& plan.timeout_seconds == config.smtp_timeout
        },
{
    let host = match &config.smtp_host {
        Some(h) => h.clone(),
        None => {
            return Err(MailError::TransportConfig);
        },
    };
    let (tls_mode, tls_parameters): (TlsMode, Option<TlsParams>) = if config.smtp_ssl {
        let params = TlsParams { domain: host.clone() };
        if config.smtp_explicit_tls {
            (TlsMode::Wrapper, Some(params))
        } else {
            (TlsMode::Required, Some(params))
        }
    } else {
        (TlsMode::NoTls, None)
    };
    let credentials = match (&config.smtp_username, &config.smtp_password) {
        (Some(u), Some(p)) => Some(SmtpCredentials { username: u.clone(), password: p.clone() }),
        _ => None,
    };
    let helo_name = match &config.helo_name {
        Some(h) => Some(h.clone()),
        None => None,
    };
    let (mechanisms, auth_warning): (Option<Vec<AuthMechanism>>, bool) = match &config
        .smtp_auth_mechanism {
        Some(pref) => {
            let selected = parse_auth_mechanisms(pref.as_str());
            if selected.len() > 0 {
                (Some(selected), false)
            } else {
                (None, true)
            }
        },
        None => (None, false),
    };
    Ok(
        TransportPlan {
            host,
            port: config.smtp_port,
            tls_mode,
            tls_parameters,
            credentials,
            helo_name,
            mechanisms,
            timeout_seconds: config.smtp_timeout,
            auth_warning,
        },
    )
}

} // verus!
