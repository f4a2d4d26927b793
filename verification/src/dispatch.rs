//! One function per notification kind: each builds the template request
//! (logical template name, context, recipient) for its event, and the
//! shared pipeline turns the two raw renderings into a sendable message.
use vstd::prelude::*;
use vstd::string::StrSliceExecFns;
use vstd::string::StringExecFns;
use vstd::string::StringSliceAdditionalSpecFns;

use crate::MailError;
use crate::address::{normalize, normalize_spec};
use crate::config::MailConfig;
use crate::datetime::{Timestamp, format_datetime, format_datetime_spec};
use crate::message::{OutboundMessage, compose, is_standard_tree, mailbox_syntax_ok};
use crate::template::{combine_rendered, split_spec};

verus! {

/// An ASCII alphanumeric byte: the bytes percent-encoding passes through.
pub open spec fn is_ascii_alnum(b: u8) -> bool {
    (48 <= b <= 57) || (65 <= b <= 90) || (97 <= b <= 122)
}

/// The upper-case hexadecimal digit for a value below sixteen.
pub open spec fn hex_upper(n: u8) -> char
    recommends
        n < 16,
{
    if n < 10 {
        (n + 48) as char
    } else {
        (n + 55) as char
    }
}

/// Percent-encoding of a byte string where every byte that is not an
/// ASCII alphanumeric becomes `%XX` with upper-case hex digits.
pub open spec fn percent_encoded(bs: Seq<u8>) -> Seq<char>
    decreases bs.len(),
{
    if bs.len() == 0 {
        Seq::empty()
    } else {
        (if is_ascii_alnum(bs[0]) {
            seq![bs[0] as char]
        } else {
            seq!['%', hex_upper(bs[0] / 16), hex_upper(bs[0] % 16)]
        }) + percent_encoded(bs.drop_first())
    }
}

/// Relies on `percent_encoding::percent_encode` with `NON_ALPHANUMERIC`:
/// every byte outside the ASCII alphanumerics, including every non-ASCII
/// byte, becomes `%XX` with upper-case hex; the rest pass through.
#[verifier::external_body]
fn percent_encode_str(s: &str) -> (r: String)
    ensures
        r@ == percent_encoded(s.spec_bytes()),
{
    percent_encoding::percent_encode(s.as_bytes(), percent_encoding::NON_ALPHANUMERIC).to_string()
}

/// ASCII upper-casing of one character; others are unchanged.
pub open spec fn ascii_upper_char(c: char) -> char {
    if 97 <= c as int && c as int <= 122 {
        ((c as int - 32) as char)
    } else {
        c
    }
}

/// The input with its first character ASCII-upper-cased.
pub open spec fn upcase_first_spec(s: Seq<char>) -> Seq<char> {
    if s.len() == 0 {
        s
    } else {
        seq![ascii_upper_char(s[0])] + s.drop_first()
    }
}

/// The upper-case letter for an ASCII lower-case letter, as a string.
fn upper_letter(c: char) -> (r: Option<&'static str>)
    ensures
        match r {
            Some(u) => 97 <= c as int <= 122 && u@ == seq![ascii_upper_char(c)],
            None => !(97 <= c as int <= 122),
        },
{
    proof {
        reveal_strlit("A");
        reveal_strlit("B");
        reveal_strlit("C");
        reveal_strlit("D");
        reveal_strlit("E");
        reveal_strlit("F");
        reveal_strlit("G");
        reveal_strlit("H");
        reveal_strlit("I");
        reveal_strlit("J");
        reveal_strlit("K");
        reveal_strlit("L");
        reveal_strlit("M");
        reveal_strlit("N");
        reveal_strlit("O");
        reveal_strlit("P");
        reveal_strlit("Q");
        reveal_strlit("R");
        reveal_strlit("S");
        reveal_strlit("T");
        reveal_strlit("U");
        reveal_strlit("V");
        reveal_strlit("W");
        reveal_strlit("X");
        reveal_strlit("Y");
        reveal_strlit("Z");
    }
    match c {
        'a' => Some("A"),
        'b' => Some("B"),
        'c' => Some("C"),
        'd' => Some("D"),
        'e' => Some("E"),
        'f' => Some("F"),
        'g' => Some("G"),
        'h' => Some("H"),
        'i' => Some("I"),
        'j' => Some("J"),
        'k' => Some("K"),
        'l' => Some("L"),
        'm' => Some("M"),
        'n' => Some("N"),
        'o' => Some("O"),
        'p' => Some("P"),
        'q' => Some("Q"),
        'r' => Some("R"),
        's' => Some("S"),
        't' => Some("T"),
        'u' => Some("U"),
        'v' => Some("V"),
        'w' => Some("W"),
        'x' => Some("X"),
        'y' => Some("Y"),
        'z' => Some("Z"),
        _ => None,
    }
}

/// The input with its first character ASCII-upper-cased, as the device
/// name is shown in the new-device notification.
pub fn upcase_first(s: &str) -> (r: String)
    ensures
        r@ == upcase_first_spec(s@),
{
    let n = s.unicode_len();
    if n == 0 {
        return String::new();
    }
    let c = s.get_char(0);
    match upper_letter(c) {
        Some(u) => {
            let rest = s.substring_char(1, n);
            let r = u.to_owned().concat(rest);
            proof {
                assert(r@ =~= upcase_first_spec(s@));
            }
            r
        },
        None => {
            let r = s.to_owned();
            proof {
                assert(r@ =~= upcase_first_spec(s@));
            }
            r
        },
    }
}

/// One value a template parameter can carry.
pub enum ContextValue {
    /// An absent value, as an unset optional parameter is rendered.
    Null,
    /// A text value.
    Text(String),
}

/// One named template parameter.
pub struct ContextEntry {
    /// The parameter name the template recognizes.
    pub key: &'static str,
    /// The value handed to the template.
    pub value: ContextValue,
}

/// The mathematical content of one entry: its name and optional text.
pub open spec fn entry_view(e: ContextEntry) -> (Seq<char>, Option<Seq<char>>) {
    (
        e.key@,
        match e.value {
            ContextValue::Null => Option::None,
            ContextValue::Text(s) => Option::Some(s@),
        },
    )
}

/// The mathematical content of a whole context, in order.
pub open spec fn context_view(c: Seq<ContextEntry>) -> Seq<(Seq<char>, Option<Seq<char>>)> {
    c.map_values(|e: ContextEntry| entry_view(e))
}

/// Everything the caller needs to render one notification: the logical
/// template name (the HTML variant adds the `.html` suffix), the ordered
/// context, and the envelope recipient, never percent-encoded.
pub struct MailJob {
    /// The logical template name.
    pub template_name: &'static str,
    /// The ordered template parameters.
    pub context: Vec<ContextEntry>,
    /// The recipient the message envelope is addressed to.
    pub to: String,
}

/// The reassembled `localPart@asciiDomain` form of a normalized address.
pub open spec fn normalized_full(to_addr: Seq<char>) -> Seq<char> {
    normalize_spec(to_addr)->Ok_0.0 + seq!['@'] + normalize_spec(to_addr)->Ok_0.1
}

/// The first failure the preparation pipeline surfaces for these inputs,
/// if any: a missing delimiter, then a bad recipient, then a mailbox that
/// fails syntactic validation.
pub open spec fn prepare_error(
    from_addr: Seq<char>,
    to_addr: Seq<char>,
    html_raw: Seq<char>,
    text_raw: Seq<char>,
) -> Option<MailError> {
    if split_spec(html_raw) is Err || split_spec(text_raw) is Err {
        Option::Some(MailError::TemplateFormat)
    } else if normalize_spec(to_addr) is Err {
        Option::Some(normalize_spec(to_addr)->Err_0)
    } else if !mailbox_syntax_ok(from_addr) || !mailbox_syntax_ok(normalized_full(to_addr)) {
        Option::Some(MailError::AddressParse)
    } else {
        Option::None
    }
}

/// The shared tail of every dispatch: split both renderings, normalize the
/// recipient, and assemble the MIME message. Succeeds exactly when no step
/// owes an error, and then returns the fully assembled message.
pub fn prepare_message(
    config: &MailConfig,
    to_address: &str,
    html_raw: &str,
    text_raw: &str,
) -> (r: Result<OutboundMessage, MailError>)
    ensures
        (r is Err) <==> (prepare_error(config.smtp_from@, to_address@, html_raw@, text_raw@)
            is Some),
        r is Err ==> Option::Some(r->Err_0) == prepare_error(
            config.smtp_from@,
            to_address@,
            html_raw@,
            text_raw@,
        ),
        r matches Ok(m) ==> {
            &&& m.wf()
            &&& m.subject@ == split_spec(html_raw@)->Ok_0.0
            &&& m.subject@.len() > 0
            &&& split_spec(html_raw@)->Ok_0.1.len() > 0
            &&& split_spec(text_raw@)->Ok_0.1.len() > 0
            &&& is_standard_tree(
                m.body,
                split_spec(html_raw@)->Ok_0.1,
                split_spec(text_raw@)->Ok_0.1,
            )
            &&& m.to.name is None
            &&& m.to.address@ == normalized_full(to_address@)
            &&& (m.from.name matches Some(n) && n@ == config.smtp_from_name@)
            &&& m.from.address@ == config.smtp_from@
        },
{
    let rendered = match combine_rendered(html_raw, text_raw) {
        Ok(rc) => rc,
        Err(e) => {
            return Err(e);
        },
    };
    let na = match normalize(to_address) {
        Ok(na) => na,
        Err(e) => {
            return Err(e);
        },
    };
    let full = na.full_address();
    compose(
        config.smtp_from_name.as_str(),
        config.smtp_from.as_str(),
        full.as_str(),
        rendered.subject.as_str(),
        rendered.html_body.as_str(),
        rendered.text_body.as_str(),
    )
}

/// The template request for a password-hint mail: which hint template to
/// use depends on whether a hint exists, and the hint rides along.
pub fn send_password_hint(address: &str, hint: Option<&str>, config: &MailConfig) -> (r: MailJob)
    ensures
        r.template_name@ == (if hint is Some {
            "email/pw_hint_some"@
        } else {
            "email/pw_hint_none"@
        }),
        r.to@ == address@,
        context_view(r.context@) == seq![
            (
                "hint"@,
                match hint {
                    Option::Some(h) => Option::Some(h@),
                    Option::None => Option::<Seq<char>>::None,
                },
            ),
            ("url"@, Option::Some(config.domain@)),
        ],
{
    let template_name: &'static str = if hint.is_some() {
        "email/pw_hint_some"
    } else {
        "email/pw_hint_none"
    };
    let hint_value = match hint {
        Some(h) => ContextValue::Text(h.to_owned()),
        None => ContextValue::Null,
    };
    let mut context: Vec<ContextEntry> = Vec::new();
    context.push(ContextEntry { key: "hint", value: hint_value });
    context.push(ContextEntry { key: "url", value: ContextValue::Text(config.domain.clone()) });
    proof {
        assert(context_view(context@) =~~= seq![
            (
                "hint"@,
                match hint {
                    Option::Some(h) => Option::Some(h@),
                    Option::None => Option::<Seq<char>>::None,
                },
            ),
            ("url"@, Option::Some(config.domain@)),
        ]);
    }
    MailJob { template_name, context, to: address.to_owned() }
}

/// The template request for a delete-account confirmation: the recipient
/// address is percent-encoded where it rides inside the link, and the
/// caller-supplied signed token is embedded verbatim.
pub fn send_delete_account(
    address: &str,
    uuid: &str,
    delete_token: &str,
    config: &MailConfig,
) -> (r: MailJob)
    ensures
        r.template_name@ == "email/delete_account"@,
        r.to@ == address@,
        context_view(r.context@) == seq![
            ("url"@, Option::Some(config.domain@)),
            ("user_id"@, Option::Some(uuid@)),
            ("email"@, Option::Some(percent_encoded(address.spec_bytes()))),
            ("token"@, Option::Some(delete_token@)),
        ],
{
    let mut context: Vec<ContextEntry> = Vec::new();
    context.push(ContextEntry { key: "url", value: ContextValue::Text(config.domain.clone()) });
    context.push(ContextEntry { key: "user_id", value: ContextValue::Text(uuid.to_owned()) });
    context.push(ContextEntry { key: "email", value: ContextValue::Text(percent_encode_str(address)) });
    context.push(ContextEntry { key: "token", value: ContextValue::Text(delete_token.to_owned()) });
    proof {
        assert(context_view(context@) =~~= seq![
            ("url"@, Option::Some(config.domain@)),
            ("user_id"@, Option::Some(uuid@)),
            ("email"@, Option::Some(percent_encoded(address.spec_bytes()))),
            ("token"@, Option::Some(delete_token@)),
        ]);
    }
    MailJob { template_name: "email/delete_account", context, to: address.to_owned() }
}

/// The template request for a verify-email mail; shaped like the
/// delete-account request, with the verification token instead.
pub fn send_verify_email(
    address: &str,
    uuid: &str,
    verify_email_token: &str,
    config: &MailConfig,
) -> (r: MailJob)
    ensures
        r.template_name@ == "email/verify_email"@,
        r.to@ == address@,
        context_view(r.context@) == seq![
            ("url"@, Option::Some(config.domain@)),
            ("user_id"@, Option::Some(uuid@)),
            ("email"@, Option::Some(percent_encoded(address.spec_bytes()))),
            ("token"@, Option::Some(verify_email_token@)),
        ],
{
    let mut context: Vec<ContextEntry> = Vec::new();
    context.push(ContextEntry { key: "url", value: ContextValue::Text(config.domain.clone()) });
    context.push(ContextEntry { key: "user_id", value: ContextValue::Text(uuid.to_owned()) });
    context.push(ContextEntry { key: "email", value: ContextValue::Text(percent_encode_str(address)) });
    context.push(ContextEntry { key: "token", value: ContextValue::Text(verify_email_token.to_owned()) });
    proof {
        assert(context_view(context@) =~~= seq![
            ("url"@, Option::Some(config.domain@)),
            ("user_id"@, Option::Some(uuid@)),
            ("email"@, Option::Some(percent_encoded(address.spec_bytes()))),
            ("token"@, Option::Some(verify_email_token@)),
        ]);
    }
    MailJob { template_name: "email/verify_email", context, to: address.to_owned() }
}

/// The template request for the plain welcome mail.
pub fn send_welcome(address: &str, config: &MailConfig) -> (r: MailJob)
    ensures
        r.template_name@ == "email/welcome"@,
        r.to@ == address@,
        context_view(r.context@) == seq![("url"@, Option::Some(config.domain@))],
{
    let mut context: Vec<ContextEntry> = Vec::new();
    context.push(ContextEntry { key: "url", value: ContextValue::Text(config.domain.clone()) });
    proof {
        assert(context_view(context@) =~~= seq![("url"@, Option::Some(config.domain@))]);
    }
    MailJob { template_name: "email/welcome", context, to: address.to_owned() }
}

/// The template request for the welcome mail that also asks the user to
/// verify the address, with the caller-supplied verification token.
pub fn send_welcome_must_verify(
    address: &str,
    uuid: &str,
    verify_email_token: &str,
    config: &MailConfig,
) -> (r: MailJob)
    ensures
        r.template_name@ == "email/welcome_must_verify"@,
        r.to@ == address@,
        context_view(r.context@) == seq![
            ("url"@, Option::Some(config.domain@)),
            ("user_id"@, Option::Some(uuid@)),
            ("token"@, Option::Some(verify_email_token@)),
        ],
{
    let mut context: Vec<ContextEntry> = Vec::new();
    context.push(ContextEntry { key: "url", value: ContextValue::Text(config.domain.clone()) });
    context.push(ContextEntry { key: "user_id", value: ContextValue::Text(uuid.to_owned()) });
    context.push(ContextEntry { key: "token", value: ContextValue::Text(verify_email_token.to_owned()) });
    proof {
        assert(context_view(context@) =~~= seq![
            ("url"@, Option::Some(config.domain@)),
            ("user_id"@, Option::Some(uuid@)),
            ("token"@, Option::Some(verify_email_token@)),
        ]);
    }
    MailJob { template_name: "email/welcome_must_verify", context, to: address.to_owned() }
}

/// The template request for an organization invite: absent organization
/// identifiers are rendered as `_`, and the invited address is
/// percent-encoded where it rides inside the link. The caller-supplied
/// token already carries the signed invite claims.
pub fn send_invite(
    address: &str,
    org_id: Option<&str>,
    org_user_id: Option<&str>,
    org_name: &str,
    invite_token: &str,
    config: &MailConfig,
) -> (r: MailJob)
    ensures
        r.template_name@ == "email/send_org_invite"@,
        r.to@ == address@,
        context_view(r.context@) == seq![
            ("url"@, Option::Some(config.domain@)),
            (
                "org_id"@,
                Option::Some(
                    match org_id {
                        Option::Some(o) => o@,
                        Option::None => "_"@,
                    },
                ),
            ),
            (
                "org_user_id"@,
                Option::Some(
                    match org_user_id {
                        Option::Some(o) => o@,
                        Option::None => "_"@,
                    },
                ),
            ),
            ("email"@, Option::Some(percent_encoded(address.spec_bytes()))),
            ("org_name"@, Option::Some(org_name@)),
            ("token"@, Option::Some(invite_token@)),
        ],
{
    let org_id_value = match org_id {
        Some(o) => o.to_owned(),
        None => "_".to_owned(),
    };
    let org_user_id_value = match org_user_id {
        Some(o) => o.to_owned(),
        None => "_".to_owned(),
    };
    let mut context: Vec<ContextEntry> = Vec::new();
    context.push(ContextEntry { key: "url", value: ContextValue::Text(config.domain.clone()) });
    context.push(ContextEntry { key: "org_id", value: ContextValue::Text(org_id_value) });
    context.push(ContextEntry { key: "org_user_id", value: ContextValue::Text(org_user_id_value) });
    context.push(ContextEntry { key: "email", value: ContextValue::Text(percent_encode_str(address)) });
    context.push(ContextEntry { key: "org_name", value: ContextValue::Text(org_name.to_owned()) });
    context.push(ContextEntry { key: "token", value: ContextValue::Text(invite_token.to_owned()) });
    proof {
        assert(context_view(context@) =~~= seq![
            ("url"@, Option::Some(config.domain@)),
            (
                "org_id"@,
                Option::Some(
                    match org_id {
                        Option::Some(o) => o@,
                        Option::None => "_"@,
                    },
                ),
            ),
            (
                "org_user_id"@,
                Option::Some(
                    match org_user_id {
                        Option::Some(o) => o@,
                        Option::None => "_"@,
                    },
                ),
            ),
            ("email"@, Option::Some(percent_encoded(address.spec_bytes()))),
            ("org_name"@, Option::Some(org_name@)),
            ("token"@, Option::Some(invite_token@)),
        ]);
    }
    MailJob { template_name: "email/send_org_invite", context, to: address.to_owned() }
}

/// The template request telling an inviter that the invite was accepted;
/// the accepting user's address is shown, not encoded.
pub fn send_invite_accepted(
    new_user_email: &str,
    address: &str,
    org_name: &str,
    config: &MailConfig,
) -> (r: MailJob)
    ensures
        r.template_name@ == "email/invite_accepted"@,
        r.to@ == address@,
        context_view(r.context@) == seq![
            ("url"@, Option::Some(config.domain@)),
            ("email"@, Option::Some(new_user_email@)),
            ("org_name"@, Option::Some(org_name@)),
        ],
{
    let mut context: Vec<ContextEntry> = Vec::new();
    context.push(ContextEntry { key: "url", value: ContextValue::Text(config.domain.clone()) });
    context.push(ContextEntry { key: "email", value: ContextValue::Text(new_user_email.to_owned()) });
    context.push(ContextEntry { key: "org_name", value: ContextValue::Text(org_name.to_owned()) });
    proof {
        assert(context_view(context@) =~~= seq![
            ("url"@, Option::Some(config.domain@)),
            ("email"@, Option::Some(new_user_email@)),
            ("org_name"@, Option::Some(org_name@)),
        ]);
    }
    MailJob { template_name: "email/invite_accepted", context, to: address.to_owned() }
}

/// The template request telling the invited user that the membership was
/// confirmed.
pub fn send_invite_confirmed(address: &str, org_name: &str, config: &MailConfig) -> (r: MailJob)
    ensures
        r.template_name@ == "email/invite_confirmed"@,
        r.to@ == address@,
        context_view(r.context@) == seq![
            ("url"@, Option::Some(config.domain@)),
            ("org_name"@, Option::Some(org_name@)),
        ],
{
    let mut context: Vec<ContextEntry> = Vec::new();
    context.push(ContextEntry { key: "url", value: ContextValue::Text(config.domain.clone()) });
    context.push(ContextEntry { key: "org_name", value: ContextValue::Text(org_name.to_owned()) });
    proof {
        assert(context_view(context@) =~~= seq![
            ("url"@, Option::Some(config.domain@)),
            ("org_name"@, Option::Some(org_name@)),
        ]);
    }
    MailJob { template_name: "email/invite_confirmed", context, to: address.to_owned() }
}

/// The template request for a new-device-login alert: the device name is
/// shown with its first letter capitalized, and the timestamp is rendered
/// time-zone aware.
pub fn send_new_device_logged_in(
    address: &str,
    ip: &str,
    ts: &Timestamp,
    tz_override: Option<&str>,
    device: &str,
    config: &MailConfig,
) -> (r: MailJob)
    requires
        ts.wf(),
    ensures
        r.template_name@ == "email/new_device_logged_in"@,
        r.to@ == address@,
        context_view(r.context@) == seq![
            ("url"@, Option::Some(config.domain@)),
            ("ip"@, Option::Some(ip@)),
            ("device"@, Option::Some(upcase_first_spec(device@))),
            (
                "datetime"@,
                Option::Some(
                    format_datetime_spec(
                        *ts,
                        match tz_override {
                            Option::Some(z) => Option::Some(z@),
                            Option::None => Option::<Seq<char>>::None,
                        },
                    ),
                ),
            ),
        ],
{
    let device_shown = upcase_first(device);
    let when = format_datetime(ts, tz_override);
    let mut context: Vec<ContextEntry> = Vec::new();
    context.push(ContextEntry { key: "url", value: ContextValue::Text(config.domain.clone()) });
    context.push(ContextEntry { key: "ip", value: ContextValue::Text(ip.to_owned()) });
    context.push(ContextEntry { key: "device", value: ContextValue::Text(device_shown) });
    context.push(ContextEntry { key: "datetime", value: ContextValue::Text(when) });
    proof {
        assert(context_view(context@) =~~= seq![
            ("url"@, Option::Some(config.domain@)),
            ("ip"@, Option::Some(ip@)),
            ("device"@, Option::Some(upcase_first_spec(device@))),
            (
                "datetime"@,
                Option::Some(
                    format_datetime_spec(
                        *ts,
                        match tz_override {
                            Option::Some(z) => Option::Some(z@),
                            Option::None => Option::<Seq<char>>::None,
                        },
                    ),
                ),
            ),
        ]);
    }
    MailJob { template_name: "email/new_device_logged_in", context, to: address.to_owned() }
}

/// The template request for a two-factor token mail.
pub fn send_token(address: &str, token: &str, config: &MailConfig) -> (r: MailJob)
    ensures
        r.template_name@ == "email/twofactor_email"@,
        r.to@ == address@,
        context_view(r.context@) == seq![
            ("url"@, Option::Some(config.domain@)),
            ("token"@, Option::Some(token@)),
        ],
{
    let mut context: Vec<ContextEntry> = Vec::new();
    context.push(ContextEntry { key: "url", value: ContextValue::Text(config.domain.clone()) });
    context.push(ContextEntry { key: "token", value: ContextValue::Text(token.to_owned()) });
    proof {
        assert(context_view(context@) =~~= seq![
            ("url"@, Option::Some(config.domain@)),
            ("token"@, Option::Some(token@)),
        ]);
    }
    MailJob { template_name: "email/twofactor_email", context, to: address.to_owned() }
}

/// The template request for a change-email confirmation.
pub fn send_change_email(address: &str, token: &str, config: &MailConfig) -> (r: MailJob)
    ensures
        r.template_name@ == "email/change_email"@,
        r.to@ == address@,
        context_view(r.context@) == seq![
            ("url"@, Option::Some(config.domain@)),
            ("token"@, Option::Some(token@)),
        ],
{
    let mut context: Vec<ContextEntry> = Vec::new();
    context.push(ContextEntry { key: "url", value: ContextValue::Text(config.domain.clone()) });
    context.push(ContextEntry { key: "token", value: ContextValue::Text(token.to_owned()) });
    proof {
        assert(context_view(context@) =~~= seq![
            ("url"@, Option::Some(config.domain@)),
            ("token"@, Option::Some(token@)),
        ]);
    }
    MailJob { template_name: "email/change_email", context, to: address.to_owned() }
}

/// The template request for the SMTP connectivity-test mail.
pub fn send_test(address: &str, config: &MailConfig) -> (r: MailJob)
    ensures
        r.template_name@ == "email/smtp_test"@,
        r.to@ == address@,
        context_view(r.context@) == seq![("url"@, Option::Some(config.domain@))],
{
    let mut context: Vec<ContextEntry> = Vec::new();
    context.push(ContextEntry { key: "url", value: ContextValue::Text(config.domain.clone()) });
    proof {
        assert(context_view(context@) =~~= seq![("url"@, Option::Some(config.domain@))]);
    }
    MailJob { template_name: "email/smtp_test", context, to: address.to_owned() }
}

} // verus!
