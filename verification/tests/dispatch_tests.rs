use mailnotify::MailError;
use mailnotify::config::MailConfig;
use mailnotify::datetime::Timestamp;
use mailnotify::dispatch::{
    ContextValue, MailJob, prepare_message, send_delete_account, send_invite,
    send_new_device_logged_in, send_password_hint, send_test, send_token,
};
use mailnotify::message::{ContentKind, MimePart, MultiKind};
use mailnotify::template::html_variant_name;
use mailnotify::transport::build_transport_plan;

fn config() -> MailConfig {
    MailConfig {
        smtp_host: Some("smtp.example.com".to_string()),
        smtp_port: 25,
        smtp_ssl: false,
        smtp_explicit_tls: false,
        smtp_username: None,
        smtp_password: None,
        helo_name: None,
        smtp_auth_mechanism: None,
        smtp_timeout: 15,
        smtp_from: "noreply@example.com".to_string(),
        smtp_from_name: "Example Service".to_string(),
        domain: "https://vault.example.com".to_string(),
    }
}

fn context_value(job: &MailJob, key: &str) -> Option<String> {
    for entry in &job.context {
        if entry.key == key {
            return match &entry.value {
                ContextValue::Null => None,
                ContextValue::Text(s) => Some(s.clone()),
            };
        }
    }
    panic!("context has no entry {key}");
}

#[test]
fn password_hint_picks_template_by_presence() {
    let cfg = config();
    let with_hint = send_password_hint("user@example.com", Some("my hint"), &cfg);
    assert_eq!(with_hint.template_name, "email/pw_hint_some");
    assert_eq!(context_value(&with_hint, "hint").as_deref(), Some("my hint"));
    assert_eq!(
        context_value(&with_hint, "url").as_deref(),
        Some("https://vault.example.com")
    );

    let without = send_password_hint("user@example.com", None, &cfg);
    assert_eq!(without.template_name, "email/pw_hint_none");
    assert_eq!(context_value(&without, "hint"), None);
    assert_eq!(without.to, "user@example.com");
}

#[test]
fn delete_account_percent_encodes_the_linked_address() {
    let cfg = config();
    let job = send_delete_account("user@ex\u{e4}mple.com", "uuid-1", "tok.en", &cfg);
    assert_eq!(job.template_name, "email/delete_account");
    // The link parameter is encoded; the envelope recipient never is.
    assert_eq!(
        context_value(&job, "email").as_deref(),
        Some("user%40ex%C3%A4mple%2Ecom")
    );
    assert_eq!(job.to, "user@ex\u{e4}mple.com");
    assert_eq!(context_value(&job, "user_id").as_deref(), Some("uuid-1"));
    assert_eq!(context_value(&job, "token").as_deref(), Some("tok.en"));
}

#[test]
fn invite_defaults_absent_org_fields() {
    let cfg = config();
    let job = send_invite(
        "user@example.com",
        None,
        None,
        "Acme",
        "invite-token",
        &cfg,
    );
    assert_eq!(job.template_name, "email/send_org_invite");
    assert_eq!(context_value(&job, "org_id").as_deref(), Some("_"));
    assert_eq!(context_value(&job, "org_user_id").as_deref(), Some("_"));
    assert_eq!(context_value(&job, "org_name").as_deref(), Some("Acme"));
    assert_eq!(
        context_value(&job, "email").as_deref(),
        Some("user%40example%2Ecom")
    );
}

#[test]
fn new_device_capitalizes_device_and_formats_time() {
    let cfg = config();
    let ts = Timestamp { secs: 0, offset_secs: 0 };
    let job = send_new_device_logged_in(
        "user@example.com",
        "198.51.100.7",
        &ts,
        Some("UTC"),
        "firefox",
        &cfg,
    );
    assert_eq!(context_value(&job, "device").as_deref(), Some("Firefox"));
    assert_eq!(
        context_value(&job, "datetime").as_deref(),
        Some("Thursday, January  1, 1970 at 12:00:00 AM UTC")
    );
    assert_eq!(context_value(&job, "ip").as_deref(), Some("198.51.100.7"));
}

#[test]
fn two_factor_token_rides_in_context() {
    let cfg = config();
    let job = send_token("user@example.com", "123456", &cfg);
    assert_eq!(job.template_name, "email/twofactor_email");
    assert_eq!(context_value(&job, "token").as_deref(), Some("123456"));
}

#[test]
fn connectivity_test_prepares_full_message() {
    let cfg = config();
    let job = send_test("user@ex\u{e4}mple.com", &cfg);
    assert_eq!(job.template_name, "email/smtp_test");
    assert_eq!(html_variant_name(job.template_name), "email/smtp_test.html");

    // A rendering collaborator would produce these two raw strings.
    let html_raw = "SMTP Test\n<!---------------->\n<p>it works</p>";
    let text_raw = "SMTP Test\n<!---------------->\nit works";
    let message = prepare_message(&cfg, &job.to, html_raw, text_raw).unwrap();
    assert_eq!(message.to.address, "user@xn--exmple-cua.com");
    assert_eq!(message.from.address, "noreply@example.com");
    assert_eq!(message.subject, "SMTP Test");

    // Exactly two content leaves in the fixed nesting.
    let MimePart::Multi { kind: MultiKind::Mixed, children: top } = &message.body else {
        panic!("root is not multipart/mixed");
    };
    let MimePart::Multi { kind: MultiKind::Alternative, children: alt } = &top[0] else {
        panic!("child is not multipart/alternative");
    };
    assert!(matches!(
        &alt[0],
        MimePart::Single { kind: ContentKind::TextPlain, .. }
    ));
    let MimePart::Multi { kind: MultiKind::Related, children: rel } = &alt[1] else {
        panic!("second alternative is not multipart/related");
    };
    assert!(matches!(
        &rel[0],
        MimePart::Single { kind: ContentKind::TextHtml, .. }
    ));

    // And a transport plan for the configured server.
    let plan = build_transport_plan(&cfg).unwrap();
    assert_eq!(plan.host, "smtp.example.com");
}

#[test]
fn prepare_message_surfaces_each_failure() {
    let cfg = config();
    let good = "S\n<!---------------->\nB";
    assert!(matches!(
        prepare_message(&cfg, "user@example.com", "no marker", good),
        Err(MailError::TemplateFormat)
    ));
    assert!(matches!(
        prepare_message(&cfg, "no-at-sign", good, good),
        Err(MailError::InvalidAddress)
    ));
    assert!(matches!(
        prepare_message(&cfg, "user@exa mple.com", good, good),
        Err(MailError::DomainEncoding)
    ));
    assert!(matches!(
        prepare_message(&cfg, "bad local part@example.com", good, good),
        Err(MailError::AddressParse)
    ));
}
