use mailnotify::config::MailConfig;
use mailnotify::dispatch::{
    ContextValue, MailJob, send_change_email, send_invite_accepted, send_invite_confirmed,
    send_verify_email, send_welcome, send_welcome_must_verify,
};

fn config() -> MailConfig {
    MailConfig {
        smtp_host: Some("smtp.example.com".to_string()),
        smtp_port: 25,
        smtp_ssl: false,
        smtp_explicit_tls: false,
        smtp_username: None,
        smtp_password: None,
        helo_name: None,
        smtp_auth_mechanism: None,
        smtp_timeout: 15,
        smtp_from: "noreply@example.com".to_string(),
        smtp_from_name: "Example Service".to_string(),
        domain: "https://vault.example.com".to_string(),
    }
}

fn keys(job: &MailJob) -> Vec<&'static str> {
    job.context.iter().map(|e| e.key).collect()
}

fn text_of(job: &MailJob, key: &str) -> String {
    for entry in &job.context {
        if entry.key == key {
            if let ContextValue::Text(s) = &entry.value {
                return s.clone();
            }
        }
    }
    panic!("context has no text entry {key}");
}

#[test]
fn welcome_carries_only_the_base_url() {
    let job = send_welcome("user@example.com", &config());
    assert_eq!(job.template_name, "email/welcome");
    assert_eq!(keys(&job), vec!["url"]);
    assert_eq!(text_of(&job, "url"), "https://vault.example.com");
    assert_eq!(job.to, "user@example.com");
}

#[test]
fn welcome_must_verify_adds_user_and_token() {
    let job = send_welcome_must_verify("user@example.com", "uuid-3", "verify-tok", &config());
    assert_eq!(job.template_name, "email/welcome_must_verify");
    assert_eq!(keys(&job), vec!["url", "user_id", "token"]);
    assert_eq!(text_of(&job, "user_id"), "uuid-3");
    assert_eq!(text_of(&job, "token"), "verify-tok");
}

#[test]
fn verify_email_encodes_the_linked_address() {
    let job = send_verify_email("u.ser@example.com", "uuid-4", "verify-tok", &config());
    assert_eq!(job.template_name, "email/verify_email");
    assert_eq!(keys(&job), vec!["url", "user_id", "email", "token"]);
    assert_eq!(text_of(&job, "email"), "u%2Eser%40example%2Ecom");
    assert_eq!(job.to, "u.ser@example.com");
}

#[test]
fn invite_accepted_shows_the_new_member() {
    let job = send_invite_accepted("new@example.com", "owner@example.com", "Acme", &config());
    assert_eq!(job.template_name, "email/invite_accepted");
    assert_eq!(keys(&job), vec!["url", "email", "org_name"]);
    // Shown in the message body, so not percent-encoded.
    assert_eq!(text_of(&job, "email"), "new@example.com");
    assert_eq!(job.to, "owner@example.com");
}

#[test]
fn invite_confirmed_names_the_organization() {
    let job = send_invite_confirmed("user@example.com", "Acme", &config());
    assert_eq!(job.template_name, "email/invite_confirmed");
    assert_eq!(keys(&job), vec!["url", "org_name"]);
    assert_eq!(text_of(&job, "org_name"), "Acme");
}

#[test]
fn change_email_carries_the_token() {
    let job = send_change_email("user@example.com", "change-tok", &config());
    assert_eq!(job.template_name, "email/change_email");
    assert_eq!(keys(&job), vec!["url", "token"]);
    assert_eq!(text_of(&job, "token"), "change-tok");
}
