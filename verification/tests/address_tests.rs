use mailnotify::MailError;
use mailnotify::address::normalize;

#[test]
fn normalize_plain_ascii_address() {
    let na = normalize("user@example.com").unwrap();
    assert_eq!(na.local_part, "user");
    assert_eq!(na.ascii_domain, "example.com");
    assert_eq!(na.full_address(), "user@example.com");
}

#[test]
fn normalize_internationalized_domain() {
    let na = normalize("user@ex\u{e4}mple.com").unwrap();
    assert_eq!(na.local_part, "user");
    assert_eq!(na.ascii_domain, "xn--exmple-cua.com");
    assert_eq!(na.full_address(), "user@xn--exmple-cua.com");
}

#[test]
fn normalize_splits_at_rightmost_at() {
    let na = normalize("we@ird@example.com").unwrap();
    assert_eq!(na.local_part, "we@ird");
    assert_eq!(na.ascii_domain, "example.com");
}

#[test]
fn normalize_without_at_is_invalid() {
    assert!(matches!(normalize("no-at-sign"), Err(MailError::InvalidAddress)));
    assert!(matches!(normalize(""), Err(MailError::InvalidAddress)));
}

#[test]
fn normalize_rejected_domain_is_encoding_error() {
    assert!(matches!(normalize("user@exa mple.com"), Err(MailError::DomainEncoding)));
    assert!(matches!(normalize("user@"), Err(MailError::DomainEncoding)));
}

#[test]
fn error_descriptions_are_distinct() {
    assert_eq!(MailError::InvalidAddress.describe(), "Invalid email address (no @)");
    assert_ne!(
        MailError::DomainEncoding.describe(),
        MailError::AddressParse.describe()
    );
}
