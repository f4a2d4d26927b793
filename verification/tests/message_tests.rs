use mailnotify::MailError;
use mailnotify::message::{ContentKind, MimePart, MultiKind, compose};

fn leaves(part: &MimePart) -> Vec<(ContentKind, String)> {
    match part {
        MimePart::Single { kind, body } => vec![(*kind, body.clone())],
        MimePart::Multi { children, .. } => children.iter().flat_map(leaves).collect(),
    }
}

#[test]
fn compose_builds_the_fixed_nesting() {
    let m = compose(
        "Example Service",
        "noreply@example.com",
        "user@example.com",
        "Hello",
        "<p>html</p>",
        "plain",
    )
    .unwrap();
    assert_eq!(m.from.name.as_deref(), Some("Example Service"));
    assert_eq!(m.from.address, "noreply@example.com");
    assert_eq!(m.to.name, None);
    assert_eq!(m.to.address, "user@example.com");
    assert_eq!(m.subject, "Hello");

    let MimePart::Multi { kind: MultiKind::Mixed, children: top } = &m.body else {
        panic!("root is not multipart/mixed");
    };
    assert_eq!(top.len(), 1);
    let MimePart::Multi { kind: MultiKind::Alternative, children: alt } = &top[0] else {
        panic!("child is not multipart/alternative");
    };
    assert_eq!(alt.len(), 2);
    let MimePart::Single { kind: ContentKind::TextPlain, body: text } = &alt[0] else {
        panic!("first alternative is not the text/plain leaf");
    };
    assert_eq!(text, "plain");
    let MimePart::Multi { kind: MultiKind::Related, children: rel } = &alt[1] else {
        panic!("second alternative is not multipart/related");
    };
    assert_eq!(rel.len(), 1);
    let MimePart::Single { kind: ContentKind::TextHtml, body: html } = &rel[0] else {
        panic!("related child is not the text/html leaf");
    };
    assert_eq!(html, "<p>html</p>");
}

#[test]
fn composed_message_has_exactly_two_content_leaves() {
    let m = compose(
        "Svc",
        "noreply@example.com",
        "user@example.com",
        "S",
        "H",
        "T",
    )
    .unwrap();
    let found = leaves(&m.body);
    assert_eq!(
        found,
        vec![
            (ContentKind::TextPlain, "T".to_string()),
            (ContentKind::TextHtml, "H".to_string())
        ]
    );
}

#[test]
fn compose_rejects_syntactically_invalid_mailboxes() {
    let bad_to = compose("Svc", "noreply@example.com", "not-an-address", "S", "H", "T");
    assert!(matches!(bad_to, Err(MailError::AddressParse)));
    let bad_from = compose("Svc", "not an address", "user@example.com", "S", "H", "T");
    assert!(matches!(bad_from, Err(MailError::AddressParse)));
}
