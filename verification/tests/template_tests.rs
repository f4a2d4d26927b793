use mailnotify::MailError;
use mailnotify::template::{combine_rendered, html_variant_name, split_template};

#[test]
fn split_on_delimiter_trims_both_halves() {
    let (subject, body) = split_template("Subject Line\n<!---------------->\nBody text").unwrap();
    assert_eq!(subject, "Subject Line");
    assert_eq!(body, "Body text");
}

#[test]
fn split_without_delimiter_is_format_error() {
    assert_eq!(
        split_template("Just one segment"),
        Err(MailError::TemplateFormat)
    );
}

#[test]
fn split_takes_first_delimiter_occurrence() {
    let text = "S\n<!---------------->\nmiddle\n<!---------------->\ntail";
    let (subject, body) = split_template(text).unwrap();
    assert_eq!(subject, "S");
    assert_eq!(body, "middle\n<!---------------->\ntail");
}

#[test]
fn combine_takes_subject_from_html_variant() {
    let html = "HTML Subject\n<!---------------->\n<p>html body</p>";
    let text = "Text Subject\n<!---------------->\nplain body";
    let rc = combine_rendered(html, text).unwrap();
    assert_eq!(rc.subject, "HTML Subject");
    assert_eq!(rc.html_body, "<p>html body</p>");
    assert_eq!(rc.text_body, "plain body");
}

#[test]
fn combine_fails_when_either_variant_lacks_delimiter() {
    let good = "S\n<!---------------->\nB";
    assert!(matches!(
        combine_rendered("no marker", good),
        Err(MailError::TemplateFormat)
    ));
    assert!(matches!(
        combine_rendered(good, "no marker"),
        Err(MailError::TemplateFormat)
    ));
}

#[test]
fn split_with_empty_subject_is_format_error() {
    assert!(matches!(
        split_template("<!---------------->x"),
        Err(MailError::TemplateFormat)
    ));
    assert!(matches!(
        split_template("  \n<!---------------->\nBody"),
        Err(MailError::TemplateFormat)
    ));
}

#[test]
fn split_with_empty_body_is_format_error() {
    assert!(matches!(
        split_template("Subject\n<!---------------->\n \t"),
        Err(MailError::TemplateFormat)
    ));
}

#[test]
fn combine_rejects_empty_halves_in_either_variant() {
    let good = "S\n<!---------------->\nB";
    assert!(matches!(
        combine_rendered("<!---------------->only body", good),
        Err(MailError::TemplateFormat)
    ));
    assert!(matches!(
        combine_rendered(good, "only subject<!---------------->"),
        Err(MailError::TemplateFormat)
    ));
}

#[test]
fn html_variant_appends_suffix() {
    assert_eq!(html_variant_name("email/welcome"), "email/welcome.html");
}
