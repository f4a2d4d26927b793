//! Rendered-template handling: splitting a rendered string on the literal
//! delimiter marker into a trimmed subject and body, and pairing the HTML
//! and plain-text variants of one logical template.
use vstd::prelude::*;
use vstd::string::StrSliceExecFns;
use vstd::string::StringExecFns;

use crate::MailError;
use crate::chars::{find_first, trim_ws};

verus! {

/// The literal delimiter marker separating subject from body in every
/// rendered template.
pub open spec fn delimiter() -> Seq<char> {
    "<!---------------->"@
}

/// What splitting a rendered template yields: the trimmed text before the
/// first delimiter occurrence and the trimmed text after it. A format
/// error when the delimiter is absent, and also when either trimmed half
/// is empty: a successful render always has a subject and a body.
pub open spec fn split_spec(text: Seq<char>) -> Result<(Seq<char>, Seq<char>), MailError> {
    match find_first(text, delimiter()) {
        Option::None => Result::Err(MailError::TemplateFormat),
        Option::Some(i) => {
            let subject = trim_ws(text.take(i));
            let body = trim_ws(text.skip(i + delimiter().len()));
            if subject.len() == 0 || body.len() == 0 {
                Result::Err(MailError::TemplateFormat)
            } else {
                Result::Ok((subject, body))
            }
        },
    }
}

/// Splits one rendered template into its subject and body halves at the
/// first delimiter marker, trimming surrounding white space from each.
/// Fails exactly when the marker is absent or a trimmed half is empty.
pub fn split_template(text: &str) -> (r: Result<(String, String), MailError>)
    ensures
        match r {
            Ok(p) => split_spec(text@) matches Ok(q) && p.0@ == q.0 && p.1@ == q.1 && p.0@.len() > 0
                && p.1@.len() > 0,
            Err(e) => split_spec(text@) == Result::<(Seq<char>, Seq<char>), MailError>::Err(e),
        },
{
    let marker = "<!---------------->";
    let n = text.unicode_len();
    let k = marker.unicode_len();
    match crate::chars::str_find(text, marker) {
        None => Err(MailError::TemplateFormat),
        Some(i) => {
            let subject = crate::chars::str_trim_ws(text.substring_char(0, i));
            let body = crate::chars::str_trim_ws(text.substring_char(i + k, n));
            proof {
                assert(text@.subrange(0, i as int) =~= text@.take(i as int));
                assert(text@.subrange(i + k, n as int) =~= text@.skip(i + delimiter().len()));
            }
            if subject.is_empty() || body.is_empty() {
                return Err(MailError::TemplateFormat);
            }
            Ok((subject.to_owned(), body.to_owned()))
        },
    }
}

/// Subject, HTML body and plain-text body of one successfully rendered
/// notification.
pub struct RenderedContent {
    /// The subject taken from the HTML variant of the template.
    pub subject: String,
    /// The body of the HTML variant.
    pub html_body: String,
    /// The body of the plain-text variant; its own subject is discarded.
    pub text_body: String,
}

impl RenderedContent {
    /// All three parts are non-empty: what every successful render
    /// guarantees.
    pub open spec fn wf(self) -> bool {
        self.subject@.len() > 0 && self.html_body@.len() > 0 && self.text_body@.len() > 0
    }
}

/// Pairs the two raw renderings of one logical template: the subject and
/// body come from the HTML variant, the plain-text body from the text
/// variant whose own subject line is discarded. Fails exactly when either
/// rendering lacks the delimiter marker or has an empty trimmed half; on
/// success all three parts are non-empty.
pub fn combine_rendered(html_raw: &str, text_raw: &str) -> (r: Result<RenderedContent, MailError>)
    ensures
        (r is Ok) <==> (split_spec(html_raw@) is Ok && split_spec(text_raw@) is Ok),
        r is Err ==> r == Result::<RenderedContent, MailError>::Err(MailError::TemplateFormat),
        r matches Ok(rc) ==> {
            &&& rc.subject@ == split_spec(html_raw@)->Ok_0.0
            &&& rc.html_body@ == split_spec(html_raw@)->Ok_0.1
            &&& rc.text_body@ == split_spec(text_raw@)->Ok_0.1
            &&& rc.wf()
        },
{
    let (subject, html_body) = match split_template(html_raw) {
        Ok(p) => p,
        Err(e) => {
            return Err(e);
        },
    };
    let (_subject_text, text_body) = match split_template(text_raw) {
        Ok(p) => p,
        Err(e) => {
            return Err(e);
        },
    };
    Ok(RenderedContent { subject, html_body, text_body })
}

/// The name of the HTML variant of a template: the logical name with the
/// `.html` suffix.
pub fn html_variant_name(name: &str) -> (r: String)
    ensures
        r@ == name@ + ".html"@,
{
    let mut out = name.to_owned();
    out.append(".html");
    out
}

} // verus!
