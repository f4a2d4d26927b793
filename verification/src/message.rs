//! Outbound-message assembly: the fixed MIME multipart tree around the two
//! text renditions, and the syntactic mailbox validation of both addresses.
use vstd::prelude::*;
use vstd::string::StringExecFns;

use crate::MailError;

verus! {

broadcast use vstd::seq::axiom_seq_index_decreases, vstd::seq::axiom_seq_subrange_decreases;

/// Whether `lettre::Address::from_str` accepts the string as a mailbox
/// address (`user@domain` with valid segments).
pub uninterp spec fn mailbox_syntax_ok(s: Seq<char>) -> bool;

/// Relies on `lettre::Address::from_str`: syntactic validation of a
/// mailbox address, a function of the string alone.
#[verifier::external_body]
fn check_mailbox_syntax(s: &str) -> (r: bool)
    ensures
        r == mailbox_syntax_ok(s@),
{
    s.parse::<lettre::Address>().is_ok()
}

/// The content type of a leaf part; every leaf is quoted-printable with
/// charset utf-8.
#[derive(Clone, Copy, Debug, PartialEq, Eq, Structural)]
pub enum ContentKind {
    TextPlain,
    TextHtml,
}

/// The kind of a multipart container.
#[derive(Clone, Copy, Debug, PartialEq, Eq, Structural)]
pub enum MultiKind {
    Mixed,
    Alternative,
    Related,
}

/// A MIME body tree: leaves carry text, containers carry children.
pub enum MimePart {
    /// A quoted-printable text leaf with charset utf-8.
    Single { kind: ContentKind, body: String },
    /// A multipart container.
    Multi { kind: MultiKind, children: Vec<MimePart> },
}

/// The content leaves of a tree, left to right, each with its kind.
pub open spec fn leaf_seq(n: MimePart) -> Seq<(ContentKind, Seq<char>)>
    decreases n,
{
    match n {
        MimePart::Single { kind, body } => seq![(kind, body@)],
        MimePart::Multi { kind, children } => leaf_seq_list(children@),
    }
}

/// The content leaves of a list of trees, left to right.
pub open spec fn leaf_seq_list(cs: Seq<MimePart>) -> Seq<(ContentKind, Seq<char>)>
    decreases cs,
{
    if cs.len() == 0 {
        Seq::empty()
    } else {
        leaf_seq(cs[0]) + leaf_seq_list(cs.drop_first())
    }
}

/// The fixed nesting every composed message carries: multipart/mixed
/// around one multipart/alternative holding the quoted-printable
/// text/plain leaf and a multipart/related around the quoted-printable
/// text/html leaf. The extra containers are extension points for inline
/// resources and attachments and stay even while those are unused.
pub open spec fn is_standard_tree(n: MimePart, html: Seq<char>, text: Seq<char>) -> bool {
    &&& n matches MimePart::Multi { kind: MultiKind::Mixed, children: top }
    &&& top@.len() == 1
    &&& top@[0] matches MimePart::Multi { kind: MultiKind::Alternative, children: alt }
    &&& alt@.len() == 2
    &&& (alt@[0] matches MimePart::Single { kind: ContentKind::TextPlain, body: t } && t@ == text)
    &&& alt@[1] matches MimePart::Multi { kind: MultiKind::Related, children: rel }
    &&& rel@.len() == 1
    &&& (rel@[0] matches MimePart::Single { kind: ContentKind::TextHtml, body: h } && h@ == html)
}

/// A mailbox: an optional display name and an address.
pub struct MailboxSpec {
    pub name: Option<String>,
    pub address: String,
}

/// A fully assembled outbound message, immutable once built.
pub struct OutboundMessage {
    /// The sender, with a display name.
    pub from: MailboxSpec,
    /// The recipient, address only.
    pub to: MailboxSpec,
    /// The subject line, taken verbatim.
    pub subject: String,
    /// The MIME body tree.
    pub body: MimePart,
}

impl OutboundMessage {
    /// Both mailbox addresses passed syntactic validation.
    pub open spec fn wf(self) -> bool {
        mailbox_syntax_ok(self.from.address@) && mailbox_syntax_ok(self.to.address@)
    }
}

/// Law: the standard tree has exactly two content leaves, the plain-text
/// part first and the HTML part second, however the two texts were chosen.
pub proof fn lemma_standard_tree_leaves(n: MimePart, html: Seq<char>, text: Seq<char>)
    requires
        is_standard_tree(n, html, text),
    ensures
        leaf_seq(n) =~= seq![(ContentKind::TextPlain, text), (ContentKind::TextHtml, html)],
{
    let top = n->Multi_children@;
    let alt = top[0]->Multi_children@;
    let rel = alt[1]->Multi_children@;
    assert(leaf_seq(n) == leaf_seq_list(top));
    assert(top.drop_first().len() == 0);
    assert(leaf_seq_list(top) == leaf_seq(top[0]) + leaf_seq_list(top.drop_first()));
    assert(leaf_seq_list(top.drop_first()) =~= Seq::<(ContentKind, Seq<char>)>::empty());
    assert(leaf_seq(top[0]) == leaf_seq_list(alt));
    assert(leaf_seq_list(alt) == leaf_seq(alt[0]) + leaf_seq_list(alt.drop_first()));
    assert(leaf_seq(alt[0]) =~= seq![(ContentKind::TextPlain, text)]);
    let alt1 = alt.drop_first();
    assert(alt1[0] == alt[1]);
    assert(leaf_seq_list(alt1) == leaf_seq(alt1[0]) + leaf_seq_list(alt1.drop_first()));
    assert(leaf_seq_list(alt1.drop_first()) =~= Seq::<(ContentKind, Seq<char>)>::empty());
    assert(leaf_seq(alt[1]) == leaf_seq_list(rel));
    assert(leaf_seq_list(rel) == leaf_seq(rel[0]) + leaf_seq_list(rel.drop_first()));
    assert(leaf_seq_list(rel.drop_first()) =~= Seq::<(ContentKind, Seq<char>)>::empty());
    assert(leaf_seq(rel[0]) =~= seq![(ContentKind::TextHtml, html)]);
}

/// Assembles the outbound message: validates both mailbox addresses and
/// builds the fixed MIME tree around the two bodies. Fails exactly when
/// either address fails syntactic validation.
pub fn compose(
    from_name: &str,
    from_address: &str,
    to_address: &str,
    subject: &str,
    html_body: &str,
    text_body: &str,
) -> (r: Result<OutboundMessage, MailError>)
    ensures
        (r is Ok) <==> (mailbox_syntax_ok(from_address@) && mailbox_syntax_ok(to_address@)),
        r is Err ==> r == Result::<OutboundMessage, MailError>::Err(MailError::AddressParse),
        r matches Ok(m) ==> {
            &&& m.wf()
            &&& (m.from.name matches Some(nm) && nm@ == from_name@)
            &&& m.from.address@ == from_address@
            &&& m.to.name is None
            &&& m.to.address@ == to_address@
            &&& m.subject@ == subject@
            &&& is_standard_tree(m.body, html_body@, text_body@)
        },
{
    if !check_mailbox_syntax(from_address) {
        return Err(MailError::AddressParse);
    }
    if !check_mailbox_syntax(to_address) {
        return Err(MailError::AddressParse);
    }
    let text_leaf = MimePart::Single { kind: ContentKind::TextPlain, body: text_body.to_owned() };
    let html_leaf = MimePart::Single { kind: ContentKind::TextHtml, body: html_body.to_owned() };
    let mut rel_children: Vec<MimePart> = Vec::new();
    rel_children.push(html_leaf);
    let related = MimePart::Multi { kind: MultiKind::Related, children: rel_children };
    let mut alt_children: Vec<MimePart> = Vec::new();
    alt_children.push(text_leaf);
    alt_children.push(related);
    let alternative = MimePart::Multi { kind: MultiKind::Alternative, children: alt_children };
    let mut top: Vec<MimePart> = Vec::new();
    top.push(alternative);
    let body = MimePart::Multi { kind: MultiKind::Mixed, children: top };
    Ok(
        OutboundMessage {
            from: MailboxSpec { name: Some(from_name.to_owned()), address: from_address.to_owned() },
            to: MailboxSpec { name: None, address: to_address.to_owned() },
            subject: subject.to_owned(),
            body,
        },
    )
}

} // verus!
