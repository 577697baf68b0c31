use vstd::prelude::*;

use crate::error::MailError;
use crate::mime::{mime_parses, mime_view, parse_view};

verus! {

/// One parsed address: a display name and an address, either may be absent.
#[derive(Debug, Clone)]
pub struct MailAddr {
    pub name: Option<String>,
    pub address: Option<String>,
}

/// A named group of addresses.
#[derive(Debug, Clone)]
pub struct AddressGroup {
    pub name: Option<String>,
    pub addresses: Vec<MailAddr>,
}

/// An address header: a plain list, or a list of groups.
#[derive(Debug, Clone)]
pub enum AddressField {
    List(Vec<MailAddr>),
    Group(Vec<AddressGroup>),
}

/// What a body part holds.
#[derive(Debug, Clone, Copy, PartialEq, Eq, Structural)]
pub enum PartKind {
    Text,
    Html,
    Other,
}

/// A body part: its kind and, where it is text, its contents.
#[derive(Debug, Clone)]
pub struct BodyPart {
    pub kind: PartKind,
    pub contents: Option<String>,
}

/// The contents of a part that a message lists as one of its alternatives,
/// kept only when the part really is of the wanted kind.
pub open spec fn alternative_of(p: Option<BodyPart>, kind: PartKind) -> Option<String> {
    match p {
        Some(part) => if part.kind == kind {
            part.contents
        } else {
            None
        },
        None => None,
    }
}

/// What the MIME parser reports of a message: its headers, and the parts
/// that it lists as plain-text and as HTML alternatives, in its order.
#[derive(Debug, Clone)]
pub struct MimeView {
    pub subject: Option<String>,
    pub from: Option<AddressField>,
    pub to: Option<AddressField>,
    pub cc: Option<AddressField>,
    /// The date in RFC 3339 form.
    pub date: Option<String>,
    pub text_parts: Vec<Option<BodyPart>>,
    pub html_parts: Vec<Option<BodyPart>>,
}

/// The first listed part, if any.
pub open spec fn first_part(parts: Seq<Option<BodyPart>>) -> Option<BodyPart> {
    if parts.len() > 0 {
        parts[0]
    } else {
        None
    }
}

/// The parts of a parser's report that the body view shows: the primary
/// alternative of each kind is the first one listed.
pub open spec fn parsed_of(v: MimeView) -> ParsedMessage {
    ParsedMessage {
        subject: v.subject,
        from: v.from,
        to: v.to,
        cc: v.cc,
        date: v.date,
        text_body: alternative_of(first_part(v.text_parts@), PartKind::Text),
        html_body: alternative_of(first_part(v.html_parts@), PartKind::Html),
    }
}

/// The bytes of a fetched record: its body, or none when it has no body.
pub open spec fn fetched_bytes(b: Option<Vec<u8>>) -> Seq<u8> {
    match b {
        Some(v) => v@,
        None => Seq::<u8>::empty(),
    }
}

/// The parts of a parsed message that the body view shows.
#[derive(Debug, Clone)]
pub struct ParsedMessage {
    pub subject: Option<String>,
    pub from: Option<AddressField>,
    pub to: Option<AddressField>,
    pub cc: Option<AddressField>,
    /// The date in RFC 3339 form.
    pub date: Option<String>,
    /// The first plain-text alternative.
    pub text_body: Option<String>,
    /// The first HTML alternative.
    pub html_body: Option<String>,
}

/// A message as the body view shows it.
#[derive(Debug, Clone)]
pub struct EmailBody {
    pub from: String,
    pub to: String,
    pub cc: String,
    pub subject: String,
    pub date: String,
    pub text_body: String,
    pub html_body: String,
}

pub open spec fn text_or(s: Option<String>, absent: Seq<char>) -> Seq<char> {
    match s {
        Some(t) => t@,
        None => absent,
    }
}

/// `Name <address>`, or the bare address when there is no name.
pub open spec fn address_text(a: MailAddr) -> Seq<char> {
    let name = text_or(a.name, seq![]);
    let address = text_or(a.address, seq![]);
    if name.len() == 0 {
        address
    } else {
        name + seq![' ', '<'] + address + seq!['>']
    }
}

/// The items separated by `", "`.
pub open spec fn join(items: Seq<Seq<char>>) -> Seq<char>
    decreases items.len(),
{
    if items.len() == 0 {
        seq![]
    } else if items.len() == 1 {
        items[0]
    } else {
        join(items.drop_last()) + seq![',', ' '] + items.last()
    }
}

pub open spec fn address_texts(addrs: Seq<MailAddr>) -> Seq<Seq<char>> {
    addrs.map_values(|a: MailAddr| address_text(a))
}

/// The texts of the members of all groups, group after group.
pub open spec fn group_texts(groups: Seq<AddressGroup>) -> Seq<Seq<char>>
    decreases groups.len(),
{
    if groups.len() == 0 {
        seq![]
    } else {
        group_texts(groups.drop_last()) + address_texts(groups.last().addresses@)
    }
}

/// An address header rendered as one line; an absent header is empty.
pub open spec fn field_text(f: Option<AddressField>) -> Seq<char> {
    match f {
        None => seq![],
        Some(AddressField::List(addrs)) => join(address_texts(addrs@)),
        Some(AddressField::Group(groups)) => join(group_texts(groups@)),
    }
}

pub open spec fn string_views(v: Seq<String>) -> Seq<Seq<char>> {
    v.map_values(|s: String| s@)
}

/// `b` is the body view of `p`.
pub open spec fn renders(b: EmailBody, p: ParsedMessage) -> bool {
    &&& b.from@ == field_text(p.from)
    &&& b.to@ == field_text(p.to)
    &&& b.cc@ == field_text(p.cc)
    &&& b.subject@ == text_or(p.subject, "(no subject)"@)
    &&& b.date@ == text_or(p.date, seq![])
    &&& b.text_body@ == text_or(p.text_body, seq![])
    &&& b.html_body@ == text_or(p.html_body, seq![])
}

fn text_or_default(s: Option<String>) -> (r: String)
    ensures
        r@ == text_or(s, seq![]),
{
    match s {
        Some(t) => t,
        None => String::new(),
    }
}

/// Renders one address as `Name <address>`, or as the bare address.
pub fn format_single_address(addr: &MailAddr) -> (r: String)
    ensures
        r@ == address_text(*addr),
{
    let name = match &addr.name {
        Some(n) => n.clone(),
        None => String::new(),
    };
    let address = match &addr.address {
        Some(a) => a.clone(),
        None => String::new(),
    };
    if name.as_str().is_empty() {
        address
    } else {
        let mut s = name;
        s.append(" <");
        s.append(address.as_str());
        s.append(">");
        proof {
            reveal_strlit(" <");
            reveal_strlit(">");
            assert(" <"@ =~= seq![' ', '<']);
            assert(">"@ =~= seq!['>']);
        }
        s
    }
}

fn push_address_texts(texts: &mut Vec<String>, addrs: &Vec<MailAddr>)
    ensures
        string_views(final(texts)@) == string_views(old(texts)@) + address_texts(addrs@),
{
    let ghost start = string_views(texts@);
    let mut i: usize = 0;
    while i < addrs.len()
        invariant
            i <= addrs.len(),
            string_views(texts@) == start + address_texts(addrs@.subrange(0, i as int)),
        decreases addrs.len() - i,
    {
        let t = format_single_address(&addrs[i]);
        let ghost before = texts@;
        texts.push(t);
        proof {
            assert(string_views(texts@) =~= string_views(before).push(address_text(addrs@[i as int])));
            assert(addrs@.subrange(0, i + 1) =~= addrs@.subrange(0, i as int).push(addrs@[i as int]));
            assert(address_texts(addrs@.subrange(0, i + 1)) =~= address_texts(
                addrs@.subrange(0, i as int),
            ).push(address_text(addrs@[i as int])));
            assert(string_views(texts@) =~= start + address_texts(addrs@.subrange(0, i + 1)));
        }
        i = i + 1;
    }
    proof {
        assert(addrs@.subrange(0, addrs@.len() as int) =~= addrs@);
    }
}

fn join_texts(texts: &Vec<String>) -> (r: String)
    ensures
        r@ == join(string_views(texts@)),
{
    let mut r = String::new();
    let mut i: usize = 0;
    while i < texts.len()
        invariant
            i <= texts.len(),
            r@ == join(string_views(texts@.subrange(0, i as int))),
        decreases texts.len() - i,
    {
        proof {
            let next = string_views(texts@.subrange(0, i + 1));
            assert(next.drop_last() =~= string_views(texts@.subrange(0, i as int)));
            assert(next.last() == texts@[i as int]@);
            reveal_strlit(", ");
            assert(", "@ =~= seq![',', ' ']);
        }
        if i > 0 {
            r.append(", ");
        }
        r.append(texts[i].as_str());
        proof {
            if i == 0 {
                assert(r@ =~= texts@[0]@);
            }
        }
        i = i + 1;
    }
    proof {
        assert(texts@.subrange(0, texts@.len() as int) =~= texts@);
    }
    r
}

/// Renders an address header as one line: each address as
/// `Name <address>` or bare, separated by `", "`; group members in order.
pub fn format_addresses(addrs: Option<&AddressField>) -> (r: String)
    ensures
        r@ == field_text(match addrs {
            Some(f) => Some(*f),
            None => None,
        }),
{
    let mut texts: Vec<String> = Vec::new();
    match addrs {
        None => {
            return String::new();
        },
        Some(AddressField::List(list)) => {
            push_address_texts(&mut texts, list);
            proof {
                assert(string_views(texts@) =~= address_texts(list@));
            }
        },
        Some(AddressField::Group(groups)) => {
            let mut i: usize = 0;
            while i < groups.len()
                invariant
                    i <= groups.len(),
                    string_views(texts@) == group_texts(groups@.subrange(0, i as int)),
                decreases groups.len() - i,
            {
                push_address_texts(&mut texts, &groups[i].addresses);
                proof {
                    assert(groups@.subrange(0, i + 1).drop_last() =~= groups@.subrange(0, i as int));
                }
                i = i + 1;
            }
            proof {
                assert(groups@.subrange(0, groups@.len() as int) =~= groups@);
            }
        },
    }
    join_texts(&texts)
}

/// The body view of a parsed message: missing subject reads "(no subject)",
/// any other missing part is empty.
pub fn email_body_from(parsed: ParsedMessage) -> (r: EmailBody)
    ensures
        renders(r, parsed),
{
    let from = format_addresses(parsed.from.as_ref());
    let to = format_addresses(parsed.to.as_ref());
    let cc = format_addresses(parsed.cc.as_ref());
    let subject = match parsed.subject {
        Some(s) => s,
        None => String::from_str("(no subject)"),
    };
    let date = text_or_default(parsed.date);
    let text_body = text_or_default(parsed.text_body);
    let html_body = text_or_default(parsed.html_body);
    EmailBody { from, to, cc, subject, date, text_body, html_body }
}

/// A message with only one of the two alternatives shows that one, and
/// leaves the other empty.
pub proof fn lemma_single_alternative(b: EmailBody, p: ParsedMessage)
    requires
        renders(b, p),
    ensures
        p.html_body is None && p.text_body is Some && p.text_body->0@.len() > 0 ==> b.text_body@.len()
            > 0 && b.html_body@.len() == 0,
        p.text_body is None && p.html_body is Some && p.html_body->0@.len() > 0 ==> b.html_body@.len()
            > 0 && b.text_body@.len() == 0,
{
}

/// The raw bytes of the message that a fetch by unique id returned: the
/// first record's body, empty when it has none. No record means that no
/// message carries `uid`.
pub fn select_fetched_body(fetched: Vec<Option<Vec<u8>>>, uid: u32) -> (r: Result<Vec<u8>, MailError>)
    ensures
        fetched@.len() == 0 <==> r == Err::<Vec<u8>, MailError>(MailError::NotFound(uid)),
        fetched@.len() > 0 <==> r is Ok,
        r is Ok ==> r->Ok_0@ == fetched_bytes(fetched@[0]),
{
    let mut fetched = fetched;
    if fetched.len() == 0 {
        return Err(MailError::NotFound(uid));
    }
    match fetched.swap_remove(0) {
        Some(b) => Ok(b),
        None => Ok(Vec::new()),
    }
}

/// The contents of the listed part, when it is of the wanted kind.
pub fn alternative(part: Option<BodyPart>, kind: PartKind) -> (r: Option<String>)
    ensures
        r == alternative_of(part, kind),
{
    match part {
        Some(p) => {
            if p.kind == kind {
                p.contents
            } else {
                None
            }
        },
        None => None,
    }
}

fn first_listed(parts: Vec<Option<BodyPart>>) -> (r: Option<BodyPart>)
    ensures
        r == first_part(parts@),
{
    let mut parts = parts;
    if parts.len() == 0 {
        None
    } else {
        parts.swap_remove(0)
    }
}

/// Parses raw message bytes into the body view. Fails with `Parse` exactly
/// when the bytes are not a parsable message.
pub fn parse_email_body(raw: &Vec<u8>) -> (r: Result<EmailBody, MailError>)
    ensures
        r is Err <==> !mime_parses(raw@),
        r is Err ==> r == Err::<EmailBody, MailError>(MailError::Parse),
        r is Ok ==> renders(r->Ok_0, parsed_of(mime_view(raw@))),
{
    let view = match parse_view(raw) {
        Some(v) => v,
        None => return Err(MailError::Parse),
    };
    let MimeView { subject, from, to, cc, date, text_parts, html_parts } = view;
    let parsed = ParsedMessage {
        subject,
        from,
        to,
        cc,
        date,
        text_body: alternative(first_listed(text_parts), PartKind::Text),
        html_body: alternative(first_listed(html_parts), PartKind::Html),
    };
    Ok(email_body_from(parsed))
}

/// The body view of the message that a fetch by unique id returned.
pub fn body_from_fetch(fetched: Vec<Option<Vec<u8>>>, uid: u32) -> (r: Result<EmailBody, MailError>)
    ensures
        fetched@.len() == 0 ==> r == Err::<EmailBody, MailError>(MailError::NotFound(uid)),
        fetched@.len() > 0 ==> (r is Err <==> !mime_parses(fetched_bytes(fetched@[0]))),
        fetched@.len() > 0 && r is Err ==> r == Err::<EmailBody, MailError>(MailError::Parse),
        fetched@.len() > 0 && r is Ok ==> renders(
            r->Ok_0,
            parsed_of(mime_view(fetched_bytes(fetched@[0]))),
        ),
{
    match select_fetched_body(fetched, uid) {
        Ok(raw) => parse_email_body(&raw),
        Err(e) => Err(e),
    }
}

} // verus!
