use vstd::prelude::*;

use crate::message::{AddressField, AddressGroup, BodyPart, MailAddr, MimeView, PartKind};

verus! {

#[verifier::external_type_specification]
#[verifier::external_body]
pub struct ExMimeAddress<'a>(mail_parser::Address<'a>);

#[verifier::external_type_specification]
#[verifier::external_body]
pub struct ExMimeAddr<'a>(mail_parser::Addr<'a>);

#[verifier::external_type_specification]
#[verifier::external_body]
pub struct ExMimePart<'a>(mail_parser::MessagePart<'a>);

/// Whether `MessageParser::parse` accepts the bytes as a message.
pub uninterp spec fn mime_parses(raw: Seq<u8>) -> bool;

/// What `MessageParser::parse` reports of the bytes, where it accepts them.
pub uninterp spec fn mime_view(raw: Seq<u8>) -> MimeView;

/// Relies on `mail_parser::MessageParser::parse` (with the default parser)
/// and on the accessors `subject`, `from`, `to`, `cc`, `date` (with
/// `DateTime::to_rfc3339`) and `part` of the message it returns. Whether it
/// yields a message, and what it reports, depends on the bytes alone.
#[verifier::external_body]
pub(crate) fn parse_view(raw: &Vec<u8>) -> (r: Option<MimeView>)
    ensures
        r is Some <==> mime_parses(raw@),
        r is Some ==> r->0 == mime_view(raw@),
{
    let m = mail_parser::MessageParser::default().parse(raw.as_slice())?;
    Some(MimeView {
        subject: m.subject().map(|s| s.to_string()),
        from: m.from().map(address_field),
        to: m.to().map(address_field),
        cc: m.cc().map(address_field),
        date: m.date().map(|d| d.to_rfc3339()),
        text_parts: m.text_body.iter().map(|i| m.part(*i).map(body_part)).collect(),
        html_parts: m.html_body.iter().map(|i| m.part(*i).map(body_part)).collect(),
    })
}

/// Relies on `mail_parser::Addr`'s two fields, copied as they are.
#[verifier::external_body]
fn mail_addr(a: &mail_parser::Addr<'_>) -> MailAddr {
    MailAddr {
        name: a.name.as_ref().map(|s| s.to_string()),
        address: a.address.as_ref().map(|s| s.to_string()),
    }
}

/// Relies on `mail_parser::Address`'s two variants, copied as they are.
#[verifier::external_body]
fn address_field(a: &mail_parser::Address<'_>) -> AddressField {
    match a {
        mail_parser::Address::List(l) => AddressField::List(l.iter().map(mail_addr).collect()),
        mail_parser::Address::Group(g) => AddressField::Group(
            g.iter().map(|x| AddressGroup {
                name: x.name.as_ref().map(|s| s.to_string()),
                addresses: x.addresses.iter().map(mail_addr).collect(),
            }).collect(),
        ),
    }
}

/// Relies on `mail_parser::MessagePart`: its body's variant, text or HTML
/// told apart from the rest, and `MessagePart::text_contents`.
#[verifier::external_body]
fn body_part(p: &mail_parser::MessagePart<'_>) -> BodyPart {
    let kind = match &p.body {
        mail_parser::PartType::Text(_) => PartKind::Text,
        mail_parser::PartType::Html(_) => PartKind::Html,
        _ => PartKind::Other,
    };
    BodyPart { kind, contents: p.text_contents().map(|s| s.to_string()) }
}

} // verus!
