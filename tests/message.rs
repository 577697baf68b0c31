use ettsumailer::{
    alternative, body_from_fetch, BodyPart, PartKind, email_body_from, format_addresses, format_single_address, parse_email_body,
    select_fetched_body, AddressField, AddressGroup, MailAddr, MailError, ParsedMessage,
};

fn addr(name: Option<&str>, address: Option<&str>) -> MailAddr {
    MailAddr { name: name.map(|s| s.to_string()), address: address.map(|s| s.to_string()) }
}

fn empty_parsed() -> ParsedMessage {
    ParsedMessage {
        subject: None,
        from: None,
        to: None,
        cc: None,
        date: None,
        text_body: None,
        html_body: None,
    }
}

#[test]
fn single_address_with_name() {
    assert_eq!(format_single_address(&addr(Some("Alice"), Some("a@x.org"))), "Alice <a@x.org>");
}

#[test]
fn single_address_without_name() {
    assert_eq!(format_single_address(&addr(None, Some("a@x.org"))), "a@x.org");
    assert_eq!(format_single_address(&addr(Some(""), Some("a@x.org"))), "a@x.org");
    assert_eq!(format_single_address(&addr(Some("Bob"), None)), "Bob <>");
}

#[test]
fn address_list_is_comma_separated() {
    let f = AddressField::List(vec![addr(Some("Alice"), Some("a@x.org")), addr(None, Some("b@y.org"))]);
    assert_eq!(format_addresses(Some(&f)), "Alice <a@x.org>, b@y.org");
}

#[test]
fn absent_and_empty_address_fields() {
    assert_eq!(format_addresses(None), "");
    assert_eq!(format_addresses(Some(&AddressField::List(vec![]))), "");
}

#[test]
fn address_groups_are_flattened() {
    let f = AddressField::Group(vec![
        AddressGroup { name: Some("team".to_string()), addresses: vec![addr(None, Some("a@x.org"))] },
        AddressGroup { name: None, addresses: vec![] },
        AddressGroup {
            name: None,
            addresses: vec![addr(Some("C"), Some("c@z.org")), addr(None, Some("d@z.org"))],
        },
    ]);
    assert_eq!(format_addresses(Some(&f)), "a@x.org, C <c@z.org>, d@z.org");
}

#[test]
fn body_defaults() {
    let b = email_body_from(empty_parsed());
    assert_eq!(b.subject, "(no subject)");
    assert_eq!(b.from, "");
    assert_eq!(b.date, "");
    assert_eq!(b.text_body, "");
    assert_eq!(b.html_body, "");
}

#[test]
fn body_with_only_text_alternative() {
    let mut p = empty_parsed();
    p.text_body = Some("hello".to_string());
    let b = email_body_from(p);
    assert_eq!(b.text_body, "hello");
    assert_eq!(b.html_body, "");
}

#[test]
fn body_with_only_html_alternative() {
    let mut p = empty_parsed();
    p.html_body = Some("<p>hi</p>".to_string());
    let b = email_body_from(p);
    assert_eq!(b.html_body, "<p>hi</p>");
    assert_eq!(b.text_body, "");
}

#[test]
fn no_fetched_record_is_not_found() {
    assert!(matches!(select_fetched_body(vec![], 42), Err(MailError::NotFound(42))));
    assert!(matches!(body_from_fetch(vec![], 9), Err(MailError::NotFound(9))));
}

#[test]
fn first_fetched_record_is_used() {
    assert_eq!(select_fetched_body(vec![Some(b"ab".to_vec()), Some(b"c".to_vec())], 1).unwrap(), b"ab");
    assert!(select_fetched_body(vec![None], 1).unwrap().is_empty());
}

const PLAIN: &str = "From: Alice Example <alice@example.com>\r\n\
To: bob@example.com, Carol <carol@example.com>\r\n\
Cc: Dave <dave@example.com>\r\n\
Subject: Greetings\r\n\
Date: Mon, 1 Jan 2024 10:00:00 +0000\r\n\
Content-Type: text/plain; charset=utf-8\r\n\
\r\n\
Hello Bob.\r\n";

#[test]
fn parses_plain_message() {
    let b = parse_email_body(&PLAIN.as_bytes().to_vec()).unwrap();
    assert_eq!(b.from, "Alice Example <alice@example.com>");
    assert_eq!(b.to, "bob@example.com, Carol <carol@example.com>");
    assert_eq!(b.cc, "Dave <dave@example.com>");
    assert_eq!(b.subject, "Greetings");
    assert_eq!(b.date, "2024-01-01T10:00:00Z");
    assert!(b.text_body.contains("Hello Bob."));
    assert_eq!(b.html_body, "");
}

#[test]
fn fetched_message_is_parsed() {
    let b = body_from_fetch(vec![Some(PLAIN.as_bytes().to_vec())], 5).unwrap();
    assert_eq!(b.subject, "Greetings");
}

#[test]
fn parses_html_only_message() {
    let raw = "From: a@x.org\r\nSubject: Web\r\nContent-Type: text/html\r\n\r\n<p>Hi</p>\r\n";
    let b = parse_email_body(&raw.as_bytes().to_vec()).unwrap();
    assert!(b.html_body.contains("<p>Hi</p>"));
    assert_eq!(b.text_body, "");
    assert_eq!(b.from, "a@x.org");
    assert_eq!(b.to, "");
}

#[test]
fn unparsable_bytes_are_a_parse_error() {
    assert!(matches!(parse_email_body(&vec![]), Err(MailError::Parse)));
}

#[test]
fn alternative_keeps_only_the_wanted_kind() {
    let html = BodyPart { kind: PartKind::Html, contents: Some("<b>x</b>".to_string()) };
    assert_eq!(alternative(Some(html.clone()), PartKind::Html), Some("<b>x</b>".to_string()));
    assert_eq!(alternative(Some(html), PartKind::Text), None);
    assert_eq!(alternative(None, PartKind::Text), None);
}

#[test]
fn parses_multipart_alternative() {
    let raw = "From: a@x.org\r\n\
Subject: Both\r\n\
MIME-Version: 1.0\r\n\
Content-Type: multipart/alternative; boundary=\"b1\"\r\n\
\r\n\
--b1\r\n\
Content-Type: text/plain\r\n\
\r\n\
plain words\r\n\
--b1\r\n\
Content-Type: text/html\r\n\
\r\n\
<i>rich words</i>\r\n\
--b1--\r\n";
    let b = parse_email_body(&raw.as_bytes().to_vec()).unwrap();
    assert!(b.text_body.contains("plain words"));
    assert!(b.html_body.contains("<i>rich words</i>"));
}

#[test]
fn parses_group_recipients() {
    let raw = "From: a@x.org\r\n\
To: Team: Bob <bob@x.org>, carol@x.org;\r\n\
Subject: G\r\n\
\r\n\
body\r\n";
    let b = parse_email_body(&raw.as_bytes().to_vec()).unwrap();
    assert_eq!(b.to, "Bob <bob@x.org>, carol@x.org");
    assert_eq!(b.cc, "");
}
