use ettsumailer::MailError;

#[test]
fn not_found_message_names_the_uid() {
    assert_eq!(MailError::NotFound(42).message(), "No message found for UID 42");
    assert_eq!(MailError::NotFound(0).message(), "No message found for UID 0");
    assert_eq!(MailError::NotFound(u32::MAX).message(), "No message found for UID 4294967295");
}

#[test]
fn fixed_messages() {
    assert_eq!(MailError::MissingEnvelope.message(), "Message has no envelope");
    assert_eq!(MailError::MissingUid.message(), "Message has no UID");
    assert_eq!(MailError::Parse.message(), "Failed to parse email body");
}

#[test]
fn carried_messages_are_shown_as_they_are() {
    let m = "IMAP login failed: bad credentials".to_string();
    assert_eq!(MailError::Auth(m.clone()).message(), m);
    assert_eq!(MailError::Session("IMAP logout failed: eof".to_string()).message(), "IMAP logout failed: eof");
}
