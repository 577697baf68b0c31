//! Backend of a small desktop mail client: account settings, credential
//! resolution, and the mapping of fetched IMAP records and MIME messages
//! into the records shown to the user.
mod mime;
mod text;

pub mod config;
pub mod credential;
pub mod error;
pub mod listing;
pub mod message;

pub use error::MailError;
pub use listing::{
    decode_header, is_unread, summarize_message, summarize_messages, EmailSummary, EnvelopeAddress,
    EnvelopeData, FetchedSummary, MessageFlag,
};
pub use message::{
    alternative, BodyPart, MimeView, PartKind,
    body_from_fetch, email_body_from, format_addresses, format_single_address, parse_email_body,
    select_fetched_body, AddressField, AddressGroup, EmailBody, MailAddr, ParsedMessage,
};
pub use config::{
    get_config, get_config_path, imap_settings, load_config, Config, ImapConfig, SmtpConfig,
};
pub use credential::{password_from_output, CommandOutput};
