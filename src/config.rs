use vstd::prelude::*;

use crate::error::MailError;

verus! {

/// Settings of the outgoing (SMTP) server.
#[derive(Debug, Clone)]
pub struct SmtpConfig {
    pub host: String,
    pub port: u16,
    pub username: String,
    /// Shell command whose trimmed output is the password.
    pub password_command: String,
}

/// Settings of the incoming (IMAP) server.
#[derive(Debug, Clone)]
pub struct ImapConfig {
    pub host: String,
    pub port: u16,
    pub username: String,
    /// Shell command whose trimmed output is the password.
    pub password_command: String,
}

/// All settings of the application.
#[derive(Debug, Clone)]
pub struct Config {
    pub smtp: SmtpConfig,
    pub imap: ImapConfig,
}

/// The name of the settings file, relative to the working directory.
pub open spec fn config_file_name() -> Seq<char> {
    "ettsumailer.config.json"@
}

pub open spec fn smtp_is_empty(c: SmtpConfig) -> bool {
    c.host@.len() == 0 && c.port == 0 && c.username@.len() == 0 && c.password_command@.len() == 0
}

pub open spec fn imap_is_empty(c: ImapConfig) -> bool {
    c.host@.len() == 0 && c.port == 0 && c.username@.len() == 0 && c.password_command@.len() == 0
}

/// The settings before any were saved: every text empty, every port zero.
pub open spec fn is_default_config(c: Config) -> bool {
    smtp_is_empty(c.smtp) && imap_is_empty(c.imap)
}

impl Default for SmtpConfig {
    fn default() -> (r: Self)
        ensures
            smtp_is_empty(r),
    {
        SmtpConfig {
            host: String::new(),
            port: 0,
            username: String::new(),
            password_command: String::new(),
        }
    }
}

impl Default for ImapConfig {
    fn default() -> (r: Self)
        ensures
            imap_is_empty(r),
    {
        ImapConfig {
            host: String::new(),
            port: 0,
            username: String::new(),
            password_command: String::new(),
        }
    }
}

impl Default for Config {
    fn default() -> (r: Self)
        ensures
            is_default_config(r),
    {
        Config { smtp: SmtpConfig::default(), imap: ImapConfig::default() }
    }
}

/// The path of the settings file.
pub fn get_config_path() -> (r: String)
    ensures
        r@ == config_file_name(),
{
    String::from_str("ettsumailer.config.json")
}

/// The settings as loaded: `document` is `None` when no settings file
/// exists, else what reading and decoding it gave. A missing file is no
/// error: it gives the default settings.
pub fn load_config(document: Option<Result<Config, MailError>>) -> (r: Result<Config, MailError>)
    ensures
        document is None ==> r is Ok && is_default_config(r->Ok_0),
        document is Some ==> r == document->0,
{
    match document {
        None => Ok(Config::default()),
        Some(loaded) => loaded,
    }
}

/// The settings shown to the user: those loaded, or the default settings
/// when loading failed.
pub fn get_config(loaded: Result<Config, MailError>) -> (r: Config)
    ensures
        loaded is Ok ==> r == loaded->Ok_0,
        loaded is Err ==> is_default_config(r),
{
    match loaded {
        Ok(c) => c,
        Err(_) => Config::default(),
    }
}

/// The message of the error that an unset IMAP host gives.
pub open spec fn host_unset_message() -> Seq<char> {
    "IMAP host is not configured."@
}

/// The IMAP settings, checked before any network work: an empty host is a
/// connection error.
pub fn imap_settings(config: Config) -> (r: Result<ImapConfig, MailError>)
    ensures
        config.imap.host@.len() == 0 <==> r is Err,
        r is Ok ==> r->Ok_0 == config.imap,
        r is Err ==> r->Err_0 is Connection && r->Err_0->Connection_0@ == host_unset_message(),
{
    if config.imap.host.as_str().is_empty() {
        return Err(MailError::Connection(String::from_str("IMAP host is not configured.")));
    }
    Ok(config.imap)
}

} // verus!
