use ettsumailer::{
    get_config, get_config_path, imap_settings, load_config, Config, ImapConfig, MailError, SmtpConfig,
};

fn is_default(c: &Config) -> bool {
    c.smtp.host.is_empty()
        && c.smtp.port == 0
        && c.smtp.username.is_empty()
        && c.smtp.password_command.is_empty()
        && c.imap.host.is_empty()
        && c.imap.port == 0
        && c.imap.username.is_empty()
        && c.imap.password_command.is_empty()
}

fn sample() -> Config {
    Config {
        smtp: SmtpConfig::default(),
        imap: ImapConfig {
            host: "mail.example.com".to_string(),
            port: 993,
            username: "me".to_string(),
            password_command: "echo secret".to_string(),
        },
    }
}

#[test]
fn config_path_is_fixed() {
    assert_eq!(get_config_path(), "ettsumailer.config.json");
}

#[test]
fn missing_config_file_gives_defaults() {
    let a = load_config(None).unwrap();
    let b = load_config(None).unwrap();
    assert!(is_default(&a));
    assert!(is_default(&b));
    assert!(is_default(&get_config(load_config(None))));
}

#[test]
fn loaded_config_is_returned() {
    let c = load_config(Some(Ok(sample()))).unwrap();
    assert_eq!(c.imap.host, "mail.example.com");
    assert_eq!(c.imap.port, 993);
    assert_eq!(c.imap.username, "me");
    assert_eq!(c.imap.password_command, "echo secret");
    assert_eq!(c.smtp.host, "");
}

#[test]
fn unreadable_config_is_an_error_but_shown_as_default() {
    let r = load_config(Some(Err(MailError::Config("bad json".to_string()))));
    assert!(matches!(r, Err(MailError::Config(_))));
    assert!(is_default(&get_config(r)));
}

#[test]
fn empty_host_is_a_connection_error() {
    match imap_settings(Config::default()) {
        Err(MailError::Connection(m)) => assert_eq!(m, "IMAP host is not configured."),
        _ => panic!("expected a connection error"),
    }
}

#[test]
fn configured_host_gives_settings() {
    let s = imap_settings(sample()).unwrap();
    assert_eq!(s.host, "mail.example.com");
    assert_eq!(s.port, 993);
}
