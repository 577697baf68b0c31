use vstd::prelude::*;

verus! {

/// Every way in which an operation of the mail client can fail. Each failure
/// aborts the whole operation: no partial list or body is ever returned.
#[derive(Debug, Clone)]
pub enum MailError {
    /// The settings file could not be read, parsed or written.
    Config(String),
    /// The password command could not be run, failed, or printed invalid text.
    Credential(String),
    /// The IMAP host is unset, or the TLS connection failed.
    Connection(String),
    /// The server rejected the login.
    Auth(String),
    /// The server refused to select the inbox.
    Mailbox(String),
    /// The fetch command itself failed.
    Fetch(String),
    /// A listed message came back without its envelope.
    MissingEnvelope,
    /// A listed message came back without its unique id.
    MissingUid,
    /// No message carries the requested unique id.
    NotFound(u32),
    /// The raw message bytes are not a parsable message.
    Parse,
    /// Logging out of the session failed.
    Session(String),
    /// The worker that ran the operation could not be joined.
    TaskJoin(String),
}

/// The character of a decimal digit.
pub open spec fn digit_char(d: nat) -> char {
    seq!['0', '1', '2', '3', '4', '5', '6', '7', '8', '9'][d as int]
}

/// The decimal digits of `n`, most significant first.
pub open spec fn decimal_text(n: nat) -> Seq<char>
    decreases n,
{
    if n < 10 {
        seq![digit_char(n % 10)]
    } else {
        decimal_text(n / 10).push(digit_char(n % 10))
    }
}

/// The text shown to the user for an error.
pub open spec fn error_text(e: MailError) -> Seq<char> {
    match e {
        MailError::Config(m) => m@,
        MailError::Credential(m) => m@,
        MailError::Connection(m) => m@,
        MailError::Auth(m) => m@,
        MailError::Mailbox(m) => m@,
        MailError::Fetch(m) => m@,
        MailError::MissingEnvelope => "Message has no envelope"@,
        MailError::MissingUid => "Message has no UID"@,
        MailError::NotFound(uid) => "No message found for UID "@ + decimal_text(uid as nat),
        MailError::Parse => "Failed to parse email body"@,
        MailError::Session(m) => m@,
        MailError::TaskJoin(m) => m@,
    }
}

fn digit(d: u32) -> (r: &'static str)
    requires
        d < 10,
    ensures
        r@ == seq![digit_char(d as nat)],
{
    proof {
        reveal_strlit("0");
        reveal_strlit("1");
        reveal_strlit("2");
        reveal_strlit("3");
        reveal_strlit("4");
        reveal_strlit("5");
        reveal_strlit("6");
        reveal_strlit("7");
        reveal_strlit("8");
        reveal_strlit("9");
    }
    let r = if d == 0 {
        "0"
    } else if d == 1 {
        "1"
    } else if d == 2 {
        "2"
    } else if d == 3 {
        "3"
    } else if d == 4 {
        "4"
    } else if d == 5 {
        "5"
    } else if d == 6 {
        "6"
    } else if d == 7 {
        "7"
    } else if d == 8 {
        "8"
    } else {
        "9"
    };
    assert(r@ =~= seq![digit_char(d as nat)]);
    r
}

/// `n` in decimal, without sign or padding.
fn decimal(n: u32) -> (r: String)
    ensures
        r@ == decimal_text(n as nat),
    decreases n,
{
    if n < 10 {
        String::from_str(digit(n))
    } else {
        let mut r = decimal(n / 10);
        r.append(digit(n % 10));
        r
    }
}

impl MailError {
    /// The text shown to the user.
    pub fn message(&self) -> (r: String)
        ensures
            r@ == error_text(*self),
    {
        match self {
            MailError::Config(m) => m.clone(),
            MailError::Credential(m) => m.clone(),
            MailError::Connection(m) => m.clone(),
            MailError::Auth(m) => m.clone(),
            MailError::Mailbox(m) => m.clone(),
            MailError::Fetch(m) => m.clone(),
            MailError::MissingEnvelope => String::from_str("Message has no envelope"),
            MailError::MissingUid => String::from_str("Message has no UID"),
            MailError::NotFound(uid) => {
                let mut r = String::from_str("No message found for UID ");
                let digits = decimal(*uid);
                r.append(digits.as_str());
                r
            },
            MailError::Parse => String::from_str("Failed to parse email body"),
            MailError::Session(m) => m.clone(),
            MailError::TaskJoin(m) => m.clone(),
        }
    }
}

} // verus!
