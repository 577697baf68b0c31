use vstd::prelude::*;

use crate::error::MailError;
use crate::text::{lossy_text, lossy_utf8};

verus! {

/// Most summaries a listing returns.
pub const MAX_LISTED: usize = 30;

/// A message flag as the server reports it.
#[derive(Debug, Clone)]
pub enum MessageFlag {
    Seen,
    Answered,
    Flagged,
    Deleted,
    Draft,
    Recent,
    MayCreate,
    Custom(String),
}

/// One address of an envelope, as raw header bytes.
#[derive(Debug, Clone)]
pub struct EnvelopeAddress {
    pub mailbox: Option<Vec<u8>>,
    pub host: Option<Vec<u8>>,
}

/// The envelope fields that a summary reads.
#[derive(Debug, Clone)]
pub struct EnvelopeData {
    pub subject: Option<Vec<u8>>,
    pub from: Option<Vec<EnvelopeAddress>>,
    pub date: Option<Vec<u8>>,
}

/// One record of an envelope-and-flags fetch, in mailbox sequence order.
#[derive(Debug, Clone)]
pub struct FetchedSummary {
    pub uid: Option<u32>,
    pub envelope: Option<EnvelopeData>,
    pub flags: Vec<MessageFlag>,
}

/// One line of the inbox listing.
#[derive(Debug, Clone)]
pub struct EmailSummary {
    pub uid: u32,
    pub from: String,
    pub subject: String,
    pub date: String,
    pub unread: bool,
}

/// Decoded header bytes, or `absent` when the header is missing.
pub open spec fn header_text(b: Option<Vec<u8>>, absent: Seq<char>) -> Seq<char> {
    match b {
        Some(v) => lossy_text(v@),
        None => absent,
    }
}

/// The sender line: the first "from" address as `mailbox@host`.
pub open spec fn sender_text(from: Option<Vec<EnvelopeAddress>>) -> Seq<char> {
    match from {
        Some(addrs) => if addrs.len() > 0 {
            header_text(addrs[0].mailbox, seq![]) + seq!['@'] + header_text(addrs[0].host, seq![])
        } else {
            "(unknown sender)"@
        },
        None => "(unknown sender)"@,
    }
}

/// Some flag of the message is the "seen" flag.
pub open spec fn has_seen(flags: Seq<MessageFlag>) -> bool {
    exists|i: int| 0 <= i < flags.len() && flags[i] is Seen
}

/// A record can be summarised when it carries an envelope and a unique id.
pub open spec fn is_complete(m: FetchedSummary) -> bool {
    m.envelope.is_some() && m.uid.is_some()
}

/// The error that an incomplete record gives: a missing envelope is seen first.
pub open spec fn incomplete_error(m: FetchedSummary) -> MailError {
    if m.envelope.is_none() {
        MailError::MissingEnvelope
    } else {
        MailError::MissingUid
    }
}

/// `s` is the summary of the complete record `m`.
pub open spec fn summarizes(s: EmailSummary, m: FetchedSummary) -> bool {
    &&& m.uid == Some(s.uid)
    &&& m.envelope is Some
    &&& s.subject@ == header_text(m.envelope->0.subject, "(no subject)"@)
    &&& s.from@ == sender_text(m.envelope->0.from)
    &&& s.date@ == header_text(m.envelope->0.date, seq![])
    &&& s.unread == !has_seen(m.flags@)
}

/// How many records a listing of `n` records covers.
pub open spec fn listed_count(n: int) -> int {
    if n < MAX_LISTED as int {
        n
    } else {
        MAX_LISTED as int
    }
}

/// The `i`-th record of a listing: the newest record comes first.
pub open spec fn listed(msgs: Seq<FetchedSummary>, i: int) -> FetchedSummary {
    msgs[msgs.len() - 1 - i]
}

/// Decodes header bytes as UTF-8, replacing invalid sequences.
pub fn decode_header(header: &Vec<u8>) -> (r: String)
    ensures
        r@ == lossy_text(header@),
{
    lossy_utf8(header)
}

fn header_or(b: &Option<Vec<u8>>, absent: &str) -> (r: String)
    ensures
        r@ == header_text(*b, absent@),
{
    match b {
        Some(v) => decode_header(v),
        None => String::from_str(absent),
    }
}

fn format_sender(from: &Option<Vec<EnvelopeAddress>>) -> (r: String)
    ensures
        r@ == sender_text(*from),
{
    match from {
        Some(addrs) => if addrs.len() > 0 {
            let mut s = header_or(&addrs[0].mailbox, "");
            s.append("@");
            let host = header_or(&addrs[0].host, "");
            s.append(host.as_str());
            proof {
                reveal_strlit("");
                reveal_strlit("@");
                assert(""@ =~= Seq::<char>::empty());
                assert("@"@ =~= seq!['@']);
            }
            s
        } else {
            String::from_str("(unknown sender)")
        },
        None => String::from_str("(unknown sender)"),
    }
}

/// A message is unread when none of its flags is the "seen" flag.
pub fn is_unread(flags: &Vec<MessageFlag>) -> (r: bool)
    ensures
        r == !has_seen(flags@),
{
    let mut i: usize = 0;
    while i < flags.len()
        invariant
            i <= flags.len(),
            forall|j: int| 0 <= j < i ==> !(flags@[j] is Seen),
        decreases flags.len() - i,
    {
        if let MessageFlag::Seen = &flags[i] {
            return false;
        }
        i = i + 1;
    }
    true
}

/// Maps one fetched record to its summary, or fails when the record lacks
/// its envelope or its unique id.
pub fn summarize_message(msg: &FetchedSummary) -> (r: Result<EmailSummary, MailError>)
    ensures
        match r {
            Ok(s) => is_complete(*msg) && summarizes(s, *msg),
            Err(e) => !is_complete(*msg) && e == incomplete_error(*msg),
        },
{
    let envelope = match &msg.envelope {
        Some(e) => e,
        None => return Err(MailError::MissingEnvelope),
    };
    let uid = match msg.uid {
        Some(u) => u,
        None => return Err(MailError::MissingUid),
    };
    let subject = header_or(&envelope.subject, "(no subject)");
    let from = format_sender(&envelope.from);
    let date = header_or(&envelope.date, "");
    proof {
        reveal_strlit("");
        assert(""@ =~= Seq::<char>::empty());
    }
    let unread = is_unread(&msg.flags);
    Ok(EmailSummary { uid, from, subject, date, unread })
}

/// Lists the newest records, newest first, at most `MAX_LISTED` of them.
/// The first incomplete record among them aborts the whole listing.
pub fn summarize_messages(msgs: &Vec<FetchedSummary>) -> (r: Result<Vec<EmailSummary>, MailError>)
    ensures
        r is Ok <==> forall|i: int| 0 <= i < listed_count(msgs@.len() as int) ==> is_complete(
            #[trigger] listed(msgs@, i),
        ),
        match r {
            Ok(v) => {
                &&& v@.len() == listed_count(msgs@.len() as int)
                &&& forall|i: int| 0 <= i < v@.len() ==> summarizes(v@[i], listed(msgs@, i))
            },
            Err(e) => exists|k: int|
                0 <= k < listed_count(msgs@.len() as int) && !is_complete(listed(msgs@, k)) && (
                forall|j: int| 0 <= j < k ==> is_complete(#[trigger] listed(msgs@, j)))
                && e == incomplete_error(listed(msgs@, k)),
        },
{
    let n = msgs.len();
    let count: usize = if n < MAX_LISTED { n } else { MAX_LISTED };
    let mut out: Vec<EmailSummary> = Vec::new();
    let mut i: usize = 0;
    while i < count
        invariant
            count == listed_count(n as int),
            n == msgs@.len(),
            i <= count,
            out@.len() == i,
            forall|j: int| 0 <= j < i ==> is_complete(#[trigger] listed(msgs@, j)),
            forall|j: int| 0 <= j < i ==> summarizes(#[trigger] out@[j], listed(msgs@, j)),
        decreases count - i,
    {
        match summarize_message(&msgs[n - 1 - i]) {
            Ok(s) => out.push(s),
            Err(e) => {
                assert(!is_complete(listed(msgs@, i as int)));
                return Err(e);
            },
        }
        i = i + 1;
    }
    Ok(out)
}

} // verus!
