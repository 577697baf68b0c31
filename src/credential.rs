use vstd::prelude::*;

use crate::error::MailError;
use crate::text::{lossy_text, lossy_utf8};

verus! {

/// What the password command left behind.
#[derive(Debug, Clone)]
pub struct CommandOutput {
    /// Whether the command exited with status zero.
    pub success: bool,
    pub stdout: Vec<u8>,
    pub stderr: Vec<u8>,
}

/// What `String::from_utf8` makes of bytes: their text when they are valid
/// UTF-8, else nothing.
pub uninterp spec fn utf8_decoded(b: Seq<u8>) -> Option<Seq<char>>;

/// What `str::trim` leaves of a text.
pub uninterp spec fn trimmed_text(s: Seq<char>) -> Seq<char>;

/// Relies on `String::from_utf8`: it succeeds exactly on valid UTF-8, and
/// valid text decodes as `String::from_utf8_lossy` decodes it. The error
/// becomes its message.
#[verifier::external_body]
fn utf8_string(b: Vec<u8>) -> (r: Result<String, String>)
    ensures
        r is Ok <==> utf8_decoded(b@) is Some,
        r is Ok ==> r->Ok_0@ == utf8_decoded(b@)->0,
        r is Ok ==> r->Ok_0@ == lossy_text(b@),
{
    String::from_utf8(b).map_err(|e| e.to_string())
}

/// Relies on `str::trim`: leading and trailing whitespace removed.
#[verifier::external_body]
fn trim_text(s: &str) -> (r: String)
    ensures
        r@ == trimmed_text(s@),
        s@.len() == 0 ==> r@.len() == 0,
{
    s.trim().to_string()
}

pub open spec fn failure_prefix() -> Seq<char> {
    "Password command failed: "@
}

pub open spec fn invalid_text_prefix() -> Seq<char> {
    "Password is not valid UTF-8: "@
}

/// The password that the command printed: its standard output as UTF-8
/// text, trimmed. A failed command, or output that is not UTF-8, is a
/// credential error; a failed command's message carries its error output.
pub fn password_from_output(output: CommandOutput) -> (r: Result<String, MailError>)
    ensures
        !output.success ==> r is Err && r->Err_0 is Credential && r->Err_0->Credential_0@
            == failure_prefix() + lossy_text(output.stderr@),
        output.success && utf8_decoded(output.stdout@) is None ==> r is Err && r->Err_0 is Credential
            && invalid_text_prefix().len() <= r->Err_0->Credential_0@.len()
            && r->Err_0->Credential_0@.subrange(0, invalid_text_prefix().len() as int) == invalid_text_prefix(),
        output.success && utf8_decoded(output.stdout@) is Some ==> r is Ok && r->Ok_0@ == trimmed_text(
            utf8_decoded(output.stdout@)->0,
        ),
{
    if !output.success {
        let mut message = String::from_str("Password command failed: ");
        let detail = lossy_utf8(&output.stderr);
        message.append(detail.as_str());
        return Err(MailError::Credential(message));
    }
    match utf8_string(output.stdout) {
        Ok(text) => Ok(trim_text(text.as_str())),
        Err(e) => {
            let mut message = String::from_str("Password is not valid UTF-8: ");
            let ghost prefix = message@;
            message.append(e.as_str());
            proof {
                assert(message@.subrange(0, prefix.len() as int) =~= prefix);
                reveal_strlit("Password is not valid UTF-8: ");
                reveal_strlit("Password command failed: ");
            }
            Err(MailError::Credential(message))
        },
    }
}

} // verus!
