use vstd::prelude::*;

verus! {

/// What `String::from_utf8_lossy` makes of a byte sequence: invalid
/// sequences become U+FFFD, valid text is kept.
pub uninterp spec fn lossy_text(b: Seq<u8>) -> Seq<char>;

/// Relies on `String::from_utf8_lossy`: the text depends on the bytes alone,
/// and no bytes give no text.
#[verifier::external_body]
pub(crate) fn lossy_utf8(b: &Vec<u8>) -> (r: String)
    ensures
        r@ == lossy_text(b@),
        b@.len() == 0 ==> r@.len() == 0,
{
    String::from_utf8_lossy(b.as_slice()).to_string()
}

} // verus!
