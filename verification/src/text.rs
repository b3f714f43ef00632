//! Message text: how bytes from the embedder become the text of a trap.

use vstd::prelude::*;
use vstd::utf8::*;

verus! {

/// The text that `String::from_utf8_lossy` makes of bytes that are not valid
/// UTF-8: each malformed run gives way to U+FFFD, the rest is decoded.
pub uninterp spec fn utf8_repaired(bytes: Seq<u8>) -> Seq<char>;

/// The text that a run of bytes stands for: what it encodes where it is valid
/// UTF-8, and its repaired reading where it is not.
pub open spec fn utf8_lossy(bytes: Seq<u8>) -> Seq<char> {
    if valid_utf8(bytes) {
        decode_utf8(bytes)
    } else {
        utf8_repaired(bytes)
    }
}

/// Calls `String::from_utf8_lossy`. Trusted: valid UTF-8 comes back as the
/// text it encodes; anything else comes back repaired, and the same bytes are
/// always repaired to the same text.
#[verifier::external_body]
pub(crate) fn decode_lossy(bytes: &[u8]) -> (text: String)
    ensures
        valid_utf8(bytes@) ==> text@ == decode_utf8(bytes@),
        !valid_utf8(bytes@) ==> text@ == utf8_repaired(bytes@),
{
    String::from_utf8_lossy(bytes).into_owned()
}

} // verus!
