//! Text made from raw bytes, through std's UTF-8 conversions.
use vstd::prelude::*;

verus! {

/// Whether every byte of `b` is ASCII.
pub open spec fn is_ascii_bytes(b: Seq<u8>) -> bool {
    forall|i: int| 0 <= i < b.len() ==> #[trigger] b[i] < 128
}

/// The characters that the ASCII bytes `b` stand for, one each.
pub open spec fn ascii_chars(b: Seq<u8>) -> Seq<char> {
    b.map_values(|c: u8| c as char)
}

/// Whether `b` holds a byte that never occurs in UTF-8: `0xC0`, `0xC1`, or
/// `0xF5` and above.
pub open spec fn has_non_utf8_byte(b: Seq<u8>) -> bool {
    exists|i: int| 0 <= i < b.len() && (#[trigger] b[i] == 0xC0 || b[i] == 0xC1 || b[i] >= 0xF5)
}

/// The text that `String::from_utf8_lossy` makes of `b`.
pub uninterp spec fn lossy_text(b: Seq<u8>) -> Seq<char>;

/// The text that `String::from_utf8` makes of `b`, or `None` where `b` is not
/// valid UTF-8.
pub uninterp spec fn utf8_text(b: Seq<u8>) -> Option<Seq<char>>;

/// Relies on `String::from_utf8_lossy`: the text depends on the bytes alone,
/// and valid UTF-8, ASCII in particular, is kept as it is.
#[verifier::external_body]
pub(crate) fn text_lossy(b: &[u8]) -> (r: String)
    ensures
        r@ == lossy_text(b@),
        is_ascii_bytes(b@) ==> r@ == ascii_chars(b@),
{
    String::from_utf8_lossy(b).into_owned()
}

/// Relies on `String::from_utf8`: it succeeds exactly on valid UTF-8, ASCII
/// among it, and its text depends on the bytes alone (ASCII bytes give their
/// own characters); bytes that UTF-8 never uses make it fail. The error is
/// handed on as its message.
#[verifier::external_body]
pub(crate) fn text_from_utf8(b: Vec<u8>) -> (r: Result<String, String>)
    ensures
        r is Ok <==> utf8_text(b@) is Some,
        r is Ok ==> r->Ok_0@ == utf8_text(b@)->0,
        is_ascii_bytes(b@) ==> r is Ok && r->Ok_0@ == ascii_chars(b@),
        has_non_utf8_byte(b@) ==> r is Err,
{
    match String::from_utf8(b) {
        Ok(s) => Ok(s),
        Err(e) => Err(e.to_string()),
    }
}

} // verus!
