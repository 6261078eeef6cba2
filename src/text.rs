//! Text helpers: decoding received bytes as text and naming compiled objects.
use vstd::prelude::*;
use vstd::utf8::decode_utf8;
use vstd::utf8::valid_utf8;

verus! {

/// The text that `String::from_utf8_lossy` makes of `b`.
pub uninterp spec fn utf8_lossy(b: Seq<u8>) -> Seq<char>;

/// Relies on `String::from_utf8_lossy`: the text depends on the bytes alone, and
/// valid UTF-8 is decoded without replacement characters.
#[verifier::external_body]
pub(crate) fn lossy_text(b: &[u8]) -> (r: String)
    ensures
        r@ == utf8_lossy(b@),
        valid_utf8(b@) ==> r@ == decode_utf8(b@),
{
    String::from_utf8_lossy(b).into_owned()
}

/// The name of the object compiled from the source `s`: every `.c` becomes `.o`.
pub open spec fn object_path_of(s: Seq<char>) -> Seq<char> {
    Seq::new(
        s.len(),
        |j: int|
            if 0 < j && s[j - 1] == '.' && s[j] == 'c' {
                'o'
            } else {
                s[j]
            },
    )
}

/// Relies on `str::replace`: every non-overlapping match of `.c`, taken from the
/// left, is replaced by `.o`; two matches of `.c` can never overlap.
#[verifier::external_body]
pub(crate) fn replace_c_with_o(s: &str) -> (r: String)
    ensures
        r@ == object_path_of(s@),
{
    s.replace(".c", ".o")
}

/// Where the object compiled from `source` is written: beside it, every `.c`
/// turned into `.o`.
pub fn object_path(source: &str) -> (r: String)
    ensures
        r@ == object_path_of(source@),
{
    replace_c_with_o(source)
}

} // verus!
