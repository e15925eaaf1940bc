//! The SHA-1 digest that signatures are made of, computed by `rust-crypto`.
use crypto::digest::Digest;
use crypto::sha1::Sha1;
use vstd::prelude::*;

verus! {

/// The SHA-1 digest of the UTF-8 bytes of `text`, in hexadecimal.
pub uninterp spec fn sha1_hex(text: Seq<char>) -> Seq<char>;

/// Whether `c` is one of the sixteen digits `0` to `9` and `a` to `f`.
pub open spec fn is_lower_hex(c: char) -> bool {
    ('0' <= c && c <= '9') || ('a' <= c && c <= 'f')
}

/// Feeds `text` to a fresh `crypto::sha1::Sha1` with `Digest::input_str` and
/// reads the digest with `Digest::result_str`.
///
/// Trusted: the result is the digest named `sha1_hex`, that is, a function of
/// the text alone. `result_str` renders the 20 bytes of the digest with two
/// lower-case hexadecimal digits each, so the result has 40 such digits.
#[verifier::external_body]
pub(crate) fn sha1_hex_digest(text: &str) -> (hex: String)
    ensures
        hex@ == sha1_hex(text@),
        hex@.len() == 40,
        forall|i: int| 0 <= i < 40 ==> is_lower_hex(#[trigger] hex@[i]),
{
    let mut hasher = Sha1::new();
    hasher.input_str(text);
    hasher.result_str()
}

} // verus!
