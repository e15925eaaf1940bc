//! The signature of a call: the canonical string of its fields, digested and
//! tagged.
use crate::digest::sha1_hex;
use crate::digest::is_lower_hex;
use vstd::prelude::*;
use vstd::string::StringExecFns;

verus! {

/// The six fields that a signature binds.
pub struct SigningInput {
    pub method: Seq<char>,
    pub url: Seq<char>,
    pub body: Seq<char>,
    pub timestamp: Seq<char>,
    pub secret: Seq<char>,
    pub consumer_key: Seq<char>,
}

/// The separator between two fields of the canonical string.
pub open spec fn separator() -> Seq<char> {
    seq!['+']
}

/// The tag that opens every signature.
pub open spec fn signature_tag() -> Seq<char> {
    seq!['$', '1', '$']
}

/// The string that is digested: secret, consumer key, method, URL, body and
/// timestamp, in this order, with a `+` between each two.
pub open spec fn canonical_string(input: SigningInput) -> Seq<char> {
    input.secret + separator() + input.consumer_key + separator() + input.method + separator()
        + input.url + separator() + input.body + separator() + input.timestamp
}

/// The signature of a call: the tag `$1$`, then the digest of the canonical
/// string.
pub open spec fn signature_of(input: SigningInput) -> Seq<char> {
    signature_tag() + sha1_hex(canonical_string(input))
}

/// Whether `text` has the shape of a signature: the tag, then the 40
/// lower-case hexadecimal digits of a 160-bit digest.
pub open spec fn is_signature(text: Seq<char>) -> bool {
    &&& text.len() == 43
    &&& text.subrange(0, 3) == signature_tag()
    &&& forall|i: int| 3 <= i < 43 ==> is_lower_hex(#[trigger] text[i])
}

/// In how many of the six fields `a` and `b` differ.
pub open spec fn differing_fields(a: SigningInput, b: SigningInput) -> nat {
    (if a.method == b.method { 0nat } else { 1nat })
        + (if a.url == b.url { 0nat } else { 1nat })
        + (if a.body == b.body { 0nat } else { 1nat })
        + (if a.timestamp == b.timestamp { 0nat } else { 1nat })
        + (if a.secret == b.secret { 0nat } else { 1nat })
        + (if a.consumer_key == b.consumer_key { 0nat } else { 1nat })
}

/// Builds the canonical string of a call.
pub fn canonical(
    method: &str,
    query: &str,
    body: &str,
    timestamp: &str,
    aas: &str,
    ck: &str,
) -> (r: String)
    ensures
        r@ == canonical_string(
            SigningInput {
                method: method@,
                url: query@,
                body: body@,
                timestamp: timestamp@,
                secret: aas@,
                consumer_key: ck@,
            },
        ),
{
    proof {
        reveal_strlit("+");
        assert("+"@ =~= separator());
    }
    let mut text: String = aas.to_owned();
    text.append("+");
    text.append(ck);
    text.append("+");
    text.append(method);
    text.append("+");
    text.append(query);
    text.append("+");
    text.append(body);
    text.append("+");
    text.append(timestamp);
    text
}

/// Puts the tag `$1$` in front of a digest.
pub fn tag_digest(hex: &str) -> (r: String)
    ensures
        r@ == signature_tag() + hex@,
{
    proof {
        reveal_strlit("$1$");
        assert("$1$"@ =~= signature_tag());
    }
    let mut sign: String = "$1$".to_owned();
    sign.append(hex);
    sign
}

/// A field between the same prefix and the same suffix can be read back.
proof fn lemma_middle_is_determined(
    prefix: Seq<char>,
    x: Seq<char>,
    y: Seq<char>,
    suffix: Seq<char>,
)
    requires
        prefix + x + suffix == prefix + y + suffix,
    ensures
        x == y,
{
    let left = prefix + x + suffix;
    let right = prefix + y + suffix;
    assert(left.len() == prefix.len() + x.len() + suffix.len());
    assert(right.len() == prefix.len() + y.len() + suffix.len());
    assert forall|i: int| 0 <= i < x.len() implies x[i] == y[i] by {
        assert(left[prefix.len() + i] == x[i]);
        assert(right[prefix.len() + i] == y[i]);
    }
    assert(x =~= y);
}

/// Equal inputs have equal signatures: the signature is a function of the six
/// fields and of nothing else.
pub proof fn lemma_signature_is_deterministic(a: SigningInput, b: SigningInput)
    requires
        a.method == b.method,
        a.url == b.url,
        a.body == b.body,
        a.timestamp == b.timestamp,
        a.secret == b.secret,
        a.consumer_key == b.consumer_key,
    ensures
        canonical_string(a) == canonical_string(b),
        signature_of(a) == signature_of(b),
{
}

/// Two inputs that differ in exactly one field have different canonical
/// strings, so different texts are digested for them.
pub proof fn lemma_single_field_changes_canonical(a: SigningInput, b: SigningInput)
    requires
        differing_fields(a, b) == 1,
    ensures
        canonical_string(a) != canonical_string(b),
{
    let p = separator();
    if canonical_string(a) == canonical_string(b) {
        if a.secret != b.secret {
            let suffix = p + a.consumer_key + p + a.method + p + a.url + p + a.body + p
                + a.timestamp;
            let empty = Seq::<char>::empty();
            assert(canonical_string(a) =~= empty + a.secret + suffix);
            assert(canonical_string(b) =~= empty + b.secret + suffix);
            lemma_middle_is_determined(empty, a.secret, b.secret, suffix);
        } else if a.consumer_key != b.consumer_key {
            let prefix = a.secret + p;
            let suffix = p + a.method + p + a.url + p + a.body + p + a.timestamp;
            assert(canonical_string(a) =~= prefix + a.consumer_key + suffix);
            assert(canonical_string(b) =~= prefix + b.consumer_key + suffix);
            lemma_middle_is_determined(prefix, a.consumer_key, b.consumer_key, suffix);
        } else if a.method != b.method {
            let prefix = a.secret + p + a.consumer_key + p;
            let suffix = p + a.url + p + a.body + p + a.timestamp;
            assert(canonical_string(a) =~= prefix + a.method + suffix);
            assert(canonical_string(b) =~= prefix + b.method + suffix);
            lemma_middle_is_determined(prefix, a.method, b.method, suffix);
        } else if a.url != b.url {
            let prefix = a.secret + p + a.consumer_key + p + a.method + p;
            let suffix = p + a.body + p + a.timestamp;
            assert(canonical_string(a) =~= prefix + a.url + suffix);
            assert(canonical_string(b) =~= prefix + b.url + suffix);
            lemma_middle_is_determined(prefix, a.url, b.url, suffix);
        } else if a.body != b.body {
            let prefix = a.secret + p + a.consumer_key + p + a.method + p + a.url + p;
            let suffix = p + a.timestamp;
            assert(canonical_string(a) =~= prefix + a.body + suffix);
            assert(canonical_string(b) =~= prefix + b.body + suffix);
            lemma_middle_is_determined(prefix, a.body, b.body, suffix);
        } else {
            let prefix = a.secret + p + a.consumer_key + p + a.method + p + a.url + p + a.body
                + p;
            let empty = Seq::<char>::empty();
            assert(canonical_string(a) =~= prefix + a.timestamp + empty);
            assert(canonical_string(b) =~= prefix + b.timestamp + empty);
            lemma_middle_is_determined(prefix, a.timestamp, b.timestamp, empty);
        }
    }
}

} // verus!
