//! Signature verification: an HMAC-SHA1 tag of the body keyed by the shared
//! secret, rendered as lowercase hex and compared in constant time against
//! the value carried by the signature header.

use vstd::prelude::*;
use vstd::string::StrSliceExecFns;

use crate::errors::AuthFailure;
use crate::errors::WebhookError;
use crate::hex::bytes_to_hex;
use crate::hex::hex_of;

verus! {

use vstd::utf8::encode_utf8;

/// The HMAC-SHA1 tag of a message under a key, determined by the two
/// arguments alone.
pub uninterp spec fn hmac_sha1(key: Seq<u8>, msg: Seq<u8>) -> Seq<u8>;

/// Relies on crypto::hmac::Hmac over crypto::sha1::Sha1, driven through
/// crypto::mac::Mac::{input, result} and crypto::mac::MacResult::code
/// (rust-crypto): computes the HMAC-SHA1 tag of `msg` keyed by `key`, a
/// 20-byte digest that is a function of the two arguments alone.
#[verifier::external_body]
fn hmac_sha1_tag(key: &[u8], msg: &[u8]) -> (r: Vec<u8>)
    ensures
        r@ == hmac_sha1(key@, msg@),
        r@.len() == 20,
{
    let mut mac = crypto::hmac::Hmac::new(crypto::sha1::Sha1::new(), key);
    crypto::mac::Mac::input(&mut mac, msg);
    let tag = crypto::mac::Mac::result(&mut mac);
    tag.code().to_vec()
}

/// Relies on crypto::util::fixed_time_eq (rust-crypto): true exactly when the
/// two byte slices are equal. For a given length the comparison performs a
/// fixed number of operations, independent of where any mismatch lies, which
/// keeps the digest comparison free of timing side-channels. The left operand
/// must be non-empty: on two empty slices the compiled helper reports a
/// mismatch on this platform, so that case is excluded.
pub assume_specification[ crypto::util::fixed_time_eq ](lhs: &[u8], rhs: &[u8]) -> (r: bool)
    requires
        lhs@.len() > 0,
    ensures
        r == (lhs@ == rhs@),
;

/// The expected signature of a body under a secret: the lowercase hex
/// rendering of the HMAC-SHA1 tag of the body's UTF-8 bytes, keyed by the
/// secret's UTF-8 bytes.
pub open spec fn expected_hex(body: Seq<char>, secret: Seq<char>) -> Seq<char> {
    hex_of(hmac_sha1(encode_utf8(secret), encode_utf8(body)))
}

/// Whether a bare signature value is accepted for a body under a secret.
pub open spec fn signature_accepted(body: Seq<char>, signature: Seq<char>, secret: Seq<char>) -> bool {
    signature == expected_hex(body, secret)
}

/// Returns the lowercase hex HMAC-SHA1 signature of the body under the
/// secret: forty hex digits, two for each of the twenty tag bytes.
pub fn hmac_hex(body: &str, secret: &str) -> (r: String)
    ensures
        r@ == expected_hex(body@, secret@),
        r@.len() == 40,
{
    let tag = hmac_sha1_tag(secret.as_bytes(), body.as_bytes());
    bytes_to_hex(tag.as_slice())
}

/// Returns whether the bare signature value equals the signature computed
/// from the body and the secret. The comparison runs in constant time.
pub fn verify(body: &str, signature: &str, secret: &str) -> (r: bool)
    ensures
        r == signature_accepted(body@, signature@, secret@),
{
    let expected = hmac_hex(body, secret);
    proof {
        lemma_encode_utf8_nonempty(expected@);
    }
    let r = crypto::util::fixed_time_eq(expected.as_str().as_bytes(), signature.as_bytes());
    proof {
        vstd::utf8::encode_utf8_decode_utf8(expected@);
        vstd::utf8::encode_utf8_decode_utf8(signature@);
    }
    r
}

/// The UTF-8 encoding of a non-empty character sequence holds at least one
/// byte.
proof fn lemma_encode_utf8_nonempty(s: Seq<char>)
    requires
        s.len() > 0,
    ensures
        encode_utf8(s).len() > 0,
{
    assert(encode_utf8(s) == vstd::utf8::encode_scalar(s[0] as u32) + encode_utf8(
        s.drop_first(),
    ));
    assert(vstd::utf8::encode_scalar(s[0] as u32).len() >= 1);
}

/// A signature equal to the one computed from the body and the secret is
/// always accepted, and a signature that differs from it anywhere is always
/// refused.
pub proof fn lemma_signature_round_trip(body: Seq<char>, secret: Seq<char>, other: Seq<char>)
    ensures
        signature_accepted(body, expected_hex(body, secret), secret),
        other != expected_hex(body, secret) ==> !signature_accepted(body, other, secret),
{
}

/// Whether the sequence holds a separator character.
pub open spec fn contains_separator(s: Seq<char>) -> bool {
    exists|i: int| 0 <= i < s.len() && s[i] == '='
}

/// The index of the first separator character.
pub open spec fn first_sep(s: Seq<char>) -> int
    decreases s.len(),
{
    if s.len() == 0 {
        0
    } else if s[0] == '=' {
        0
    } else {
        1 + first_sep(s.drop_first())
    }
}

/// The part of a signature header value after the first separator: the hex
/// digest that is compared.
pub open spec fn signature_code(header: Seq<char>) -> Seq<char>
    recommends
        contains_separator(header),
{
    header.subrange(first_sep(header) + 1, header.len() as int)
}

/// Whether a signature header value of the form `<algorithm>=<hex>` matches
/// the body under the secret.
pub open spec fn header_matches(header: Seq<char>, body: Seq<char>, secret: Seq<char>) -> bool {
    contains_separator(header) && signature_accepted(body, signature_code(header), secret)
}

proof fn lemma_first_sep_at(s: Seq<char>, i: int)
    requires
        0 <= i < s.len(),
        s[i] == '=',
        forall|j: int| 0 <= j < i ==> s[j] != '=',
    ensures
        first_sep(s) == i,
    decreases i,
{
    if i > 0 {
        assert(forall|j: int| 0 <= j < i - 1 ==> s.drop_first()[j] == s[j + 1]);
        lemma_first_sep_at(s.drop_first(), i - 1);
    }
}

/// Returns the index of the first separator in the string, if any.
fn find_separator(s: &str) -> (r: Option<usize>)
    ensures
        match r {
            Some(i) => {
                &&& i < s@.len()
                &&& s@[i as int] == '='
                &&& forall|j: int| 0 <= j < i ==> s@[j] != '='
            },
            None => !contains_separator(s@),
        },
{
    let n = s.unicode_len();
    let mut i: usize = 0;
    while i < n
        invariant
            n == s@.len(),
            i <= n,
            forall|j: int| 0 <= j < i ==> s@[j] != '=',
        decreases n - i,
    {
        if s.get_char(i) == '=' {
            return Some(i);
        }
        i = i + 1;
    }
    None
}

/// Returns whether a signature header of the form `<algorithm>=<hex>` matches
/// the body under the secret: the part after the first separator is compared,
/// in constant time, against the expected hex digest.
pub fn is_valid_signature(signature: &str, body: &str, secret: &str) -> (r: bool)
    requires
        contains_separator(signature@),
    ensures
        r == header_matches(signature@, body@, secret@),
{
    let i = match find_separator(signature) {
        Some(i) => i,
        None => unreached(),
    };
    proof {
        lemma_first_sep_at(signature@, i as int);
    }
    let n = signature.unicode_len();
    let code = signature.substring_char(i + 1, n);
    verify(body, code, secret)
}

/// A raw request body that has passed signature verification.
#[derive(Debug, PartialEq)]
pub struct SignedPayload(pub String);

impl SignedPayload {
    /// Gate for the raw body: accepts it only when exactly one signature
    /// header value is present, the secret is configured, and the value
    /// matches the body under the secret. The body is not trusted before
    /// verification succeeds.
    pub fn from_data(signature_values: &Vec<String>, body: String, secret: Option<&String>) -> (r: Result<
        SignedPayload,
        WebhookError,
    >)
        ensures
            match r {
                Ok(p) => {
                    &&& signature_values@.len() == 1
                    &&& secret is Some
                    &&& header_matches(signature_values@[0]@, p.0@, secret->0@)
                    &&& p.0@ == body@
                },
                Err(e) => {
                    if signature_values@.len() != 1 {
                        e == WebhookError::Authentication(AuthFailure::MalformedHeader)
                    } else if secret is None {
                        e == WebhookError::Authentication(AuthFailure::SecretUnavailable)
                    } else {
                        &&& !header_matches(signature_values@[0]@, body@, secret->0@)
                        &&& e == WebhookError::Authentication(AuthFailure::BadDigest)
                    }
                },
            },
    {
        if signature_values.len() != 1 {
            return Err(WebhookError::Authentication(AuthFailure::MalformedHeader));
        }
        let secret_value = match secret {
            Some(s) => s,
            None => {
                return Err(WebhookError::Authentication(AuthFailure::SecretUnavailable));
            },
        };
        let signature = &signature_values[0];
        match find_separator(signature.as_str()) {
            Some(_) => {},
            None => {
                return Err(WebhookError::Authentication(AuthFailure::BadDigest));
            },
        }
        if is_valid_signature(signature.as_str(), body.as_str(), secret_value.as_str()) {
            Ok(SignedPayload(body))
        } else {
            Err(WebhookError::Authentication(AuthFailure::BadDigest))
        }
    }
}

} // verus!
