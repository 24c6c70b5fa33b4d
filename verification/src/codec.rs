//! The encodings and the digest that come from other crates: Base64, percent
//! encoding and SHA-1. Each call stands behind one function whose contract is
//! taken on trust.

use base64::Engine;
use sha1::Digest;
use vstd::prelude::*;
use vstd::string::*;

use crate::text::hex_upper_char;

verus! {

/// `base64::DecodeError`, the reason why a text is no Base64.
#[verifier::external_type_specification]
#[verifier::external_body]
pub struct ExBase64DecodeError(base64::DecodeError);

/// The standard Base64 encoding, with padding, of a sequence of bytes.
pub uninterp spec fn base64_encoded(bytes: Seq<u8>) -> Seq<char>;

/// The bytes that a text stands for in standard Base64 with padding, or
/// nothing where the text is no such encoding.
pub uninterp spec fn base64_decoded(text: Seq<char>) -> Option<Seq<u8>>;

/// The largest number of bytes whose Base64 encoding still has a length that
/// fits the machine.
pub open spec fn base64_fits(len: nat) -> bool {
    len / 3 * 4 + 4 <= usize::MAX
}

/// Calls `Engine::encode` on `base64::prelude::BASE64_STANDARD`. The crate
/// panics where the encoded length does not fit in `usize`, which the
/// precondition rules out.
#[verifier::external_body]
pub(crate) fn base64_standard_encode(data: &[u8]) -> (text: String)
    requires
        base64_fits(data@.len()),
    ensures
        text@ == base64_encoded(data@),
{
    base64::prelude::BASE64_STANDARD.encode(data)
}

/// Calls `Engine::decode` on `base64::prelude::BASE64_STANDARD`. It succeeds
/// exactly on the texts that are standard Base64 with padding.
#[verifier::external_body]
pub(crate) fn base64_standard_decode(text: &str) -> (r: Result<Vec<u8>, base64::DecodeError>)
    ensures
        match r {
            Ok(bytes) => base64_decoded(text@) == Some(bytes@),
            Err(_) => base64_decoded(text@) is None,
        },
{
    base64::prelude::BASE64_STANDARD.decode(text)
}

/// Calls the `Display` impl of `base64::DecodeError`. Nothing is claimed of
/// the wording.
#[verifier::external_body]
fn base64_error_text(error: &base64::DecodeError) -> (text: String) {
    error.to_string()
}

/// The bytes that `text` encodes, or a description of why it encodes none.
pub fn base64_decode(text: &str) -> (r: Result<Vec<u8>, String>)
    ensures
        match r {
            Ok(bytes) => base64_decoded(text@) == Some(bytes@),
            Err(_) => base64_decoded(text@) is None,
        },
{
    match base64_standard_decode(text) {
        Ok(bytes) => Ok(bytes),
        Err(e) => Err(base64_error_text(&e)),
    }
}

/// The bytes that need no escaping in a URL component: letters, digits and
/// `-`, `.`, `_`, `~`.
pub open spec fn is_unreserved(b: u8) -> bool {
    ||| 0x30 <= b <= 0x39
    ||| 0x41 <= b <= 0x5a
    ||| 0x61 <= b <= 0x7a
    ||| b == 0x2d
    ||| b == 0x2e
    ||| b == 0x5f
    ||| b == 0x7e
}

/// One byte as it stands in a URL component: itself where it needs no
/// escaping, else `%` and its two upper-case hexadecimal digits.
pub open spec fn percent_encoded_byte(b: u8) -> Seq<char> {
    if is_unreserved(b) {
        seq![b as char]
    } else {
        seq!['%', hex_upper_char((b / 16) as int), hex_upper_char((b % 16) as int)]
    }
}

/// A sequence of bytes as it stands in a URL component.
pub open spec fn percent_encoded(bytes: Seq<u8>) -> Seq<char>
    decreases bytes.len(),
{
    if bytes.len() == 0 {
        Seq::empty()
    } else {
        percent_encoded(bytes.drop_last()) + percent_encoded_byte(bytes.last())
    }
}

/// What a URL component stands for once its escapes are resolved, or nothing
/// where the resolved bytes are no UTF-8.
pub uninterp spec fn percent_decoded(text: Seq<char>) -> Option<Seq<char>>;

/// Calls `urlencoding::encode`, which escapes every byte of the UTF-8 form
/// of the text except letters, digits and `-`, `.`, `_`, `~`.
#[verifier::external_body]
pub(crate) fn urlencoding_encode(text: &str) -> (encoded: String)
    ensures
        encoded@ == percent_encoded(text.spec_bytes()),
{
    urlencoding::encode(text).into_owned()
}

/// Calls `urlencoding::decode` and keeps the text, dropping the reason of a
/// failure.
#[verifier::external_body]
pub(crate) fn urlencoding_decode(text: &str) -> (decoded: Option<String>)
    ensures
        match decoded {
            Some(t) => percent_decoded(text@) == Some(t@),
            None => percent_decoded(text@) is None,
        },
{
    match urlencoding::decode(text) {
        Ok(decoded) => Some(decoded.into_owned()),
        Err(_) => None,
    }
}

/// The SHA-1 digest of a message.
pub uninterp spec fn sha1_digest(message: Seq<u8>) -> Seq<u8>;

/// Feeds the message to a fresh `sha1::Sha1` and finalises it. The digest
/// has 20 bytes.
#[verifier::external_body]
pub(crate) fn sha1_of(message: &[u8]) -> (digest: Vec<u8>)
    ensures
        digest@ == sha1_digest(message@),
        digest@.len() == 20,
{
    let mut hasher = sha1::Sha1::new();
    hasher.update(message);
    hasher.finalize().to_vec()
}

} // verus!
