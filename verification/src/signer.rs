//! HMAC-SHA256 signatures under a base64 account key, and the
//! `Authorization` header made from them.

use crate::error::Failure;
use hmac::Mac;
use vstd::prelude::*;
use vstd::string::*;
use vstd::utf8::*;

verus! {

/// The bytes that standard padded base64 text stands for, or `None` where the
/// text is not valid base64.
pub uninterp spec fn base64_decoding(text: Seq<char>) -> Option<Seq<u8>>;

/// The standard padded base64 text of a byte sequence.
pub uninterp spec fn base64_encoding(bytes: Seq<u8>) -> Seq<char>;

/// The HMAC-SHA256 tag of a message under a key, or `None` where the
/// primitive rejects the key.
pub uninterp spec fn hmac_sha256(key: Seq<u8>, message: Seq<u8>) -> Option<Seq<u8>>;

/// `Engine::decode` of the `base64` crate on its `STANDARD` engine. Trusted:
/// the outcome is a function of the text alone, named [`base64_decoding`].
#[verifier::external_body]
fn decode_standard(text: &str) -> (r: Result<Vec<u8>, base64::DecodeError>)
    ensures
        match r {
            Ok(bytes) => base64_decoding(text@) == Some(bytes@),
            Err(_) => base64_decoding(text@) is None,
        },
{
    base64::Engine::decode(&base64::prelude::BASE64_STANDARD, text)
}

/// `Engine::encode` of the `base64` crate on its `STANDARD` engine. Trusted:
/// the text is a function of the bytes alone, named [`base64_encoding`]. The
/// crate panics where the encoded length does not fit in `usize`, so such
/// inputs are left out.
#[verifier::external_body]
fn encode_standard(bytes: &[u8]) -> (r: String)
    requires
        4 * (bytes@.len() / 3 + 1) <= usize::MAX,
    ensures
        r@ == base64_encoding(bytes@),
{
    base64::Engine::encode(&base64::prelude::BASE64_STANDARD, bytes)
}

/// `Mac::new_from_slice`, `Mac::update` and `Mac::finalize` of the `hmac`
/// crate on `Hmac<Sha256>`. Trusted: the outcome is a function of key and
/// message alone, named [`hmac_sha256`], and a tag has the 32 bytes of a
/// SHA-256 output.
#[verifier::external_body]
fn hmac_sha256_tag(key: &[u8], message: &[u8]) -> (r: Result<Vec<u8>, hmac::digest::InvalidLength>)
    ensures
        match r {
            Ok(tag) => hmac_sha256(key@, message@) == Some(tag@) && tag@.len() == 32,
            Err(_) => hmac_sha256(key@, message@) is None,
        },
{
    let mut mac = hmac::Hmac::<sha2::Sha256>::new_from_slice(key)?;
    mac.update(message);
    Ok(mac.finalize().into_bytes().to_vec())
}

/// The signature of a canonical string under an account key: the key is
/// decoded from base64, the UTF-8 bytes of the string are authenticated with
/// HMAC-SHA256, and the tag is encoded as base64.
pub open spec fn signature(account_key: Seq<char>, string_to_sign: Seq<char>) -> Result<
    Seq<char>,
    Failure,
> {
    match base64_decoding(account_key) {
        None => Err(Failure::KeyDecodeError),
        Some(key) => match hmac_sha256(key, encode_utf8(string_to_sign)) {
            None => Err(Failure::SigningError),
            Some(tag) => Ok(base64_encoding(tag)),
        },
    }
}

/// The key bytes of a decoding outcome; a decoding failure becomes
/// [`Failure::KeyDecodeError`].
pub fn key_bytes(outcome: Result<Vec<u8>, base64::DecodeError>) -> (r: Result<Vec<u8>, Failure>)
    ensures
        match outcome {
            Ok(bytes) => r == Ok::<Vec<u8>, Failure>(bytes),
            Err(_) => r == Err::<Vec<u8>, Failure>(Failure::KeyDecodeError),
        },
{
    match outcome {
        Ok(bytes) => Ok(bytes),
        Err(_) => Err(Failure::KeyDecodeError),
    }
}

/// The tag of a MAC outcome; a rejected key becomes [`Failure::SigningError`].
pub fn mac_tag(outcome: Result<Vec<u8>, hmac::digest::InvalidLength>) -> (r: Result<
    Vec<u8>,
    Failure,
>)
    ensures
        match outcome {
            Ok(tag) => r == Ok::<Vec<u8>, Failure>(tag),
            Err(_) => r == Err::<Vec<u8>, Failure>(Failure::SigningError),
        },
{
    match outcome {
        Ok(tag) => Ok(tag),
        Err(_) => Err(Failure::SigningError),
    }
}

/// Signs `string_to_sign` under the base64 `account_key`.
pub fn generate_signature_b64(account_key: &str, string_to_sign: &str) -> (r: Result<
    String,
    Failure,
>)
    ensures
        match r {
            Ok(text) => signature(account_key@, string_to_sign@) == Ok::<Seq<char>, Failure>(text@),
            Err(e) => signature(account_key@, string_to_sign@) == Err::<Seq<char>, Failure>(e),
        },
{
    let key = match key_bytes(decode_standard(account_key)) {
        Ok(key) => key,
        Err(e) => return Err(e),
    };
    let tag = match mac_tag(hmac_sha256_tag(key.as_slice(), string_to_sign.as_bytes())) {
        Ok(tag) => tag,
        Err(e) => return Err(e),
    };
    Ok(encode_standard(tag.as_slice()))
}

/// The value of the `Authorization` header.
pub open spec fn authorization_value(account_name: Seq<char>, signature: Seq<char>) -> Seq<char> {
    "SharedKey "@ + account_name + ":"@ + signature
}

/// Composes the value of the `Authorization` header from the account name and
/// a signature.
pub fn authorization_header(account_name: &str, signature: &str) -> (r: String)
    ensures
        r@ == authorization_value(account_name@, signature@),
{
    let mut value = String::from_str("SharedKey ");
    value.append(account_name);
    value.append(":");
    value.append(signature);
    value
}

/// Signing is deterministic: the outcome depends on the key text and the
/// canonical string alone, so equal inputs are signed alike.
pub proof fn lemma_signature_is_deterministic(
    key_a: Seq<char>,
    text_a: Seq<char>,
    key_b: Seq<char>,
    text_b: Seq<char>,
)
    requires
        key_a == key_b,
        text_a == text_b,
    ensures
        signature(key_a, text_a) == signature(key_b, text_b),
{
}

} // verus!
