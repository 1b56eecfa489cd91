//! Checking that a webhook delivery was signed with the shared secret.
use vstd::prelude::*;
use vstd::string::*;
use vstd::utf8::encode_utf8;

use hmac::Mac;
use subtle::ConstantTimeEq;

use crate::report::decode_lossy;

verus! {

/// HMAC-SHA256 of a message under a key.
pub uninterp spec fn hmac_sha256_of(key: Seq<u8>, message: Seq<u8>) -> Seq<u8>;

/// Relies on `hmac::Hmac<sha2::Sha256>`: `new_from_slice` with the key, one
/// `update` with the message, `finalize`; the tag depends on key and message
/// alone and has 32 bytes. `new_from_slice` accepts keys of every length (it
/// hashes or pads the key to the block size), so a tag always comes back.
#[verifier::external_body]
fn hmac_sha256(key: &[u8], message: &[u8]) -> (r: Option<Vec<u8>>)
    ensures
        r is Some,
        r->0@ == hmac_sha256_of(key@, message@),
        r->0@.len() == 32,
{
    let mut mac = hmac::Hmac::<sha2::Sha256>::new_from_slice(key).ok()?;
    mac.update(message);
    Some(mac.finalize().into_bytes().to_vec())
}

/// The lowercase hexadecimal digit of a value below 16.
pub open spec fn hex_digit(n: u8) -> char {
    if n < 10 {
        (48 + n) as char
    } else {
        (87 + n) as char
    }
}

/// Bytes in lowercase hexadecimal, two digits each.
pub open spec fn hex_lower(b: Seq<u8>) -> Seq<char>
    decreases b.len(),
{
    if b.len() == 0 {
        Seq::empty()
    } else {
        hex_lower(b.drop_last()) + seq![hex_digit(b.last() / 16), hex_digit(b.last() % 16)]
    }
}

/// Relies on `hex::encode`: two lowercase digits per byte, in order.
#[verifier::external_body]
fn to_hex(b: &[u8]) -> (r: String)
    ensures
        r@ == hex_lower(b@),
{
    hex::encode(b)
}

/// Relies on `subtle::ConstantTimeEq` for byte slices: true exactly when the
/// slices have the same length and bytes.
#[verifier::external_body]
fn constant_time_eq(a: &[u8], b: &[u8]) -> (r: bool)
    ensures
        r == (a@ == b@),
{
    a.ct_eq(b).into()
}

/// The signature header value that goes with the tag `tag`.
pub open spec fn signature_of(tag: Seq<u8>) -> Seq<u8> {
    encode_utf8("sha256="@ + hex_lower(tag))
}

/// The signature header a delivery of `body` signed with `secret` carries.
pub open spec fn expected_signature(secret: &str, body: &str) -> Seq<u8> {
    signature_of(hmac_sha256_of(secret.spec_bytes(), body.spec_bytes()))
}

/// Accepts a signature header value only where it is `sha256=` and the
/// lowercase hexadecimal of `tag`. The comparison takes the same time
/// wherever the bytes differ.
pub fn check_signature(signature: Option<&[u8]>, tag: &[u8]) -> (r: Result<(), String>)
    ensures
        r is Ok <==> (signature matches Some(s) && s@ == signature_of(tag@)),
        signature is None ==> (r matches Err(m) && m@
            == "missing x-hub-signature-256 header field"@),
{
    let signature = match signature {
        Some(s) => s,
        None => return Err("missing x-hub-signature-256 header field".to_owned()),
    };
    let mut formatted = "sha256=".to_owned();
    formatted.append(to_hex(tag).as_str());
    if !constant_time_eq(formatted.as_str().as_bytes(), signature) {
        let mut m = "comparison failed: signature=".to_owned();
        m.append(decode_lossy(signature).as_str());
        m.append(", computed=");
        m.append(formatted.as_str());
        return Err(m);
    }
    Ok(())
}

/// The verifier of webhook signatures.
pub struct DefaultVerifier;

impl DefaultVerifier {
    /// Accepts a delivery only where its `x-hub-signature-256` header value,
    /// given as `signature`, is `sha256=` and the hexadecimal HMAC-SHA256 of
    /// the body under the secret. The comparison takes the same time wherever
    /// the bytes differ.
    pub fn verify_request(signature: Option<&[u8]>, body: &str, secret: &str) -> (r: Result<(), String>)
        ensures
            signature is None ==> (r matches Err(m) && m@
                == "missing x-hub-signature-256 header field"@),
            r is Ok <==> (signature matches Some(s) && s@ == expected_signature(secret, body)),
    {
        if signature.is_none() {
            return Err("missing x-hub-signature-256 header field".to_owned());
        }
        match hmac_sha256(secret.as_bytes(), body.as_bytes()) {
            Some(tag) => check_signature(signature, tag.as_slice()),
            None => Err("HMAC creation failed".to_owned()),
        }
    }
}

} // verus!
