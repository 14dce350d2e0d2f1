//! Generation and hashing of API keys.

use vstd::prelude::*;
use crate::encoding::{base64_url_encode, base64_url_no_pad, hex_lower, sha256, sha256_digest, to_hex_lower};
use crate::projects::api_key::API_KEY_MARKER;
use crate::random::random_bytes;

verus! {

/// How many random bytes an API key carries.
pub const API_KEY_RANDOM_BYTES: usize = 32;

/// The text of the API key made from the given random bytes: the marker,
/// then the bytes in URL-safe base64 without padding.
pub open spec fn api_key_text(bytes: Seq<u8>) -> Seq<char> {
    API_KEY_MARKER@ + base64_url_no_pad(bytes)
}

/// Generate a cryptographically secure API key: the marker followed by 32
/// random bytes in URL-safe base64.
pub fn generate_api_key() -> (r: String)
    ensures
        exists|b: Seq<u8>| b.len() == API_KEY_RANDOM_BYTES && r@ == #[trigger] api_key_text(b),
{
    let bytes = random_bytes(API_KEY_RANDOM_BYTES);
    api_key_from_bytes(&bytes)
}

/// The API key made from the given bytes: the marker, then the bytes in
/// URL-safe base64 without padding.
pub fn api_key_from_bytes(bytes: &Vec<u8>) -> (r: String)
    requires
        bytes@.len() / 3 * 4 + 3 <= usize::MAX,
    ensures
        r@ == api_key_text(bytes@),
{
    let body = base64_url_encode(bytes.as_slice());
    API_KEY_MARKER.to_string().concat(body.as_str())
}

/// The stored hash of an API key: SHA-256 of its UTF-8 bytes, in lowercase
/// hexadecimal.
pub open spec fn api_key_hash(key: Seq<char>) -> Seq<char> {
    hex_lower(sha256(vstd::utf8::encode_utf8(key)))
}

/// Hash an API key using SHA-256.
pub fn hash_api_key(key: &str) -> (r: String)
    ensures
        r@ == api_key_hash(key@),
{
    let digest = sha256_digest(key.as_bytes());
    to_hex_lower(digest.as_slice())
}

} // verus!
