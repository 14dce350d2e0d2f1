//! Byte encodings used for API keys: URL-safe base64 (through the `base64`
//! crate), SHA-256 digests (through `sha2`) and lowercase hexadecimal.

use vstd::prelude::*;
use base64::Engine;
use sha2::Digest;

verus! {

/// The character for the six-bit value `n` in the URL-safe base64 alphabet
/// (RFC 4648, section 5): `A`-`Z`, `a`-`z`, `0`-`9`, `-`, `_`.
pub open spec fn base64_url_digit(n: int) -> char {
    if n < 26 {
        ('A' as int + n) as char
    } else if n < 52 {
        ('a' as int + (n - 26)) as char
    } else if n < 62 {
        ('0' as int + (n - 52)) as char
    } else if n == 62 {
        '-'
    } else {
        '_'
    }
}

/// The URL-safe base64 text of `data` without padding: each group of three
/// bytes gives four characters, six bits each from the first bit on; a last
/// group of one or two bytes gives two or three characters, its missing bits
/// taken as zero.
pub open spec fn base64_url_no_pad(data: Seq<u8>) -> Seq<char>
    decreases data.len(),
{
    let a = data[0] as int;
    let b = data[1] as int;
    let c = data[2] as int;
    if data.len() == 0 {
        Seq::empty()
    } else if data.len() == 1 {
        seq![base64_url_digit(a / 4), base64_url_digit((a % 4) * 16)]
    } else if data.len() == 2 {
        seq![
            base64_url_digit(a / 4),
            base64_url_digit((a % 4) * 16 + b / 16),
            base64_url_digit((b % 16) * 4),
        ]
    } else {
        seq![
            base64_url_digit(a / 4),
            base64_url_digit((a % 4) * 16 + b / 16),
            base64_url_digit((b % 16) * 4 + c / 64),
            base64_url_digit(c % 64),
        ] + base64_url_no_pad(data.skip(3))
    }
}

/// The characters of the URL-safe base64 alphabet.
pub open spec fn base64_url_char(c: char) -> bool {
    ('A' <= c && c <= 'Z') || ('a' <= c && c <= 'z') || ('0' <= c && c <= '9') || c == '-'
        || c == '_'
}

/// The length of unpadded base64 text for `n` bytes: four characters per
/// three bytes, and two or three for a last partial group.
pub open spec fn base64_no_pad_len(n: nat) -> nat {
    4 * (n / 3) + (if n % 3 == 1 {
        2nat
    } else if n % 3 == 2 {
        3nat
    } else {
        0nat
    })
}

/// `URL_SAFE_NO_PAD.encode(data)`: the URL-safe base64 text of `data`
/// without padding, hence of the length `base64::encoded_len` gives without
/// padding, in the URL-safe alphabet. `encode` panics when that length
/// overflows `usize`, which the bound on `data` rules out.
#[verifier::external_body]
pub(crate) fn base64_url_encode(data: &[u8]) -> (r: String)
    requires
        data@.len() / 3 * 4 + 3 <= usize::MAX,
    ensures
        r@ == base64_url_no_pad(data@),
        r@.len() == base64_no_pad_len(data@.len()),
        forall|i: int| 0 <= i < r@.len() ==> base64_url_char(#[trigger] r@[i]),
{
    base64::engine::general_purpose::URL_SAFE_NO_PAD.encode(data)
}

/// The SHA-256 digest of `data`, as `sha2::Sha256` computes it.
pub uninterp spec fn sha256(data: Seq<u8>) -> Seq<u8>;

/// `Sha256::digest(data)`: the digest is named, and is 32 bytes long.
#[verifier::external_body]
pub(crate) fn sha256_digest(data: &[u8]) -> (r: Vec<u8>)
    ensures
        r@ == sha256(data@),
        r@.len() == 32,
{
    sha2::Sha256::digest(data).to_vec()
}

/// The lowercase hexadecimal digit of a value below 16.
pub open spec fn hex_digit(v: u8) -> char {
    if v < 10 {
        (('0' as u8) + v) as char
    } else {
        (('a' as u8) + v - 10) as char
    }
}

/// Lowercase hexadecimal text of bytes: two digits per byte, high nibble
/// first (what `format!("{:x}", digest)` writes).
pub open spec fn hex_lower(data: Seq<u8>) -> Seq<char>
    decreases data.len(),
{
    if data.len() == 0 {
        Seq::empty()
    } else {
        let b = data.last();
        hex_lower(data.drop_last()) + seq![hex_digit(b / 16), hex_digit(b % 16)]
    }
}

pub(crate) fn hex_char(v: u8) -> (c: char)
    requires
        v < 16,
    ensures
        c == hex_digit(v),
{
    if v < 10 {
        (48u8 + v) as char
    } else {
        (97u8 + v - 10) as char
    }
}

/// Lowercase hexadecimal text of `data`.
pub fn to_hex_lower(data: &[u8]) -> (r: String)
    ensures
        r@ == hex_lower(data@),
{
    let mut s = String::new();
    let n = data.len();
    for i in 0..n
        invariant
            n == data@.len(),
            s@ == hex_lower(data@.take(i as int)),
    {
        let b = data[i];
        crate::text::push_char(&mut s, hex_char(b / 16));
        crate::text::push_char(&mut s, hex_char(b % 16));
        assert(data@.take(i + 1).drop_last() == data@.take(i as int));
    }
    assert(data@.take(n as int) == data@);
    s
}

} // verus!
