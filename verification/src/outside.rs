//! The calls into other crates, and what is taken for granted about them.
use vstd::prelude::*;
use vstd::utf8::{decode_utf8, valid_utf8};

use base64::prelude::BASE64_URL_SAFE_NO_PAD;
use base64::Engine;
use sha2::{Digest, Sha256};
use spki::der::Decode;
use spki::{SubjectPublicKeyInfo, SubjectPublicKeyInfoRef};

use crate::text::numeral_u32;

verus! {

/// The raw bytes of the public key in a DER-encoded `SubjectPublicKeyInfo`, if `der` is one, and
/// else what the decoder says is wrong with it.
pub uninterp spec fn spki_public_key(der: Seq<u8>) -> Result<Seq<u8>, Seq<char>>;

/// Calls `spki::SubjectPublicKeyInfo::from_der` and takes the raw bytes of the key's bit string,
/// or the text of the error. Whether decoding succeeds, which bytes it gives and what the error
/// says are functions of the input alone. Which inputs decode is not described any further.
#[verifier::external_body]
pub(crate) fn decode_public_key(der: &[u8]) -> (r: Result<Vec<u8>, String>)
    ensures
        match r {
            Ok(key) => spki_public_key(der@) == Ok::<_, Seq<char>>(key@),
            Err(cause) => spki_public_key(der@) == Err::<Seq<u8>, _>(cause@),
        },
{
    let decoded: Result<SubjectPublicKeyInfoRef, spki::der::Error> =
        SubjectPublicKeyInfo::from_der(der);
    match decoded {
        Ok(info) => Ok(info.subject_public_key.raw_bytes().to_vec()),
        Err(error) => Err(error.to_string()),
    }
}

/// The SHA-256 digest of `data`.
pub uninterp spec fn sha256(data: Seq<u8>) -> Seq<u8>;

/// Calls `sha2::Sha256`: one hasher, fed once. The digest is a function of the data and has 32
/// bytes.
#[verifier::external_body]
pub(crate) fn sha256_digest(data: &[u8]) -> (r: Vec<u8>)
    ensures
        r@ == sha256(data@),
        r@.len() == 32,
{
    let mut hasher = Sha256::new();
    hasher.update(data);
    hasher.finalize().to_vec()
}

/// The character for a value below 64 in the URL-safe base64 alphabet.
pub open spec fn base64_char(v: int) -> char {
    if v < 26 {
        (65 + v) as char
    } else if v < 52 {
        (71 + v) as char
    } else if v < 62 {
        (v - 4) as char
    } else if v == 62 {
        '-'
    } else {
        '_'
    }
}

/// The byte at position `k`, or zero behind the end.
pub open spec fn byte_or_zero(data: Seq<u8>, k: int) -> int {
    if k < data.len() {
        data[k] as int
    } else {
        0
    }
}

/// The `i`-th group of six bits of `data`, counted from its first bit, filled up with zeros.
pub open spec fn sextet(data: Seq<u8>, i: int) -> int {
    let k = 6 * i / 8;
    let pair = byte_or_zero(data, k) * 256 + byte_or_zero(data, k + 1);
    let offset = 6 * i % 8;
    let scale: int = if offset == 0 {
        1024
    } else if offset == 2 {
        256
    } else if offset == 4 {
        64
    } else {
        16
    };
    pair / scale % 64
}

/// `data` in URL-safe base64 without padding: one character for every six bits.
pub open spec fn base64_url(data: Seq<u8>) -> Seq<char> {
    Seq::new(((8 * data.len() + 5) / 6) as nat, |i: int| base64_char(sextet(data, i)))
}

/// Calls `base64::Engine::encode` of `BASE64_URL_SAFE_NO_PAD`, which writes one character for
/// every six bits of the data. It panics only where the length of the result overflows `usize`,
/// which takes more bytes than any slice can have.
#[verifier::external_body]
pub(crate) fn encode_base64_url(data: &[u8]) -> (r: String)
    ensures
        r@ == base64_url(data@),
{
    BASE64_URL_SAFE_NO_PAD.encode(data)
}

/// `s` as Rust's debug formatting shows it: in double quotes, with the characters escaped that
/// would not print.
pub uninterp spec fn debug_quoted(s: Seq<char>) -> Seq<char>;

/// Calls the `Debug` implementation of `str` through `format!`. Its result is a function of the
/// text. Which characters are escaped is not described any further.
#[verifier::external_body]
pub(crate) fn quote(s: &str) -> (r: String)
    ensures
        r@ == debug_quoted(s@),
{
    format!("{:?}", s)
}

/// What `String::from_utf8` says is wrong with bytes that are not valid UTF-8.
pub uninterp spec fn utf8_error_text(bytes: Seq<u8>) -> Seq<char>;

/// Calls `String::from_utf8`, which succeeds exactly on valid UTF-8 and then gives the text that
/// the bytes encode, or takes the text of its error. That text is a function of the bytes. How it
/// is worded is not described any further.
#[verifier::external_body]
pub(crate) fn text_from_utf8(bytes: Vec<u8>) -> (r: Result<String, String>)
    ensures
        match r {
            Ok(text) => valid_utf8(bytes@) && text@ == decode_utf8(bytes@),
            Err(cause) => !valid_utf8(bytes@) && cause@ == utf8_error_text(bytes@),
        },
{
    match String::from_utf8(bytes) {
        Ok(text) => Ok(text),
        Err(error) => Err(error.to_string()),
    }
}

/// What parsing a text as a `u32` says is wrong with it, if it is not the numeral of one.
pub uninterp spec fn u32_error_text(text: Seq<char>) -> Seq<char>;

/// Calls `str::parse::<u32>`, which reads an optional plus sign followed by digits only, and
/// fails on anything else and on a number that does not fit, or takes the text of its error. That
/// text is a function of the input. How it is worded is not described any further.
#[verifier::external_body]
pub(crate) fn parse_u32(text: &str) -> (r: Result<u32, String>)
    ensures
        match r {
            Ok(n) => numeral_u32(text@) == Some(n),
            Err(cause) => numeral_u32(text@) is None && cause@ == u32_error_text(text@),
        },
{
    match text.parse::<u32>() {
        Ok(n) => Ok(n),
        Err(error) => Err(error.to_string()),
    }
}

} // verus!
