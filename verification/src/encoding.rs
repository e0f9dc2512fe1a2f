//! Byte encodings the handshake and the controller protocol rely on:
//! standard base64, SHA-1 digests and UTF-8 decoding.
use vstd::prelude::*;
use vstd::utf8::{decode_utf8, valid_utf8};
use sha1::Digest;

verus! {

/// The base64 character of a 6-bit value, in the standard alphabet
/// (RFC 4648, table 1).
pub open spec fn base64_char(v: int) -> char {
    if v < 26 {
        (65 + v) as char
    } else if v < 52 {
        (97 + (v - 26)) as char
    } else if v < 62 {
        (48 + (v - 52)) as char
    } else if v == 62 {
        '+'
    } else {
        '/'
    }
}

/// Standard base64 with `=` padding: each group of three bytes becomes four
/// characters, and a final group of one or two bytes is padded.
pub open spec fn base64_text(data: Seq<u8>) -> Seq<char>
    decreases data.len(),
{
    if data.len() == 0 {
        Seq::<char>::empty()
    } else if data.len() == 1 {
        let a = data[0] as int;
        seq![base64_char(a / 4), base64_char((a % 4) * 16), '=', '=']
    } else if data.len() == 2 {
        let a = data[0] as int;
        let b = data[1] as int;
        seq![base64_char(a / 4), base64_char((a % 4) * 16 + b / 16), base64_char((b % 16) * 4), '=']
    } else {
        let a = data[0] as int;
        let b = data[1] as int;
        let c = data[2] as int;
        seq![
            base64_char(a / 4),
            base64_char((a % 4) * 16 + b / 16),
            base64_char((b % 16) * 4 + c / 64),
            base64_char(c % 64),
        ] + base64_text(data.skip(3))
    }
}

/// The base64 text of `n` bytes has `4 * ceil(n / 3)` characters.
pub proof fn lemma_base64_len(data: Seq<u8>)
    ensures
        base64_text(data).len() == 4 * ((data.len() + 2) / 3),
    decreases data.len(),
{
    if data.len() > 2 {
        lemma_base64_len(data.skip(3));
    }
}

/// `base64::encode` (base64 0.13), which encodes with the `STANDARD`
/// configuration: the standard alphabet with `=` padding. The contract
/// claims that the result is `base64_text` of the input.
#[verifier::external_body]
pub(crate) fn base64_encode(data: &[u8]) -> (text: String)
    ensures
        text@ == base64_text(data@),
{
    base64::encode(data)
}

/// The SHA-1 digest (FIPS 180-4) of a byte sequence.
pub uninterp spec fn sha1_digest(data: Seq<u8>) -> Seq<u8>;

/// `sha1::Sha1` (sha1 0.10): one `update` with the data, then `finalize`.
/// The contract claims that the result is the digest of exactly the given
/// bytes, and that it has 20 bytes (the crate's `OutputSize` is `U20`).
#[verifier::external_body]
pub(crate) fn sha1(data: &[u8]) -> (digest: Vec<u8>)
    ensures
        digest@ == sha1_digest(data@),
        digest@.len() == 20,
{
    let mut hasher = sha1::Sha1::new();
    hasher.update(data);
    hasher.finalize().to_vec()
}

/// `String::from_utf8`: `Some` exactly when the bytes are valid UTF-8, and
/// then the decoded text. The contract states this over vstd's model of
/// UTF-8 (`valid_utf8`, `decode_utf8`).
#[verifier::external_body]
pub(crate) fn utf8_string(bytes: Vec<u8>) -> (text: Option<String>)
    ensures
        text is Some <==> valid_utf8(bytes@),
        text matches Some(t) ==> t@ == decode_utf8(bytes@),
{
    String::from_utf8(bytes).ok()
}

} // verus!
