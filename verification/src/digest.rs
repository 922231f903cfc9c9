use vstd::prelude::*;
use crate::text::push_char;
use vstd::string::StringSliceAdditionalSpecFns;

verus! {

// ---------------------------------------------------------------------------
// Digests (md-5, sha1, sha2) and their text forms
// ---------------------------------------------------------------------------

/// The MD5 digest of a byte string.
pub uninterp spec fn md5_digest(data: Seq<u8>) -> Seq<u8>;

/// The SHA-1 digest of a byte string.
pub uninterp spec fn sha1_digest(data: Seq<u8>) -> Seq<u8>;

/// The SHA-256 digest of a byte string.
pub uninterp spec fn sha256_digest(data: Seq<u8>) -> Seq<u8>;

/// `md5::Md5::digest`: the 16-byte MD5 digest of `data`, named by [`md5_digest`].
#[verifier::external_body]
pub(crate) fn md5_bytes(data: &[u8]) -> (r: Vec<u8>)
    ensures
        r@ == md5_digest(data@),
        r@.len() == 16,
{
    <md5::Md5 as md5::Digest>::digest(data).to_vec()
}

/// `sha1::Sha1::digest`: the 20-byte SHA-1 digest of `data`, named by [`sha1_digest`].
#[verifier::external_body]
pub(crate) fn sha1_bytes(data: &[u8]) -> (r: Vec<u8>)
    ensures
        r@ == sha1_digest(data@),
        r@.len() == 20,
{
    <sha1::Sha1 as sha1::Digest>::digest(data).to_vec()
}

/// `sha2::Sha256::digest`: the 32-byte SHA-256 digest of `data`, named by [`sha256_digest`].
#[verifier::external_body]
pub(crate) fn sha256_bytes(data: &[u8]) -> (r: Vec<u8>)
    ensures
        r@ == sha256_digest(data@),
        r@.len() == 32,
{
    <sha2::Sha256 as sha2::Digest>::digest(data).to_vec()
}

/// One hexadecimal digit.
pub open spec fn hex_digit(v: int, upper: bool) -> char {
    if v < 10 {
        ((v + ('0' as int)) as u32) as char
    } else if upper {
        ((v - 10 + ('A' as int)) as u32) as char
    } else {
        ((v - 10 + ('a' as int)) as u32) as char
    }
}

/// Two hexadecimal digits per byte, high nibble first (`{:x}` / `{:X}` of a digest).
pub open spec fn hex_of(bytes: Seq<u8>, upper: bool) -> Seq<char>
    decreases bytes.len(),
{
    if bytes.len() == 0 {
        Seq::empty()
    } else {
        hex_of(bytes.drop_last(), upper).push(hex_digit((bytes.last() as int) / 16, upper)).push(
            hex_digit((bytes.last() as int) % 16, upper),
        )
    }
}

fn hex_digit_exec(v: u8, upper: bool) -> (c: char)
    requires
        v < 16,
    ensures
        c == hex_digit(v as int, upper),
{
    if v < 10 {
        (48u8 + v) as char
    } else if upper {
        (55u8 + v) as char
    } else {
        (87u8 + v) as char
    }
}

/// The hexadecimal text of a byte string.
pub fn hex_string(bytes: &[u8], upper: bool) -> (s: String)
    ensures
        s@ == hex_of(bytes@, upper),
{
    let mut s = String::new();
    let mut i: usize = 0;
    while i < bytes.len()
        invariant
            i <= bytes@.len(),
            s@ == hex_of(bytes@.take(i as int), upper),
        decreases bytes@.len() - i,
    {
        let b = bytes[i];
        push_char(&mut s, hex_digit_exec(b / 16, upper));
        push_char(&mut s, hex_digit_exec(b % 16, upper));
        i = i + 1;
        assert(bytes@.take(i as int).drop_last() == bytes@.take(i - 1));
    }
    assert(bytes@.take(bytes@.len() as int) == bytes@);
    s
}

/// Lower-case hex MD5 of a byte string.
pub fn md5_hex(data: &[u8]) -> (s: String)
    ensures
        s@ == hex_of(md5_digest(data@), false),
{
    let d = md5_bytes(data);
    hex_string(d.as_slice(), false)
}

/// An upper-case hexadecimal digit: `0`-`9` or `A`-`F`.
pub open spec fn is_upper_hex(c: char) -> bool {
    ('0' <= c && c <= '9') || ('A' <= c && c <= 'F')
}

/// The text of bytes in upper-case hex has two digits per byte, each `0`-`9` or `A`-`F`.
pub proof fn lemma_upper_hex_shape(bytes: Seq<u8>)
    ensures
        hex_of(bytes, true).len() == 2 * bytes.len(),
        forall|i: int| 0 <= i < hex_of(bytes, true).len() ==> is_upper_hex(#[trigger] hex_of(bytes, true)[i]),
    decreases bytes.len(),
{
    if bytes.len() > 0 {
        lemma_upper_hex_shape(bytes.drop_last());
        let h = hex_of(bytes.drop_last(), true);
        let hi = hex_digit((bytes.last() as int) / 16, true);
        let lo = hex_digit((bytes.last() as int) % 16, true);
        assert(is_upper_hex(hi) && is_upper_hex(lo));
        assert forall|i: int| 0 <= i < h.push(hi).push(lo).len() implies is_upper_hex(#[trigger] h.push(hi).push(lo)[i]) by {
            if i < h.len() {
                assert(h.push(hi).push(lo)[i] == h[i]);
            }
        }
    }
}

/// Upper-case hex SHA-1 of a byte string: 40 digits, each `0`-`9` or `A`-`F`.
pub fn sha1_hex_upper(data: &[u8]) -> (s: String)
    ensures
        s@ == hex_of(sha1_digest(data@), true),
        s@.len() == 40,
        forall|i: int| 0 <= i < s@.len() ==> is_upper_hex(#[trigger] s@[i]),
{
    let d = sha1_bytes(data);
    proof {
        lemma_upper_hex_shape(d@);
    }
    hex_string(d.as_slice(), true)
}

/// Lower-case hex SHA-1 of a byte string.
pub fn sha1_hex_lower(data: &[u8]) -> (s: String)
    ensures
        s@ == hex_of(sha1_digest(data@), false),
{
    let d = sha1_bytes(data);
    hex_string(d.as_slice(), false)
}

/// Lower-case hex SHA-256 of a byte string.
pub fn sha256_hex(data: &[u8]) -> (s: String)
    ensures
        s@ == hex_of(sha256_digest(data@), false),
{
    let d = sha256_bytes(data);
    hex_string(d.as_slice(), false)
}

/// `hash_string_md5`: the lower-case hex MD5 of a string's UTF-8 bytes.
pub fn hash_string_md5(input: &str) -> (s: String)
    ensures
        s@ == hex_of(md5_digest(input.spec_bytes()), false),
{
    md5_hex(input.as_bytes())
}

// ---------------------------------------------------------------------------
// Base64 (standard alphabet, padded)
// ---------------------------------------------------------------------------

/// The standard base64 alphabet.
pub open spec fn b64_char(v: int) -> char {
    if v < 26 {
        ((v + ('A' as int)) as u32) as char
    } else if v < 52 {
        ((v - 26 + ('a' as int)) as u32) as char
    } else if v < 62 {
        ((v - 52 + ('0' as int)) as u32) as char
    } else if v == 62 {
        '+'
    } else {
        '/'
    }
}

/// Standard padded base64: each 3 bytes give 4 characters, a short tail is padded with `=`.
pub open spec fn base64_of(s: Seq<u8>) -> Seq<char>
    decreases s.len(),
{
    let a = if s.len() > 0 {
        s[0] as int
    } else {
        0
    };
    let b = if s.len() > 1 {
        s[1] as int
    } else {
        0
    };
    let c = if s.len() > 2 {
        s[2] as int
    } else {
        0
    };
    if s.len() == 0 {
        Seq::empty()
    } else if s.len() == 1 {
        seq![b64_char(a / 4), b64_char((a % 4) * 16), '=', '=']
    } else if s.len() == 2 {
        seq![b64_char(a / 4), b64_char((a % 4) * 16 + b / 16), b64_char((b % 16) * 4), '=']
    } else {
        seq![
            b64_char(a / 4),
            b64_char((a % 4) * 16 + b / 16),
            b64_char((b % 16) * 4 + c / 64),
            b64_char(c % 64),
        ] + base64_of(s.skip(3))
    }
}

/// `base64::engine::general_purpose::STANDARD.encode`: standard padded base64.
#[verifier::external_body]
pub(crate) fn base64_encode(data: &[u8]) -> (r: String)
    requires
        data@.len() <= usize::MAX / 2,
    ensures
        r@ == base64_of(data@),
{
    base64::Engine::encode(&base64::engine::general_purpose::STANDARD, data)
}

/// Standard padded base64 of a byte string.
pub fn encode_base64(data: &[u8]) -> (s: String)
    requires
        data@.len() <= usize::MAX / 2,
    ensures
        s@ == base64_of(data@),
{
    base64_encode(data)
}

/// Base64 of the MD5 digest of a byte string (the form the game's index files use).
pub fn md5_base64(data: &[u8]) -> (s: String)
    ensures
        s@ == base64_of(md5_digest(data@)),
{
    let d = md5_bytes(data);
    base64_encode(d.as_slice())
}

// ---------------------------------------------------------------------------
// Decompression (lzma-rs, flate2) and UTF-8
// ---------------------------------------------------------------------------

/// What `lzma_rs::lzma_decompress` writes for `data`, or `None` when it fails.
pub uninterp spec fn lzma_decoded(data: Seq<u8>) -> Option<Seq<u8>>;

/// The UTF-8 text that gzip-compressed `data` holds, or `None` when it is not gzip or not UTF-8.
pub uninterp spec fn gunzip_text(data: Seq<u8>) -> Option<Seq<char>>;

/// `lzma_rs::lzma_decompress` into a fresh buffer; `None` when it reports an error.
#[verifier::external_body]
pub(crate) fn lzma_decompress_bytes(data: &[u8]) -> (r: Option<Vec<u8>>)
    ensures
        match r {
            Some(v) => lzma_decoded(data@) == Some(v@),
            None => lzma_decoded(data@) is None,
        },
{
    let mut out: Vec<u8> = Vec::new();
    let mut reader = std::io::Cursor::new(data);
    match lzma_rs::lzma_decompress(&mut reader, &mut out) {
        Ok(()) => Some(out),
        Err(_) => None,
    }
}

/// `flate2::read::GzDecoder` read to a string; `None` when it reports an error.
#[verifier::external_body]
pub(crate) fn gunzip_to_string(data: &[u8]) -> (r: Option<String>)
    ensures
        match r {
            Some(v) => gunzip_text(data@) == Some(v@),
            None => gunzip_text(data@) is None,
        },
{
    let mut decoder = flate2::read::GzDecoder::new(data);
    let mut decoded = String::new();
    match std::io::Read::read_to_string(&mut decoder, &mut decoded) {
        Ok(_) => Some(decoded),
        Err(_) => None,
    }
}

/// `std::str::from_utf8`, owned: the text when `data` is valid UTF-8.
#[verifier::external_body]
pub(crate) fn utf8_to_string(data: &[u8]) -> (r: Option<String>)
    ensures
        match r {
            Some(s) => vstd::utf8::valid_utf8(data@) && s@ == vstd::utf8::decode_utf8(data@),
            None => !vstd::utf8::valid_utf8(data@),
        },
{
    match std::str::from_utf8(data) {
        Ok(s) => Some(s.to_string()),
        Err(_) => None,
    }
}

} // verus!
