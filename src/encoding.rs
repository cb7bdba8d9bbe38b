//! Text encodings used by payloads and hashes: lowercase hex, decimal numbers,
//! and the SHA-256 content hash of a string.
use sha2::Digest;
use vstd::prelude::*;
use vstd::string::StringSliceAdditionalSpecFns;
use vstd::utf8::{encode_utf8, is_ascii_chars};

verus! {

/// The lowercase hex digit for a value below 16.
pub open spec fn nibble_char(n: int) -> char {
    if n == 0 { '0' } else if n == 1 { '1' } else if n == 2 { '2' } else if n == 3 { '3' }
    else if n == 4 { '4' } else if n == 5 { '5' } else if n == 6 { '6' } else if n == 7 { '7' }
    else if n == 8 { '8' } else if n == 9 { '9' } else if n == 10 { 'a' } else if n == 11 { 'b' }
    else if n == 12 { 'c' } else if n == 13 { 'd' } else if n == 14 { 'e' } else { 'f' }
}

/// Lowercase hex text of a byte string: two digits per byte, high nibble first.
pub open spec fn hex_chars(b: Seq<u8>) -> Seq<char> {
    Seq::new(
        2 * b.len(),
        |i: int| if i % 2 == 0 { nibble_char((b[i / 2] / 16) as int) } else { nibble_char((b[i / 2] % 16) as int) },
    )
}

/// A byte that is an ASCII hex digit of either case.
pub open spec fn is_hex_byte(c: u8) -> bool {
    (48 <= c <= 57) || (65 <= c <= 70) || (97 <= c <= 102)
}

/// The value of an ASCII hex digit.
pub open spec fn hex_value(c: u8) -> int {
    if 48 <= c <= 57 { c - 48 } else if 65 <= c <= 70 { c - 55 } else { c - 87 }
}

/// Text that decodes as hex: an even number of hex digits.
pub open spec fn hex_decodable(s: Seq<u8>) -> bool {
    s.len() % 2 == 0 && forall|i: int| 0 <= i < s.len() ==> is_hex_byte(#[trigger] s[i])
}

/// The bytes that hex text stands for.
pub open spec fn hex_decoded(s: Seq<u8>) -> Seq<u8> {
    Seq::new(s.len() / 2, |i: int| (hex_value(s[2 * i]) * 16 + hex_value(s[2 * i + 1])) as u8)
}

/// Relies on hex::encode: each byte becomes two lowercase hex digits, in order.
#[verifier::external_body]
pub(crate) fn hex_encode(b: &[u8]) -> (r: String)
    ensures
        r@ == hex_chars(b@),
{
    hex::encode(b)
}

/// Relies on hex::decode: it succeeds exactly on an even number of hex digits
/// of either case, and then gives one byte per pair of digits.
#[verifier::external_body]
pub(crate) fn hex_decode(s: &str) -> (r: Option<Vec<u8>>)
    ensures
        r.is_some() == hex_decodable(s.spec_bytes()),
        r.is_some() ==> r.unwrap()@ == hex_decoded(s.spec_bytes()),
{
    hex::decode(s).ok()
}

/// The SHA-256 digest of a byte string.
pub uninterp spec fn sha256_of(data: Seq<u8>) -> Seq<u8>;

/// Relies on sha2::Sha256::digest: the 32-byte digest of the input.
#[verifier::external_body]
pub(crate) fn sha256_digest(data: &[u8]) -> (r: Vec<u8>)
    ensures
        r@ == sha256_of(data@),
        r@.len() == 32,
{
    sha2::Sha256::digest(data).to_vec()
}

/// The content hash of a text: lowercase hex of the SHA-256 digest of its UTF-8 bytes.
pub open spec fn content_hash(s: Seq<char>) -> Seq<char> {
    hex_chars(sha256_of(encode_utf8(s)))
}

/// Computes the content hash of a string.
pub fn hash_hex(s: &String) -> (r: String)
    ensures
        r@ == content_hash(s@),
{
    let bytes = s.as_str().as_bytes();
    let digest = sha256_digest(bytes);
    hex_encode(digest.as_slice())
}

/// Hex text is ASCII, so its UTF-8 bytes are its characters, and they decode
/// back to the bytes it was made from.
pub proof fn lemma_hex_round_trip(b: Seq<u8>)
    ensures
        hex_decodable(encode_utf8(hex_chars(b))),
        hex_decoded(encode_utf8(hex_chars(b))) == b,
        encode_utf8(hex_chars(b)).len() == 2 * b.len(),
{
    let h = hex_chars(b);
    assert(is_ascii_chars(h));
    vstd::utf8::is_ascii_chars_encode_utf8(h);
    let e = encode_utf8(h);
    assert forall|i: int| 0 <= i < e.len() implies is_hex_byte(#[trigger] e[i]) && hex_value(e[i]) == (
    if i % 2 == 0 { b[i / 2] / 16 } else { b[i / 2] % 16 }) by {
        assert(e[i] == h[i] as u8);
    };
    assert forall|i: int| 0 <= i < b.len() implies #[trigger] hex_decoded(e)[i] == b[i] by {
        assert(hex_value(e[2 * i]) == b[i] / 16);
        assert(hex_value(e[2 * i + 1]) == b[i] % 16);
    };
    assert(hex_decoded(e) =~= b);
}

/// The decimal digit character for a value below 10.
pub open spec fn digit_char(d: int) -> char {
    nibble_char(d)
}

/// Decimal text of a natural number, without leading zeros.
pub open spec fn dec(n: nat) -> Seq<char>
    decreases n,
{
    if n < 10 {
        seq![digit_char(n as int)]
    } else {
        dec(n / 10) + seq![digit_char((n % 10) as int)]
    }
}

/// Decimal text of an integer, with a leading minus sign when negative.
pub open spec fn dec_signed(n: int) -> Seq<char> {
    if n < 0 { seq!['-'] + dec((-n) as nat) } else { dec(n as nat) }
}

fn digit_str(d: u64) -> (r: &'static str)
    requires
        d < 10,
    ensures
        r@ == seq![digit_char(d as int)],
{
    proof {
        reveal_strlit("0");
        reveal_strlit("1");
        reveal_strlit("2");
        reveal_strlit("3");
        reveal_strlit("4");
        reveal_strlit("5");
        reveal_strlit("6");
        reveal_strlit("7");
        reveal_strlit("8");
        reveal_strlit("9");
    }
    let r = if d == 0 { "0" } else if d == 1 { "1" } else if d == 2 { "2" } else if d == 3 { "3" }
    else if d == 4 { "4" } else if d == 5 { "5" } else if d == 6 { "6" } else if d == 7 { "7" }
    else if d == 8 { "8" } else { "9" };
    assert(r@ =~= seq![digit_char(d as int)]);
    r
}

/// Appends the decimal text of `n`.
pub fn push_decimal(s: &mut String, n: u64)
    ensures
        final(s)@ == old(s)@ + dec(n as nat),
    decreases n,
{
    if n >= 10 {
        push_decimal(s, n / 10);
    }
    s.append(digit_str(n % 10));
    proof {
        assert(final(s)@ =~= old(s)@ + dec(n as nat));
    }
}

/// Appends the decimal text of `n`, signed.
pub fn push_decimal_signed(s: &mut String, n: i64)
    ensures
        final(s)@ == old(s)@ + dec_signed(n as int),
{
    if n < 0 {
        proof {
            reveal_strlit("-");
        }
        s.append("-");
        let m: u64 = (0i128 - n as i128) as u64;
        push_decimal(s, m);
        assert(s@ =~= old(s)@ + dec_signed(n as int));
    } else {
        push_decimal(s, n as u64);
    }
}

} // verus!
