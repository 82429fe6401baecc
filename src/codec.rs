//! The on-disk record format: one seed of 32 bytes per line, in lowercase hex.
use vstd::prelude::*;

verus! {

/// Number of bytes in a seed.
pub const SEED_LEN: usize = 32;

/// Why a line is not a record.
#[derive(Debug, Clone, Copy, PartialEq, Eq, Structural)]
pub enum DecodeError {
    /// The trimmed line is not an even number of hex digits.
    InvalidEncoding,
    /// The trimmed line is hex, but not of exactly 32 bytes.
    WrongLength,
}

/// The lowercase hex digit of a value below sixteen.
pub open spec fn hex_digit(n: u8) -> char {
    if n < 10 {
        ((n + 48) as u32) as char
    } else {
        ((n + 87) as u32) as char
    }
}

/// Lowercase hex of a byte string: two digits per byte, high half first.
pub open spec fn hex_of(b: Seq<u8>) -> Seq<char> {
    Seq::new(
        2 * b.len(),
        |i: int|
            if i % 2 == 0 {
                hex_digit(b[i / 2] / 16)
            } else {
                hex_digit(b[i / 2] % 16)
            },
    )
}

/// A hex digit of either case.
pub open spec fn is_hex_char(c: char) -> bool {
    ('0' <= c && c <= '9') || ('a' <= c && c <= 'f') || ('A' <= c && c <= 'F')
}

/// The value of a hex digit.
pub open spec fn hex_value(c: char) -> int {
    if '0' <= c && c <= '9' {
        c as int - 48
    } else if 'a' <= c && c <= 'f' {
        c as int - 87
    } else {
        c as int - 55
    }
}

/// Text that reads as hex: an even number of hex digits, of either case.
pub open spec fn is_hex(s: Seq<char>) -> bool {
    s.len() % 2 == 0 && forall|i: int| 0 <= i < s.len() ==> is_hex_char(#[trigger] s[i])
}

/// The bytes that hex text stands for, high half first.
pub open spec fn bytes_of_hex(s: Seq<char>) -> Seq<u8> {
    Seq::new(
        s.len() / 2,
        |i: int| (16 * hex_value(s[2 * i]) + hex_value(s[2 * i + 1])) as u8,
    )
}

/// A digit written for a value reads back as that value.
pub proof fn lemma_hex_digit(n: u8)
    requires
        n < 16,
    ensures
        is_hex_char(hex_digit(n)),
        hex_value(hex_digit(n)) == n,
{
}

/// Hex text decodes back to the bytes it was made from.
pub proof fn lemma_hex_round_trip(b: Seq<u8>)
    ensures
        is_hex(hex_of(b)),
        bytes_of_hex(hex_of(b)) == b,
{
    let h = hex_of(b);
    assert forall|i: int| 0 <= i < h.len() implies is_hex_char(#[trigger] h[i]) by {
        if i % 2 == 0 {
            lemma_hex_digit(b[i / 2] / 16);
        } else {
            lemma_hex_digit(b[i / 2] % 16);
        }
    }
    assert forall|i: int| 0 <= i < b.len() implies #[trigger] bytes_of_hex(h)[i] == b[i] by {
        lemma_hex_digit(b[i] / 16);
        lemma_hex_digit(b[i] % 16);
        assert(h[2 * i] == hex_digit(b[i] / 16));
        assert(h[2 * i + 1] == hex_digit(b[i] % 16));
    }
    assert(bytes_of_hex(h) =~= b);
}

/// Unicode's White_Space property, which `char::is_whitespace` tests.
pub open spec fn is_white_space(c: char) -> bool {
    ('\u{9}' <= c && c <= '\u{d}') || c == ' ' || c == '\u{85}' || c == '\u{a0}' || c
        == '\u{1680}' || ('\u{2000}' <= c && c <= '\u{200a}') || c == '\u{2028}' || c
        == '\u{2029}' || c == '\u{202f}' || c == '\u{205f}' || c == '\u{3000}'
}

/// Text with its leading white space removed.
pub open spec fn trim_start_of(s: Seq<char>) -> Seq<char>
    decreases s.len(),
{
    if s.len() > 0 && is_white_space(s[0]) {
        trim_start_of(s.drop_first())
    } else {
        s
    }
}

/// Text with its trailing white space removed.
pub open spec fn trim_end_of(s: Seq<char>) -> Seq<char>
    decreases s.len(),
{
    if s.len() > 0 && is_white_space(s.last()) {
        trim_end_of(s.drop_last())
    } else {
        s
    }
}

/// Text with white space removed at both ends.
pub open spec fn trim_of(s: Seq<char>) -> Seq<char> {
    trim_end_of(trim_start_of(s))
}

/// A line that holds nothing but white space.
pub open spec fn is_blank(line: Seq<char>) -> bool {
    trim_of(line).len() == 0
}

/// The record that a line holds, or why it holds none.
pub open spec fn decode_spec(line: Seq<char>) -> Result<Seq<u8>, DecodeError> {
    let t = trim_of(line);
    if !is_hex(t) {
        Err(DecodeError::InvalidEncoding)
    } else if bytes_of_hex(t).len() != SEED_LEN {
        Err(DecodeError::WrongLength)
    } else {
        Ok(bytes_of_hex(t))
    }
}

/// Text with no white space at either end is its own trim.
pub proof fn lemma_trim_of_unpadded(s: Seq<char>)
    requires
        s.len() > 0 ==> !is_white_space(s[0]) && !is_white_space(s.last()),
    ensures
        trim_of(s) == s,
{
}

/// Hex text has no white space at either end.
pub proof fn lemma_hex_unpadded(s: Seq<char>)
    requires
        is_hex(s),
    ensures
        trim_of(s) == s,
{
    if s.len() > 0 {
        assert(is_hex_char(s[0]));
        assert(is_hex_char(s[s.len() - 1]));
    }
    lemma_trim_of_unpadded(s);
}

/// Relies on hex::encode: two lowercase digits per byte, high half first.
#[verifier::external_body]
fn hex_encode(b: &[u8; 32]) -> (r: String)
    ensures
        r@ == hex_of(b@),
{
    hex::encode(b)
}

/// Relies on hex::decode: it succeeds exactly on an even number of hex
/// digits of either case, and gives the bytes they stand for. Any other
/// character, a multi-byte one included, is refused.
#[verifier::external_body]
fn hex_decode(s: &str) -> (r: Option<Vec<u8>>)
    ensures
        r.is_some() == is_hex(s@),
        r matches Some(v) ==> v@ == bytes_of_hex(s@),
{
    match hex::decode(s) {
        Ok(v) => Some(v),
        Err(_) => None,
    }
}

/// Relies on str::trim: the slice without leading and trailing characters
/// that have the White_Space property.
#[verifier::external_body]
pub(crate) fn trim(s: &str) -> (r: &str)
    ensures
        r@ == trim_of(s@),
{
    s.trim()
}

/// The record line of a seed: 64 lowercase hex digits, with no white space.
pub fn encode(seed: &[u8; 32]) -> (r: String)
    ensures
        r@ == hex_of(seed@),
        r@.len() == 2 * SEED_LEN,
{
    hex_encode(seed)
}

/// The seed that a line holds, read after trimming white space.
pub fn decode(line: &str) -> (r: Result<[u8; 32], DecodeError>)
    ensures
        decode_spec(line@) == (match r {
            Ok(s) => Ok(s@),
            Err(e) => Err(e),
        }),
{
    let t = trim(line);
    match hex_decode(t) {
        None => Err(DecodeError::InvalidEncoding),
        Some(v) => {
            if v.len() != SEED_LEN {
                Err(DecodeError::WrongLength)
            } else {
                let mut seed = [0u8; 32];
                let mut i: usize = 0;
                while i < SEED_LEN
                    invariant
                        i <= SEED_LEN,
                        v@.len() == SEED_LEN,
                        forall|k: int| 0 <= k < i ==> seed@[k] == v@[k],
                    decreases SEED_LEN - i,
                {
                    seed[i] = v[i];
                    i = i + 1;
                }
                assert(seed@ =~= v@);
                Ok(seed)
            }
        },
    }
}

/// Decoding the record of a seed gives the seed back.
pub proof fn lemma_round_trip(s: Seq<u8>)
    requires
        s.len() == SEED_LEN,
    ensures
        decode_spec(hex_of(s)) == Ok::<Seq<u8>, DecodeError>(s),
{
    lemma_hex_round_trip(s);
    lemma_hex_unpadded(hex_of(s));
}

} // verus!
