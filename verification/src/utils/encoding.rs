//! Byte-level encodings shared by the handlers: lowercase hex, big-endian
//! lengths, decimal numbers and strings made of ASCII bytes.

use vstd::prelude::*;
use vstd::utf8::*;

use crate::primitives::string_from_utf8;

verus! {

/// The lowercase ASCII hex digit of a nibble.
pub open spec fn hex_digit(n: u8) -> u8 {
    if n < 10 {
        (48 + n) as u8
    } else {
        (87 + n) as u8
    }
}

/// Lowercase hex of `bytes`: two digits per byte, high nibble first.
pub open spec fn hex_encode_spec(bytes: Seq<u8>) -> Seq<u8> {
    Seq::new(
        (2 * bytes.len()) as nat,
        |i: int|
            if i % 2 == 0 {
                hex_digit(bytes[i / 2] / 16)
            } else {
                hex_digit(bytes[i / 2] % 16)
            },
    )
}

/// The value of a hex digit, either case.
pub open spec fn hex_value(c: u8) -> Option<u8> {
    if 48 <= c <= 57 {
        Some((c - 48) as u8)
    } else if 97 <= c <= 102 {
        Some((c - 87) as u8)
    } else if 65 <= c <= 70 {
        Some((c - 55) as u8)
    } else {
        None
    }
}

/// An even number of hex digits.
pub open spec fn is_hex_text(text: Seq<u8>) -> bool {
    &&& text.len() % 2 == 0
    &&& forall|i: int| 0 <= i < text.len() ==> #[trigger] hex_value(text[i]) is Some
}

/// The bytes that hex text stands for, or `None` where it is not hex text.
pub open spec fn hex_decode_spec(text: Seq<u8>) -> Option<Seq<u8>> {
    if is_hex_text(text) {
        Some(
            Seq::new(
                text.len() / 2,
                |i: int|
                    (16 * hex_value(text[2 * i]).unwrap() + hex_value(
                        text[2 * i + 1],
                    ).unwrap()) as u8,
            ),
        )
    } else {
        None
    }
}

/// Bytes that are all ASCII.
pub open spec fn all_ascii(bytes: Seq<u8>) -> bool {
    forall|i: int| 0 <= i < bytes.len() ==> #[trigger] bytes[i] <= 0x7f
}

fn nibble_to_hex(n: u8) -> (c: u8)
    requires
        n < 16,
    ensures
        c == hex_digit(n),
{
    if n < 10 {
        48 + n
    } else {
        87 + n
    }
}

fn hex_to_nibble(c: u8) -> (v: Option<u8>)
    ensures
        v == hex_value(c),
{
    if 48 <= c && c <= 57 {
        Some(c - 48)
    } else if 97 <= c && c <= 102 {
        Some(c - 87)
    } else if 65 <= c && c <= 70 {
        Some(c - 55)
    } else {
        None
    }
}

/// Lowercase hex of `bytes`, as bytes.
pub fn hex_encode(bytes: &[u8]) -> (text: Vec<u8>)
    ensures
        text@ == hex_encode_spec(bytes@),
{
    let mut text: Vec<u8> = Vec::new();
    let mut i: usize = 0;
    while i < bytes.len()
        invariant
            i <= bytes@.len(),
            text@.len() == 2 * i,
            forall|j: int| 0 <= j < 2 * i ==> text@[j] == #[trigger] hex_encode_spec(bytes@)[j],
        decreases bytes@.len() - i,
    {
        let b = bytes[i];
        text.push(nibble_to_hex(b / 16));
        text.push(nibble_to_hex(b % 16));
        i = i + 1;
    }
    assert(text@ =~= hex_encode_spec(bytes@));
    text
}

/// The bytes that hex text stands for; `None` where the text has an odd length
/// or a byte that is not a hex digit.
pub fn hex_decode(text: &[u8]) -> (bytes: Option<Vec<u8>>)
    ensures
        bytes matches Some(b) ==> hex_decode_spec(text@) == Some(b@),
        bytes is None ==> hex_decode_spec(text@) is None,
{
    if text.len() % 2 != 0 {
        return None;
    }
    let len = text.len();
    let half = len / 2;
    let mut out: Vec<u8> = Vec::new();
    let mut i: usize = 0;
    while i < half
        invariant
            len == text@.len(),
            half == text@.len() / 2,
            2 * half == text@.len(),
            text@.len() % 2 == 0,
            i <= half,
            out@.len() == i,
            forall|j: int| 0 <= j < 2 * i ==> #[trigger] hex_value(text@[j]) is Some,
            forall|j: int|
                0 <= j < i ==> #[trigger] out@[j] == (16 * hex_value(text@[2 * j]).unwrap()
                    + hex_value(text@[2 * j + 1]).unwrap()) as u8,
        decreases half - i,
    {
        assert(2 * i + 1 < text@.len());
        let hi = hex_to_nibble(text[2 * i]);
        let lo = hex_to_nibble(text[2 * i + 1]);
        match (hi, lo) {
            (Some(h), Some(l)) => {
                out.push(16 * h + l);
            },
            _ => {
                assert(hex_value(text@[2 * i]) is None || hex_value(text@[2 * i + 1]) is None);
                return None;
            },
        }
        i = i + 1;
    }
    assert(is_hex_text(text@));
    assert(out@ =~= hex_decode_spec(text@).unwrap());
    Some(out)
}

/// Hex text decodes back to the bytes it was made from.
pub proof fn lemma_hex_round_trip(bytes: Seq<u8>)
    ensures
        hex_decode_spec(hex_encode_spec(bytes)) == Some(bytes),
        all_ascii(hex_encode_spec(bytes)),
{
    let text = hex_encode_spec(bytes);
    assert forall|i: int| 0 <= i < text.len() implies #[trigger] hex_value(text[i]) is Some by {
        let b = bytes[i / 2];
        assert(b / 16 < 16 && b % 16 < 16);
    }
    assert(is_hex_text(text));
    let decoded = hex_decode_spec(text).unwrap();
    assert forall|i: int| 0 <= i < bytes.len() implies #[trigger] decoded[i] == bytes[i] by {
        let b = bytes[i];
        assert((2 * i) / 2 == i);
        assert((2 * i + 1) / 2 == i);
        assert((2 * i) % 2 == 0);
        assert((2 * i + 1) % 2 == 1);
        assert(16 * (b / 16) + b % 16 == b);
    }
    assert(decoded =~= bytes);
}

/// ASCII bytes are valid UTF-8.
pub proof fn lemma_ascii_valid_utf8(bytes: Seq<u8>)
    requires
        all_ascii(bytes),
    ensures
        valid_utf8(bytes),
{
    assert(bytes.subrange(0, 0) =~= Seq::<u8>::empty());
    partial_valid_utf8_extend_ascii_block(bytes, 0, bytes.len() as int);
    assert(bytes.subrange(0, bytes.len() as int) =~= bytes);
}

/// The string whose UTF-8 bytes are the given ASCII bytes.
pub fn ascii_string(bytes: Vec<u8>) -> (s: String)
    requires
        all_ascii(bytes@),
    ensures
        encode_utf8(s@) == bytes@,
{
    proof {
        lemma_ascii_valid_utf8(bytes@);
    }
    match string_from_utf8(bytes) {
        Some(s) => s,
        None => {
            assert(false);
            String::new()
        },
    }
}

/// Lowercase hex of `bytes`, as a string.
pub fn hex_string(bytes: &[u8]) -> (s: String)
    ensures
        encode_utf8(s@) == hex_encode_spec(bytes@),
{
    let text = hex_encode(bytes);
    proof {
        lemma_hex_round_trip(bytes@);
    }
    ascii_string(text)
}

/// An ASCII decimal digit.
pub open spec fn is_digit(b: u8) -> bool {
    48 <= b <= 57
}

/// The number that a string of decimal digits stands for.
pub open spec fn digits_value(digits: Seq<u8>) -> int
    decreases digits.len(),
{
    if digits.len() == 0 {
        0
    } else {
        10 * digits_value(digits.drop_last()) + (digits.last() - 48)
    }
}

/// The digits of a decimal text after an optional leading `+`.
pub open spec fn unsigned_digits(text: Seq<u8>) -> Seq<u8> {
    if text.len() > 0 && text[0] == 43 {
        text.drop_first()
    } else {
        text
    }
}

/// What `str::parse::<usize>` gives for the bytes `text`: an optional `+`,
/// then one or more decimal digits whose value fits a `usize`.
pub open spec fn parse_usize_spec(text: Seq<u8>) -> Option<usize> {
    parse_usize_spec_digits(unsigned_digits(text))
}

proof fn lemma_digits_value_prefix(digits: Seq<u8>, k: int)
    requires
        0 <= k <= digits.len(),
        forall|i: int| 0 <= i < digits.len() ==> #[trigger] is_digit(digits[i]),
    ensures
        0 <= digits_value(digits.take(k)) <= digits_value(digits),
    decreases digits.len(),
{
    if k == digits.len() {
        assert(digits.take(k) =~= digits);
        if digits.len() > 0 {
            assert(is_digit(digits[digits.len() - 1]));
            lemma_digits_value_prefix(digits.drop_last(), 0);
        }
    } else {
        let rest = digits.drop_last();
        assert(rest.take(k) =~= digits.take(k));
        assert(forall|i: int| 0 <= i < rest.len() ==> #[trigger] rest[i] == digits[i]);
        assert(is_digit(digits[digits.len() - 1]));
        lemma_digits_value_prefix(rest, k);
    }
}

/// Parses a decimal number the way `str::parse::<usize>` does.
pub fn parse_usize(text: &str) -> (n: Option<usize>)
    ensures
        n == parse_usize_spec(encode_utf8(text@)),
{
    let bytes = text.as_bytes();
    let ghost digits = unsigned_digits(bytes@);
    let start: usize = if bytes.len() > 0 && bytes[0] == 43 {
        1
    } else {
        0
    };
    assert(digits =~= bytes@.skip(start as int));
    if bytes.len() == start {
        return None;
    }
    let mut value: usize = 0;
    let mut i: usize = start;
    while i < bytes.len()
        invariant
            start <= i <= bytes@.len(),
            bytes@ == encode_utf8(text@),
            digits == unsigned_digits(bytes@),
            digits == bytes@.skip(start as int),
            forall|j: int| 0 <= j < i - start ==> #[trigger] is_digit(digits[j]),
            value as int == digits_value(digits.take(i - start)),
        decreases bytes@.len() - i,
    {
        let b = bytes[i];
        if b < 48 || b > 57 {
            assert(!is_digit(digits[i - start]));
            return None;
        }
        assert(digits.take(i - start + 1).drop_last() =~= digits.take(i - start));
        match value.checked_mul(10) {
            None => {
                proof {
                    self::lemma_overflow_stays(digits, i - start);
                }
                return None;
            },
            Some(tens) => match tens.checked_add((b - 48) as usize) {
                None => {
                    proof {
                        self::lemma_overflow_stays(digits, i - start);
                    }
                    return None;
                },
                Some(next) => {
                    value = next;
                },
            },
        }
        i = i + 1;
    }
    assert(digits.take(i - start) =~= digits);
    Some(value)
}

/// Once the value of a prefix of digits passes `usize::MAX`, the value of
/// every longer string of digits does too, or a non-digit follows.
proof fn lemma_overflow_stays(digits: Seq<u8>, k: int)
    requires
        0 <= k < digits.len(),
        forall|j: int| 0 <= j <= k ==> #[trigger] is_digit(digits[j]),
        10 * digits_value(digits.take(k)) + (digits[k] - 48) > usize::MAX,
    ensures
        parse_usize_spec_digits(digits) is None,
{
    assert(digits.take(k + 1).drop_last() =~= digits.take(k));
    if forall|i: int| 0 <= i < digits.len() ==> #[trigger] is_digit(digits[i]) {
        lemma_digits_value_prefix(digits, k + 1);
    }
}

/// `parse_usize_spec` of a text whose optional sign is already stripped.
pub open spec fn parse_usize_spec_digits(digits: Seq<u8>) -> Option<usize> {
    if digits.len() > 0 && (forall|i: int| 0 <= i < digits.len() ==> #[trigger] is_digit(digits[i]))
        && digits_value(digits) <= usize::MAX {
        Some(digits_value(digits) as usize)
    } else {
        None
    }
}

} // verus!
