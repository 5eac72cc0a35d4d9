//! Percent-encoded bytes, per the URL standard: encoding one byte, and
//! decoding a byte string, where a `%` not followed by two hexadecimal
//! digits is retained as an ordinary byte.

use vstd::prelude::*;

verus! {

/// Whether a byte is an ASCII hexadecimal digit.
pub open spec fn spec_hex_byte(b: u8) -> bool {
    (0x30 <= b <= 0x39) || (0x41 <= b <= 0x46) || (0x61 <= b <= 0x66)
}

/// The numeric value of an ASCII hexadecimal digit byte.
pub open spec fn spec_hex_byte_val(b: u8) -> u8 {
    if 0x30 <= b <= 0x39 {
        (b - 0x30) as u8
    } else if 0x41 <= b <= 0x46 {
        (b - 0x41 + 10) as u8
    } else {
        (b - 0x61 + 10) as u8
    }
}

/// The lower-case hexadecimal digit character of a value below 16.
pub open spec fn spec_hex_digit_char(v: u8) -> char {
    if v < 10 {
        ((v + 0x30) as u32) as char
    } else {
        ((v + 0x57) as u32) as char
    }
}

/// The percent decoding of a byte string: every maximal `%`-plus-two-hex-
/// digits triple becomes the encoded byte, and every other byte, an
/// unmatched `%` included, is copied through once, in order.
pub open spec fn spec_percent_decode(s: Seq<u8>) -> Seq<u8>
    decreases s.len(),
{
    if s.len() == 0 {
        Seq::empty()
    } else if s[0] == 0x25 && s.len() >= 3 && spec_hex_byte(s[1]) && spec_hex_byte(s[2]) {
        seq![((spec_hex_byte_val(s[1]) * 16 + spec_hex_byte_val(s[2])) as u8)]
            + spec_percent_decode(s.subrange(3, s.len() as int))
    } else {
        seq![s[0]] + spec_percent_decode(s.subrange(1, s.len() as int))
    }
}

/// Whether a byte is an ASCII hexadecimal digit.
fn hex_byte(b: u8) -> (r: bool)
    ensures
        r == spec_hex_byte(b),
{
    (0x30 <= b && b <= 0x39) || (0x41 <= b && b <= 0x46) || (0x61 <= b && b <= 0x66)
}

/// The numeric value of an ASCII hexadecimal digit byte.
fn hex_byte_val(b: u8) -> (r: u8)
    requires
        spec_hex_byte(b),
    ensures
        r == spec_hex_byte_val(b),
        r < 16,
{
    if 0x30 <= b && b <= 0x39 {
        b - 0x30
    } else if 0x41 <= b && b <= 0x46 {
        b - 0x41 + 10
    } else {
        b - 0x61 + 10
    }
}

/// Percent-encodes one byte: a `%` and two lower-case hexadecimal digits.
pub fn encode(byte: u8) -> (r: String)
    ensures
        r@ =~= seq![
            '%',
            spec_hex_digit_char((byte / 16) as u8),
            spec_hex_digit_char((byte % 16) as u8),
        ],
{
    let mut buf = String::new();
    buf.append("%");
    buf.append(hex_digit_str(byte / 16));
    buf.append(hex_digit_str(byte % 16));
    proof {
        reveal_strlit("%");
    }
    buf
}

/// The lower-case hexadecimal digit of a value below 16, as a string slice.
fn hex_digit_str(v: u8) -> (r: &'static str)
    requires
        v < 16,
    ensures
        r@ =~= seq![spec_hex_digit_char(v)],
{
    proof {
        reveal_strlit("0");
        reveal_strlit("1");
        reveal_strlit("2");
        reveal_strlit("3");
        reveal_strlit("4");
        reveal_strlit("5");
        reveal_strlit("6");
        reveal_strlit("7");
        reveal_strlit("8");
        reveal_strlit("9");
        reveal_strlit("a");
        reveal_strlit("b");
        reveal_strlit("c");
        reveal_strlit("d");
        reveal_strlit("e");
        reveal_strlit("f");
    }
    if v == 0 {
        "0"
    } else if v == 1 {
        "1"
    } else if v == 2 {
        "2"
    } else if v == 3 {
        "3"
    } else if v == 4 {
        "4"
    } else if v == 5 {
        "5"
    } else if v == 6 {
        "6"
    } else if v == 7 {
        "7"
    } else if v == 8 {
        "8"
    } else if v == 9 {
        "9"
    } else if v == 10 {
        "a"
    } else if v == 11 {
        "b"
    } else if v == 12 {
        "c"
    } else if v == 13 {
        "d"
    } else if v == 14 {
        "e"
    } else {
        "f"
    }
}

/// Percent-decodes a byte string.
pub fn decode(bytes: &[u8]) -> (r: Vec<u8>)
    ensures
        r@ == spec_percent_decode(bytes@),
{
    let mut output: Vec<u8> = Vec::new();
    let mut n: usize = 0;
    let len = bytes.len();
    proof {
        assert(bytes@.subrange(0, len as int) =~= bytes@);
        assert(Seq::<u8>::empty() + spec_percent_decode(bytes@) =~= spec_percent_decode(bytes@));
    }
    while n < len
        invariant
            len == bytes@.len(),
            n <= len,
            spec_percent_decode(bytes@) == output@ + spec_percent_decode(
                bytes@.subrange(n as int, len as int),
            ),
        decreases len - n,
    {
        let ghost rest = bytes@.subrange(n as int, len as int);
        let b = bytes[n];
        if b == 0x25 && len - n > 2 && hex_byte(bytes[n + 1]) && hex_byte(bytes[n + 2]) {
            let decoded: u8 = hex_byte_val(bytes[n + 1]) * 16 + hex_byte_val(bytes[n + 2]);
            output.push(decoded);
            proof {
                assert(rest[1] == bytes@[n + 1] && rest[2] == bytes@[n + 2]);
                assert(rest.subrange(3, rest.len() as int) =~= bytes@.subrange(
                    n + 3,
                    len as int,
                ));
                assert(output@ + spec_percent_decode(bytes@.subrange(n + 3, len as int))
                    =~= output@.drop_last() + spec_percent_decode(rest));
            }
            n = n + 3;
        } else {
            output.push(b);
            proof {
                if rest.len() >= 3 {
                    assert(rest[1] == bytes@[n + 1] && rest[2] == bytes@[n + 2]);
                }
                assert(rest.subrange(1, rest.len() as int) =~= bytes@.subrange(
                    n + 1,
                    len as int,
                ));
                assert(output@ + spec_percent_decode(bytes@.subrange(n + 1, len as int))
                    =~= output@.drop_last() + spec_percent_decode(rest));
            }
            n = n + 1;
        }
    }
    proof {
        assert(bytes@.subrange(len as int, len as int) =~= Seq::<u8>::empty());
        assert(output@ + spec_percent_decode(Seq::<u8>::empty()) =~= output@);
    }
    output
}

/// Percent-decodes the bytes of a string slice, which are its UTF-8
/// encoding.
pub fn decode_str(string: &str) -> (r: Vec<u8>)
    ensures
        r@ == spec_percent_decode(vstd::utf8::encode_utf8(string@)),
{
    let bytes = string.as_bytes();
    decode(bytes)
}

} // verus!
