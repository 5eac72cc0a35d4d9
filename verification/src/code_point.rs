//! Code-point classes from the WHATWG Infra standard, section 4.5.
//!
//! Each executable predicate is pinned to a spec function of the same shape,
//! so that the tokenizer's contracts can speak of the classes directly.

use vstd::prelude::*;

verus! {

pub open spec fn spec_surrogate(code_point: u32) -> bool {
    0xD800 <= code_point <= 0xDFFF
}

pub open spec fn spec_scalar_value(code_point: u32) -> bool {
    !spec_surrogate(code_point)
}

pub open spec fn spec_noncharacter(code_point: u32) -> bool {
    ||| 0xFDD0 <= code_point <= 0xFDEF
    ||| {
        let low = code_point % 0x10000;
        code_point <= 0x10FFFF && (low == 0xFFFE || low == 0xFFFF)
    }
}

pub open spec fn spec_ascii_code_point(code_point: u32) -> bool {
    code_point <= 0x7F
}

pub open spec fn spec_ascii_tab_or_newline(code_point: u32) -> bool {
    code_point == 0x9 || code_point == 0xA || code_point == 0xD
}

pub open spec fn spec_ascii_whitespace(code_point: u32) -> bool {
    code_point == 0x9 || code_point == 0xA || code_point == 0xC || code_point == 0xD
        || code_point == 0x20
}

pub open spec fn spec_c0_control(code_point: u32) -> bool {
    code_point <= 0x1F
}

pub open spec fn spec_c0_control_or_space(code_point: u32) -> bool {
    spec_c0_control(code_point) || code_point == 0x20
}

pub open spec fn spec_control(code_point: u32) -> bool {
    spec_c0_control(code_point) || 0x7F <= code_point <= 0x9F
}

pub open spec fn spec_ascii_digit(code_point: u32) -> bool {
    0x30 <= code_point <= 0x39
}

pub open spec fn spec_ascii_upper_hex_digit(code_point: u32) -> bool {
    0x41 <= code_point <= 0x46
}

pub open spec fn spec_ascii_lower_hex_digit(code_point: u32) -> bool {
    0x61 <= code_point <= 0x66
}

pub open spec fn spec_ascii_hex_digit(code_point: u32) -> bool {
    spec_ascii_upper_hex_digit(code_point) || spec_ascii_lower_hex_digit(code_point)
        || spec_ascii_digit(code_point)
}

pub open spec fn spec_ascii_upper_alpha(code_point: u32) -> bool {
    0x41 <= code_point <= 0x5A
}

pub open spec fn spec_ascii_lower_alpha(code_point: u32) -> bool {
    0x61 <= code_point <= 0x7A
}

pub open spec fn spec_ascii_alpha(code_point: u32) -> bool {
    spec_ascii_upper_alpha(code_point) || spec_ascii_lower_alpha(code_point)
}

pub open spec fn spec_ascii_alphanumeric(code_point: u32) -> bool {
    spec_ascii_digit(code_point) || spec_ascii_alpha(code_point)
}

pub fn surrogate(code_point: u32) -> (r: bool)
    ensures
        r == spec_surrogate(code_point),
{
    0xD800 <= code_point && code_point <= 0xDFFF
}

pub fn scalar_value(code_point: u32) -> (r: bool)
    ensures
        r == spec_scalar_value(code_point),
{
    !surrogate(code_point)
}

pub fn noncharacter(code_point: u32) -> (r: bool)
    ensures
        r == spec_noncharacter(code_point),
{
    if 0xFDD0 <= code_point && code_point <= 0xFDEF {
        true
    } else if code_point <= 0x10FFFF {
        let low: u32 = code_point % 0x10000;
        low == 0xFFFE || low == 0xFFFF
    } else {
        false
    }
}

pub fn ascii_code_point(code_point: u32) -> (r: bool)
    ensures
        r == spec_ascii_code_point(code_point),
{
    code_point <= 0x7F
}

pub fn ascii_tab_or_newline(code_point: u32) -> (r: bool)
    ensures
        r == spec_ascii_tab_or_newline(code_point),
{
    code_point == 0x9 || code_point == 0xA || code_point == 0xD
}

pub fn ascii_whitespace(code_point: u32) -> (r: bool)
    ensures
        r == spec_ascii_whitespace(code_point),
{
    code_point == 0x9 || code_point == 0xA || code_point == 0xC || code_point == 0xD
        || code_point == 0x20
}

pub fn c0_control(code_point: u32) -> (r: bool)
    ensures
        r == spec_c0_control(code_point),
{
    code_point <= 0x1F
}

pub fn c0_control_or_space(code_point: u32) -> (r: bool)
    ensures
        r == spec_c0_control_or_space(code_point),
{
    c0_control(code_point) || code_point == 0x20
}

pub fn control(code_point: u32) -> (r: bool)
    ensures
        r == spec_control(code_point),
{
    c0_control(code_point) || (0x7F <= code_point && code_point <= 0x9F)
}

pub fn ascii_digit(code_point: u32) -> (r: bool)
    ensures
        r == spec_ascii_digit(code_point),
{
    0x30 <= code_point && code_point <= 0x39
}

pub fn ascii_upper_hex_digit(code_point: u32) -> (r: bool)
    ensures
        r == spec_ascii_upper_hex_digit(code_point),
{
    0x41 <= code_point && code_point <= 0x46
}

pub fn ascii_lower_hex_digit(code_point: u32) -> (r: bool)
    ensures
        r == spec_ascii_lower_hex_digit(code_point),
{
    0x61 <= code_point && code_point <= 0x66
}

pub fn ascii_hex_digit(code_point: u32) -> (r: bool)
    ensures
        r == spec_ascii_hex_digit(code_point),
{
    ascii_upper_hex_digit(code_point) || ascii_lower_hex_digit(code_point)
        || ascii_digit(code_point)
}

pub fn ascii_upper_alpha(code_point: u32) -> (r: bool)
    ensures
        r == spec_ascii_upper_alpha(code_point),
{
    0x41 <= code_point && code_point <= 0x5A
}

pub fn ascii_lower_alpha(code_point: u32) -> (r: bool)
    ensures
        r == spec_ascii_lower_alpha(code_point),
{
    0x61 <= code_point && code_point <= 0x7A
}

pub fn ascii_alpha(code_point: u32) -> (r: bool)
    ensures
        r == spec_ascii_alpha(code_point),
{
    ascii_upper_alpha(code_point) || ascii_lower_alpha(code_point)
}

pub fn ascii_alphanumeric(code_point: u32) -> (r: bool)
    ensures
        r == spec_ascii_alphanumeric(code_point),
{
    ascii_digit(code_point) || ascii_alpha(code_point)
}

/// Isomorphic encoding of a string whose code points all lie at or below
/// 0xFF: each code point becomes the byte of the same value. A string with
/// a higher code point has no isomorphic encoding.
pub open spec fn spec_isomorphic_encode(s: Seq<char>) -> Option<Seq<u8>> {
    if forall|i: int| 0 <= i < s.len() ==> (#[trigger] s[i]) as u32 <= 0xFF {
        Some(s.map_values(|c: char| (c as u32) as u8))
    } else {
        None
    }
}

pub fn isomorphic_encode(string: &str) -> (r: Option<Vec<u8>>)
    ensures
        (match spec_isomorphic_encode(string@) {
            Some(bytes) => r is Some && r->0@ == bytes,
            None => r is None,
        }),
{
    let chars = crate::cursor::str_to_char_vec(string);
    let ghost s = string@;
    let mut output: Vec<u8> = Vec::new();
    let mut i: usize = 0;
    while i < chars.len()
        invariant
            s == string@,
            chars@ == s,
            i <= s.len(),
            forall|j: int| 0 <= j < i ==> (#[trigger] s[j]) as u32 <= 0xFF,
            output@ == s.take(i as int).map_values(|c: char| (c as u32) as u8),
        decreases s.len() - i,
    {
        let c = chars[i];
        if c as u32 > 0xFF {
            proof {
                assert((s[i as int]) as u32 > 0xFF);
                assert(!(forall|j: int|
                    0 <= j < s.len() ==> (#[trigger] s[j]) as u32 <= 0xFF));
            }
            return None;
        }
        output.push((c as u32) as u8);
        proof {
            assert(s.take(i + 1 as int).map_values(|ch: char| (ch as u32) as u8) =~= s.take(
                i as int,
            ).map_values(|ch: char| (ch as u32) as u8).push((c as u32) as u8));
        }
        i = i + 1;
    }
    proof {
        assert(s.take(s.len() as int) =~= s);
    }
    Some(output)
}

} // verus!
