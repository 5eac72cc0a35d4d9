//! Handlers for the character-reference sub-machine: named references over
//! a built-in table with longest-match semantics, and numeric references
//! with the exact code-point validation and legacy windows-1252 remapping
//! of the HTML standard.

use vstd::prelude::*;
use crate::cursor::str_to_char_vec;
use crate::code_point::{ascii_alphanumeric, ascii_digit, ascii_hex_digit, ascii_lower_hex_digit,
    ascii_upper_hex_digit, spec_ascii_alphanumeric, spec_ascii_digit, spec_ascii_hex_digit,
    spec_ascii_lower_hex_digit, spec_ascii_upper_hex_digit, spec_ascii_whitespace, spec_control,
    spec_noncharacter, spec_surrogate};
use crate::parser_detail::ParseHtmlError;
use crate::token::{State, Token, TokenV, toks};
use crate::tokenizer::{HtmlTokenizer, TkView, step_ok, spec_in_attr, chars_tokens, attr_value_appended};

verus! {

/// The legacy windows-1252 remapping of the control range 0x80..0x9F; a
/// code point outside the table is kept.
pub open spec fn spec_win1252_remap(n: u32) -> u32 {
    if n == 0x80 {
        0x20AC
    } else if n == 0x82 {
        0x201A
    } else if n == 0x83 {
        0x0192
    } else if n == 0x84 {
        0x201E
    } else if n == 0x85 {
        0x2026
    } else if n == 0x86 {
        0x2020
    } else if n == 0x87 {
        0x2021
    } else if n == 0x88 {
        0x02C6
    } else if n == 0x89 {
        0x2030
    } else if n == 0x8A {
        0x0160
    } else if n == 0x8B {
        0x2039
    } else if n == 0x8C {
        0x0152
    } else if n == 0x8E {
        0x017D
    } else if n == 0x91 {
        0x2018
    } else if n == 0x92 {
        0x2019
    } else if n == 0x93 {
        0x201C
    } else if n == 0x94 {
        0x201D
    } else if n == 0x95 {
        0x2022
    } else if n == 0x96 {
        0x2013
    } else if n == 0x97 {
        0x2014
    } else if n == 0x98 {
        0x02DC
    } else if n == 0x99 {
        0x2122
    } else if n == 0x9A {
        0x0161
    } else if n == 0x9B {
        0x203A
    } else if n == 0x9C {
        0x0153
    } else if n == 0x9E {
        0x017E
    } else if n == 0x9F {
        0x0178
    } else {
        n
    }
}

/// The code point a finished numeric character reference resolves to:
/// zero, out-of-range and surrogate references become U+FFFD, and the
/// legacy windows-1252 range is remapped.
pub open spec fn spec_char_ref_remap(n: u32) -> u32 {
    if n == 0 {
        0xFFFD
    } else if n > 0x10FFFF {
        0xFFFD
    } else if spec_surrogate(n) {
        0xFFFD
    } else if spec_noncharacter(n) {
        n
    } else if n == 0xD || (spec_control(n) && !spec_ascii_whitespace(n)) {
        spec_win1252_remap(n)
    } else {
        n
    }
}

/// The parse error a finished numeric character reference is reported
/// with, if any.
pub open spec fn spec_char_ref_error(n: u32) -> Option<ParseHtmlError> {
    if n == 0 {
        Some(ParseHtmlError::NullCharacterReference)
    } else if n > 0x10FFFF {
        Some(ParseHtmlError::CharacterReferenceOutsideUnicodeRange)
    } else if spec_surrogate(n) {
        Some(ParseHtmlError::SurrogateCharacterReference)
    } else if spec_noncharacter(n) {
        Some(ParseHtmlError::NoncharacterCharacterReference)
    } else if n == 0xD || (spec_control(n) && !spec_ascii_whitespace(n)) {
        Some(ParseHtmlError::ControlCharacterReference)
    } else {
        None
    }
}

/// One digit accumulated into the code-point accumulator: the value grows
/// by `base` with the digit added, saturating just above the Unicode range
/// so that an overlong reference still takes the out-of-range path.
pub open spec fn spec_acc_digit(code: u32, base: u32, d: u32) -> u32 {
    if code > 0x10FFFF {
        0x110000
    } else if code * base + d > 0x10FFFF {
        0x110000
    } else {
        (code * base + d) as u32
    }
}

/// The numeric value of a hexadecimal digit character.
pub open spec fn spec_hex_val(ch: char) -> u32 {
    if spec_ascii_digit(ch as u32) {
        (ch as u32 - 0x30) as u32
    } else if spec_ascii_upper_hex_digit(ch as u32) {
        (ch as u32 - 0x37) as u32
    } else {
        (ch as u32 - 0x57) as u32
    }
}

/// A finished numeric character reference always resolves to a Unicode
/// scalar value: zero, surrogate and out-of-range references are replaced
/// by U+FFFD, and the legacy remapping stays inside the range, so the
/// resolved code point is always a character.
pub proof fn lemma_char_ref_resolution_scalar(n: u32)
    ensures
        spec_char_ref_remap(n) <= 0x10FFFF,
        !spec_surrogate(spec_char_ref_remap(n)),
{
}

impl HtmlTokenizer {
    /// Accumulates one digit of value `d` in the given base, saturating
    /// just above the Unicode range.
    pub(crate) fn acc_char_ref(&mut self, base: u32, d: u32)
        requires
            base == 10 || base == 16,
            d < base,
        ensures
            final(self).vw() == (TkView {
                char_ref_code: spec_acc_digit(old(self).char_ref_code, base, d),
                ..old(self).vw()
            }),
            final(self).html == old(self).html,
    {
        if self.char_ref_code > 0x10FFFF {
            self.char_ref_code = 0x110000;
        } else {
            let v: u64 = self.char_ref_code as u64 * base as u64 + d as u64;
            if v > 0x10FFFF {
                self.char_ref_code = 0x110000;
            } else {
                self.char_ref_code = v as u32;
            }
        }
    }

    /// Character-reference state, after a consumed `&`: the scratch buffer
    /// starts over with the ampersand.
    pub fn character_reference(&mut self, c: Option<char>) -> (r: Vec<Token>)
        requires
            old(self).inv(),
            old(self).state == State::CharacterReference,
            !old(self).reconsume,
        ensures
            final(self).inv(),
            step_ok(old(self).vw(), final(self).vw(), c, toks(r@), State::CharacterReference),
            ({
                let pre = old(self).vw();
                let post = final(self).vw();
                let ts = toks(r@);
                match c {
                    Some(ch) => if spec_ascii_alphanumeric(ch as u32) {
                        post == (TkView {
                            temp_buf: seq!['&'],
                            state: State::NamedCharacterReference,
                            reconsume: true,
                            ..pre
                        }) && ts =~= Seq::<TokenV>::empty()
                    } else if ch == '#' {
                        post == (TkView {
                            temp_buf: seq!['&', '#'],
                            state: State::NumericCharacterReference,
                            ..pre
                        }) && ts =~= Seq::<TokenV>::empty()
                    } else {
                        if spec_in_attr(pre.return_state) {
                            post == (TkView {
                                temp_buf: seq!['&'],
                                tag: Some(attr_value_appended(pre.tag->0, seq!['&'])),
                                state: pre.return_state->0,
                                reconsume: true,
                                ..pre
                            }) && ts =~= Seq::<TokenV>::empty()
                        } else {
                            post == (TkView {
                                temp_buf: seq!['&'],
                                state: pre.return_state->0,
                                reconsume: true,
                                ..pre
                            }) && ts =~= chars_tokens(seq!['&'])
                        }
                    },
                    None => if spec_in_attr(pre.return_state) {
                        post == (TkView {
                            temp_buf: seq!['&'],
                            tag: Some(attr_value_appended(pre.tag->0, seq!['&'])),
                            state: pre.return_state->0,
                            reconsume: true,
                            ..pre
                        }) && ts =~= Seq::<TokenV>::empty()
                    } else {
                        post == (TkView {
                            temp_buf: seq!['&'],
                            state: pre.return_state->0,
                            reconsume: true,
                            ..pre
                        }) && ts =~= chars_tokens(seq!['&'])
                    },
                }
            }),
    {
        self.temp_clear();
        self.temp_push('&');
        match c {
            Some('#') => {
                self.temp_push('#');
                proof {
                    assert(self.vw().temp_buf =~= seq!['&', '#']);
                }
                self.state = State::NumericCharacterReference;
                Self::toks0()
            },
            Some(ch) if ascii_alphanumeric(ch as u32) => {
                proof {
                    assert(self.vw().temp_buf =~= seq!['&']);
                }
                self.state = State::NamedCharacterReference;
                self.reconsume = true;
                Self::toks0()
            },
            _ => {
                proof {
                    assert(self.vw().temp_buf =~= seq!['&']);
                }
                let out = self.flush_code_points();
                match self.return_state {
                    Some(rs) => {
                        self.state = rs;
                    },
                    None => {
                        proof {
                            assert(false);
                        }
                    },
                }
                self.reconsume = true;
                out
            },
        }
    }

    /// The built-in named-character-reference table: each entry is a name
    /// (without the leading ampersand) and its replacement text. Entries
    /// whose name lacks the closing semicolon are the legacy forms that may
    /// end at any boundary. This is deliberately a selection of the common
    /// names, not the full table of the HTML standard, which runs to
    /// thousands of entries; an unmatched name degrades to the
    /// ambiguous-ampersand handling, as the standard prescribes for unknown
    /// names.
    pub(crate) fn named_ref_table() -> Vec<(Vec<char>, Vec<char>)> {
        let mut t: Vec<(Vec<char>, Vec<char>)> = Vec::new();
        t.push((str_to_char_vec("amp;"), str_to_char_vec("&")));
        t.push((str_to_char_vec("amp"), str_to_char_vec("&")));
        t.push((str_to_char_vec("lt;"), str_to_char_vec("<")));
        t.push((str_to_char_vec("lt"), str_to_char_vec("<")));
        t.push((str_to_char_vec("gt;"), str_to_char_vec(">")));
        t.push((str_to_char_vec("gt"), str_to_char_vec(">")));
        t.push((str_to_char_vec("quot;"), str_to_char_vec("\"")));
        t.push((str_to_char_vec("quot"), str_to_char_vec("\"")));
        t.push((str_to_char_vec("apos;"), str_to_char_vec("'")));
        t.push((str_to_char_vec("nbsp;"), str_to_char_vec("\u{A0}")));
        t.push((str_to_char_vec("nbsp"), str_to_char_vec("\u{A0}")));
        t.push((str_to_char_vec("copy;"), str_to_char_vec("\u{A9}")));
        t.push((str_to_char_vec("copy"), str_to_char_vec("\u{A9}")));
        t.push((str_to_char_vec("reg;"), str_to_char_vec("\u{AE}")));
        t.push((str_to_char_vec("reg"), str_to_char_vec("\u{AE}")));
        t.push((str_to_char_vec("trade;"), str_to_char_vec("\u{2122}")));
        t.push((str_to_char_vec("hellip;"), str_to_char_vec("\u{2026}")));
        t.push((str_to_char_vec("mdash;"), str_to_char_vec("\u{2014}")));
        t.push((str_to_char_vec("ndash;"), str_to_char_vec("\u{2013}")));
        t.push((str_to_char_vec("lsquo;"), str_to_char_vec("\u{2018}")));
        t.push((str_to_char_vec("rsquo;"), str_to_char_vec("\u{2019}")));
        t.push((str_to_char_vec("ldquo;"), str_to_char_vec("\u{201C}")));
        t.push((str_to_char_vec("rdquo;"), str_to_char_vec("\u{201D}")));
        t.push((str_to_char_vec("middot;"), str_to_char_vec("\u{B7}")));
        t.push((str_to_char_vec("sect;"), str_to_char_vec("\u{A7}")));
        t.push((str_to_char_vec("para;"), str_to_char_vec("\u{B6}")));
        t.push((str_to_char_vec("deg;"), str_to_char_vec("\u{B0}")));
        t.push((str_to_char_vec("plusmn;"), str_to_char_vec("\u{B1}")));
        t.push((str_to_char_vec("times;"), str_to_char_vec("\u{D7}")));
        t.push((str_to_char_vec("times"), str_to_char_vec("\u{D7}")));
        t.push((str_to_char_vec("divide;"), str_to_char_vec("\u{F7}")));
        t.push((str_to_char_vec("divide"), str_to_char_vec("\u{F7}")));
        t.push((str_to_char_vec("micro;"), str_to_char_vec("\u{B5}")));
        t.push((str_to_char_vec("micro"), str_to_char_vec("\u{B5}")));
        t.push((str_to_char_vec("euro;"), str_to_char_vec("\u{20AC}")));
        t.push((str_to_char_vec("pound;"), str_to_char_vec("\u{A3}")));
        t.push((str_to_char_vec("pound"), str_to_char_vec("\u{A3}")));
        t.push((str_to_char_vec("yen;"), str_to_char_vec("\u{A5}")));
        t.push((str_to_char_vec("yen"), str_to_char_vec("\u{A5}")));
        t.push((str_to_char_vec("cent;"), str_to_char_vec("\u{A2}")));
        t.push((str_to_char_vec("cent"), str_to_char_vec("\u{A2}")));
        t.push((str_to_char_vec("laquo;"), str_to_char_vec("\u{AB}")));
        t.push((str_to_char_vec("laquo"), str_to_char_vec("\u{AB}")));
        t.push((str_to_char_vec("raquo;"), str_to_char_vec("\u{BB}")));
        t.push((str_to_char_vec("raquo"), str_to_char_vec("\u{BB}")));
        t.push((str_to_char_vec("szlig;"), str_to_char_vec("\u{DF}")));
        t.push((str_to_char_vec("szlig"), str_to_char_vec("\u{DF}")));
        t.push((str_to_char_vec("eacute;"), str_to_char_vec("\u{E9}")));
        t.push((str_to_char_vec("eacute"), str_to_char_vec("\u{E9}")));
        t.push((str_to_char_vec("agrave;"), str_to_char_vec("\u{E0}")));
        t.push((str_to_char_vec("agrave"), str_to_char_vec("\u{E0}")));
        t
    }

    /// Named-character-reference state: the longest table entry starting at
    /// the current character is consumed; its replacement (or, for a
    /// reference inside an attribute value followed by `=` or an
    /// alphanumeric, the literal name) is flushed and control returns to
    /// the recorded return state. With no match at all, the lone ampersand
    /// is flushed and the ambiguous-ampersand state reconsumes.
    pub fn named_character_reference(&mut self, c: Option<char>) -> (r: Vec<Token>)
        requires
            old(self).inv(),
            old(self).state == State::NamedCharacterReference,
            !old(self).reconsume,
        ensures
            final(self).inv(),
            step_ok(old(self).vw(), final(self).vw(), c, toks(r@), State::NamedCharacterReference),
            ({
                let pre = old(self).vw();
                let post = final(self).vw();
                let ts = toks(r@);
                &&& post.return_state == pre.return_state
                &&& ((post.reconsume && post.state == State::AmbiguousAmpersand && post.pos
                    == pre.pos) || (!post.reconsume && Some(post.state) == pre.return_state))
                &&& (!spec_in_attr(pre.return_state) ==> post.tag == pre.tag)
                &&& (spec_in_attr(pre.return_state) ==> (exists|s: Seq<char>|
                    post.tag == Some(#[trigger] attr_value_appended(pre.tag->0, s))))
                &&& (post.errors == pre.errors || post.errors == pre.errors.push(
                    ParseHtmlError::MissingSemicolonAfterCharacterReference,
                ))
                &&& (post.state == State::AmbiguousAmpersand && !spec_in_attr(pre.return_state)
                    ==> ts =~= chars_tokens(pre.temp_buf))
                &&& (spec_in_attr(pre.return_state) ==> ts =~= Seq::<TokenV>::empty())
            }),
    {
        let ghost pre = self.vw();
        match c {
            Some(ch) => {
                let lookahead = self.html.read_multiple(7);
                let table = Self::named_ref_table();
                let mut best: usize = 0;
                let mut best_rep: Vec<char> = Vec::new();
                let mut i: usize = 0;
                while i < table.len()
                    invariant
                        best <= 8,
                        lookahead@.len() <= 7,
                        best > 0 ==> best >= 2 && best - 1 <= lookahead@.len(),
                        best_rep@.len() <= 2,
                    decreases table@.len() - i,
                {
                    let name = &table[i].0;
                    let rep = &table[i].1;
                    if name.len() >= 2 && name.len() <= 8 && rep.len() <= 2 && name.len() >= best
                        + 1 && name.len() <= lookahead.len() + 1 {
                        if name[0] == ch {
                            let mut k: usize = 1;
                            let mut matches = true;
                            while k < name.len()
                                invariant
                                    1 <= k <= name@.len(),
                                    name@.len() <= lookahead@.len() + 1,
                                decreases name@.len() - k,
                            {
                                if name[k] != lookahead[k - 1] {
                                    matches = false;
                                    break ;
                                }
                                k = k + 1;
                            }
                            if matches && name.len() > best {
                                best = name.len();
                                best_rep = crate::chars::clone_chars(rep);
                            }
                        }
                    }
                    i = i + 1;
                }
                if best == 0 {
                    // no entry matches: give the lookahead back, flush the
                    // ampersand, and let the ambiguous-ampersand state have
                    // the character
                    self.html.backtrack_multiple(lookahead.len());
                    let out = self.flush_code_points();
                    self.temp_clear();
                    self.state = State::AmbiguousAmpersand;
                    self.reconsume = true;
                    return out;
                }
                // keep the matched characters; give back the rest
                self.html.backtrack_multiple(lookahead.len() - (best - 1));
                let matched_semicolon = lookahead[best - 2] == ';';
                let next_after = if best - 1 < lookahead.len() {
                    Some(lookahead[best - 1])
                } else {
                    None
                };
                let historical = self.consumed_as_part_of_attribute() && !matched_semicolon && (
                match next_after {
                    Some(nc) => nc == '=' || ascii_alphanumeric(nc as u32),
                    None => false,
                });
                if historical {
                    // flush the characters as consumed, reference untouched:
                    // the whole name, its first character included
                    let mut newtemp = crate::chars::clone_chars(&self.temp_buf);
                    newtemp.push(ch);
                    let mut j: usize = 0;
                    while j < best - 1
                        invariant
                            best >= 2,
                            best - 1 <= lookahead@.len(),
                            j <= best - 1,
                        decreases best - 1 - j,
                    {
                        newtemp.push(lookahead[j]);
                        j = j + 1;
                    }
                    self.temp_buf = newtemp;
                    let out = self.flush_code_points();
                    self.temp_clear();
                    match self.return_state {
                        Some(rs) => {
                            self.state = rs;
                        },
                        None => {
                            proof {
                                assert(false);
                            }
                        },
                    }
                    return out;
                }
                if !matched_semicolon {
                    self.error(ParseHtmlError::MissingSemicolonAfterCharacterReference);
                }
                self.temp_buf = crate::chars::clone_chars(&best_rep);
                let out = self.flush_code_points();
                self.temp_clear();
                match self.return_state {
                    Some(rs) => {
                        self.state = rs;
                    },
                    None => {
                        proof {
                            assert(false);
                        }
                    },
                }
                out
            },
            None => {
                let out = self.flush_code_points();
                self.temp_clear();
                self.state = State::AmbiguousAmpersand;
                self.reconsume = true;
                out
            },
        }
    }

    /// Ambiguous-ampersand state: alphanumerics after an unmatched `&` are
    /// relayed (or appended to the attribute value); a `;` is a reported
    /// unknown reference; anything else is reconsumed in the return state.
    pub fn ambiguous_ampersand(&mut self, c: Option<char>) -> (r: Vec<Token>)
        requires
            old(self).inv(),
            old(self).state == State::AmbiguousAmpersand,
            !old(self).reconsume,
        ensures
            final(self).inv(),
            step_ok(old(self).vw(), final(self).vw(), c, toks(r@), State::AmbiguousAmpersand),
            ({
                let pre = old(self).vw();
                let post = final(self).vw();
                let ts = toks(r@);
                match c {
                    Some(ch) => if spec_ascii_alphanumeric(ch as u32) {
                        if spec_in_attr(pre.return_state) {
                            post == (TkView {
                                tag: Some(crate::tokenizer_attr::attr_value_pushed(pre.tag->0, ch)),
                                ..pre
                            }) && ts =~= Seq::<TokenV>::empty()
                        } else {
                            post == pre && ts =~= seq![TokenV::Character(ch)]
                        }
                    } else if ch == ';' {
                        post == (TkView {
                            errors: pre.errors.push(ParseHtmlError::UnknownNamedCharacterReference),
                            state: pre.return_state->0,
                            reconsume: true,
                            ..pre
                        }) && ts =~= Seq::<TokenV>::empty()
                    } else {
                        post == (TkView { state: pre.return_state->0, reconsume: true, ..pre })
                            && ts =~= Seq::<TokenV>::empty()
                    },
                    None => post == (TkView { state: pre.return_state->0, reconsume: true, ..pre })
                        && ts =~= Seq::<TokenV>::empty(),
                }
            }),
    {
        match c {
            Some(ch) if ascii_alphanumeric(ch as u32) => {
                if self.consumed_as_part_of_attribute() {
                    self.attr_push_value(ch);
                    Self::toks0()
                } else {
                    Self::toks1(Token::Character(ch))
                }
            },
            Some(';') => {
                self.error(ParseHtmlError::UnknownNamedCharacterReference);
                match self.return_state {
                    Some(rs) => {
                        self.state = rs;
                    },
                    None => {
                        proof {
                            assert(false);
                        }
                    },
                }
                self.reconsume = true;
                Self::toks0()
            },
            _ => {
                match self.return_state {
                    Some(rs) => {
                        self.state = rs;
                    },
                    None => {
                        proof {
                            assert(false);
                        }
                    },
                }
                self.reconsume = true;
                Self::toks0()
            },
        }
    }

    /// Numeric-character-reference state, after `&#`.
    pub fn numeric_character_reference(&mut self, c: Option<char>) -> (r: Vec<Token>)
        requires
            old(self).inv(),
            old(self).state == State::NumericCharacterReference,
            !old(self).reconsume,
        ensures
            final(self).inv(),
            step_ok(
                old(self).vw(),
                final(self).vw(),
                c,
                toks(r@),
                State::NumericCharacterReference,
            ),
            ({
                let pre = old(self).vw();
                let post = final(self).vw();
                let ts = toks(r@);
                match c {
                    Some(ch) => if ch == 'x' || ch == 'X' {
                        post == (TkView {
                            char_ref_code: 0,
                            temp_buf: pre.temp_buf.push(ch),
                            state: State::HexadecimalCharacterReferenceStart,
                            ..pre
                        }) && ts =~= Seq::<TokenV>::empty()
                    } else {
                        post == (TkView {
                            char_ref_code: 0,
                            state: State::DecimalCharacterReferenceStart,
                            reconsume: true,
                            ..pre
                        }) && ts =~= Seq::<TokenV>::empty()
                    },
                    None => post == (TkView {
                        char_ref_code: 0,
                        state: State::DecimalCharacterReferenceStart,
                        reconsume: true,
                        ..pre
                    }) && ts =~= Seq::<TokenV>::empty(),
                }
            }),
    {
        self.char_ref_code = 0;
        match c {
            Some('x') => {
                self.temp_push('x');
                self.state = State::HexadecimalCharacterReferenceStart;
                Self::toks0()
            },
            Some('X') => {
                self.temp_push('X');
                self.state = State::HexadecimalCharacterReferenceStart;
                Self::toks0()
            },
            _ => {
                self.state = State::DecimalCharacterReferenceStart;
                self.reconsume = true;
                Self::toks0()
            },
        }
    }

    /// Hexadecimal-character-reference-start state: a reference with no
    /// digits degrades to flushing the literal buffered text.
    pub fn hexadecimal_character_reference_start(&mut self, c: Option<char>) -> (r: Vec<
        Token,
    >)
        requires
            old(self).inv(),
            old(self).state == State::HexadecimalCharacterReferenceStart,
            !old(self).reconsume,
        ensures
            final(self).inv(),
            step_ok(
                old(self).vw(),
                final(self).vw(),
                c,
                toks(r@),
                State::HexadecimalCharacterReferenceStart,
            ),
            ({
                let pre = old(self).vw();
                let post = final(self).vw();
                let ts = toks(r@);
                match c {
                    Some(ch) => if spec_ascii_hex_digit(ch as u32) {
                        post == (TkView {
                            state: State::HexadecimalCharacterReference,
                            reconsume: true,
                            ..pre
                        }) && ts =~= Seq::<TokenV>::empty()
                    } else {
                        if spec_in_attr(pre.return_state) {
                            post == (TkView {
                                errors: pre.errors.push(
                                    ParseHtmlError::AbsenseOfDigitsInNumericCharacterReference,
                                ),
                                temp_buf: Seq::<char>::empty(),
                                tag: Some(attr_value_appended(pre.tag->0, pre.temp_buf)),
                                state: pre.return_state->0,
                                reconsume: true,
                                ..pre
                            }) && ts =~= Seq::<TokenV>::empty()
                        } else {
                            post == (TkView {
                                errors: pre.errors.push(
                                    ParseHtmlError::AbsenseOfDigitsInNumericCharacterReference,
                                ),
                                temp_buf: Seq::<char>::empty(),
                                state: pre.return_state->0,
                                reconsume: true,
                                ..pre
                            }) && ts =~= chars_tokens(pre.temp_buf)
                        }
                    },
                    None => if spec_in_attr(pre.return_state) {
                        post == (TkView {
                            errors: pre.errors.push(
                                ParseHtmlError::AbsenseOfDigitsInNumericCharacterReference,
                            ),
                            temp_buf: Seq::<char>::empty(),
                            tag: Some(attr_value_appended(pre.tag->0, pre.temp_buf)),
                            state: pre.return_state->0,
                            reconsume: true,
                            ..pre
                        }) && ts =~= Seq::<TokenV>::empty()
                    } else {
                        post == (TkView {
                            errors: pre.errors.push(
                                ParseHtmlError::AbsenseOfDigitsInNumericCharacterReference,
                            ),
                            temp_buf: Seq::<char>::empty(),
                            state: pre.return_state->0,
                            reconsume: true,
                            ..pre
                        }) && ts =~= chars_tokens(pre.temp_buf)
                    },
                }
            }),
    {
        match c {
            Some(ch) if ascii_hex_digit(ch as u32) => {
                self.state = State::HexadecimalCharacterReference;
                self.reconsume = true;
                Self::toks0()
            },
            _ => {
                self.error(ParseHtmlError::AbsenseOfDigitsInNumericCharacterReference);
                let out = self.flush_code_points();
                self.temp_clear();
                match self.return_state {
                    Some(rs) => {
                        self.state = rs;
                    },
                    None => {
                        proof {
                            assert(false);
                        }
                    },
                }
                self.reconsume = true;
                out
            },
        }
    }

    /// Decimal-character-reference-start state.
    pub fn decimal_character_reference_start(&mut self, c: Option<char>) -> (r: Vec<Token>)
        requires
            old(self).inv(),
            old(self).state == State::DecimalCharacterReferenceStart,
            !old(self).reconsume,
        ensures
            final(self).inv(),
            step_ok(
                old(self).vw(),
                final(self).vw(),
                c,
                toks(r@),
                State::DecimalCharacterReferenceStart,
            ),
            ({
                let pre = old(self).vw();
                let post = final(self).vw();
                let ts = toks(r@);
                match c {
                    Some(ch) => if spec_ascii_digit(ch as u32) {
                        post == (TkView {
                            state: State::DecimalCharacterReference,
                            reconsume: true,
                            ..pre
                        }) && ts =~= Seq::<TokenV>::empty()
                    } else {
                        if spec_in_attr(pre.return_state) {
                            post == (TkView {
                                errors: pre.errors.push(
                                    ParseHtmlError::AbsenseOfDigitsInNumericCharacterReference,
                                ),
                                temp_buf: Seq::<char>::empty(),
                                tag: Some(attr_value_appended(pre.tag->0, pre.temp_buf)),
                                state: pre.return_state->0,
                                reconsume: true,
                                ..pre
                            }) && ts =~= Seq::<TokenV>::empty()
                        } else {
                            post == (TkView {
                                errors: pre.errors.push(
                                    ParseHtmlError::AbsenseOfDigitsInNumericCharacterReference,
                                ),
                                temp_buf: Seq::<char>::empty(),
                                state: pre.return_state->0,
                                reconsume: true,
                                ..pre
                            }) && ts =~= chars_tokens(pre.temp_buf)
                        }
                    },
                    None => if spec_in_attr(pre.return_state) {
                        post == (TkView {
                            errors: pre.errors.push(
                                ParseHtmlError::AbsenseOfDigitsInNumericCharacterReference,
                            ),
                            temp_buf: Seq::<char>::empty(),
                            tag: Some(attr_value_appended(pre.tag->0, pre.temp_buf)),
                            state: pre.return_state->0,
                            reconsume: true,
                            ..pre
                        }) && ts =~= Seq::<TokenV>::empty()
                    } else {
                        post == (TkView {
                            errors: pre.errors.push(
                                ParseHtmlError::AbsenseOfDigitsInNumericCharacterReference,
                            ),
                            temp_buf: Seq::<char>::empty(),
                            state: pre.return_state->0,
                            reconsume: true,
                            ..pre
                        }) && ts =~= chars_tokens(pre.temp_buf)
                    },
                }
            }),
    {
        match c {
            Some(ch) if ascii_digit(ch as u32) => {
                self.state = State::DecimalCharacterReference;
                self.reconsume = true;
                Self::toks0()
            },
            _ => {
                self.error(ParseHtmlError::AbsenseOfDigitsInNumericCharacterReference);
                let out = self.flush_code_points();
                self.temp_clear();
                match self.return_state {
                    Some(rs) => {
                        self.state = rs;
                    },
                    None => {
                        proof {
                            assert(false);
                        }
                    },
                }
                self.reconsume = true;
                out
            },
        }
    }

    /// Hexadecimal-character-reference state: digits accumulate in base 16.
    pub fn hexadecimal_character_reference(&mut self, c: Option<char>) -> (r: Vec<Token>)
        requires
            old(self).inv(),
            old(self).state == State::HexadecimalCharacterReference,
            !old(self).reconsume,
        ensures
            final(self).inv(),
            step_ok(
                old(self).vw(),
                final(self).vw(),
                c,
                toks(r@),
                State::HexadecimalCharacterReference,
            ),
            ({
                let pre = old(self).vw();
                let post = final(self).vw();
                let ts = toks(r@);
                match c {
                    Some(ch) => if spec_ascii_hex_digit(ch as u32) {
                        post == (TkView {
                            char_ref_code: spec_acc_digit(pre.char_ref_code, 16, spec_hex_val(ch)),
                            ..pre
                        }) && ts =~= Seq::<TokenV>::empty()
                    } else if ch == ';' {
                        post == (TkView { state: State::NumericCharacterReferenceEnd, ..pre })
                            && ts =~= Seq::<TokenV>::empty()
                    } else {
                        post == (TkView {
                            errors: pre.errors.push(
                                ParseHtmlError::MissingSemicolonAfterCharacterReference,
                            ),
                            state: State::NumericCharacterReferenceEnd,
                            reconsume: true,
                            ..pre
                        }) && ts =~= Seq::<TokenV>::empty()
                    },
                    None => post == (TkView {
                        errors: pre.errors.push(
                            ParseHtmlError::MissingSemicolonAfterCharacterReference,
                        ),
                        state: State::NumericCharacterReferenceEnd,
                        reconsume: true,
                        ..pre
                    }) && ts =~= Seq::<TokenV>::empty(),
                }
            }),
    {
        match c {
            Some(';') => {
                self.state = State::NumericCharacterReferenceEnd;
                Self::toks0()
            },
            Some(ch) => {
                if ascii_digit(ch as u32) {
                    self.acc_char_ref(16, (ch as u32) - 0x30);
                    Self::toks0()
                } else if ascii_upper_hex_digit(ch as u32) {
                    self.acc_char_ref(16, (ch as u32) - 0x37);
                    Self::toks0()
                } else if ascii_lower_hex_digit(ch as u32) {
                    self.acc_char_ref(16, (ch as u32) - 0x57);
                    Self::toks0()
                } else {
                    self.error(ParseHtmlError::MissingSemicolonAfterCharacterReference);
                    self.state = State::NumericCharacterReferenceEnd;
                    self.reconsume = true;
                    Self::toks0()
                }
            },
            None => {
                self.error(ParseHtmlError::MissingSemicolonAfterCharacterReference);
                self.state = State::NumericCharacterReferenceEnd;
                self.reconsume = true;
                Self::toks0()
            },
        }
    }

    /// Decimal-character-reference state: digits accumulate in base 10.
    pub fn decimal_character_reference(&mut self, c: Option<char>) -> (r: Vec<Token>)
        requires
            old(self).inv(),
            old(self).state == State::DecimalCharacterReference,
            !old(self).reconsume,
        ensures
            final(self).inv(),
            step_ok(
                old(self).vw(),
                final(self).vw(),
                c,
                toks(r@),
                State::DecimalCharacterReference,
            ),
            ({
                let pre = old(self).vw();
                let post = final(self).vw();
                let ts = toks(r@);
                match c {
                    Some(ch) => if spec_ascii_digit(ch as u32) {
                        post == (TkView {
                            char_ref_code: spec_acc_digit(
                                pre.char_ref_code,
                                10,
                                (ch as u32 - 0x30) as u32,
                            ),
                            ..pre
                        }) && ts =~= Seq::<TokenV>::empty()
                    } else if ch == ';' {
                        post == (TkView { state: State::NumericCharacterReferenceEnd, ..pre })
                            && ts =~= Seq::<TokenV>::empty()
                    } else {
                        post == (TkView {
                            errors: pre.errors.push(
                                ParseHtmlError::MissingSemicolonAfterCharacterReference,
                            ),
                            state: State::NumericCharacterReferenceEnd,
                            reconsume: true,
                            ..pre
                        }) && ts =~= Seq::<TokenV>::empty()
                    },
                    None => post == (TkView {
                        errors: pre.errors.push(
                            ParseHtmlError::MissingSemicolonAfterCharacterReference,
                        ),
                        state: State::NumericCharacterReferenceEnd,
                        reconsume: true,
                        ..pre
                    }) && ts =~= Seq::<TokenV>::empty(),
                }
            }),
    {
        match c {
            Some(';') => {
                self.state = State::NumericCharacterReferenceEnd;
                Self::toks0()
            },
            Some(ch) => {
                if ascii_digit(ch as u32) {
                    self.acc_char_ref(10, (ch as u32) - 0x30);
                    Self::toks0()
                } else {
                    self.error(ParseHtmlError::MissingSemicolonAfterCharacterReference);
                    self.state = State::NumericCharacterReferenceEnd;
                    self.reconsume = true;
                    Self::toks0()
                }
            },
            None => {
                self.error(ParseHtmlError::MissingSemicolonAfterCharacterReference);
                self.state = State::NumericCharacterReferenceEnd;
                self.reconsume = true;
                Self::toks0()
            },
        }
    }

    /// Numeric-character-reference-end state: validates and remaps the
    /// accumulated code point, flushes the resolved character, and returns
    /// control to the recorded return state without consuming the current
    /// character.
    pub fn numeric_character_reference_end(&mut self, c: Option<char>) -> (r: Vec<Token>)
        requires
            old(self).inv(),
            old(self).state == State::NumericCharacterReferenceEnd,
            !old(self).reconsume,
        ensures
            final(self).inv(),
            step_ok(
                old(self).vw(),
                final(self).vw(),
                c,
                toks(r@),
                State::NumericCharacterReferenceEnd,
            ),
            ({
                let pre = old(self).vw();
                let post = final(self).vw();
                let ts = toks(r@);
                let code = spec_char_ref_remap(pre.char_ref_code);
                let errs = (match spec_char_ref_error(pre.char_ref_code) {
                    Some(e) => pre.errors.push(e),
                    None => pre.errors,
                });
                if spec_in_attr(pre.return_state) {
                    post == (TkView {
                        state: pre.return_state->0,
                        return_state: None,
                        char_ref_code: code,
                        errors: errs,
                        temp_buf: seq![code as char],
                        tag: Some(attr_value_appended(pre.tag->0, seq![code as char])),
                        reconsume: true,
                        ..pre
                    }) && ts =~= Seq::<TokenV>::empty()
                } else {
                    post == (TkView {
                        state: pre.return_state->0,
                        return_state: None,
                        char_ref_code: code,
                        errors: errs,
                        temp_buf: seq![code as char],
                        reconsume: true,
                        ..pre
                    }) && ts =~= chars_tokens(seq![code as char])
                }
            }),
    {
        let n = self.char_ref_code;
        if n == 0 {
            self.error(ParseHtmlError::NullCharacterReference);
            self.char_ref_code = 0xFFFD;
        } else if n > 0x10FFFF {
            self.error(ParseHtmlError::CharacterReferenceOutsideUnicodeRange);
            self.char_ref_code = 0xFFFD;
        } else if crate::code_point::surrogate(n) {
            self.error(ParseHtmlError::SurrogateCharacterReference);
            self.char_ref_code = 0xFFFD;
        } else if crate::code_point::noncharacter(n) {
            self.error(ParseHtmlError::NoncharacterCharacterReference);
        } else if n == 0xD || (crate::code_point::control(n)
            && !crate::code_point::ascii_whitespace(n)) {
            self.error(ParseHtmlError::ControlCharacterReference);
            self.char_ref_code = Self::win1252_remap(n);
        }
        let resolved = match crate::chars::char_from_u32(self.char_ref_code) {
            Some(ch) => ch,
            None => {
                proof {
                    assert(false);
                }
                '\u{FFFD}'
            },
        };
        proof {
            vstd::utf8::char_u32_cast(resolved, self.char_ref_code);
        }
        self.temp_clear();
        self.temp_push(resolved);
        let out = self.flush_code_points();
        match self.return_state {
            Some(rs) => {
                self.state = rs;
            },
            None => {
                proof {
                    assert(false);
                }
            },
        }
        self.return_state = None;
        self.reconsume = true;
        out
    }

    /// The legacy windows-1252 remapping, by cases.
    pub(crate) fn win1252_remap(n: u32) -> (r: u32)
        ensures
            r == spec_win1252_remap(n),
    {
        if n == 0x80 {
            0x20AC
        } else if n == 0x82 {
            0x201A
        } else if n == 0x83 {
            0x0192
        } else if n == 0x84 {
            0x201E
        } else if n == 0x85 {
            0x2026
        } else if n == 0x86 {
            0x2020
        } else if n == 0x87 {
            0x2021
        } else if n == 0x88 {
            0x02C6
        } else if n == 0x89 {
            0x2030
        } else if n == 0x8A {
            0x0160
        } else if n == 0x8B {
            0x2039
        } else if n == 0x8C {
            0x0152
        } else if n == 0x8E {
            0x017D
        } else if n == 0x91 {
            0x2018
        } else if n == 0x92 {
            0x2019
        } else if n == 0x93 {
            0x201C
        } else if n == 0x94 {
            0x201D
        } else if n == 0x95 {
            0x2022
        } else if n == 0x96 {
            0x2013
        } else if n == 0x97 {
            0x2014
        } else if n == 0x98 {
            0x02DC
        } else if n == 0x99 {
            0x2122
        } else if n == 0x9A {
            0x0161
        } else if n == 0x9B {
            0x203A
        } else if n == 0x9C {
            0x0153
        } else if n == 0x9E {
            0x017E
        } else if n == 0x9F {
            0x0178
        } else {
            n
        }
    }
}

} // verus!
