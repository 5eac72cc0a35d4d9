use iron_html::chars;
use iron_html::code_point;
use iron_html::cursor::LineOffsetIterator;
use iron_html::gc::{GarbageCollected, Gc};
use iron_html::namespace::Namespace;
use iron_html::parser::HtmlParser;
use iron_html::parser_detail::{ElementDetail, InsertionMode};
use iron_html::percent_encoding;
use iron_html::token::Tag;
use iron_html::utf16::Utf16String;
use iron_html::utf8_decode::{ConvertByteResult, Utf8Decoder};

#[test]
fn cursor_read_and_backtrack_restore_position() {
    let mut cur = LineOffsetIterator::new("ab\ncd\ne");
    assert_eq!(cur.read(), Some('a'));
    assert_eq!(cur.read(), Some('b'));
    assert_eq!(cur.read(), Some('\n'));
    assert_eq!(cur.read(), Some('c'));
    let offset = cur.offset();
    let line = cur.line();
    let column = cur.column();
    assert_eq!((offset, line, column), (4, 1, 1));
    let got = cur.read_multiple(3);
    assert_eq!(got, vec!['d', '\n', 'e']);
    cur.backtrack_multiple(3);
    assert_eq!(cur.offset(), offset);
    assert_eq!(cur.line(), line);
    assert_eq!(cur.column(), column);
}

#[test]
fn cursor_read_at_end_is_idempotent() {
    let mut cur = LineOffsetIterator::new("x");
    assert_eq!(cur.read(), Some('x'));
    assert_eq!(cur.read(), None);
    assert_eq!(cur.read(), None);
    assert_eq!(cur.offset(), 1);
}

#[test]
fn cursor_backtrack_clamps_at_start() {
    let mut cur = LineOffsetIterator::new("ab");
    assert_eq!(cur.read(), Some('a'));
    cur.backtrack_multiple(5);
    assert_eq!(cur.offset(), 0);
    assert_eq!(cur.read(), Some('a'));
}

#[test]
fn cursor_peek_does_not_advance() {
    let mut cur = LineOffsetIterator::new("xy");
    assert_eq!(cur.peek(), Some('x'));
    assert_eq!(cur.read(), Some('x'));
    let peeked = cur.peek_multiple(5);
    assert_eq!(peeked, vec!['y']);
    assert_eq!(cur.offset(), 1);
    cur.seek(0);
    assert_eq!(cur.read(), Some('x'));
}

#[test]
fn code_point_classes() {
    assert!(code_point::ascii_digit('7' as u32));
    assert!(!code_point::ascii_digit('a' as u32));
    assert!(code_point::ascii_hex_digit('F' as u32));
    assert!(code_point::ascii_hex_digit('f' as u32));
    assert!(code_point::ascii_upper_alpha('Q' as u32));
    assert!(code_point::ascii_lower_alpha('q' as u32));
    assert!(code_point::ascii_whitespace('\n' as u32));
    assert!(code_point::surrogate(0xD800));
    assert!(!code_point::scalar_value(0xDFFF));
    assert!(code_point::noncharacter(0xFDD0));
    assert!(code_point::noncharacter(0x10FFFE));
    assert!(!code_point::noncharacter(0x41));
    assert!(code_point::control(0x9F));
    assert!(code_point::c0_control_or_space(0x20));
    assert!(code_point::ascii_tab_or_newline(0x9));
    assert!(code_point::ascii_code_point(0x7F));
    assert!(code_point::ascii_alphanumeric('z' as u32));
}

#[test]
fn isomorphic_encode_latin1_only() {
    assert_eq!(code_point::isomorphic_encode("AB\u{E9}"), Some(vec![0x41, 0x42, 0xE9]));
    assert_eq!(code_point::isomorphic_encode("\u{20AC}"), None);
    assert_eq!(code_point::isomorphic_encode(""), Some(vec![]));
}

#[test]
fn percent_encode_byte() {
    assert_eq!(percent_encoding::encode(0xAB), "%ab");
    assert_eq!(percent_encoding::encode(0x05), "%05");
}

#[test]
fn percent_decode_bytes() {
    assert_eq!(percent_encoding::decode(b"%41B%2520"), vec![0x41, b'B', 0x25, b'2', b'0']);
    assert_eq!(percent_encoding::decode_str("a%62c"), vec![b'a', b'b', b'c']);
}

#[test]
fn percent_decode_unmatched_percent_retained() {
    // a `%` not followed by two hexadecimal digits is an ordinary byte
    assert_eq!(percent_encoding::decode(b"%"), vec![b'%']);
    assert_eq!(percent_encoding::decode(b"%4"), vec![b'%', b'4']);
    assert_eq!(percent_encoding::decode(b"%4x"), vec![b'%', b'4', b'x']);
    assert_eq!(percent_encoding::decode(b"%zz"), vec![b'%', b'z', b'z']);
    assert_eq!(percent_encoding::decode(b"%%41"), vec![b'%', 0x41]);
}

#[test]
fn utf16_push_units() {
    let mut s = Utf16String::new();
    s.push(0x41);
    s.push_char('B');
    let mut t = Utf16String::with_capacity(4);
    t.push_char('\u{1F600}');
    s.push_str(&t);
    s.reserve(2);
    assert!(s.capacity() >= 2);
    assert_eq!(s.units(), &vec![0x41, 0x42, 0xD83D, 0xDE00]);
}

#[test]
fn utf8_decoder_ascii_and_two_byte() {
    let mut d = Utf8Decoder::new();
    assert!(matches!(d.push_byte(b'A'), Some(ConvertByteResult::Char('A'))));
    assert!(d.push_byte(0xC3).is_none());
    assert!(matches!(d.push_byte(0xA9), Some(ConvertByteResult::Char('\u{E9}'))));
    assert!(matches!(d.finish(), ConvertByteResult::Finished));
}

#[test]
fn utf8_decoder_rejects_bad_bytes() {
    let mut d = Utf8Decoder::new();
    assert!(matches!(d.push_byte(0xFF), Some(ConvertByteResult::Error)));
    // an overlong two-byte lead is rejected outright
    assert!(matches!(d.push_byte(0xC0), Some(ConvertByteResult::Error)));
    // a broken continuation hands the byte back
    assert!(d.push_byte(0xE0).is_none());
    assert!(matches!(d.push_byte(0x41), Some(ConvertByteResult::ErrorWithPrepend(0x41))));
    // end of input in the middle of a sequence is an error
    assert!(d.push_byte(0xC3).is_none());
    assert!(matches!(d.finish(), ConvertByteResult::Error));
}

#[test]
fn utf8_decoder_four_byte() {
    let mut d = Utf8Decoder::new();
    assert!(d.push_byte(0xF0).is_none());
    assert!(d.push_byte(0x9F).is_none());
    assert!(d.push_byte(0x98).is_none());
    assert!(matches!(d.push_byte(0x80), Some(ConvertByteResult::Char('\u{1F600}'))));
}

#[test]
fn namespace_round_trip() {
    let ns = Namespace::from_str("http://www.w3.org/1999/xhtml");
    assert!(matches!(ns, Namespace::Html));
    assert_eq!(ns.as_str(), "http://www.w3.org/1999/xhtml");
    let other = Namespace::from_str("urn:example");
    assert_eq!(other.as_str(), "urn:example");
    assert!(Namespace::Svg == Namespace::Svg);
    assert!(!(Namespace::Svg == Namespace::MathML));
    assert!(other == Namespace::from_str("urn:example"));
}

#[test]
fn special_and_formatting_elements() {
    assert!(ElementDetail::special_element(Namespace::Html, "DIV"));
    assert!(ElementDetail::special_element(Namespace::Html, "td"));
    assert!(!ElementDetail::special_element(Namespace::Html, "span"));
    assert!(ElementDetail::special_element(Namespace::MathML, "mi"));
    assert!(ElementDetail::special_element(Namespace::Svg, "desc"));
    assert!(!ElementDetail::special_element(Namespace::Xml, "div"));
    assert!(ElementDetail::formatting_element(Namespace::Html, "B"));
    assert!(ElementDetail::formatting_element(Namespace::Html, "nobr"));
    assert!(!ElementDetail::formatting_element(Namespace::Html, "div"));
    assert!(!ElementDetail::formatting_element(Namespace::Svg, "b"));
}

#[test]
fn parser_tag_queries() {
    let mut div = Tag::new(false);
    div.name = vec!['d', 'i', 'v'];
    assert!(HtmlParser::start_tag_with_name(&div, "div"));
    assert!(!HtmlParser::start_tag_with_name(&div, "span"));
    assert!(!HtmlParser::end_tag_with_name(&div, "div"));
    let names = vec!["p", "div"];
    assert!(HtmlParser::start_tag_with_names(&div, &names));
    let mut endp = Tag::new(true);
    endp.name = vec!['p'];
    assert!(HtmlParser::end_tag_with_name(&endp, "p"));
    assert!(HtmlParser::end_tag_with_names(&endp, &names));
    assert!(!HtmlParser::start_tag_with_names(&endp, &names));
}

#[test]
fn parser_reset_mode_on_empty_stack() {
    let parser = HtmlParser::new();
    assert_eq!(parser.reset_insertion_mode(), InsertionMode::InBody);
}

struct Node {
    marked: bool,
}

impl GarbageCollected for Node {
    fn mark(&mut self) {
        self.marked = true;
    }

    fn unmark(&mut self) {
        self.marked = false;
    }

    fn marked(&self) -> bool {
        self.marked
    }
}

#[test]
fn gc_hands_out_handles_in_order() {
    let mut gc: Gc<Node> = Gc::new();
    let a = gc.add(Node { marked: false });
    let b = gc.add_root(Node { marked: false });
    let c = gc.add(Node { marked: true });
    assert_eq!((a, b, c), (0, 1, 2));
}

#[test]
fn char_helpers_fold_ascii_only() {
    assert_eq!(chars::lower_char('A'), 'a');
    assert_eq!(chars::lower_char('z'), 'z');
    assert_eq!(chars::lower_char('\u{C9}'), '\u{C9}');
    assert!(chars::str_eq("abc", "abc"));
    assert!(!chars::str_eq("abc", "abd"));
}
