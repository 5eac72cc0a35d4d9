use iron_html::parser_detail::ParseHtmlError;
use iron_html::token::{State, Tag, Token};
use iron_html::tokenizer::HtmlTokenizer;

fn chars_to_string(v: &Vec<char>) -> String {
    v.iter().collect()
}

fn collect_tokens(input: &str) -> (Vec<Token>, Vec<ParseHtmlError>) {
    let mut tk = HtmlTokenizer::new(input);
    let toks = tk.tokenize_to_end();
    let errs = tk.parse_errors().clone();
    (toks, errs)
}

fn is_eof(t: &Token) -> bool {
    matches!(t, Token::Eof)
}

fn char_of(t: &Token) -> char {
    match t {
        Token::Character(c) => *c,
        _ => panic!("expected a character token"),
    }
}

#[test]
fn eof_terminates_plain_text() {
    let (toks, _) = collect_tokens("hello");
    assert_eq!(toks.len(), 6);
    for i in 0..5 {
        assert!(matches!(toks[i], Token::Character(_)));
    }
    assert!(is_eof(&toks[5]));
}

#[test]
fn exactly_one_eof_and_none_after() {
    let mut tk = HtmlTokenizer::new("ab");
    let toks = tk.tokenize_to_end();
    let eof_count = toks.iter().filter(|t| is_eof(t)).count();
    assert_eq!(eof_count, 1);
    assert!(is_eof(toks.last().unwrap()));
    assert!(tk.next_token().is_none());
    assert!(tk.next_token().is_none());
}

#[test]
fn empty_input_yields_only_eof() {
    let (toks, errs) = collect_tokens("");
    assert_eq!(toks.len(), 1);
    assert!(is_eof(&toks[0]));
    assert!(errs.is_empty());
}

#[test]
fn nul_in_data_is_literal() {
    let (toks, errs) = collect_tokens("\u{0000}");
    assert_eq!(toks.len(), 2);
    assert_eq!(char_of(&toks[0]), '\u{0000}');
    assert!(is_eof(&toks[1]));
    assert!(errs.contains(&ParseHtmlError::UnexpectedNullCharacter));
}

#[test]
fn nul_in_rcdata_is_replaced() {
    let mut tk = HtmlTokenizer::new("\u{0000}");
    tk.set_state(State::Rcdata);
    let toks = tk.tokenize_to_end();
    assert_eq!(char_of(&toks[0]), '\u{FFFD}');
    assert!(tk.parse_errors().contains(&ParseHtmlError::UnexpectedNullCharacter));
}

#[test]
fn nul_in_rawtext_script_plaintext_is_replaced() {
    for state in [State::Rawtext, State::ScriptData, State::Plaintext] {
        let mut tk = HtmlTokenizer::new("\u{0000}");
        tk.set_state(state);
        let toks = tk.tokenize_to_end();
        assert_eq!(char_of(&toks[0]), '\u{FFFD}');
    }
}

#[test]
fn tag_round_trip() {
    let (toks, _) = collect_tokens("<div class=\"a\">");
    assert_eq!(toks.len(), 2);
    match &toks[0] {
        Token::Tag(tag) => {
            assert_eq!(chars_to_string(&tag.name), "div");
            assert!(!tag.is_end_tag);
            assert!(!tag.self_closing);
            let attrs = tag.attributes.as_ref().unwrap();
            assert_eq!(attrs.len(), 1);
            assert_eq!(chars_to_string(&attrs[0].name), "class");
            assert_eq!(chars_to_string(&attrs[0].value), "a");
        }
        _ => panic!("expected a tag token"),
    }
    assert!(is_eof(&toks[1]));
}

#[test]
fn tag_name_case_folded() {
    let (toks, _) = collect_tokens("<DIV>");
    match &toks[0] {
        Token::Tag(tag) => assert_eq!(chars_to_string(&tag.name), "div"),
        _ => panic!("expected a tag token"),
    }
}

#[test]
fn attribute_name_folded_value_preserved() {
    let (toks, _) = collect_tokens("<a HREF=\"X\">");
    match &toks[0] {
        Token::Tag(tag) => {
            let attrs = tag.attributes.as_ref().unwrap();
            assert_eq!(chars_to_string(&attrs[0].name), "href");
            assert_eq!(chars_to_string(&attrs[0].value), "X");
        }
        _ => panic!("expected a tag token"),
    }
}

#[test]
fn self_closing_tag() {
    let (toks, _) = collect_tokens("<br/>");
    match &toks[0] {
        Token::Tag(tag) => {
            assert_eq!(chars_to_string(&tag.name), "br");
            assert!(tag.self_closing);
        }
        _ => panic!("expected a tag token"),
    }
}

#[test]
fn end_tag() {
    let (toks, _) = collect_tokens("</p>");
    match &toks[0] {
        Token::Tag(tag) => {
            assert_eq!(chars_to_string(&tag.name), "p");
            assert!(tag.is_end_tag);
        }
        _ => panic!("expected a tag token"),
    }
}

#[test]
fn unquoted_and_single_quoted_attributes() {
    let (toks, _) = collect_tokens("<a b=c d='e'>");
    match &toks[0] {
        Token::Tag(tag) => {
            let attrs = tag.attributes.as_ref().unwrap();
            assert_eq!(attrs.len(), 2);
            assert_eq!(chars_to_string(&attrs[0].name), "b");
            assert_eq!(chars_to_string(&attrs[0].value), "c");
            assert_eq!(chars_to_string(&attrs[1].name), "d");
            assert_eq!(chars_to_string(&attrs[1].value), "e");
        }
        _ => panic!("expected a tag token"),
    }
}

#[test]
fn script_end_tag_appropriateness() {
    let mut tk = HtmlTokenizer::new("<script>a</scr></script>");
    let first = tk.next_token().unwrap();
    let script_tag = match first {
        Token::Tag(tag) => {
            assert_eq!(chars_to_string(&tag.name), "script");
            tag
        }
        _ => panic!("expected the script start tag"),
    };
    tk.notify_last_start_tag(script_tag);
    tk.set_state(State::ScriptData);
    let mut text = String::new();
    loop {
        match tk.next_token().unwrap() {
            Token::Character(c) => text.push(c),
            Token::Tag(tag) => {
                assert!(tag.is_end_tag);
                assert_eq!(chars_to_string(&tag.name), "script");
                break;
            }
            other => panic!("unexpected token {:?}", std::mem::discriminant(&other)),
        }
    }
    assert_eq!(text, "a</scr>");
    assert!(is_eof(&tk.next_token().unwrap()));
}

#[test]
fn numeric_reference_windows_1252_remap() {
    let (toks, errs) = collect_tokens("&#128;");
    assert_eq!(char_of(&toks[0]), '\u{20AC}');
    assert!(is_eof(&toks[1]));
    assert!(errs.contains(&ParseHtmlError::ControlCharacterReference));
}

#[test]
fn null_numeric_reference() {
    let (toks, errs) = collect_tokens("&#0;");
    assert_eq!(char_of(&toks[0]), '\u{FFFD}');
    assert!(errs.contains(&ParseHtmlError::NullCharacterReference));
}

#[test]
fn out_of_range_numeric_reference() {
    let (toks, errs) = collect_tokens("&#x110000;");
    assert_eq!(char_of(&toks[0]), '\u{FFFD}');
    assert!(errs.contains(&ParseHtmlError::CharacterReferenceOutsideUnicodeRange));
}

#[test]
fn surrogate_numeric_reference() {
    let (toks, errs) = collect_tokens("&#xD800;");
    assert_eq!(char_of(&toks[0]), '\u{FFFD}');
    assert!(errs.contains(&ParseHtmlError::SurrogateCharacterReference));
}

#[test]
fn hex_numeric_reference() {
    let (toks, _) = collect_tokens("&#x41;");
    assert_eq!(char_of(&toks[0]), 'A');
}

#[test]
fn missing_semicolon_numeric_reference() {
    let (toks, errs) = collect_tokens("&#65 ");
    assert_eq!(char_of(&toks[0]), 'A');
    assert_eq!(char_of(&toks[1]), ' ');
    assert!(errs.contains(&ParseHtmlError::MissingSemicolonAfterCharacterReference));
}

#[test]
fn absent_digits_numeric_reference() {
    let (toks, errs) = collect_tokens("&#;");
    let text: String = toks[..toks.len() - 1].iter().map(|t| char_of(t)).collect();
    assert_eq!(text, "&#;");
    assert!(errs.contains(&ParseHtmlError::AbsenseOfDigitsInNumericCharacterReference));
}

#[test]
fn named_reference_amp() {
    let (toks, _) = collect_tokens("&amp;x");
    assert_eq!(char_of(&toks[0]), '&');
    assert_eq!(char_of(&toks[1]), 'x');
}

#[test]
fn named_reference_without_semicolon() {
    let (toks, errs) = collect_tokens("&amp ");
    assert_eq!(char_of(&toks[0]), '&');
    assert_eq!(char_of(&toks[1]), ' ');
    assert!(errs.contains(&ParseHtmlError::MissingSemicolonAfterCharacterReference));
}

#[test]
fn unknown_named_reference() {
    let (toks, errs) = collect_tokens("&zzq;");
    let text: String = toks[..toks.len() - 1].iter().map(|t| char_of(t)).collect();
    assert_eq!(text, "&zzq;");
    assert!(errs.contains(&ParseHtmlError::UnknownNamedCharacterReference));
}

#[test]
fn named_reference_in_attribute_value() {
    let (toks, _) = collect_tokens("<a b=\"&amp;\">");
    match &toks[0] {
        Token::Tag(tag) => {
            let attrs = tag.attributes.as_ref().unwrap();
            assert_eq!(chars_to_string(&attrs[0].value), "&");
        }
        _ => panic!("expected a tag token"),
    }
}

#[test]
fn doctype_without_name_forces_quirks() {
    let (toks, errs) = collect_tokens("<!DOCTYPE>");
    match &toks[0] {
        Token::Doctype(d) => {
            assert!(d.name.is_none());
            assert!(d.force_quirks);
        }
        _ => panic!("expected a doctype token"),
    }
    assert!(errs.contains(&ParseHtmlError::MissingDoctypeName));
}

#[test]
fn doctype_html() {
    let (toks, _) = collect_tokens("<!DOCTYPE html>");
    match &toks[0] {
        Token::Doctype(d) => {
            assert_eq!(chars_to_string(d.name.as_ref().unwrap()), "html");
            assert!(!d.force_quirks);
        }
        _ => panic!("expected a doctype token"),
    }
}

#[test]
fn doctype_public_and_system() {
    let (toks, _) = collect_tokens("<!DOCTYPE html PUBLIC \"p\" \"s\">");
    match &toks[0] {
        Token::Doctype(d) => {
            assert_eq!(chars_to_string(d.name.as_ref().unwrap()), "html");
            assert_eq!(chars_to_string(d.public_id.as_ref().unwrap()), "p");
            assert_eq!(chars_to_string(d.system_id.as_ref().unwrap()), "s");
            assert!(!d.force_quirks);
        }
        _ => panic!("expected a doctype token"),
    }
}

#[test]
fn unterminated_comment_emits_before_eof() {
    let (toks, errs) = collect_tokens("<!-- unterminated");
    assert_eq!(toks.len(), 2);
    match &toks[0] {
        Token::Comment(c) => assert_eq!(chars_to_string(&c.value), " unterminated"),
        _ => panic!("expected a comment token"),
    }
    assert!(is_eof(&toks[1]));
    assert!(errs.contains(&ParseHtmlError::EofInComment));
}

#[test]
fn simple_comment() {
    let (toks, _) = collect_tokens("<!--x-->");
    match &toks[0] {
        Token::Comment(c) => assert_eq!(chars_to_string(&c.value), "x"),
        _ => panic!("expected a comment token"),
    }
}

#[test]
fn bogus_comment_from_question_mark() {
    let (toks, errs) = collect_tokens("<?pi>");
    match &toks[0] {
        Token::Comment(c) => assert_eq!(chars_to_string(&c.value), "?pi"),
        _ => panic!("expected a comment token"),
    }
    assert!(errs.contains(&ParseHtmlError::UnexpectedQuestionMarkInsteadOfTagName));
}

#[test]
fn cdata_degrades_to_bogus_comment() {
    let (toks, errs) = collect_tokens("<![CDATA[x]]>");
    match &toks[0] {
        Token::Comment(c) => assert_eq!(chars_to_string(&c.value), "[CDATA[x]]"),
        _ => panic!("expected a comment token"),
    }
    assert!(errs.contains(&ParseHtmlError::CDataInHtmlContext));
}

#[test]
fn cdata_section_state_relays_verbatim() {
    let mut tk = HtmlTokenizer::new("ab]]>c");
    tk.set_state(State::CdataSection);
    let toks = tk.tokenize_to_end();
    let text: String = toks[..toks.len() - 1].iter().map(|t| char_of(t)).collect();
    assert_eq!(text, "abc");
}

#[test]
fn cdata_lone_bracket_flushed() {
    let mut tk = HtmlTokenizer::new("]x");
    tk.set_state(State::CdataSection);
    let toks = tk.tokenize_to_end();
    let text: String = toks[..toks.len() - 1].iter().map(|t| char_of(t)).collect();
    assert_eq!(text, "]x");
}

#[test]
fn rcdata_end_tag_mismatch_is_text() {
    let mut tk = HtmlTokenizer::new("</b>x");
    tk.set_state(State::Rcdata);
    let mut title = Tag::new(false);
    title.name = vec!['t', 'i', 't', 'l', 'e'];
    tk.notify_last_start_tag(title);
    let toks = tk.tokenize_to_end();
    let text: String = toks[..toks.len() - 1].iter().map(|t| char_of(t)).collect();
    assert_eq!(text, "</b>x");
}

#[test]
fn script_double_escape() {
    let mut tk = HtmlTokenizer::new("<!--<script>-->x");
    let mut script = Tag::new(false);
    script.name = vec!['s', 'c', 'r', 'i', 'p', 't'];
    tk.notify_last_start_tag(script);
    tk.set_state(State::ScriptData);
    let toks = tk.tokenize_to_end();
    let text: String = toks[..toks.len() - 1].iter().map(|t| char_of(t)).collect();
    assert_eq!(text, "<!--<script>-->x");
}

#[test]
fn missing_end_tag_name_is_dropped() {
    let (toks, errs) = collect_tokens("</>x");
    assert_eq!(char_of(&toks[0]), 'x');
    assert!(errs.contains(&ParseHtmlError::MissingEndTagName));
}

#[test]
fn eof_in_tag_reported() {
    let (toks, errs) = collect_tokens("<div");
    assert_eq!(toks.len(), 1);
    assert!(is_eof(&toks[0]));
    assert!(errs.contains(&ParseHtmlError::EofInTag));
}

#[test]
fn lone_less_than_at_eof() {
    let (toks, _) = collect_tokens("<");
    assert_eq!(char_of(&toks[0]), '<');
    assert!(is_eof(&toks[1]));
}

#[test]
fn equals_before_attribute_name() {
    let (toks, errs) = collect_tokens("<a ==>");
    match &toks[0] {
        Token::Tag(tag) => {
            let attrs = tag.attributes.as_ref().unwrap();
            assert_eq!(chars_to_string(&attrs[0].name), "=");
        }
        _ => panic!("expected a tag token"),
    }
    assert!(errs.contains(&ParseHtmlError::UnexpectedEqualsSignBeforeAttributeName));
}
