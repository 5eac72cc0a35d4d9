use iron_html::parser_detail::ParseHtmlError;
use iron_html::token::{State, Tag, Token};
use iron_html::tokenizer::HtmlTokenizer;

fn chars_to_string(v: &Vec<char>) -> String {
    v.iter().collect()
}

fn collect(input: &str) -> (Vec<Token>, Vec<ParseHtmlError>) {
    let mut tk = HtmlTokenizer::new(input);
    let toks = tk.tokenize_to_end();
    let errs = tk.parse_errors().clone();
    (toks, errs)
}

fn text_of(toks: &[Token]) -> String {
    toks.iter()
        .filter_map(|t| match t {
            Token::Character(c) => Some(*c),
            _ => None,
        })
        .collect()
}

#[test]
fn comment_with_dashes_inside() {
    let (toks, _) = collect("<!--a-b--c-->");
    match &toks[0] {
        Token::Comment(c) => assert_eq!(chars_to_string(&c.value), "a-b--c"),
        _ => panic!("expected a comment token"),
    }
}

#[test]
fn abrupt_empty_comment() {
    let (toks, errs) = collect("<!-->");
    match &toks[0] {
        Token::Comment(c) => assert_eq!(chars_to_string(&c.value), ""),
        _ => panic!("expected a comment token"),
    }
    assert!(errs.contains(&ParseHtmlError::AbruptClosingOfEmptyComment));
}

#[test]
fn nested_comment_marker_reported() {
    let (toks, errs) = collect("<!--x<!--y-->");
    match &toks[0] {
        Token::Comment(c) => assert_eq!(chars_to_string(&c.value), "x<!--y"),
        _ => panic!("expected a comment token"),
    }
    assert!(errs.contains(&ParseHtmlError::NestedComment));
}

#[test]
fn incorrectly_closed_comment() {
    let (toks, errs) = collect("<!--x--!>");
    match &toks[0] {
        Token::Comment(c) => assert_eq!(chars_to_string(&c.value), "x"),
        _ => panic!("expected a comment token"),
    }
    assert!(errs.contains(&ParseHtmlError::IncorrectlyClosedComment));
}

#[test]
fn incorrectly_opened_comment_degrades() {
    let (toks, errs) = collect("<!x>");
    match &toks[0] {
        Token::Comment(c) => assert_eq!(chars_to_string(&c.value), "x"),
        _ => panic!("expected a comment token"),
    }
    assert!(errs.contains(&ParseHtmlError::IncorrectlyOpenedComment));
}

#[test]
fn doctype_lowercase_keyword_accepted() {
    let (toks, _) = collect("<!doctype HTML>");
    match &toks[0] {
        Token::Doctype(d) => {
            assert_eq!(chars_to_string(d.name.as_ref().unwrap()), "html");
            assert!(!d.force_quirks);
        }
        _ => panic!("expected a doctype token"),
    }
}

#[test]
fn doctype_system_only() {
    let (toks, _) = collect("<!DOCTYPE html SYSTEM 'about:legacy-compat'>");
    match &toks[0] {
        Token::Doctype(d) => {
            assert!(d.public_id.is_none());
            assert_eq!(chars_to_string(d.system_id.as_ref().unwrap()), "about:legacy-compat");
            assert!(!d.force_quirks);
        }
        _ => panic!("expected a doctype token"),
    }
}

#[test]
fn doctype_bad_keyword_forces_quirks() {
    let (toks, errs) = collect("<!DOCTYPE html zzzzzz>");
    match &toks[0] {
        Token::Doctype(d) => assert!(d.force_quirks),
        _ => panic!("expected a doctype token"),
    }
    assert!(errs.contains(&ParseHtmlError::InvalidCharacterSequenceAfterDoctypeName));
}

#[test]
fn doctype_eof_keeps_name_and_forces_quirks() {
    let (toks, errs) = collect("<!DOCTYPE ht");
    match &toks[0] {
        Token::Doctype(d) => {
            assert_eq!(chars_to_string(d.name.as_ref().unwrap()), "ht");
            assert!(d.force_quirks);
        }
        _ => panic!("expected a doctype token"),
    }
    assert!(matches!(toks[1], Token::Eof));
    assert!(errs.contains(&ParseHtmlError::EofInDoctype));
}

#[test]
fn missing_attribute_value() {
    let (toks, errs) = collect("<a b=>");
    match &toks[0] {
        Token::Tag(tag) => {
            let attrs = tag.attributes.as_ref().unwrap();
            assert_eq!(chars_to_string(&attrs[0].name), "b");
            assert_eq!(chars_to_string(&attrs[0].value), "");
        }
        _ => panic!("expected a tag token"),
    }
    assert!(errs.contains(&ParseHtmlError::MissingAttributeValue));
}

#[test]
fn quote_in_attribute_name_reported() {
    let (toks, errs) = collect("<a b\"c=d>");
    match &toks[0] {
        Token::Tag(tag) => {
            let attrs = tag.attributes.as_ref().unwrap();
            assert_eq!(chars_to_string(&attrs[0].name), "b\"c");
        }
        _ => panic!("expected a tag token"),
    }
    assert!(errs.contains(&ParseHtmlError::UnexpectedCharacterInAttributeName));
}

#[test]
fn backquote_in_unquoted_value_reported() {
    let (toks, errs) = collect("<a b=c`>");
    match &toks[0] {
        Token::Tag(tag) => {
            let attrs = tag.attributes.as_ref().unwrap();
            assert_eq!(chars_to_string(&attrs[0].value), "c`");
        }
        _ => panic!("expected a tag token"),
    }
    assert!(errs.contains(&ParseHtmlError::UnexpectedCharacterInUnquotedAttributeValue));
}

#[test]
fn numeric_reference_in_attribute_value() {
    let (toks, _) = collect("<a b=\"&#65;\">");
    match &toks[0] {
        Token::Tag(tag) => {
            let attrs = tag.attributes.as_ref().unwrap();
            assert_eq!(chars_to_string(&attrs[0].value), "A");
        }
        _ => panic!("expected a tag token"),
    }
}

#[test]
fn ambiguous_ampersand_in_attribute_value() {
    let (toks, errs) = collect("<a b=\"&zzq;\">");
    match &toks[0] {
        Token::Tag(tag) => {
            let attrs = tag.attributes.as_ref().unwrap();
            assert_eq!(chars_to_string(&attrs[0].value), "&zzq;");
        }
        _ => panic!("expected a tag token"),
    }
    assert!(errs.contains(&ParseHtmlError::UnknownNamedCharacterReference));
}

#[test]
fn historical_reference_in_attribute_kept_literal() {
    // a legacy name without its semicolon, followed by an equals sign,
    // stays literal inside an attribute value
    let (toks, _) = collect("<a b=\"&amp=1\">");
    match &toks[0] {
        Token::Tag(tag) => {
            let attrs = tag.attributes.as_ref().unwrap();
            assert_eq!(chars_to_string(&attrs[0].value), "&amp=1");
        }
        _ => panic!("expected a tag token"),
    }
}

#[test]
fn rcdata_matching_end_tag_honored() {
    let mut tk = HtmlTokenizer::new("ab</title>x");
    tk.set_state(State::Rcdata);
    let mut title = Tag::new(false);
    title.name = vec!['t', 'i', 't', 'l', 'e'];
    tk.notify_last_start_tag(title);
    let t1 = tk.next_token().unwrap();
    let t2 = tk.next_token().unwrap();
    assert!(matches!(t1, Token::Character('a')));
    assert!(matches!(t2, Token::Character('b')));
    match tk.next_token().unwrap() {
        Token::Tag(tag) => {
            assert!(tag.is_end_tag);
            assert_eq!(chars_to_string(&tag.name), "title");
        }
        _ => panic!("expected the end tag"),
    }
    assert!(matches!(tk.next_token().unwrap(), Token::Character('x')));
}

#[test]
fn rawtext_ignores_markup() {
    let mut tk = HtmlTokenizer::new("<b>&amp;");
    tk.set_state(State::Rawtext);
    let toks = tk.tokenize_to_end();
    assert_eq!(text_of(&toks), "<b>&amp;");
}

#[test]
fn plaintext_never_ends() {
    let mut tk = HtmlTokenizer::new("</plaintext>x");
    tk.set_state(State::Plaintext);
    let toks = tk.tokenize_to_end();
    assert_eq!(text_of(&toks), "</plaintext>x");
}

#[test]
fn script_escape_exits_on_dash_dash_gt() {
    let mut tk = HtmlTokenizer::new("<!--x--></script>y");
    let mut script = Tag::new(false);
    script.name = vec!['s', 'c', 'r', 'i', 'p', 't'];
    tk.notify_last_start_tag(script);
    tk.set_state(State::ScriptData);
    let mut text = String::new();
    let mut saw_end_tag = false;
    let toks = tk.tokenize_to_end();
    for t in &toks {
        match t {
            Token::Character(c) => text.push(*c),
            Token::Tag(tag) => {
                assert!(tag.is_end_tag);
                saw_end_tag = true;
            }
            _ => {}
        }
    }
    assert!(saw_end_tag);
    assert_eq!(text, "<!--x-->y");
}

#[test]
fn eof_in_script_comment_like_text_reported() {
    let mut tk = HtmlTokenizer::new("<!--x");
    tk.set_state(State::ScriptData);
    let toks = tk.tokenize_to_end();
    assert_eq!(text_of(&toks), "<!--x");
    assert!(tk.parse_errors().contains(&ParseHtmlError::EofInScriptHtmlCommentLikeText));
}

#[test]
fn character_reference_interrupted_by_eof() {
    let (toks, _) = collect("&");
    assert_eq!(text_of(&toks), "&");
    let (toks2, errs2) = collect("&#x");
    assert_eq!(text_of(&toks2), "&#x");
    assert!(errs2.contains(&ParseHtmlError::AbsenseOfDigitsInNumericCharacterReference));
}

#[test]
fn noncharacter_reference_kept_with_error() {
    let (toks, errs) = collect("&#xFDD0;");
    assert_eq!(text_of(&toks), "\u{FDD0}");
    assert!(errs.contains(&ParseHtmlError::NoncharacterCharacterReference));
}

#[test]
fn overlong_numeric_reference_clamped() {
    let (toks, errs) = collect("&#999999999999999999;");
    assert_eq!(text_of(&toks), "\u{FFFD}");
    assert!(errs.contains(&ParseHtmlError::CharacterReferenceOutsideUnicodeRange));
}

#[test]
fn named_reference_longest_match_wins() {
    // `&times;` must match the semicolon form, not the bare legacy `times`
    let (toks, errs) = collect("&times;x");
    assert_eq!(text_of(&toks), "\u{D7}x");
    assert!(!errs.contains(&ParseHtmlError::MissingSemicolonAfterCharacterReference));
}

#[test]
fn two_tags_and_text() {
    let (toks, _) = collect("<p>hi</p>");
    match &toks[0] {
        Token::Tag(tag) => {
            assert!(!tag.is_end_tag);
            assert_eq!(chars_to_string(&tag.name), "p");
        }
        _ => panic!("expected the start tag"),
    }
    assert!(matches!(toks[1], Token::Character('h')));
    assert!(matches!(toks[2], Token::Character('i')));
    match &toks[3] {
        Token::Tag(tag) => assert!(tag.is_end_tag),
        _ => panic!("expected the end tag"),
    }
    assert!(matches!(toks[4], Token::Eof));
}

#[test]
fn errors_are_reported_in_order() {
    let (_, errs) = collect("\u{0000}&#0;");
    let i = errs
        .iter()
        .position(|e| *e == ParseHtmlError::UnexpectedNullCharacter)
        .unwrap();
    let j = errs
        .iter()
        .position(|e| *e == ParseHtmlError::NullCharacterReference)
        .unwrap();
    assert!(i < j);
}

#[test]
fn script_escape_start_without_second_dash_stays_script() {
    let mut tk = HtmlTokenizer::new("<!-x");
    tk.set_state(State::ScriptData);
    let toks = tk.tokenize_to_end();
    assert_eq!(text_of(&toks), "<!-x");
}

#[test]
fn script_double_escape_end_needs_script_word() {
    let mut tk = HtmlTokenizer::new("<!--<script>a</b></script>x");
    let mut script = Tag::new(false);
    script.name = vec!['s', 'c', 'r', 'i', 'p', 't'];
    tk.notify_last_start_tag(script);
    tk.set_state(State::ScriptData);
    let toks = tk.tokenize_to_end();
    // inside the double escape `</b>` is plain text; `</script` leaves it
    assert_eq!(text_of(&toks), "<!--<script>a</b></script>x");
}

#[test]
fn comment_less_than_sign_bang_without_dashes() {
    let (toks, errs) = collect("<!--a<!b-->");
    match &toks[0] {
        Token::Comment(c) => assert_eq!(chars_to_string(&c.value), "a<!b"),
        _ => panic!("expected a comment token"),
    }
    assert!(!errs.contains(&ParseHtmlError::NestedComment));
}

#[test]
fn missing_whitespace_between_attributes() {
    let (toks, errs) = collect("<a b=\"c\"d=e>");
    match &toks[0] {
        Token::Tag(tag) => {
            let attrs = tag.attributes.as_ref().unwrap();
            assert_eq!(attrs.len(), 2);
            assert_eq!(chars_to_string(&attrs[1].name), "d");
            assert_eq!(chars_to_string(&attrs[1].value), "e");
        }
        _ => panic!("expected a tag token"),
    }
    assert!(errs.contains(&ParseHtmlError::MissingWhitespaceBetweenAttributes));
}

#[test]
fn stray_solidus_in_tag() {
    let (toks, errs) = collect("<a / b>");
    match &toks[0] {
        Token::Tag(tag) => {
            assert!(!tag.self_closing);
            let attrs = tag.attributes.as_ref().unwrap();
            assert_eq!(chars_to_string(&attrs[0].name), "b");
        }
        _ => panic!("expected a tag token"),
    }
    assert!(errs.contains(&ParseHtmlError::UnexpectedSolidusInTag));
}

#[test]
fn invalid_first_tag_character_is_text() {
    let (toks, errs) = collect("<1a>");
    assert_eq!(text_of(&toks), "<1a>");
    assert!(errs.contains(&ParseHtmlError::InvalidFirstCharacterOfTagName));
}

#[test]
fn end_tag_with_bad_first_character_is_bogus_comment() {
    let (toks, errs) = collect("</#x>");
    match &toks[0] {
        Token::Comment(c) => assert_eq!(chars_to_string(&c.value), "#x"),
        _ => panic!("expected a comment token"),
    }
    assert!(errs.contains(&ParseHtmlError::InvalidFirstCharacterOfTagName));
}

#[test]
fn nul_in_tag_name_replaced() {
    let (toks, errs) = collect("<a\u{0000}>");
    match &toks[0] {
        Token::Tag(tag) => assert_eq!(chars_to_string(&tag.name), "a\u{FFFD}"),
        _ => panic!("expected a tag token"),
    }
    assert!(errs.contains(&ParseHtmlError::UnexpectedNullCharacter));
}

#[test]
fn carriage_return_reference_remaps_nothing() {
    let (toks, errs) = collect("&#x0D;");
    assert_eq!(text_of(&toks), "\r");
    assert!(errs.contains(&ParseHtmlError::ControlCharacterReference));
}

#[test]
fn named_reference_table_samples() {
    let (toks, _) = collect("&lt;&gt;&quot;&nbsp;&euro;");
    assert_eq!(text_of(&toks), "<>\"\u{A0}\u{20AC}");
}

#[test]
fn builders_cleared_the_moment_emitted() {
    let mut tk = HtmlTokenizer::new("<div>");
    match tk.next_token().unwrap() {
        Token::Tag(_) => {}
        _ => panic!("expected the tag"),
    }
    assert!(tk.tag.is_none());
    assert!(tk.comment.is_none());
    assert!(tk.doctype.is_none());
}

#[test]
fn comment_builder_cleared_on_eof_emission() {
    let mut tk = HtmlTokenizer::new("<!--x");
    let toks = tk.tokenize_to_end();
    assert!(matches!(toks[0], Token::Comment(_)));
    assert!(tk.comment.is_none());
}

#[test]
fn doctype_builder_cleared_on_eof_emission() {
    let mut tk = HtmlTokenizer::new("<!DOCTYPE ht");
    let toks = tk.tokenize_to_end();
    assert!(matches!(toks[0], Token::Doctype(_)));
    assert!(tk.doctype.is_none());
}

#[test]
fn failed_end_tag_candidate_cleared() {
    let mut tk = HtmlTokenizer::new("</b>x");
    tk.set_state(State::Rcdata);
    let mut title = Tag::new(false);
    title.name = vec!['t', 'i', 't', 'l', 'e'];
    tk.notify_last_start_tag(title);
    let _ = tk.tokenize_to_end();
    assert!(tk.tag.is_none());
}
