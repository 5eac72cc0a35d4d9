//! Handlers for the attribute-name and attribute-value states.

use vstd::prelude::*;
use crate::code_point::{ascii_whitespace, spec_ascii_whitespace};
use crate::parser_detail::ParseHtmlError;
use crate::token::{State, Token, TokenV, TagV, AttributeV, toks};
use crate::tokenizer::{HtmlTokenizer, TkView, step_ok, folded_name_char, name_char_error};

verus! {

/// The open tag with one character appended to its last attribute's value.
pub open spec fn attr_value_pushed(t: TagV, ch: char) -> TagV {
    TagV {
        attributes: Some(
            t.attrs().update(
                t.attrs().len() - 1,
                AttributeV { value: t.attrs().last().value.push(ch), ..t.attrs().last() },
            ),
        ),
        ..t
    }
}

/// The open tag with one character appended to its last attribute's name.
pub open spec fn attr_name_pushed(t: TagV, ch: char) -> TagV {
    TagV {
        attributes: Some(
            t.attrs().update(
                t.attrs().len() - 1,
                AttributeV { name: t.attrs().last().name.push(ch), ..t.attrs().last() },
            ),
        ),
        ..t
    }
}

/// The open tag with a fresh, empty attribute opened at the end.
pub open spec fn attr_opened(t: TagV) -> TagV {
    TagV {
        attributes: Some(t.attrs().push(AttributeV { name: Seq::empty(), value: Seq::empty() })),
        ..t
    }
}

impl HtmlTokenizer {
    /// Before-attribute-name state: whitespace is skipped; `/`, `>` and end
    /// of input are reconsumed after the attributes; `=` starts an attribute
    /// named `=` with a reported error; anything else starts an attribute.
    pub fn before_attribute_name(&mut self, c: Option<char>) -> (r: Vec<Token>)
        requires
            old(self).inv(),
            old(self).state == State::BeforeAttributeName,
            !old(self).reconsume,
        ensures
            final(self).inv(),
            step_ok(old(self).vw(), final(self).vw(), c, toks(r@), State::BeforeAttributeName),
            ({
                let pre = old(self).vw();
                let post = final(self).vw();
                let ts = toks(r@);
                match c {
                    Some(ch) => if spec_ascii_whitespace(ch as u32) {
                        post == pre && ts =~= Seq::<TokenV>::empty()
                    } else if ch == '/' || ch == '>' {
                        post == (TkView { state: State::AfterAttributeName, reconsume: true, ..pre })
                            && ts =~= Seq::<TokenV>::empty()
                    } else if ch == '=' {
                        post == (TkView {
                            errors: pre.errors.push(
                                ParseHtmlError::UnexpectedEqualsSignBeforeAttributeName,
                            ),
                            tag: Some(attr_name_pushed(attr_opened(pre.tag->0), '=')),
                            state: State::AttributeName,
                            ..pre
                        }) && ts =~= Seq::<TokenV>::empty()
                    } else {
                        post == (TkView {
                            tag: Some(
                                attr_name_pushed(attr_opened(pre.tag->0), folded_name_char(ch)),
                            ),
                            errors: (match name_char_error(ch) {
                                Some(e) => pre.errors.push(e),
                                None => pre.errors,
                            }),
                            state: State::AttributeName,
                            ..pre
                        }) && ts =~= Seq::<TokenV>::empty()
                    },
                    None => post == (TkView {
                        state: State::AfterAttributeName,
                        reconsume: true,
                        ..pre
                    }) && ts =~= Seq::<TokenV>::empty(),
                }
            }),
    {
        match c {
            Some('/') | Some('>') | None => {
                self.state = State::AfterAttributeName;
                self.reconsume = true;
                Self::toks0()
            },
            Some('=') => {
                self.error(ParseHtmlError::UnexpectedEqualsSignBeforeAttributeName);
                self.attr_create();
                self.attr_push_name('=');
                self.state = State::AttributeName;
                Self::toks0()
            },
            Some(ch) => {
                if ascii_whitespace(ch as u32) {
                    Self::toks0()
                } else {
                    self.attr_create();
                    self.attr_name_char(ch);
                    self.state = State::AttributeName;
                    Self::toks0()
                }
            },
        }
    }

    /// Attribute-name state: builds the attribute's name with case folding;
    /// `=` moves to the value, whitespace, `/`, `>` and end of input are
    /// reconsumed after the name.
    pub fn attribute_name(&mut self, c: Option<char>) -> (r: Vec<Token>)
        requires
            old(self).inv(),
            old(self).state == State::AttributeName,
            !old(self).reconsume,
        ensures
            final(self).inv(),
            step_ok(old(self).vw(), final(self).vw(), c, toks(r@), State::AttributeName),
            ({
                let pre = old(self).vw();
                let post = final(self).vw();
                let ts = toks(r@);
                match c {
                    Some(ch) => if spec_ascii_whitespace(ch as u32) || ch == '/' || ch == '>' {
                        post == (TkView { state: State::AfterAttributeName, reconsume: true, ..pre })
                            && ts =~= Seq::<TokenV>::empty()
                    } else if ch == '=' {
                        post == (TkView { state: State::BeforeAttributeValue, ..pre }) && ts
                            =~= Seq::<TokenV>::empty()
                    } else {
                        post == (TkView {
                            tag: Some(attr_name_pushed(pre.tag->0, folded_name_char(ch))),
                            errors: (match name_char_error(ch) {
                                Some(e) => pre.errors.push(e),
                                None => pre.errors,
                            }),
                            ..pre
                        }) && ts =~= Seq::<TokenV>::empty()
                    },
                    None => post == (TkView {
                        state: State::AfterAttributeName,
                        reconsume: true,
                        ..pre
                    }) && ts =~= Seq::<TokenV>::empty(),
                }
            }),
    {
        match c {
            None => {
                self.state = State::AfterAttributeName;
                self.reconsume = true;
                Self::toks0()
            },
            Some('=') => {
                self.state = State::BeforeAttributeValue;
                Self::toks0()
            },
            Some(ch) => {
                if ascii_whitespace(ch as u32) || ch == '/' || ch == '>' {
                    self.state = State::AfterAttributeName;
                    self.reconsume = true;
                    Self::toks0()
                } else {
                    self.attr_name_char(ch);
                    Self::toks0()
                }
            },
        }
    }

    /// After-attribute-name state: whitespace is skipped; `/` begins a
    /// self-closing tag, `=` a value, `>` emits the tag; anything else
    /// starts the next attribute.
    pub fn after_attribute_name(&mut self, c: Option<char>) -> (r: Vec<Token>)
        requires
            old(self).inv(),
            old(self).state == State::AfterAttributeName,
            !old(self).reconsume,
        ensures
            final(self).inv(),
            step_ok(old(self).vw(), final(self).vw(), c, toks(r@), State::AfterAttributeName),
            ({
                let pre = old(self).vw();
                let post = final(self).vw();
                let ts = toks(r@);
                match c {
                    Some(ch) => if spec_ascii_whitespace(ch as u32) {
                        post == pre && ts =~= Seq::<TokenV>::empty()
                    } else if ch == '/' {
                        post == (TkView { state: State::SelfClosingStartTag, ..pre }) && ts
                            =~= Seq::<TokenV>::empty()
                    } else if ch == '=' {
                        post == (TkView {
                            state: State::BeforeAttributeValue,
                            tag: Some(
                                (if pre.tag->0.has_open_attr() {
                                    pre.tag->0
                                } else {
                                    attr_opened(pre.tag->0)
                                }),
                            ),
                            ..pre
                        }) && ts =~= Seq::<TokenV>::empty()
                    } else if ch == '>' {
                        post == (TkView { state: State::Data, tag: None, ..pre }) && ts
                            =~= seq![TokenV::Tag(pre.tag->0)]
                    } else {
                        post == (TkView {
                            tag: Some(
                                attr_name_pushed(attr_opened(pre.tag->0), folded_name_char(ch)),
                            ),
                            errors: (match name_char_error(ch) {
                                Some(e) => pre.errors.push(e),
                                None => pre.errors,
                            }),
                            state: State::AttributeName,
                            ..pre
                        }) && ts =~= Seq::<TokenV>::empty()
                    },
                    None => post == (TkView {
                        errors: pre.errors.push(ParseHtmlError::EofInTag),
                        ..pre
                    }) && ts =~= seq![TokenV::Eof],
                }
            }),
    {
        match c {
            Some('/') => {
                self.state = State::SelfClosingStartTag;
                Self::toks0()
            },
            Some('=') => {
                if !self.tag_has_open_attr() {
                    self.attr_create();
                }
                self.state = State::BeforeAttributeValue;
                Self::toks0()
            },
            Some('>') => {
                self.state = State::Data;
                let t = self.take_tag();
                Self::toks1(t)
            },
            None => {
                self.error(ParseHtmlError::EofInTag);
                Self::toks1(Token::Eof)
            },
            Some(ch) => {
                if ascii_whitespace(ch as u32) {
                    Self::toks0()
                } else {
                    self.attr_create();
                    self.attr_name_char(ch);
                    self.state = State::AttributeName;
                    Self::toks0()
                }
            },
        }
    }

    /// Before-attribute-value state: whitespace is skipped; a quote opens a
    /// quoted value; `>` is a missing value that still emits the tag;
    /// anything else is reconsumed as an unquoted value.
    pub fn before_attribute_value(&mut self, c: Option<char>) -> (r: Vec<Token>)
        requires
            old(self).inv(),
            old(self).state == State::BeforeAttributeValue,
            !old(self).reconsume,
        ensures
            final(self).inv(),
            step_ok(old(self).vw(), final(self).vw(), c, toks(r@), State::BeforeAttributeValue),
            ({
                let pre = old(self).vw();
                let post = final(self).vw();
                let ts = toks(r@);
                match c {
                    Some(ch) => if spec_ascii_whitespace(ch as u32) {
                        post == pre && ts =~= Seq::<TokenV>::empty()
                    } else if ch == '"' {
                        post == (TkView { state: State::AttributeValueDoubleQuoted, ..pre }) && ts
                            =~= Seq::<TokenV>::empty()
                    } else if ch == '\'' {
                        post == (TkView { state: State::AttributeValueSingleQuoted, ..pre }) && ts
                            =~= Seq::<TokenV>::empty()
                    } else if ch == '>' {
                        post == (TkView {
                            errors: pre.errors.push(ParseHtmlError::MissingAttributeValue),
                            state: State::Data,
                            tag: None,
                            ..pre
                        }) && ts =~= seq![TokenV::Tag(pre.tag->0)]
                    } else {
                        post == (TkView {
                            state: State::AttributeValueUnquoted,
                            reconsume: true,
                            ..pre
                        }) && ts =~= Seq::<TokenV>::empty()
                    },
                    None => post == (TkView {
                        state: State::AttributeValueUnquoted,
                        reconsume: true,
                        ..pre
                    }) && ts =~= Seq::<TokenV>::empty(),
                }
            }),
    {
        match c {
            Some('"') => {
                self.state = State::AttributeValueDoubleQuoted;
                Self::toks0()
            },
            Some('\'') => {
                self.state = State::AttributeValueSingleQuoted;
                Self::toks0()
            },
            Some('>') => {
                self.error(ParseHtmlError::MissingAttributeValue);
                self.state = State::Data;
                let t = self.take_tag();
                Self::toks1(t)
            },
            None => {
                self.state = State::AttributeValueUnquoted;
                self.reconsume = true;
                Self::toks0()
            },
            Some(ch) => {
                if ascii_whitespace(ch as u32) {
                    Self::toks0()
                } else {
                    self.state = State::AttributeValueUnquoted;
                    self.reconsume = true;
                    Self::toks0()
                }
            },
        }
    }

    /// Double-quoted attribute value: characters go into the value as they
    /// are; `&` enters the character-reference sub-machine; `"` closes.
    pub fn attribute_value_double_quoted(&mut self, c: Option<char>) -> (r: Vec<Token>)
        requires
            old(self).inv(),
            old(self).state == State::AttributeValueDoubleQuoted,
            !old(self).reconsume,
        ensures
            final(self).inv(),
            step_ok(
                old(self).vw(),
                final(self).vw(),
                c,
                toks(r@),
                State::AttributeValueDoubleQuoted,
            ),
            ({
                let pre = old(self).vw();
                let post = final(self).vw();
                let ts = toks(r@);
                match c {
                    Some(ch) => if ch == '"' {
                        post == (TkView { state: State::AfterAttributeValueQuoted, ..pre }) && ts
                            =~= Seq::<TokenV>::empty()
                    } else if ch == '&' {
                        post == (TkView {
                            return_state: Some(State::AttributeValueDoubleQuoted),
                            state: State::CharacterReference,
                            ..pre
                        }) && ts =~= Seq::<TokenV>::empty()
                    } else if ch == '\0' {
                        post == (TkView {
                            errors: pre.errors.push(ParseHtmlError::UnexpectedNullCharacter),
                            tag: Some(attr_value_pushed(pre.tag->0, '\u{FFFD}')),
                            ..pre
                        }) && ts =~= Seq::<TokenV>::empty()
                    } else {
                        post == (TkView { tag: Some(attr_value_pushed(pre.tag->0, ch)), ..pre })
                            && ts =~= Seq::<TokenV>::empty()
                    },
                    None => post == (TkView {
                        errors: pre.errors.push(ParseHtmlError::EofInTag),
                        ..pre
                    }) && ts =~= seq![TokenV::Eof],
                }
            }),
    {
        match c {
            Some('"') => {
                self.state = State::AfterAttributeValueQuoted;
                Self::toks0()
            },
            Some('&') => {
                self.return_state = Some(State::AttributeValueDoubleQuoted);
                self.state = State::CharacterReference;
                Self::toks0()
            },
            Some('\0') => {
                self.error(ParseHtmlError::UnexpectedNullCharacter);
                self.attr_push_value('\u{FFFD}');
                Self::toks0()
            },
            None => {
                self.error(ParseHtmlError::EofInTag);
                Self::toks1(Token::Eof)
            },
            Some(ch) => {
                self.attr_push_value(ch);
                Self::toks0()
            },
        }
    }

    /// Single-quoted attribute value: as the double-quoted state, closed by
    /// `'`.
    pub fn attribute_value_single_quoted(&mut self, c: Option<char>) -> (r: Vec<Token>)
        requires
            old(self).inv(),
            old(self).state == State::AttributeValueSingleQuoted,
            !old(self).reconsume,
        ensures
            final(self).inv(),
            step_ok(
                old(self).vw(),
                final(self).vw(),
                c,
                toks(r@),
                State::AttributeValueSingleQuoted,
            ),
            ({
                let pre = old(self).vw();
                let post = final(self).vw();
                let ts = toks(r@);
                match c {
                    Some(ch) => if ch == '\'' {
                        post == (TkView { state: State::AfterAttributeValueQuoted, ..pre }) && ts
                            =~= Seq::<TokenV>::empty()
                    } else if ch == '&' {
                        post == (TkView {
                            return_state: Some(State::AttributeValueSingleQuoted),
                            state: State::CharacterReference,
                            ..pre
                        }) && ts =~= Seq::<TokenV>::empty()
                    } else if ch == '\0' {
                        post == (TkView {
                            errors: pre.errors.push(ParseHtmlError::UnexpectedNullCharacter),
                            tag: Some(attr_value_pushed(pre.tag->0, '\u{FFFD}')),
                            ..pre
                        }) && ts =~= Seq::<TokenV>::empty()
                    } else {
                        post == (TkView { tag: Some(attr_value_pushed(pre.tag->0, ch)), ..pre })
                            && ts =~= Seq::<TokenV>::empty()
                    },
                    None => post == (TkView {
                        errors: pre.errors.push(ParseHtmlError::EofInTag),
                        ..pre
                    }) && ts =~= seq![TokenV::Eof],
                }
            }),
    {
        match c {
            Some('\'') => {
                self.state = State::AfterAttributeValueQuoted;
                Self::toks0()
            },
            Some('&') => {
                self.return_state = Some(State::AttributeValueSingleQuoted);
                self.state = State::CharacterReference;
                Self::toks0()
            },
            Some('\0') => {
                self.error(ParseHtmlError::UnexpectedNullCharacter);
                self.attr_push_value('\u{FFFD}');
                Self::toks0()
            },
            None => {
                self.error(ParseHtmlError::EofInTag);
                Self::toks1(Token::Eof)
            },
            Some(ch) => {
                self.attr_push_value(ch);
                Self::toks0()
            },
        }
    }

    /// Unquoted attribute value: whitespace ends it, `>` emits the tag, a
    /// quote, `<`, `=` or backquote is taken with a reported error.
    pub fn attribute_value_unquoted(&mut self, c: Option<char>) -> (r: Vec<Token>)
        requires
            old(self).inv(),
            old(self).state == State::AttributeValueUnquoted,
            !old(self).reconsume,
        ensures
            final(self).inv(),
            step_ok(old(self).vw(), final(self).vw(), c, toks(r@), State::AttributeValueUnquoted),
            ({
                let pre = old(self).vw();
                let post = final(self).vw();
                let ts = toks(r@);
                match c {
                    Some(ch) => if spec_ascii_whitespace(ch as u32) {
                        post == (TkView { state: State::BeforeAttributeName, ..pre }) && ts
                            =~= Seq::<TokenV>::empty()
                    } else if ch == '&' {
                        post == (TkView {
                            return_state: Some(State::AttributeValueUnquoted),
                            state: State::CharacterReference,
                            ..pre
                        }) && ts =~= Seq::<TokenV>::empty()
                    } else if ch == '>' {
                        post == (TkView { state: State::Data, tag: None, ..pre }) && ts
                            =~= seq![TokenV::Tag(pre.tag->0)]
                    } else if ch == '\0' {
                        post == (TkView {
                            errors: pre.errors.push(ParseHtmlError::UnexpectedNullCharacter),
                            tag: Some(attr_value_pushed(pre.tag->0, '\u{FFFD}')),
                            ..pre
                        }) && ts =~= Seq::<TokenV>::empty()
                    } else if ch == '"' || ch == '\'' || ch == '<' || ch == '=' || ch == '`' {
                        post == (TkView {
                            errors: pre.errors.push(
                                ParseHtmlError::UnexpectedCharacterInUnquotedAttributeValue,
                            ),
                            tag: Some(attr_value_pushed(pre.tag->0, ch)),
                            ..pre
                        }) && ts =~= Seq::<TokenV>::empty()
                    } else {
                        post == (TkView { tag: Some(attr_value_pushed(pre.tag->0, ch)), ..pre })
                            && ts =~= Seq::<TokenV>::empty()
                    },
                    None => post == (TkView {
                        errors: pre.errors.push(ParseHtmlError::EofInTag),
                        ..pre
                    }) && ts =~= seq![TokenV::Eof],
                }
            }),
    {
        match c {
            Some('&') => {
                self.return_state = Some(State::AttributeValueUnquoted);
                self.state = State::CharacterReference;
                Self::toks0()
            },
            Some('>') => {
                self.state = State::Data;
                let t = self.take_tag();
                Self::toks1(t)
            },
            Some('\0') => {
                self.error(ParseHtmlError::UnexpectedNullCharacter);
                self.attr_push_value('\u{FFFD}');
                Self::toks0()
            },
            None => {
                self.error(ParseHtmlError::EofInTag);
                Self::toks1(Token::Eof)
            },
            Some(ch) => {
                if ascii_whitespace(ch as u32) {
                    self.state = State::BeforeAttributeName;
                    Self::toks0()
                } else if ch == '"' || ch == '\'' || ch == '<' || ch == '=' || ch == '`' {
                    self.error(ParseHtmlError::UnexpectedCharacterInUnquotedAttributeValue);
                    self.attr_push_value(ch);
                    Self::toks0()
                } else {
                    self.attr_push_value(ch);
                    Self::toks0()
                }
            },
        }
    }

    /// After a quoted attribute value: whitespace, `/` or `>` end the
    /// attribute; anything else is a missing-whitespace error reconsumed
    /// before an attribute name.
    pub fn after_attribute_value_quoted(&mut self, c: Option<char>) -> (r: Vec<Token>)
        requires
            old(self).inv(),
            old(self).state == State::AfterAttributeValueQuoted,
            !old(self).reconsume,
        ensures
            final(self).inv(),
            step_ok(
                old(self).vw(),
                final(self).vw(),
                c,
                toks(r@),
                State::AfterAttributeValueQuoted,
            ),
            ({
                let pre = old(self).vw();
                let post = final(self).vw();
                let ts = toks(r@);
                match c {
                    Some(ch) => if spec_ascii_whitespace(ch as u32) {
                        post == (TkView { state: State::BeforeAttributeName, ..pre }) && ts
                            =~= Seq::<TokenV>::empty()
                    } else if ch == '/' {
                        post == (TkView { state: State::SelfClosingStartTag, ..pre }) && ts
                            =~= Seq::<TokenV>::empty()
                    } else if ch == '>' {
                        post == (TkView { state: State::Data, tag: None, ..pre }) && ts
                            =~= seq![TokenV::Tag(pre.tag->0)]
                    } else {
                        post == (TkView {
                            errors: pre.errors.push(
                                ParseHtmlError::MissingWhitespaceBetweenAttributes,
                            ),
                            state: State::BeforeAttributeName,
                            reconsume: true,
                            ..pre
                        }) && ts =~= Seq::<TokenV>::empty()
                    },
                    None => post == (TkView {
                        errors: pre.errors.push(ParseHtmlError::EofInTag),
                        ..pre
                    }) && ts =~= seq![TokenV::Eof],
                }
            }),
    {
        match c {
            Some('/') => {
                self.state = State::SelfClosingStartTag;
                Self::toks0()
            },
            Some('>') => {
                self.state = State::Data;
                let t = self.take_tag();
                Self::toks1(t)
            },
            None => {
                self.error(ParseHtmlError::EofInTag);
                Self::toks1(Token::Eof)
            },
            Some(ch) => {
                if ascii_whitespace(ch as u32) {
                    self.state = State::BeforeAttributeName;
                    Self::toks0()
                } else {
                    self.error(ParseHtmlError::MissingWhitespaceBetweenAttributes);
                    self.state = State::BeforeAttributeName;
                    self.reconsume = true;
                    Self::toks0()
                }
            },
        }
    }
}

} // verus!
