//! Handlers for the tag-open and tag-name states.

use vstd::prelude::*;
use crate::chars::lower_char;
use crate::code_point::{ascii_alpha, ascii_upper_alpha, ascii_whitespace, spec_ascii_alpha,
    spec_ascii_upper_alpha, spec_ascii_whitespace};
use crate::parser_detail::ParseHtmlError;
use crate::token::{State, Token, TokenV, toks};
use crate::tokenizer::{HtmlTokenizer, TkView, step_ok, fresh_tag};
use crate::chars::spec_lower_char;

verus! {

impl HtmlTokenizer {
    /// Tag-open state, after a `<`: `!` opens a markup declaration, `/` an
    /// end tag, a letter a start tag; `?` degrades to a bogus comment; any
    /// other character flushes the `<` and is reconsumed as data.
    pub fn tag_open(&mut self, c: Option<char>) -> (r: Vec<Token>)
        requires
            old(self).inv(),
            old(self).state == State::TagOpen,
            !old(self).reconsume,
        ensures
            final(self).inv(),
            step_ok(old(self).vw(), final(self).vw(), c, toks(r@), State::TagOpen),
            ({
                let pre = old(self).vw();
                let post = final(self).vw();
                let ts = toks(r@);
                match c {
                    Some(ch) => if ch == '!' {
                        post == (TkView { state: State::MarkupDeclarationOpen, ..pre }) && ts
                            =~= Seq::<TokenV>::empty()
                    } else if ch == '/' {
                        post == (TkView { state: State::EndTagOpen, ..pre }) && ts
                            =~= Seq::<TokenV>::empty()
                    } else if spec_ascii_alpha(ch as u32) {
                        post == (TkView {
                            tag: Some(fresh_tag(false)),
                            state: State::TagName,
                            reconsume: true,
                            ..pre
                        }) && ts =~= Seq::<TokenV>::empty()
                    } else if ch == '?' {
                        post == (TkView {
                            errors: pre.errors.push(
                                ParseHtmlError::UnexpectedQuestionMarkInsteadOfTagName,
                            ),
                            comment: Some(Seq::<char>::empty()),
                            state: State::BogusComment,
                            reconsume: true,
                            ..pre
                        }) && ts =~= Seq::<TokenV>::empty()
                    } else {
                        post == (TkView {
                            errors: pre.errors.push(ParseHtmlError::InvalidFirstCharacterOfTagName),
                            state: State::Data,
                            reconsume: true,
                            ..pre
                        }) && ts =~= seq![TokenV::Character('<')]
                    },
                    None => post == pre && ts =~= seq![TokenV::Character('<'), TokenV::Eof],
                }
            }),
    {
        match c {
            Some('!') => {
                self.state = State::MarkupDeclarationOpen;
                Self::toks0()
            },
            Some('/') => {
                self.state = State::EndTagOpen;
                Self::toks0()
            },
            Some('?') => {
                self.error(ParseHtmlError::UnexpectedQuestionMarkInsteadOfTagName);
                self.new_comment();
                self.state = State::BogusComment;
                self.reconsume = true;
                Self::toks0()
            },
            None => Self::toks2(Token::Character('<'), Token::Eof),
            Some(ch) => {
                if ascii_alpha(ch as u32) {
                    self.new_tag(false);
                    self.state = State::TagName;
                    self.reconsume = true;
                    Self::toks0()
                } else {
                    self.error(ParseHtmlError::InvalidFirstCharacterOfTagName);
                    self.state = State::Data;
                    self.reconsume = true;
                    Self::toks1(Token::Character('<'))
                }
            },
        }
    }

    /// End-tag-open state, after `</`: a letter opens an end tag, `>` is an
    /// error that drops the pair, end of input flushes `</`; anything else
    /// degrades to a bogus comment.
    pub fn end_tag_open(&mut self, c: Option<char>) -> (r: Vec<Token>)
        requires
            old(self).inv(),
            old(self).state == State::EndTagOpen,
            !old(self).reconsume,
        ensures
            final(self).inv(),
            step_ok(old(self).vw(), final(self).vw(), c, toks(r@), State::EndTagOpen),
            ({
                let pre = old(self).vw();
                let post = final(self).vw();
                let ts = toks(r@);
                match c {
                    Some(ch) => if spec_ascii_alpha(ch as u32) {
                        post == (TkView {
                            tag: Some(fresh_tag(true)),
                            state: State::TagName,
                            reconsume: true,
                            ..pre
                        }) && ts =~= Seq::<TokenV>::empty()
                    } else if ch == '>' {
                        post == (TkView {
                            errors: pre.errors.push(ParseHtmlError::MissingEndTagName),
                            state: State::Data,
                            ..pre
                        }) && ts =~= Seq::<TokenV>::empty()
                    } else {
                        post == (TkView {
                            errors: pre.errors.push(ParseHtmlError::InvalidFirstCharacterOfTagName),
                            comment: Some(Seq::<char>::empty()),
                            state: State::BogusComment,
                            reconsume: true,
                            ..pre
                        }) && ts =~= Seq::<TokenV>::empty()
                    },
                    None => post == (TkView {
                        errors: pre.errors.push(ParseHtmlError::EofBeforeTagName),
                        ..pre
                    }) && ts =~= seq![
                        TokenV::Character('<'),
                        TokenV::Character('/'),
                        TokenV::Eof,
                    ],
                }
            }),
    {
        match c {
            Some('>') => {
                self.error(ParseHtmlError::MissingEndTagName);
                self.state = State::Data;
                Self::toks0()
            },
            None => {
                self.error(ParseHtmlError::EofBeforeTagName);
                Self::toks3(Token::Character('<'), Token::Character('/'), Token::Eof)
            },
            Some(ch) => {
                if ascii_alpha(ch as u32) {
                    self.new_tag(true);
                    self.state = State::TagName;
                    self.reconsume = true;
                    Self::toks0()
                } else {
                    self.error(ParseHtmlError::InvalidFirstCharacterOfTagName);
                    self.new_comment();
                    self.state = State::BogusComment;
                    self.reconsume = true;
                    Self::toks0()
                }
            },
        }
    }

    /// Tag-name state: builds the tag's name, folding ASCII upper case;
    /// whitespace moves to the attributes, `>` emits the tag.
    pub fn tag_name(&mut self, c: Option<char>) -> (r: Vec<Token>)
        requires
            old(self).inv(),
            old(self).state == State::TagName,
            !old(self).reconsume,
        ensures
            final(self).inv(),
            step_ok(old(self).vw(), final(self).vw(), c, toks(r@), State::TagName),
            ({
                let pre = old(self).vw();
                let post = final(self).vw();
                let ts = toks(r@);
                match c {
                    Some(ch) => if spec_ascii_whitespace(ch as u32) {
                        post == (TkView { state: State::BeforeAttributeName, ..pre }) && ts
                            =~= Seq::<TokenV>::empty()
                    } else if ch == '/' {
                        post == (TkView { state: State::SelfClosingStartTag, ..pre }) && ts
                            =~= Seq::<TokenV>::empty()
                    } else if ch == '>' {
                        post == (TkView { state: State::Data, tag: None, ..pre }) && ts
                            =~= seq![TokenV::Tag(pre.tag->0)]
                    } else if ch == '\0' {
                        post == (TkView {
                            errors: pre.errors.push(ParseHtmlError::UnexpectedNullCharacter),
                            tag: Some(
                                (crate::token::TagV {
                                    name: pre.tag->0.name.push('\u{FFFD}'),
                                    ..pre.tag->0
                                }),
                            ),
                            ..pre
                        }) && ts =~= Seq::<TokenV>::empty()
                    } else {
                        post == (TkView {
                            tag: Some(
                                (crate::token::TagV {
                                    name: pre.tag->0.name.push(
                                        if spec_ascii_upper_alpha(ch as u32) {
                                            spec_lower_char(ch)
                                        } else {
                                            ch
                                        },
                                    ),
                                    ..pre.tag->0
                                }),
                            ),
                            ..pre
                        }) && ts =~= Seq::<TokenV>::empty()
                    },
                    None => post == (TkView {
                        errors: pre.errors.push(ParseHtmlError::EofInTag),
                        ..pre
                    }) && ts =~= seq![TokenV::Eof],
                }
            }),
    {
        match c {
            Some('/') => {
                self.state = State::SelfClosingStartTag;
                Self::toks0()
            },
            Some('>') => {
                self.state = State::Data;
                let t = self.take_tag();
                Self::toks1(t)
            },
            Some('\0') => {
                self.error(ParseHtmlError::UnexpectedNullCharacter);
                self.tag_push_name('\u{FFFD}');
                Self::toks0()
            },
            None => {
                self.error(ParseHtmlError::EofInTag);
                Self::toks1(Token::Eof)
            },
            Some(ch) => {
                if ascii_whitespace(ch as u32) {
                    self.state = State::BeforeAttributeName;
                    Self::toks0()
                } else if ascii_upper_alpha(ch as u32) {
                    self.tag_push_name(lower_char(ch));
                    Self::toks0()
                } else {
                    self.tag_push_name(ch);
                    Self::toks0()
                }
            },
        }
    }

    /// Self-closing-start-tag state, after a `/` inside a tag: `>` emits
    /// the tag with its self-closing flag set; anything else is an error
    /// reconsumed before an attribute name.
    pub fn self_closing_start_tag(&mut self, c: Option<char>) -> (r: Vec<Token>)
        requires
            old(self).inv(),
            old(self).state == State::SelfClosingStartTag,
            !old(self).reconsume,
        ensures
            final(self).inv(),
            step_ok(old(self).vw(), final(self).vw(), c, toks(r@), State::SelfClosingStartTag),
            ({
                let pre = old(self).vw();
                let post = final(self).vw();
                let ts = toks(r@);
                match c {
                    Some(ch) => if ch == '>' {
                        post == (TkView { state: State::Data, tag: None, ..pre }) && ts =~= seq![
                            TokenV::Tag(
                                (crate::token::TagV { self_closing: true, ..pre.tag->0 }),
                            ),
                        ]
                    } else {
                        post == (TkView {
                            errors: pre.errors.push(ParseHtmlError::UnexpectedSolidusInTag),
                            state: State::BeforeAttributeName,
                            reconsume: true,
                            ..pre
                        }) && ts =~= Seq::<TokenV>::empty()
                    },
                    None => post == (TkView {
                        errors: pre.errors.push(ParseHtmlError::EofInTag),
                        ..pre
                    }) && ts =~= seq![TokenV::Eof],
                }
            }),
    {
        match c {
            Some('>') => {
                self.tag_self_closing();
                self.state = State::Data;
                let t = self.take_tag();
                Self::toks1(t)
            },
            None => {
                self.error(ParseHtmlError::EofInTag);
                Self::toks1(Token::Eof)
            },
            _ => {
                self.error(ParseHtmlError::UnexpectedSolidusInTag);
                self.state = State::BeforeAttributeName;
                self.reconsume = true;
                Self::toks0()
            },
        }
    }
}

} // verus!
