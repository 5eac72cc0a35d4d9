//! Handlers for the script-data states: end-tag recognition and the
//! escape / double-escape sub-states that tolerate comment-like markers
//! inside script text.

use vstd::prelude::*;
use crate::chars::{lower_char, spec_lower_char, vec_eq_str};
use crate::code_point::{ascii_alpha, ascii_lower_alpha, ascii_upper_alpha, ascii_whitespace,
    spec_ascii_alpha, spec_ascii_lower_alpha, spec_ascii_upper_alpha, spec_ascii_whitespace};
use crate::parser_detail::ParseHtmlError;
use crate::token::{State, Token, TokenV, TagV, toks};
use crate::tokenizer::{HtmlTokenizer, TkView, step_ok, fresh_tag, spec_appropriate, chars_tokens};

verus! {

impl HtmlTokenizer {
    /// Script-data less-than-sign state: `/` may open an end tag, `!`
    /// begins the escape-start sequence, anything else flushes the `<`.
    pub fn script_data_less_than_sign(&mut self, c: Option<char>) -> (r: Vec<Token>)
        requires
            old(self).inv(),
            old(self).state == State::ScriptDataLessThanSign,
            !old(self).reconsume,
        ensures
            final(self).inv(),
            step_ok(old(self).vw(), final(self).vw(), c, toks(r@), State::ScriptDataLessThanSign),
            ({
                let pre = old(self).vw();
                let post = final(self).vw();
                let ts = toks(r@);
                match c {
                    Some(ch) => if ch == '/' {
                        post == (TkView {
                            temp_buf: Seq::<char>::empty(),
                            state: State::ScriptDataEndTagOpen,
                            ..pre
                        }) && ts =~= Seq::<TokenV>::empty()
                    } else if ch == '!' {
                        post == (TkView { state: State::ScriptDataEscapeStart, ..pre }) && ts
                            =~= seq![TokenV::Character('<'), TokenV::Character('!')]
                    } else {
                        post == (TkView { state: State::ScriptData, reconsume: true, ..pre }) && ts
                            =~= seq![TokenV::Character('<')]
                    },
                    None => post == (TkView { state: State::ScriptData, reconsume: true, ..pre })
                        && ts =~= seq![TokenV::Character('<')],
                }
            }),
    {
        match c {
            Some('/') => {
                self.temp_clear();
                self.state = State::ScriptDataEndTagOpen;
                Self::toks0()
            },
            Some('!') => {
                self.state = State::ScriptDataEscapeStart;
                Self::toks2(Token::Character('<'), Token::Character('!'))
            },
            _ => {
                self.state = State::ScriptData;
                self.reconsume = true;
                Self::toks1(Token::Character('<'))
            },
        }
    }

    /// Script-data end-tag-open state.
    pub fn script_data_end_tag_open(&mut self, c: Option<char>) -> (r: Vec<Token>)
        requires
            old(self).inv(),
            old(self).state == State::ScriptDataEndTagOpen,
            !old(self).reconsume,
        ensures
            final(self).inv(),
            step_ok(old(self).vw(), final(self).vw(), c, toks(r@), State::ScriptDataEndTagOpen),
            ({
                let pre = old(self).vw();
                let post = final(self).vw();
                let ts = toks(r@);
                match c {
                    Some(ch) => if spec_ascii_alpha(ch as u32) {
                        post == (TkView {
                            tag: Some(fresh_tag(true)),
                            state: State::ScriptDataEndTagName,
                            reconsume: true,
                            ..pre
                        }) && ts =~= Seq::<TokenV>::empty()
                    } else {
                        post == (TkView { state: State::ScriptData, reconsume: true, ..pre }) && ts
                            =~= seq![TokenV::Character('<'), TokenV::Character('/')]
                    },
                    None => post == (TkView { state: State::ScriptData, reconsume: true, ..pre })
                        && ts =~= seq![TokenV::Character('<'), TokenV::Character('/')],
                }
            }),
    {
        match c {
            Some(ch) if ascii_alpha(ch as u32) => {
                self.new_tag(true);
                self.state = State::ScriptDataEndTagName;
                self.reconsume = true;
                Self::toks0()
            },
            _ => {
                self.state = State::ScriptData;
                self.reconsume = true;
                Self::toks2(Token::Character('<'), Token::Character('/'))
            },
        }
    }

    /// Script-data end-tag-name state: honored only for the appropriate
    /// end tag, otherwise flushed back as script text.
    pub fn script_data_end_tag_name(&mut self, c: Option<char>) -> (r: Vec<Token>)
        requires
            old(self).inv(),
            old(self).state == State::ScriptDataEndTagName,
            !old(self).reconsume,
        ensures
            final(self).inv(),
            step_ok(old(self).vw(), final(self).vw(), c, toks(r@), State::ScriptDataEndTagName),
            ({
                let pre = old(self).vw();
                let post = final(self).vw();
                let ts = toks(r@);
                let flush = post == (TkView {
                    state: State::ScriptData,
                    temp_buf: Seq::<char>::empty(),
                    tag: None,
                    reconsume: true,
                    ..pre
                }) && ts =~= seq![TokenV::Character('<'), TokenV::Character('/')] + chars_tokens(
                    pre.temp_buf,
                );
                match c {
                    Some(ch) => if spec_ascii_whitespace(ch as u32) {
                        if spec_appropriate(pre) {
                            post == (TkView { state: State::BeforeAttributeName, ..pre }) && ts
                                =~= Seq::<TokenV>::empty()
                        } else {
                            flush
                        }
                    } else if ch == '/' {
                        if spec_appropriate(pre) {
                            post == (TkView { state: State::SelfClosingStartTag, ..pre }) && ts
                                =~= Seq::<TokenV>::empty()
                        } else {
                            flush
                        }
                    } else if ch == '>' {
                        if spec_appropriate(pre) {
                            post == (TkView { state: State::Data, tag: None, ..pre }) && ts
                                =~= seq![TokenV::Tag(pre.tag->0)]
                        } else {
                            flush
                        }
                    } else if spec_ascii_upper_alpha(ch as u32) {
                        post == (TkView {
                            tag: Some(
                                (TagV {
                                    name: pre.tag->0.name.push(spec_lower_char(ch)),
                                    ..pre.tag->0
                                }),
                            ),
                            temp_buf: pre.temp_buf.push(ch),
                            ..pre
                        }) && ts =~= Seq::<TokenV>::empty()
                    } else if spec_ascii_lower_alpha(ch as u32) {
                        post == (TkView {
                            tag: Some((TagV { name: pre.tag->0.name.push(ch), ..pre.tag->0 })),
                            temp_buf: pre.temp_buf.push(ch),
                            ..pre
                        }) && ts =~= Seq::<TokenV>::empty()
                    } else {
                        flush
                    },
                    None => flush,
                }
            }),
    {
        match c {
            Some(ch) => {
                if ascii_whitespace(ch as u32) && self.end_tag_appropriate() {
                    self.state = State::BeforeAttributeName;
                    Self::toks0()
                } else if ch == '/' && self.end_tag_appropriate() {
                    self.state = State::SelfClosingStartTag;
                    Self::toks0()
                } else if ch == '>' && self.end_tag_appropriate() {
                    self.state = State::Data;
                    let t = self.take_tag();
                    Self::toks1(t)
                } else if ascii_upper_alpha(ch as u32) {
                    self.tag_push_name(lower_char(ch));
                    self.temp_push(ch);
                    Self::toks0()
                } else if ascii_lower_alpha(ch as u32) {
                    self.tag_push_name(ch);
                    self.temp_push(ch);
                    Self::toks0()
                } else {
                    self.tag = None;
                    self.state = State::ScriptData;
                    self.reconsume = true;
                    self.flush_lt_solidus_temp()
                }
            },
            None => {
                self.tag = None;
                self.state = State::ScriptData;
                self.reconsume = true;
                self.flush_lt_solidus_temp()
            },
        }
    }

    /// Script-data escape-start state, after `<!`.
    pub fn script_data_escape_start(&mut self, c: Option<char>) -> (r: Vec<Token>)
        requires
            old(self).inv(),
            old(self).state == State::ScriptDataEscapeStart,
            !old(self).reconsume,
        ensures
            final(self).inv(),
            step_ok(old(self).vw(), final(self).vw(), c, toks(r@), State::ScriptDataEscapeStart),
            ({
                let pre = old(self).vw();
                let post = final(self).vw();
                let ts = toks(r@);
                match c {
                    Some(ch) => if ch == '-' {
                        post == (TkView { state: State::ScriptDataEscapeStartDash, ..pre }) && ts
                            =~= seq![TokenV::Character('-')]
                    } else {
                        post == (TkView { state: State::ScriptData, reconsume: true, ..pre }) && ts
                            =~= Seq::<TokenV>::empty()
                    },
                    None => post == (TkView { state: State::ScriptData, reconsume: true, ..pre })
                        && ts =~= Seq::<TokenV>::empty(),
                }
            }),
    {
        match c {
            Some('-') => {
                self.state = State::ScriptDataEscapeStartDash;
                Self::toks1(Token::Character('-'))
            },
            _ => {
                self.state = State::ScriptData;
                self.reconsume = true;
                Self::toks0()
            },
        }
    }

    /// Script-data escape-start-dash state, after `<!-`.
    pub fn script_data_escape_start_dash(&mut self, c: Option<char>) -> (r: Vec<Token>)
        requires
            old(self).inv(),
            old(self).state == State::ScriptDataEscapeStartDash,
            !old(self).reconsume,
        ensures
            final(self).inv(),
            step_ok(
                old(self).vw(),
                final(self).vw(),
                c,
                toks(r@),
                State::ScriptDataEscapeStartDash,
            ),
            ({
                let pre = old(self).vw();
                let post = final(self).vw();
                let ts = toks(r@);
                match c {
                    Some(ch) => if ch == '-' {
                        post == (TkView { state: State::ScriptDataEscapedDashDash, ..pre }) && ts
                            =~= seq![TokenV::Character('-')]
                    } else {
                        post == (TkView { state: State::ScriptData, reconsume: true, ..pre }) && ts
                            =~= Seq::<TokenV>::empty()
                    },
                    None => post == (TkView { state: State::ScriptData, reconsume: true, ..pre })
                        && ts =~= Seq::<TokenV>::empty(),
                }
            }),
    {
        match c {
            Some('-') => {
                self.state = State::ScriptDataEscapedDashDash;
                Self::toks1(Token::Character('-'))
            },
            _ => {
                self.state = State::ScriptData;
                self.reconsume = true;
                Self::toks0()
            },
        }
    }

    /// Script-data escaped state: script text inside `<!--`.
    pub fn script_data_escaped(&mut self, c: Option<char>) -> (r: Vec<Token>)
        requires
            old(self).inv(),
            old(self).state == State::ScriptDataEscaped,
            !old(self).reconsume,
        ensures
            final(self).inv(),
            step_ok(old(self).vw(), final(self).vw(), c, toks(r@), State::ScriptDataEscaped),
            ({
                let pre = old(self).vw();
                let post = final(self).vw();
                let ts = toks(r@);
                match c {
                    Some(ch) => if ch == '-' {
                        post == (TkView { state: State::ScriptDataEscapedDash, ..pre }) && ts
                            =~= seq![TokenV::Character('-')]
                    } else if ch == '<' {
                        post == (TkView { state: State::ScriptDataEscapedLessThanSign, ..pre })
                            && ts =~= Seq::<TokenV>::empty()
                    } else if ch == '\0' {
                        post == (TkView {
                            errors: pre.errors.push(ParseHtmlError::UnexpectedNullCharacter),
                            ..pre
                        }) && ts =~= seq![TokenV::Character('\u{FFFD}')]
                    } else {
                        post == pre && ts =~= seq![TokenV::Character(ch)]
                    },
                    None => post == (TkView {
                        errors: pre.errors.push(ParseHtmlError::EofInScriptHtmlCommentLikeText),
                        ..pre
                    }) && ts =~= seq![TokenV::Eof],
                }
            }),
    {
        match c {
            Some('-') => {
                self.state = State::ScriptDataEscapedDash;
                Self::toks1(Token::Character('-'))
            },
            Some('<') => {
                self.state = State::ScriptDataEscapedLessThanSign;
                Self::toks0()
            },
            Some('\0') => {
                self.error(ParseHtmlError::UnexpectedNullCharacter);
                Self::toks1(Token::Character('\u{FFFD}'))
            },
            None => {
                self.error(ParseHtmlError::EofInScriptHtmlCommentLikeText);
                Self::toks1(Token::Eof)
            },
            Some(ch) => Self::toks1(Token::Character(ch)),
        }
    }

    /// Script-data escaped-dash state.
    pub fn script_data_escaped_dash(&mut self, c: Option<char>) -> (r: Vec<Token>)
        requires
            old(self).inv(),
            old(self).state == State::ScriptDataEscapedDash,
            !old(self).reconsume,
        ensures
            final(self).inv(),
            step_ok(old(self).vw(), final(self).vw(), c, toks(r@), State::ScriptDataEscapedDash),
            ({
                let pre = old(self).vw();
                let post = final(self).vw();
                let ts = toks(r@);
                match c {
                    Some(ch) => if ch == '-' {
                        post == (TkView { state: State::ScriptDataEscapedDashDash, ..pre }) && ts
                            =~= seq![TokenV::Character('-')]
                    } else if ch == '<' {
                        post == (TkView { state: State::ScriptDataEscapedLessThanSign, ..pre })
                            && ts =~= Seq::<TokenV>::empty()
                    } else if ch == '\0' {
                        post == (TkView {
                            errors: pre.errors.push(ParseHtmlError::UnexpectedNullCharacter),
                            state: State::ScriptDataEscaped,
                            ..pre
                        }) && ts =~= seq![TokenV::Character('\u{FFFD}')]
                    } else {
                        post == (TkView { state: State::ScriptDataEscaped, ..pre }) && ts
                            =~= seq![TokenV::Character(ch)]
                    },
                    None => post == (TkView {
                        errors: pre.errors.push(ParseHtmlError::EofInScriptHtmlCommentLikeText),
                        ..pre
                    }) && ts =~= seq![TokenV::Eof],
                }
            }),
    {
        match c {
            Some('-') => {
                self.state = State::ScriptDataEscapedDashDash;
                Self::toks1(Token::Character('-'))
            },
            Some('<') => {
                self.state = State::ScriptDataEscapedLessThanSign;
                Self::toks0()
            },
            Some('\0') => {
                self.error(ParseHtmlError::UnexpectedNullCharacter);
                self.state = State::ScriptDataEscaped;
                Self::toks1(Token::Character('\u{FFFD}'))
            },
            None => {
                self.error(ParseHtmlError::EofInScriptHtmlCommentLikeText);
                Self::toks1(Token::Eof)
            },
            Some(ch) => {
                self.state = State::ScriptDataEscaped;
                Self::toks1(Token::Character(ch))
            },
        }
    }

    /// Script-data escaped-dash-dash state: a `>` here closes the escape.
    pub fn script_data_escaped_dash_dash(&mut self, c: Option<char>) -> (r: Vec<Token>)
        requires
            old(self).inv(),
            old(self).state == State::ScriptDataEscapedDashDash,
            !old(self).reconsume,
        ensures
            final(self).inv(),
            step_ok(
                old(self).vw(),
                final(self).vw(),
                c,
                toks(r@),
                State::ScriptDataEscapedDashDash,
            ),
            ({
                let pre = old(self).vw();
                let post = final(self).vw();
                let ts = toks(r@);
                match c {
                    Some(ch) => if ch == '-' {
                        post == pre && ts =~= seq![TokenV::Character('-')]
                    } else if ch == '<' {
                        post == (TkView { state: State::ScriptDataEscapedLessThanSign, ..pre })
                            && ts =~= Seq::<TokenV>::empty()
                    } else if ch == '>' {
                        post == (TkView { state: State::ScriptData, ..pre }) && ts
                            =~= seq![TokenV::Character('>')]
                    } else if ch == '\0' {
                        post == (TkView {
                            errors: pre.errors.push(ParseHtmlError::UnexpectedNullCharacter),
                            state: State::ScriptDataEscaped,
                            ..pre
                        }) && ts =~= seq![TokenV::Character('\u{FFFD}')]
                    } else {
                        post == (TkView { state: State::ScriptDataEscaped, ..pre }) && ts
                            =~= seq![TokenV::Character(ch)]
                    },
                    None => post == (TkView {
                        errors: pre.errors.push(ParseHtmlError::EofInScriptHtmlCommentLikeText),
                        ..pre
                    }) && ts =~= seq![TokenV::Eof],
                }
            }),
    {
        match c {
            Some('-') => Self::toks1(Token::Character('-')),
            Some('<') => {
                self.state = State::ScriptDataEscapedLessThanSign;
                Self::toks0()
            },
            Some('>') => {
                self.state = State::ScriptData;
                Self::toks1(Token::Character('>'))
            },
            Some('\0') => {
                self.error(ParseHtmlError::UnexpectedNullCharacter);
                self.state = State::ScriptDataEscaped;
                Self::toks1(Token::Character('\u{FFFD}'))
            },
            None => {
                self.error(ParseHtmlError::EofInScriptHtmlCommentLikeText);
                Self::toks1(Token::Eof)
            },
            Some(ch) => {
                self.state = State::ScriptDataEscaped;
                Self::toks1(Token::Character(ch))
            },
        }
    }

    /// Script-data escaped less-than-sign state: `/` opens an end tag, a
    /// letter may begin a double escape.
    pub fn script_data_escaped_less_than_sign(&mut self, c: Option<char>) -> (r: Vec<Token>)
        requires
            old(self).inv(),
            old(self).state == State::ScriptDataEscapedLessThanSign,
            !old(self).reconsume,
        ensures
            final(self).inv(),
            step_ok(
                old(self).vw(),
                final(self).vw(),
                c,
                toks(r@),
                State::ScriptDataEscapedLessThanSign,
            ),
            ({
                let pre = old(self).vw();
                let post = final(self).vw();
                let ts = toks(r@);
                match c {
                    Some(ch) => if ch == '/' {
                        post == (TkView {
                            temp_buf: Seq::<char>::empty(),
                            state: State::ScriptDataEscapedEndTagOpen,
                            ..pre
                        }) && ts =~= Seq::<TokenV>::empty()
                    } else if spec_ascii_alpha(ch as u32) {
                        post == (TkView {
                            temp_buf: Seq::<char>::empty(),
                            state: State::ScriptDataDoubleEscapeStart,
                            reconsume: true,
                            ..pre
                        }) && ts =~= seq![TokenV::Character('<')]
                    } else {
                        post == (TkView { state: State::ScriptDataEscaped, reconsume: true, ..pre })
                            && ts =~= seq![TokenV::Character('<')]
                    },
                    None => post == (TkView {
                        state: State::ScriptDataEscaped,
                        reconsume: true,
                        ..pre
                    }) && ts =~= seq![TokenV::Character('<')],
                }
            }),
    {
        match c {
            Some('/') => {
                self.temp_clear();
                self.state = State::ScriptDataEscapedEndTagOpen;
                Self::toks0()
            },
            Some(ch) if ascii_alpha(ch as u32) => {
                self.temp_clear();
                self.state = State::ScriptDataDoubleEscapeStart;
                self.reconsume = true;
                Self::toks1(Token::Character('<'))
            },
            _ => {
                self.state = State::ScriptDataEscaped;
                self.reconsume = true;
                Self::toks1(Token::Character('<'))
            },
        }
    }

    /// Script-data escaped end-tag-open state.
    pub fn script_data_escaped_end_tag_open(&mut self, c: Option<char>) -> (r: Vec<Token>)
        requires
            old(self).inv(),
            old(self).state == State::ScriptDataEscapedEndTagOpen,
            !old(self).reconsume,
        ensures
            final(self).inv(),
            step_ok(
                old(self).vw(),
                final(self).vw(),
                c,
                toks(r@),
                State::ScriptDataEscapedEndTagOpen,
            ),
            ({
                let pre = old(self).vw();
                let post = final(self).vw();
                let ts = toks(r@);
                match c {
                    Some(ch) => if spec_ascii_alpha(ch as u32) {
                        post == (TkView {
                            tag: Some(fresh_tag(true)),
                            state: State::ScriptDataEscapedEndTagName,
                            reconsume: true,
                            ..pre
                        }) && ts =~= Seq::<TokenV>::empty()
                    } else {
                        post == (TkView { state: State::ScriptDataEscaped, reconsume: true, ..pre })
                            && ts =~= seq![TokenV::Character('<'), TokenV::Character('/')]
                    },
                    None => post == (TkView {
                        state: State::ScriptDataEscaped,
                        reconsume: true,
                        ..pre
                    }) && ts =~= seq![TokenV::Character('<'), TokenV::Character('/')],
                }
            }),
    {
        match c {
            Some(ch) if ascii_alpha(ch as u32) => {
                self.new_tag(true);
                self.state = State::ScriptDataEscapedEndTagName;
                self.reconsume = true;
                Self::toks0()
            },
            _ => {
                self.state = State::ScriptDataEscaped;
                self.reconsume = true;
                Self::toks2(Token::Character('<'), Token::Character('/'))
            },
        }
    }

    /// Script-data escaped end-tag-name state.
    pub fn script_data_escaped_end_tag_name(&mut self, c: Option<char>) -> (r: Vec<Token>)
        requires
            old(self).inv(),
            old(self).state == State::ScriptDataEscapedEndTagName,
            !old(self).reconsume,
        ensures
            final(self).inv(),
            step_ok(
                old(self).vw(),
                final(self).vw(),
                c,
                toks(r@),
                State::ScriptDataEscapedEndTagName,
            ),
            ({
                let pre = old(self).vw();
                let post = final(self).vw();
                let ts = toks(r@);
                let flush = post == (TkView {
                    state: State::ScriptDataEscaped,
                    temp_buf: Seq::<char>::empty(),
                    tag: None,
                    reconsume: true,
                    ..pre
                }) && ts =~= seq![TokenV::Character('<'), TokenV::Character('/')] + chars_tokens(
                    pre.temp_buf,
                );
                match c {
                    Some(ch) => if spec_ascii_whitespace(ch as u32) {
                        if spec_appropriate(pre) {
                            post == (TkView { state: State::BeforeAttributeName, ..pre }) && ts
                                =~= Seq::<TokenV>::empty()
                        } else {
                            flush
                        }
                    } else if ch == '/' {
                        if spec_appropriate(pre) {
                            post == (TkView { state: State::SelfClosingStartTag, ..pre }) && ts
                                =~= Seq::<TokenV>::empty()
                        } else {
                            flush
                        }
                    } else if ch == '>' {
                        if spec_appropriate(pre) {
                            post == (TkView { state: State::Data, tag: None, ..pre }) && ts
                                =~= seq![TokenV::Tag(pre.tag->0)]
                        } else {
                            flush
                        }
                    } else if spec_ascii_upper_alpha(ch as u32) {
                        post == (TkView {
                            tag: Some(
                                (TagV {
                                    name: pre.tag->0.name.push(spec_lower_char(ch)),
                                    ..pre.tag->0
                                }),
                            ),
                            temp_buf: pre.temp_buf.push(ch),
                            ..pre
                        }) && ts =~= Seq::<TokenV>::empty()
                    } else if spec_ascii_lower_alpha(ch as u32) {
                        post == (TkView {
                            tag: Some((TagV { name: pre.tag->0.name.push(ch), ..pre.tag->0 })),
                            temp_buf: pre.temp_buf.push(ch),
                            ..pre
                        }) && ts =~= Seq::<TokenV>::empty()
                    } else {
                        flush
                    },
                    None => flush,
                }
            }),
    {
        match c {
            Some(ch) => {
                if ascii_whitespace(ch as u32) && self.end_tag_appropriate() {
                    self.state = State::BeforeAttributeName;
                    Self::toks0()
                } else if ch == '/' && self.end_tag_appropriate() {
                    self.state = State::SelfClosingStartTag;
                    Self::toks0()
                } else if ch == '>' && self.end_tag_appropriate() {
                    self.state = State::Data;
                    let t = self.take_tag();
                    Self::toks1(t)
                } else if ascii_upper_alpha(ch as u32) {
                    self.tag_push_name(lower_char(ch));
                    self.temp_push(ch);
                    Self::toks0()
                } else if ascii_lower_alpha(ch as u32) {
                    self.tag_push_name(ch);
                    self.temp_push(ch);
                    Self::toks0()
                } else {
                    self.tag = None;
                    self.state = State::ScriptDataEscaped;
                    self.reconsume = true;
                    self.flush_lt_solidus_temp()
                }
            },
            None => {
                self.tag = None;
                self.state = State::ScriptDataEscaped;
                self.reconsume = true;
                self.flush_lt_solidus_temp()
            },
        }
    }

    /// Script-data double-escape-start state: the buffered word decides
    /// whether `<script` inside escaped text opens a double escape.
    pub fn script_data_double_escape_start(&mut self, c: Option<char>) -> (r: Vec<Token>)
        requires
            old(self).inv(),
            old(self).state == State::ScriptDataDoubleEscapeStart,
            !old(self).reconsume,
        ensures
            final(self).inv(),
            step_ok(
                old(self).vw(),
                final(self).vw(),
                c,
                toks(r@),
                State::ScriptDataDoubleEscapeStart,
            ),
            ({
                let pre = old(self).vw();
                let post = final(self).vw();
                let ts = toks(r@);
                match c {
                    Some(ch) => if spec_ascii_whitespace(ch as u32) || ch == '/' || ch == '>' {
                        post == (TkView {
                            state: (if pre.temp_buf == "script"@ {
                                State::ScriptDataDoubleEscaped
                            } else {
                                State::ScriptDataEscaped
                            }),
                            ..pre
                        }) && ts =~= seq![TokenV::Character(ch)]
                    } else if spec_ascii_upper_alpha(ch as u32) {
                        post == (TkView { temp_buf: pre.temp_buf.push(spec_lower_char(ch)), ..pre })
                            && ts =~= seq![TokenV::Character(ch)]
                    } else if spec_ascii_lower_alpha(ch as u32) {
                        post == (TkView { temp_buf: pre.temp_buf.push(ch), ..pre }) && ts
                            =~= seq![TokenV::Character(ch)]
                    } else {
                        post == (TkView { state: State::ScriptDataEscaped, reconsume: true, ..pre })
                            && ts =~= Seq::<TokenV>::empty()
                    },
                    None => post == (TkView {
                        state: State::ScriptDataEscaped,
                        reconsume: true,
                        ..pre
                    }) && ts =~= Seq::<TokenV>::empty(),
                }
            }),
    {
        match c {
            Some(ch) => {
                if ascii_whitespace(ch as u32) || ch == '/' || ch == '>' {
                    if vec_eq_str(&self.temp_buf, "script") {
                        self.state = State::ScriptDataDoubleEscaped;
                    } else {
                        self.state = State::ScriptDataEscaped;
                    }
                    Self::toks1(Token::Character(ch))
                } else if ascii_upper_alpha(ch as u32) {
                    self.temp_push(lower_char(ch));
                    Self::toks1(Token::Character(ch))
                } else if ascii_lower_alpha(ch as u32) {
                    self.temp_push(ch);
                    Self::toks1(Token::Character(ch))
                } else {
                    self.state = State::ScriptDataEscaped;
                    self.reconsume = true;
                    Self::toks0()
                }
            },
            None => {
                self.state = State::ScriptDataEscaped;
                self.reconsume = true;
                Self::toks0()
            },
        }
    }

    /// Script-data double-escaped state.
    pub fn script_data_double_escaped(&mut self, c: Option<char>) -> (r: Vec<Token>)
        requires
            old(self).inv(),
            old(self).state == State::ScriptDataDoubleEscaped,
            !old(self).reconsume,
        ensures
            final(self).inv(),
            step_ok(old(self).vw(), final(self).vw(), c, toks(r@), State::ScriptDataDoubleEscaped),
            ({
                let pre = old(self).vw();
                let post = final(self).vw();
                let ts = toks(r@);
                match c {
                    Some(ch) => if ch == '-' {
                        post == (TkView { state: State::ScriptDataDoubleEscapedDash, ..pre }) && ts
                            =~= seq![TokenV::Character('-')]
                    } else if ch == '<' {
                        post == (TkView {
                            state: State::ScriptDataDoubleEscapedLessThanSign,
                            ..pre
                        }) && ts =~= seq![TokenV::Character('<')]
                    } else if ch == '\0' {
                        post == (TkView {
                            errors: pre.errors.push(ParseHtmlError::UnexpectedNullCharacter),
                            ..pre
                        }) && ts =~= seq![TokenV::Character('\u{FFFD}')]
                    } else {
                        post == pre && ts =~= seq![TokenV::Character(ch)]
                    },
                    None => post == (TkView {
                        errors: pre.errors.push(ParseHtmlError::EofInScriptHtmlCommentLikeText),
                        ..pre
                    }) && ts =~= seq![TokenV::Eof],
                }
            }),
    {
        match c {
            Some('-') => {
                self.state = State::ScriptDataDoubleEscapedDash;
                Self::toks1(Token::Character('-'))
            },
            Some('<') => {
                self.state = State::ScriptDataDoubleEscapedLessThanSign;
                Self::toks1(Token::Character('<'))
            },
            Some('\0') => {
                self.error(ParseHtmlError::UnexpectedNullCharacter);
                Self::toks1(Token::Character('\u{FFFD}'))
            },
            None => {
                self.error(ParseHtmlError::EofInScriptHtmlCommentLikeText);
                Self::toks1(Token::Eof)
            },
            Some(ch) => Self::toks1(Token::Character(ch)),
        }
    }

    /// Script-data double-escaped-dash state.
    pub fn script_data_double_escaped_dash(&mut self, c: Option<char>) -> (r: Vec<Token>)
        requires
            old(self).inv(),
            old(self).state == State::ScriptDataDoubleEscapedDash,
            !old(self).reconsume,
        ensures
            final(self).inv(),
            step_ok(
                old(self).vw(),
                final(self).vw(),
                c,
                toks(r@),
                State::ScriptDataDoubleEscapedDash,
            ),
            ({
                let pre = old(self).vw();
                let post = final(self).vw();
                let ts = toks(r@);
                match c {
                    Some(ch) => if ch == '-' {
                        post == (TkView { state: State::ScriptDataDoubleEscapedDashDash, ..pre })
                            && ts =~= seq![TokenV::Character('-')]
                    } else if ch == '<' {
                        post == (TkView {
                            state: State::ScriptDataDoubleEscapedLessThanSign,
                            ..pre
                        }) && ts =~= seq![TokenV::Character('<')]
                    } else if ch == '\0' {
                        post == (TkView {
                            errors: pre.errors.push(ParseHtmlError::UnexpectedNullCharacter),
                            state: State::ScriptDataDoubleEscaped,
                            ..pre
                        }) && ts =~= seq![TokenV::Character('\u{FFFD}')]
                    } else {
                        post == (TkView { state: State::ScriptDataDoubleEscaped, ..pre }) && ts
                            =~= seq![TokenV::Character(ch)]
                    },
                    None => post == (TkView {
                        errors: pre.errors.push(ParseHtmlError::EofInScriptHtmlCommentLikeText),
                        ..pre
                    }) && ts =~= seq![TokenV::Eof],
                }
            }),
    {
        match c {
            Some('-') => {
                self.state = State::ScriptDataDoubleEscapedDashDash;
                Self::toks1(Token::Character('-'))
            },
            Some('<') => {
                self.state = State::ScriptDataDoubleEscapedLessThanSign;
                Self::toks1(Token::Character('<'))
            },
            Some('\0') => {
                self.error(ParseHtmlError::UnexpectedNullCharacter);
                self.state = State::ScriptDataDoubleEscaped;
                Self::toks1(Token::Character('\u{FFFD}'))
            },
            None => {
                self.error(ParseHtmlError::EofInScriptHtmlCommentLikeText);
                Self::toks1(Token::Eof)
            },
            Some(ch) => {
                self.state = State::ScriptDataDoubleEscaped;
                Self::toks1(Token::Character(ch))
            },
        }
    }

    /// Script-data double-escaped-dash-dash state.
    pub fn script_data_double_escaped_dash_dash(&mut self, c: Option<char>) -> (r: Vec<
        Token,
    >)
        requires
            old(self).inv(),
            old(self).state == State::ScriptDataDoubleEscapedDashDash,
            !old(self).reconsume,
        ensures
            final(self).inv(),
            step_ok(
                old(self).vw(),
                final(self).vw(),
                c,
                toks(r@),
                State::ScriptDataDoubleEscapedDashDash,
            ),
            ({
                let pre = old(self).vw();
                let post = final(self).vw();
                let ts = toks(r@);
                match c {
                    Some(ch) => if ch == '-' {
                        post == pre && ts =~= seq![TokenV::Character('-')]
                    } else if ch == '<' {
                        post == (TkView {
                            state: State::ScriptDataDoubleEscapedLessThanSign,
                            ..pre
                        }) && ts =~= seq![TokenV::Character('<')]
                    } else if ch == '>' {
                        post == (TkView { state: State::ScriptData, ..pre }) && ts
                            =~= seq![TokenV::Character('>')]
                    } else if ch == '\0' {
                        post == (TkView {
                            errors: pre.errors.push(ParseHtmlError::UnexpectedNullCharacter),
                            state: State::ScriptDataDoubleEscaped,
                            ..pre
                        }) && ts =~= seq![TokenV::Character('\u{FFFD}')]
                    } else {
                        post == (TkView { state: State::ScriptDataDoubleEscaped, ..pre }) && ts
                            =~= seq![TokenV::Character(ch)]
                    },
                    None => post == (TkView {
                        errors: pre.errors.push(ParseHtmlError::EofInScriptHtmlCommentLikeText),
                        ..pre
                    }) && ts =~= seq![TokenV::Eof],
                }
            }),
    {
        match c {
            Some('-') => Self::toks1(Token::Character('-')),
            Some('<') => {
                self.state = State::ScriptDataDoubleEscapedLessThanSign;
                Self::toks1(Token::Character('<'))
            },
            Some('>') => {
                self.state = State::ScriptData;
                Self::toks1(Token::Character('>'))
            },
            Some('\0') => {
                self.error(ParseHtmlError::UnexpectedNullCharacter);
                self.state = State::ScriptDataDoubleEscaped;
                Self::toks1(Token::Character('\u{FFFD}'))
            },
            None => {
                self.error(ParseHtmlError::EofInScriptHtmlCommentLikeText);
                Self::toks1(Token::Eof)
            },
            Some(ch) => {
                self.state = State::ScriptDataDoubleEscaped;
                Self::toks1(Token::Character(ch))
            },
        }
    }

    /// Script-data double-escaped less-than-sign state.
    pub fn script_data_double_escaped_less_than_sign(&mut self, c: Option<char>) -> (r: Vec<
        Token,
    >)
        requires
            old(self).inv(),
            old(self).state == State::ScriptDataDoubleEscapedLessThanSign,
            !old(self).reconsume,
        ensures
            final(self).inv(),
            step_ok(
                old(self).vw(),
                final(self).vw(),
                c,
                toks(r@),
                State::ScriptDataDoubleEscapedLessThanSign,
            ),
            ({
                let pre = old(self).vw();
                let post = final(self).vw();
                let ts = toks(r@);
                match c {
                    Some(ch) => if ch == '/' {
                        post == (TkView {
                            temp_buf: Seq::<char>::empty(),
                            state: State::ScriptDataDoubleEscapeEnd,
                            ..pre
                        }) && ts =~= seq![TokenV::Character('/')]
                    } else {
                        post == (TkView {
                            state: State::ScriptDataDoubleEscaped,
                            reconsume: true,
                            ..pre
                        }) && ts =~= Seq::<TokenV>::empty()
                    },
                    None => post == (TkView {
                        state: State::ScriptDataDoubleEscaped,
                        reconsume: true,
                        ..pre
                    }) && ts =~= Seq::<TokenV>::empty(),
                }
            }),
    {
        match c {
            Some('/') => {
                self.temp_clear();
                self.state = State::ScriptDataDoubleEscapeEnd;
                Self::toks1(Token::Character('/'))
            },
            _ => {
                self.state = State::ScriptDataDoubleEscaped;
                self.reconsume = true;
                Self::toks0()
            },
        }
    }

    /// Script-data double-escape-end state: the buffered word decides
    /// whether `</script` closes the double escape.
    pub fn script_data_double_escape_end(&mut self, c: Option<char>) -> (r: Vec<Token>)
        requires
            old(self).inv(),
            old(self).state == State::ScriptDataDoubleEscapeEnd,
            !old(self).reconsume,
        ensures
            final(self).inv(),
            step_ok(
                old(self).vw(),
                final(self).vw(),
                c,
                toks(r@),
                State::ScriptDataDoubleEscapeEnd,
            ),
            ({
                let pre = old(self).vw();
                let post = final(self).vw();
                let ts = toks(r@);
                match c {
                    Some(ch) => if spec_ascii_whitespace(ch as u32) || ch == '/' || ch == '>' {
                        post == (TkView {
                            state: (if pre.temp_buf == "script"@ {
                                State::ScriptDataEscaped
                            } else {
                                State::ScriptDataDoubleEscaped
                            }),
                            ..pre
                        }) && ts =~= seq![TokenV::Character(ch)]
                    } else if spec_ascii_upper_alpha(ch as u32) {
                        post == (TkView { temp_buf: pre.temp_buf.push(spec_lower_char(ch)), ..pre })
                            && ts =~= seq![TokenV::Character(ch)]
                    } else if spec_ascii_lower_alpha(ch as u32) {
                        post == (TkView { temp_buf: pre.temp_buf.push(ch), ..pre }) && ts
                            =~= seq![TokenV::Character(ch)]
                    } else {
                        post == (TkView {
                            state: State::ScriptDataDoubleEscaped,
                            reconsume: true,
                            ..pre
                        }) && ts =~= Seq::<TokenV>::empty()
                    },
                    None => post == (TkView {
                        state: State::ScriptDataDoubleEscaped,
                        reconsume: true,
                        ..pre
                    }) && ts =~= Seq::<TokenV>::empty(),
                }
            }),
    {
        match c {
            Some(ch) => {
                if ascii_whitespace(ch as u32) || ch == '/' || ch == '>' {
                    if vec_eq_str(&self.temp_buf, "script") {
                        self.state = State::ScriptDataEscaped;
                    } else {
                        self.state = State::ScriptDataDoubleEscaped;
                    }
                    Self::toks1(Token::Character(ch))
                } else if ascii_upper_alpha(ch as u32) {
                    self.temp_push(lower_char(ch));
                    Self::toks1(Token::Character(ch))
                } else if ascii_lower_alpha(ch as u32) {
                    self.temp_push(ch);
                    Self::toks1(Token::Character(ch))
                } else {
                    self.state = State::ScriptDataDoubleEscaped;
                    self.reconsume = true;
                    Self::toks0()
                }
            },
            None => {
                self.state = State::ScriptDataDoubleEscaped;
                self.reconsume = true;
                Self::toks0()
            },
        }
    }
}

} // verus!
