//! Handlers for end-tag recognition inside the RCDATA and RAWTEXT states:
//! a candidate `</name` is buffered into both the tag builder and the
//! temporary buffer, honored only when the name matches the last start tag,
//! and otherwise flushed back as literal characters.

use vstd::prelude::*;
use crate::chars::{lower_char, spec_lower_char};
use crate::code_point::{ascii_alpha, ascii_lower_alpha, ascii_upper_alpha, ascii_whitespace,
    spec_ascii_alpha, spec_ascii_lower_alpha, spec_ascii_upper_alpha, spec_ascii_whitespace};
use crate::token::{State, Token, TokenV, TagV, toks};
use crate::tokenizer::{HtmlTokenizer, TkView, step_ok, fresh_tag, spec_appropriate, chars_tokens};

verus! {

impl HtmlTokenizer {
    /// RCDATA less-than-sign state: `/` may open an end tag; anything else
    /// flushes the `<` and is reconsumed as RCDATA.
    pub fn rcdata_less_than_sign(&mut self, c: Option<char>) -> (r: Vec<Token>)
        requires
            old(self).inv(),
            old(self).state == State::RcdataLessThanSign,
            !old(self).reconsume,
        ensures
            final(self).inv(),
            step_ok(old(self).vw(), final(self).vw(), c, toks(r@), State::RcdataLessThanSign),
            ({
                let pre = old(self).vw();
                let post = final(self).vw();
                let ts = toks(r@);
                match c {
                    Some(ch) => if ch == '/' {
                        post == (TkView {
                            temp_buf: Seq::<char>::empty(),
                            state: State::RcdataEndTagOpen,
                            ..pre
                        }) && ts =~= Seq::<TokenV>::empty()
                    } else {
                        post == (TkView { state: State::Rcdata, reconsume: true, ..pre }) && ts
                            =~= seq![TokenV::Character('<')]
                    },
                    None => post == (TkView { state: State::Rcdata, reconsume: true, ..pre }) && ts
                        =~= seq![TokenV::Character('<')],
                }
            }),
    {
        match c {
            Some('/') => {
                self.temp_clear();
                self.state = State::RcdataEndTagOpen;
                Self::toks0()
            },
            _ => {
                self.state = State::Rcdata;
                self.reconsume = true;
                Self::toks1(Token::Character('<'))
            },
        }
    }

    /// RCDATA end-tag-open state: a letter opens the candidate end tag;
    /// anything else flushes `</` and is reconsumed as RCDATA.
    pub fn rcdata_end_tag_open(&mut self, c: Option<char>) -> (r: Vec<Token>)
        requires
            old(self).inv(),
            old(self).state == State::RcdataEndTagOpen,
            !old(self).reconsume,
        ensures
            final(self).inv(),
            step_ok(old(self).vw(), final(self).vw(), c, toks(r@), State::RcdataEndTagOpen),
            ({
                let pre = old(self).vw();
                let post = final(self).vw();
                let ts = toks(r@);
                match c {
                    Some(ch) => if spec_ascii_alpha(ch as u32) {
                        post == (TkView {
                            tag: Some(fresh_tag(true)),
                            state: State::RcdataEndTagName,
                            reconsume: true,
                            ..pre
                        }) && ts =~= Seq::<TokenV>::empty()
                    } else {
                        post == (TkView { state: State::Rcdata, reconsume: true, ..pre }) && ts
                            =~= seq![TokenV::Character('<'), TokenV::Character('/')]
                    },
                    None => post == (TkView { state: State::Rcdata, reconsume: true, ..pre }) && ts
                        =~= seq![TokenV::Character('<'), TokenV::Character('/')],
                }
            }),
    {
        match c {
            Some(ch) if ascii_alpha(ch as u32) => {
                self.new_tag(true);
                self.state = State::RcdataEndTagName;
                self.reconsume = true;
                Self::toks0()
            },
            _ => {
                self.state = State::Rcdata;
                self.reconsume = true;
                Self::toks2(Token::Character('<'), Token::Character('/'))
            },
        }
    }

    /// RCDATA end-tag-name state: letters build the candidate name; the
    /// candidate is honored only when its name matches the last start tag,
    /// otherwise the buffered characters are flushed back as RCDATA text.
    pub fn rcdata_end_tag_name(&mut self, c: Option<char>) -> (r: Vec<Token>)
        requires
            old(self).inv(),
            old(self).state == State::RcdataEndTagName,
            !old(self).reconsume,
        ensures
            final(self).inv(),
            step_ok(old(self).vw(), final(self).vw(), c, toks(r@), State::RcdataEndTagName),
            ({
                let pre = old(self).vw();
                let post = final(self).vw();
                let ts = toks(r@);
                let flush = post == (TkView {
                    state: State::Rcdata,
                    temp_buf: Seq::<char>::empty(),
                    tag: None,
                    reconsume: true,
                    ..pre
                }) && ts =~= seq![TokenV::Character('<'), TokenV::Character('/')] + chars_tokens(
                    pre.temp_buf,
                );
                match c {
                    Some(ch) => if spec_ascii_whitespace(ch as u32) {
                        if spec_appropriate(pre) {
                            post == (TkView { state: State::BeforeAttributeName, ..pre }) && ts
                                =~= Seq::<TokenV>::empty()
                        } else {
                            flush
                        }
                    } else if ch == '/' {
                        if spec_appropriate(pre) {
                            post == (TkView { state: State::SelfClosingStartTag, ..pre }) && ts
                                =~= Seq::<TokenV>::empty()
                        } else {
                            flush
                        }
                    } else if ch == '>' {
                        if spec_appropriate(pre) {
                            post == (TkView { state: State::Data, tag: None, ..pre }) && ts
                                =~= seq![TokenV::Tag(pre.tag->0)]
                        } else {
                            flush
                        }
                    } else if spec_ascii_upper_alpha(ch as u32) {
                        post == (TkView {
                            tag: Some(
                                (TagV {
                                    name: pre.tag->0.name.push(spec_lower_char(ch)),
                                    ..pre.tag->0
                                }),
                            ),
                            temp_buf: pre.temp_buf.push(ch),
                            ..pre
                        }) && ts =~= Seq::<TokenV>::empty()
                    } else if spec_ascii_lower_alpha(ch as u32) {
                        post == (TkView {
                            tag: Some((TagV { name: pre.tag->0.name.push(ch), ..pre.tag->0 })),
                            temp_buf: pre.temp_buf.push(ch),
                            ..pre
                        }) && ts =~= Seq::<TokenV>::empty()
                    } else {
                        flush
                    },
                    None => flush,
                }
            }),
    {
        match c {
            Some(ch) => {
                if ascii_whitespace(ch as u32) && self.end_tag_appropriate() {
                    self.state = State::BeforeAttributeName;
                    Self::toks0()
                } else if ch == '/' && self.end_tag_appropriate() {
                    self.state = State::SelfClosingStartTag;
                    Self::toks0()
                } else if ch == '>' && self.end_tag_appropriate() {
                    self.state = State::Data;
                    let t = self.take_tag();
                    Self::toks1(t)
                } else if ascii_upper_alpha(ch as u32) {
                    self.tag_push_name(lower_char(ch));
                    self.temp_push(ch);
                    Self::toks0()
                } else if ascii_lower_alpha(ch as u32) {
                    self.tag_push_name(ch);
                    self.temp_push(ch);
                    Self::toks0()
                } else {
                    self.tag = None;
                    self.state = State::Rcdata;
                    self.reconsume = true;
                    self.flush_lt_solidus_temp()
                }
            },
            None => {
                self.tag = None;
                self.state = State::Rcdata;
                self.reconsume = true;
                self.flush_lt_solidus_temp()
            },
        }
    }

    /// RAWTEXT less-than-sign state: as the RCDATA one.
    pub fn rawtext_less_than_sign(&mut self, c: Option<char>) -> (r: Vec<Token>)
        requires
            old(self).inv(),
            old(self).state == State::RawtextLessThanSign,
            !old(self).reconsume,
        ensures
            final(self).inv(),
            step_ok(old(self).vw(), final(self).vw(), c, toks(r@), State::RawtextLessThanSign),
            ({
                let pre = old(self).vw();
                let post = final(self).vw();
                let ts = toks(r@);
                match c {
                    Some(ch) => if ch == '/' {
                        post == (TkView {
                            temp_buf: Seq::<char>::empty(),
                            state: State::RawtextEndTagOpen,
                            ..pre
                        }) && ts =~= Seq::<TokenV>::empty()
                    } else {
                        post == (TkView { state: State::Rawtext, reconsume: true, ..pre }) && ts
                            =~= seq![TokenV::Character('<')]
                    },
                    None => post == (TkView { state: State::Rawtext, reconsume: true, ..pre }) && ts
                        =~= seq![TokenV::Character('<')],
                }
            }),
    {
        match c {
            Some('/') => {
                self.temp_clear();
                self.state = State::RawtextEndTagOpen;
                Self::toks0()
            },
            _ => {
                self.state = State::Rawtext;
                self.reconsume = true;
                Self::toks1(Token::Character('<'))
            },
        }
    }

    /// RAWTEXT end-tag-open state: as the RCDATA one.
    pub fn rawtext_end_tag_open(&mut self, c: Option<char>) -> (r: Vec<Token>)
        requires
            old(self).inv(),
            old(self).state == State::RawtextEndTagOpen,
            !old(self).reconsume,
        ensures
            final(self).inv(),
            step_ok(old(self).vw(), final(self).vw(), c, toks(r@), State::RawtextEndTagOpen),
            ({
                let pre = old(self).vw();
                let post = final(self).vw();
                let ts = toks(r@);
                match c {
                    Some(ch) => if spec_ascii_alpha(ch as u32) {
                        post == (TkView {
                            tag: Some(fresh_tag(true)),
                            state: State::RawtextEndTagName,
                            reconsume: true,
                            ..pre
                        }) && ts =~= Seq::<TokenV>::empty()
                    } else {
                        post == (TkView { state: State::Rawtext, reconsume: true, ..pre }) && ts
                            =~= seq![TokenV::Character('<'), TokenV::Character('/')]
                    },
                    None => post == (TkView { state: State::Rawtext, reconsume: true, ..pre }) && ts
                        =~= seq![TokenV::Character('<'), TokenV::Character('/')],
                }
            }),
    {
        match c {
            Some(ch) if ascii_alpha(ch as u32) => {
                self.new_tag(true);
                self.state = State::RawtextEndTagName;
                self.reconsume = true;
                Self::toks0()
            },
            _ => {
                self.state = State::Rawtext;
                self.reconsume = true;
                Self::toks2(Token::Character('<'), Token::Character('/'))
            },
        }
    }

    /// RAWTEXT end-tag-name state: as the RCDATA one, flushing back into
    /// RAWTEXT on a failed match.
    pub fn rawtext_end_tag_name(&mut self, c: Option<char>) -> (r: Vec<Token>)
        requires
            old(self).inv(),
            old(self).state == State::RawtextEndTagName,
            !old(self).reconsume,
        ensures
            final(self).inv(),
            step_ok(old(self).vw(), final(self).vw(), c, toks(r@), State::RawtextEndTagName),
            ({
                let pre = old(self).vw();
                let post = final(self).vw();
                let ts = toks(r@);
                let flush = post == (TkView {
                    state: State::Rawtext,
                    temp_buf: Seq::<char>::empty(),
                    tag: None,
                    reconsume: true,
                    ..pre
                }) && ts =~= seq![TokenV::Character('<'), TokenV::Character('/')] + chars_tokens(
                    pre.temp_buf,
                );
                match c {
                    Some(ch) => if spec_ascii_whitespace(ch as u32) {
                        if spec_appropriate(pre) {
                            post == (TkView { state: State::BeforeAttributeName, ..pre }) && ts
                                =~= Seq::<TokenV>::empty()
                        } else {
                            flush
                        }
                    } else if ch == '/' {
                        if spec_appropriate(pre) {
                            post == (TkView { state: State::SelfClosingStartTag, ..pre }) && ts
                                =~= Seq::<TokenV>::empty()
                        } else {
                            flush
                        }
                    } else if ch == '>' {
                        if spec_appropriate(pre) {
                            post == (TkView { state: State::Data, tag: None, ..pre }) && ts
                                =~= seq![TokenV::Tag(pre.tag->0)]
                        } else {
                            flush
                        }
                    } else if spec_ascii_upper_alpha(ch as u32) {
                        post == (TkView {
                            tag: Some(
                                (TagV {
                                    name: pre.tag->0.name.push(spec_lower_char(ch)),
                                    ..pre.tag->0
                                }),
                            ),
                            temp_buf: pre.temp_buf.push(ch),
                            ..pre
                        }) && ts =~= Seq::<TokenV>::empty()
                    } else if spec_ascii_lower_alpha(ch as u32) {
                        post == (TkView {
                            tag: Some((TagV { name: pre.tag->0.name.push(ch), ..pre.tag->0 })),
                            temp_buf: pre.temp_buf.push(ch),
                            ..pre
                        }) && ts =~= Seq::<TokenV>::empty()
                    } else {
                        flush
                    },
                    None => flush,
                }
            }),
    {
        match c {
            Some(ch) => {
                if ascii_whitespace(ch as u32) && self.end_tag_appropriate() {
                    self.state = State::BeforeAttributeName;
                    Self::toks0()
                } else if ch == '/' && self.end_tag_appropriate() {
                    self.state = State::SelfClosingStartTag;
                    Self::toks0()
                } else if ch == '>' && self.end_tag_appropriate() {
                    self.state = State::Data;
                    let t = self.take_tag();
                    Self::toks1(t)
                } else if ascii_upper_alpha(ch as u32) {
                    self.tag_push_name(lower_char(ch));
                    self.temp_push(ch);
                    Self::toks0()
                } else if ascii_lower_alpha(ch as u32) {
                    self.tag_push_name(ch);
                    self.temp_push(ch);
                    Self::toks0()
                } else {
                    self.tag = None;
                    self.state = State::Rawtext;
                    self.reconsume = true;
                    self.flush_lt_solidus_temp()
                }
            },
            None => {
                self.tag = None;
                self.state = State::Rawtext;
                self.reconsume = true;
                self.flush_lt_solidus_temp()
            },
        }
    }
}

} // verus!
