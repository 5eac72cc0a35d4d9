//! Handlers for comments: the markup-declaration-open disambiguation with
//! bounded lookahead, the comment states proper, and bogus comments.

use vstd::prelude::*;
use crate::chars::{lower_vec, vec_eq_str, spec_lower_char, spec_lower_seq};
use crate::cursor::str_to_char_vec;
use crate::parser_detail::ParseHtmlError;
use crate::token::{Comment, State, Token, TokenV, toks};
use crate::tokenizer::{HtmlTokenizer, TkView, step_ok};

verus! {

/// The up-to-six characters of lookahead available after the current one.
pub open spec fn mdo_lookahead(pre: TkView) -> Seq<char> {
    pre.text.subrange(
        pre.pos,
        pre.pos + (if pre.text.len() - pre.pos < 6 {
            pre.text.len() - pre.pos
        } else {
            6int
        }),
    )
}

/// The five characters of lookahead available after the current one.
pub open spec fn keyword_lookahead(pre: TkView) -> Seq<char> {
    pre.text.subrange(
        pre.pos,
        pre.pos + (if pre.text.len() - pre.pos < 5 {
            pre.text.len() - pre.pos
        } else {
            5int
        }),
    )
}

impl HtmlTokenizer {
    /// Markup-declaration-open state, after `<!`: looks ahead to tell
    /// `<!--`, `<!DOCTYPE` and `<![CDATA[` apart, backtracking exactly to
    /// avoid over-consuming on a non-match. A CDATA section in HTML content
    /// is a reported error that degrades to a bogus comment holding the
    /// literal `[CDATA[`.
    pub fn markup_declaration_open(&mut self, c: Option<char>) -> (r: Vec<Token>)
        requires
            old(self).inv(),
            old(self).state == State::MarkupDeclarationOpen,
            !old(self).reconsume,
        ensures
            final(self).inv(),
            step_ok(old(self).vw(), final(self).vw(), c, toks(r@), State::MarkupDeclarationOpen),
            ({
                let pre = old(self).vw();
                let post = final(self).vw();
                let ts = toks(r@);
                let lk = mdo_lookahead(pre);
                let bogus = (TkView {
                    errors: pre.errors.push(ParseHtmlError::IncorrectlyOpenedComment),
                    comment: Some(Seq::<char>::empty()),
                    state: State::BogusComment,
                    reconsume: true,
                    ..pre
                });
                match c {
                    Some(ch) => if ch == '-' && lk.len() >= 1 && lk[0] == '-' {
                        post == (TkView {
                            pos: pre.pos + 1,
                            comment: Some(Seq::<char>::empty()),
                            state: State::CommentStart,
                            ..pre
                        }) && ts =~= Seq::<TokenV>::empty()
                    } else if spec_lower_char(ch) == 'd' && lk.len() == 6 && spec_lower_seq(lk)
                        == "octype"@ {
                        post == (TkView { pos: pre.pos + 6, state: State::Doctype, ..pre }) && ts
                            =~= Seq::<TokenV>::empty()
                    } else if ch == '[' && lk.len() == 6 && lk == "CDATA["@ {
                        post == (TkView {
                            pos: pre.pos + 6,
                            errors: pre.errors.push(ParseHtmlError::CDataInHtmlContext),
                            comment: Some("[CDATA["@),
                            state: State::BogusComment,
                            ..pre
                        }) && ts =~= Seq::<TokenV>::empty()
                    } else {
                        post == bogus && ts =~= Seq::<TokenV>::empty()
                    },
                    None => post == bogus && ts =~= Seq::<TokenV>::empty(),
                }
            }),
    {
        match c {
            Some(ch) => {
                proof {
                    reveal_strlit("octype");
                    reveal_strlit("CDATA[");
                    reveal_strlit("[CDATA[");
                }
                let peek = self.html.read_multiple(6);
                proof {
                    assert(peek@ =~= mdo_lookahead(old(self).vw()));
                }
                let is_dash_dash = ch == '-' && peek.len() >= 1 && peek[0] == '-';
                if is_dash_dash {
                    self.html.backtrack_multiple(peek.len() - 1);
                    self.new_comment();
                    self.state = State::CommentStart;
                    return Self::toks0();
                }
                let lowered = lower_vec(&peek);
                if crate::chars::lower_char(ch) == 'd' && vec_eq_str(&lowered, "octype") {
                    proof {
                        crate::chars::lemma_lower_len(peek@);
                        assert(peek@.len() == 6);
                    }
                    self.state = State::Doctype;
                    return Self::toks0();
                }
                if ch == '[' && vec_eq_str(&peek, "CDATA[") {
                    self.error(ParseHtmlError::CDataInHtmlContext);
                    self.comment = Some(Comment { value: str_to_char_vec("[CDATA[") });
                    self.state = State::BogusComment;
                    proof {
                        vstd::utf8::char_is_scalar(ch);
                    }
                    return Self::toks0();
                }
                self.html.backtrack_multiple(peek.len());
                self.error(ParseHtmlError::IncorrectlyOpenedComment);
                self.new_comment();
                self.state = State::BogusComment;
                self.reconsume = true;
                Self::toks0()
            },
            None => {
                self.error(ParseHtmlError::IncorrectlyOpenedComment);
                self.new_comment();
                self.state = State::BogusComment;
                self.reconsume = true;
                Self::toks0()
            },
        }
    }

    /// Bogus-comment state: everything up to `>` or end of input goes into
    /// the comment, NUL as U+FFFD.
    pub fn bogus_comment(&mut self, c: Option<char>) -> (r: Vec<Token>)
        requires
            old(self).inv(),
            old(self).state == State::BogusComment,
            !old(self).reconsume,
        ensures
            final(self).inv(),
            step_ok(old(self).vw(), final(self).vw(), c, toks(r@), State::BogusComment),
            ({
                let pre = old(self).vw();
                let post = final(self).vw();
                let ts = toks(r@);
                match c {
                    Some(ch) => if ch == '>' {
                        post == (TkView { state: State::Data, comment: None, ..pre }) && ts
                            =~= seq![TokenV::Comment(pre.comment->0)]
                    } else if ch == '\0' {
                        post == (TkView {
                            errors: pre.errors.push(ParseHtmlError::UnexpectedNullCharacter),
                            comment: Some(pre.comment->0.push('\u{FFFD}')),
                            ..pre
                        }) && ts =~= Seq::<TokenV>::empty()
                    } else {
                        post == (TkView { comment: Some(pre.comment->0.push(ch)), ..pre }) && ts
                            =~= Seq::<TokenV>::empty()
                    },
                    None => post == (TkView { comment: None, state: State::Data, ..pre }) && ts
                        =~= seq![TokenV::Comment(pre.comment->0), TokenV::Eof],
                }
            }),
    {
        match c {
            Some('>') => {
                self.state = State::Data;
                let t = self.take_comment();
                Self::toks1(t)
            },
            None => {
                self.state = State::Data;
                let t = self.take_comment();
                Self::toks2(t, Token::Eof)
            },
            Some('\0') => {
                self.error(ParseHtmlError::UnexpectedNullCharacter);
                self.comment_push('\u{FFFD}');
                Self::toks0()
            },
            Some(ch) => {
                self.comment_push(ch);
                Self::toks0()
            },
        }
    }

    /// Comment-start state, after `<!--`.
    pub fn comment_start(&mut self, c: Option<char>) -> (r: Vec<Token>)
        requires
            old(self).inv(),
            old(self).state == State::CommentStart,
            !old(self).reconsume,
        ensures
            final(self).inv(),
            step_ok(old(self).vw(), final(self).vw(), c, toks(r@), State::CommentStart),
            ({
                let pre = old(self).vw();
                let post = final(self).vw();
                let ts = toks(r@);
                match c {
                    Some(ch) => if ch == '-' {
                        post == (TkView { state: State::CommentStartDash, ..pre }) && ts
                            =~= Seq::<TokenV>::empty()
                    } else if ch == '>' {
                        post == (TkView {
                            errors: pre.errors.push(ParseHtmlError::AbruptClosingOfEmptyComment),
                            state: State::Data,
                            comment: None,
                            ..pre
                        }) && ts =~= seq![TokenV::Comment(pre.comment->0)]
                    } else {
                        post == (TkView { state: State::Comment, reconsume: true, ..pre }) && ts
                            =~= Seq::<TokenV>::empty()
                    },
                    None => post == (TkView { state: State::Comment, reconsume: true, ..pre }) && ts
                        =~= Seq::<TokenV>::empty(),
                }
            }),
    {
        match c {
            Some('-') => {
                self.state = State::CommentStartDash;
                Self::toks0()
            },
            Some('>') => {
                self.error(ParseHtmlError::AbruptClosingOfEmptyComment);
                self.state = State::Data;
                let t = self.take_comment();
                Self::toks1(t)
            },
            _ => {
                self.state = State::Comment;
                self.reconsume = true;
                Self::toks0()
            },
        }
    }

    /// Comment-start-dash state, after `<!---`.
    pub fn comment_start_dash(&mut self, c: Option<char>) -> (r: Vec<Token>)
        requires
            old(self).inv(),
            old(self).state == State::CommentStartDash,
            !old(self).reconsume,
        ensures
            final(self).inv(),
            step_ok(old(self).vw(), final(self).vw(), c, toks(r@), State::CommentStartDash),
            ({
                let pre = old(self).vw();
                let post = final(self).vw();
                let ts = toks(r@);
                match c {
                    Some(ch) => if ch == '-' {
                        post == (TkView { state: State::CommentEnd, ..pre }) && ts
                            =~= Seq::<TokenV>::empty()
                    } else if ch == '>' {
                        post == (TkView {
                            errors: pre.errors.push(ParseHtmlError::AbruptClosingOfEmptyComment),
                            state: State::Data,
                            comment: None,
                            ..pre
                        }) && ts =~= seq![TokenV::Comment(pre.comment->0)]
                    } else {
                        post == (TkView {
                            comment: Some(pre.comment->0.push('-')),
                            state: State::Comment,
                            reconsume: true,
                            ..pre
                        }) && ts =~= Seq::<TokenV>::empty()
                    },
                    None => post == (TkView {
                        errors: pre.errors.push(ParseHtmlError::EofInComment),
                        comment: None,
                        state: State::Data,
                        ..pre
                    }) && ts =~= seq![TokenV::Comment(pre.comment->0), TokenV::Eof],
                }
            }),
    {
        match c {
            Some('-') => {
                self.state = State::CommentEnd;
                Self::toks0()
            },
            Some('>') => {
                self.error(ParseHtmlError::AbruptClosingOfEmptyComment);
                self.state = State::Data;
                let t = self.take_comment();
                Self::toks1(t)
            },
            None => {
                self.error(ParseHtmlError::EofInComment);
                self.state = State::Data;
                let t = self.take_comment();
                Self::toks2(t, Token::Eof)
            },
            _ => {
                self.comment_push('-');
                self.state = State::Comment;
                self.reconsume = true;
                Self::toks0()
            },
        }
    }

    /// Comment state: text of the comment; an unterminated comment at end
    /// of input still emits the partial comment.
    pub fn comment(&mut self, c: Option<char>) -> (r: Vec<Token>)
        requires
            old(self).inv(),
            old(self).state == State::Comment,
            !old(self).reconsume,
        ensures
            final(self).inv(),
            step_ok(old(self).vw(), final(self).vw(), c, toks(r@), State::Comment),
            ({
                let pre = old(self).vw();
                let post = final(self).vw();
                let ts = toks(r@);
                match c {
                    Some(ch) => if ch == '<' {
                        post == (TkView {
                            comment: Some(pre.comment->0.push('<')),
                            state: State::CommentLessThanSign,
                            ..pre
                        }) && ts =~= Seq::<TokenV>::empty()
                    } else if ch == '-' {
                        post == (TkView { state: State::CommentEndDash, ..pre }) && ts
                            =~= Seq::<TokenV>::empty()
                    } else if ch == '\0' {
                        post == (TkView {
                            errors: pre.errors.push(ParseHtmlError::UnexpectedNullCharacter),
                            comment: Some(pre.comment->0.push('\u{FFFD}')),
                            ..pre
                        }) && ts =~= Seq::<TokenV>::empty()
                    } else {
                        post == (TkView { comment: Some(pre.comment->0.push(ch)), ..pre }) && ts
                            =~= Seq::<TokenV>::empty()
                    },
                    None => post == (TkView {
                        errors: pre.errors.push(ParseHtmlError::EofInComment),
                        comment: None,
                        state: State::Data,
                        ..pre
                    }) && ts =~= seq![TokenV::Comment(pre.comment->0), TokenV::Eof],
                }
            }),
    {
        match c {
            Some('<') => {
                self.comment_push('<');
                self.state = State::CommentLessThanSign;
                Self::toks0()
            },
            Some('-') => {
                self.state = State::CommentEndDash;
                Self::toks0()
            },
            Some('\0') => {
                self.error(ParseHtmlError::UnexpectedNullCharacter);
                self.comment_push('\u{FFFD}');
                Self::toks0()
            },
            None => {
                self.error(ParseHtmlError::EofInComment);
                self.state = State::Data;
                let t = self.take_comment();
                Self::toks2(t, Token::Eof)
            },
            Some(ch) => {
                self.comment_push(ch);
                Self::toks0()
            },
        }
    }

    /// Comment less-than-sign state, tracking a possible nested `<!--`.
    pub fn comment_less_than_sign(&mut self, c: Option<char>) -> (r: Vec<Token>)
        requires
            old(self).inv(),
            old(self).state == State::CommentLessThanSign,
            !old(self).reconsume,
        ensures
            final(self).inv(),
            step_ok(old(self).vw(), final(self).vw(), c, toks(r@), State::CommentLessThanSign),
            ({
                let pre = old(self).vw();
                let post = final(self).vw();
                let ts = toks(r@);
                match c {
                    Some(ch) => if ch == '!' {
                        post == (TkView {
                            comment: Some(pre.comment->0.push('!')),
                            state: State::CommentLessThanSignBang,
                            ..pre
                        }) && ts =~= Seq::<TokenV>::empty()
                    } else if ch == '<' {
                        post == (TkView { comment: Some(pre.comment->0.push('<')), ..pre }) && ts
                            =~= Seq::<TokenV>::empty()
                    } else {
                        post == (TkView { state: State::Comment, reconsume: true, ..pre }) && ts
                            =~= Seq::<TokenV>::empty()
                    },
                    None => post == (TkView { state: State::Comment, reconsume: true, ..pre }) && ts
                        =~= Seq::<TokenV>::empty(),
                }
            }),
    {
        match c {
            Some('!') => {
                self.comment_push('!');
                self.state = State::CommentLessThanSignBang;
                Self::toks0()
            },
            Some('<') => {
                self.comment_push('<');
                Self::toks0()
            },
            _ => {
                self.state = State::Comment;
                self.reconsume = true;
                Self::toks0()
            },
        }
    }

    /// Comment less-than-sign-bang state.
    pub fn comment_less_than_sign_bang(&mut self, c: Option<char>) -> (r: Vec<Token>)
        requires
            old(self).inv(),
            old(self).state == State::CommentLessThanSignBang,
            !old(self).reconsume,
        ensures
            final(self).inv(),
            step_ok(old(self).vw(), final(self).vw(), c, toks(r@), State::CommentLessThanSignBang),
            ({
                let pre = old(self).vw();
                let post = final(self).vw();
                let ts = toks(r@);
                match c {
                    Some(ch) => if ch == '-' {
                        post == (TkView { state: State::CommentLessThanSignBangDash, ..pre }) && ts
                            =~= Seq::<TokenV>::empty()
                    } else {
                        post == (TkView { state: State::Comment, reconsume: true, ..pre }) && ts
                            =~= Seq::<TokenV>::empty()
                    },
                    None => post == (TkView { state: State::Comment, reconsume: true, ..pre }) && ts
                        =~= Seq::<TokenV>::empty(),
                }
            }),
    {
        match c {
            Some('-') => {
                self.state = State::CommentLessThanSignBangDash;
                Self::toks0()
            },
            _ => {
                self.state = State::Comment;
                self.reconsume = true;
                Self::toks0()
            },
        }
    }

    /// Comment less-than-sign-bang-dash state.
    pub fn comment_less_than_sign_bang_dash(&mut self, c: Option<char>) -> (r: Vec<Token>)
        requires
            old(self).inv(),
            old(self).state == State::CommentLessThanSignBangDash,
            !old(self).reconsume,
        ensures
            final(self).inv(),
            step_ok(
                old(self).vw(),
                final(self).vw(),
                c,
                toks(r@),
                State::CommentLessThanSignBangDash,
            ),
            ({
                let pre = old(self).vw();
                let post = final(self).vw();
                let ts = toks(r@);
                match c {
                    Some(ch) => if ch == '-' {
                        post == (TkView { state: State::CommentLessThanSignBangDashDash, ..pre })
                            && ts =~= Seq::<TokenV>::empty()
                    } else {
                        post == (TkView { state: State::CommentEndDash, reconsume: true, ..pre })
                            && ts =~= Seq::<TokenV>::empty()
                    },
                    None => post == (TkView { state: State::CommentEndDash, reconsume: true, ..pre })
                        && ts =~= Seq::<TokenV>::empty(),
                }
            }),
    {
        match c {
            Some('-') => {
                self.state = State::CommentLessThanSignBangDashDash;
                Self::toks0()
            },
            _ => {
                self.state = State::CommentEndDash;
                self.reconsume = true;
                Self::toks0()
            },
        }
    }

    /// Comment less-than-sign-bang-dash-dash state: a full `<!--` has been
    /// seen inside the comment; anything but `>` or end of input is a
    /// reported nested comment.
    pub fn comment_less_than_sign_bang_dash_dash(&mut self, c: Option<char>) -> (r: Vec<
        Token,
    >)
        requires
            old(self).inv(),
            old(self).state == State::CommentLessThanSignBangDashDash,
            !old(self).reconsume,
        ensures
            final(self).inv(),
            step_ok(
                old(self).vw(),
                final(self).vw(),
                c,
                toks(r@),
                State::CommentLessThanSignBangDashDash,
            ),
            ({
                let pre = old(self).vw();
                let post = final(self).vw();
                let ts = toks(r@);
                match c {
                    Some(ch) => if ch == '>' {
                        post == (TkView { state: State::CommentEnd, reconsume: true, ..pre }) && ts
                            =~= Seq::<TokenV>::empty()
                    } else {
                        post == (TkView {
                            errors: pre.errors.push(ParseHtmlError::NestedComment),
                            state: State::CommentEnd,
                            reconsume: true,
                            ..pre
                        }) && ts =~= Seq::<TokenV>::empty()
                    },
                    None => post == (TkView { state: State::CommentEnd, reconsume: true, ..pre })
                        && ts =~= Seq::<TokenV>::empty(),
                }
            }),
    {
        match c {
            Some('>') => {
                self.state = State::CommentEnd;
                self.reconsume = true;
                Self::toks0()
            },
            None => {
                self.state = State::CommentEnd;
                self.reconsume = true;
                Self::toks0()
            },
            _ => {
                self.error(ParseHtmlError::NestedComment);
                self.state = State::CommentEnd;
                self.reconsume = true;
                Self::toks0()
            },
        }
    }

    /// Comment-end-dash state, after one `-`.
    pub fn comment_end_dash(&mut self, c: Option<char>) -> (r: Vec<Token>)
        requires
            old(self).inv(),
            old(self).state == State::CommentEndDash,
            !old(self).reconsume,
        ensures
            final(self).inv(),
            step_ok(old(self).vw(), final(self).vw(), c, toks(r@), State::CommentEndDash),
            ({
                let pre = old(self).vw();
                let post = final(self).vw();
                let ts = toks(r@);
                match c {
                    Some(ch) => if ch == '-' {
                        post == (TkView { state: State::CommentEnd, ..pre }) && ts
                            =~= Seq::<TokenV>::empty()
                    } else {
                        post == (TkView {
                            comment: Some(pre.comment->0.push('-')),
                            state: State::Comment,
                            reconsume: true,
                            ..pre
                        }) && ts =~= Seq::<TokenV>::empty()
                    },
                    None => post == (TkView {
                        errors: pre.errors.push(ParseHtmlError::EofInComment),
                        comment: None,
                        state: State::Data,
                        ..pre
                    }) && ts =~= seq![TokenV::Comment(pre.comment->0), TokenV::Eof],
                }
            }),
    {
        match c {
            Some('-') => {
                self.state = State::CommentEnd;
                Self::toks0()
            },
            None => {
                self.error(ParseHtmlError::EofInComment);
                self.state = State::Data;
                let t = self.take_comment();
                Self::toks2(t, Token::Eof)
            },
            _ => {
                self.comment_push('-');
                self.state = State::Comment;
                self.reconsume = true;
                Self::toks0()
            },
        }
    }

    /// Comment-end state, after `--`: `>` emits the comment.
    pub fn comment_end(&mut self, c: Option<char>) -> (r: Vec<Token>)
        requires
            old(self).inv(),
            old(self).state == State::CommentEnd,
            !old(self).reconsume,
        ensures
            final(self).inv(),
            step_ok(old(self).vw(), final(self).vw(), c, toks(r@), State::CommentEnd),
            ({
                let pre = old(self).vw();
                let post = final(self).vw();
                let ts = toks(r@);
                match c {
                    Some(ch) => if ch == '>' {
                        post == (TkView { state: State::Data, comment: None, ..pre }) && ts
                            =~= seq![TokenV::Comment(pre.comment->0)]
                    } else if ch == '!' {
                        post == (TkView { state: State::CommentEndBang, ..pre }) && ts
                            =~= Seq::<TokenV>::empty()
                    } else if ch == '-' {
                        post == (TkView { comment: Some(pre.comment->0.push('-')), ..pre }) && ts
                            =~= Seq::<TokenV>::empty()
                    } else {
                        post == (TkView {
                            comment: Some(pre.comment->0.push('-').push('-')),
                            state: State::Comment,
                            reconsume: true,
                            ..pre
                        }) && ts =~= Seq::<TokenV>::empty()
                    },
                    None => post == (TkView {
                        errors: pre.errors.push(ParseHtmlError::EofInComment),
                        comment: None,
                        state: State::Data,
                        ..pre
                    }) && ts =~= seq![TokenV::Comment(pre.comment->0), TokenV::Eof],
                }
            }),
    {
        match c {
            Some('>') => {
                self.state = State::Data;
                let t = self.take_comment();
                Self::toks1(t)
            },
            Some('!') => {
                self.state = State::CommentEndBang;
                Self::toks0()
            },
            Some('-') => {
                self.comment_push('-');
                Self::toks0()
            },
            None => {
                self.error(ParseHtmlError::EofInComment);
                self.state = State::Data;
                let t = self.take_comment();
                Self::toks2(t, Token::Eof)
            },
            _ => {
                self.comment_push('-');
                self.comment_push('-');
                self.state = State::Comment;
                self.reconsume = true;
                Self::toks0()
            },
        }
    }

    /// Comment-end-bang state, after `--!`.
    pub fn comment_end_bang(&mut self, c: Option<char>) -> (r: Vec<Token>)
        requires
            old(self).inv(),
            old(self).state == State::CommentEndBang,
            !old(self).reconsume,
        ensures
            final(self).inv(),
            step_ok(old(self).vw(), final(self).vw(), c, toks(r@), State::CommentEndBang),
            ({
                let pre = old(self).vw();
                let post = final(self).vw();
                let ts = toks(r@);
                match c {
                    Some(ch) => if ch == '-' {
                        post == (TkView {
                            comment: Some(pre.comment->0.push('-').push('-').push('!')),
                            state: State::CommentEndDash,
                            ..pre
                        }) && ts =~= Seq::<TokenV>::empty()
                    } else if ch == '>' {
                        post == (TkView {
                            errors: pre.errors.push(ParseHtmlError::IncorrectlyClosedComment),
                            state: State::Data,
                            comment: None,
                            ..pre
                        }) && ts =~= seq![TokenV::Comment(pre.comment->0)]
                    } else {
                        post == (TkView {
                            comment: Some(pre.comment->0.push('-').push('-').push('!')),
                            state: State::Comment,
                            reconsume: true,
                            ..pre
                        }) && ts =~= Seq::<TokenV>::empty()
                    },
                    None => post == (TkView {
                        errors: pre.errors.push(ParseHtmlError::EofInComment),
                        comment: None,
                        state: State::Data,
                        ..pre
                    }) && ts =~= seq![TokenV::Comment(pre.comment->0), TokenV::Eof],
                }
            }),
    {
        match c {
            Some('-') => {
                self.comment_push('-');
                self.comment_push('-');
                self.comment_push('!');
                self.state = State::CommentEndDash;
                Self::toks0()
            },
            Some('>') => {
                self.error(ParseHtmlError::IncorrectlyClosedComment);
                self.state = State::Data;
                let t = self.take_comment();
                Self::toks1(t)
            },
            None => {
                self.error(ParseHtmlError::EofInComment);
                self.state = State::Data;
                let t = self.take_comment();
                Self::toks2(t, Token::Eof)
            },
            _ => {
                self.comment_push('-');
                self.comment_push('-');
                self.comment_push('!');
                self.state = State::Comment;
                self.reconsume = true;
                Self::toks0()
            },
        }
    }
}

} // verus!
