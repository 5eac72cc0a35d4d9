//! Handlers for the plain text-relay states: data, RCDATA, RAWTEXT, script
//! data, PLAINTEXT, and the CDATA section states.

use vstd::prelude::*;
use crate::parser_detail::ParseHtmlError;
use crate::token::{State, Token, TokenV, toks};
use crate::tokenizer::{HtmlTokenizer, TkView, step_ok};

verus! {

impl HtmlTokenizer {
    /// Data state: relay characters; `&` enters the character-reference
    /// sub-machine, `<` opens a tag, NUL is relayed literally with a
    /// reported error, end of input ends the stream.
    pub fn data(&mut self, c: Option<char>) -> (r: Vec<Token>)
        requires
            old(self).inv(),
            old(self).state == State::Data,
            !old(self).reconsume,
        ensures
            final(self).inv(),
            step_ok(old(self).vw(), final(self).vw(), c, toks(r@), State::Data),
            ({
                let pre = old(self).vw();
                let post = final(self).vw();
                let ts = toks(r@);
                match c {
                    Some(ch) => if ch == '&' {
                        post == (TkView {
                            state: State::CharacterReference,
                            return_state: Some(State::Data),
                            ..pre
                        }) && ts =~= Seq::<TokenV>::empty()
                    } else if ch == '<' {
                        post == (TkView { state: State::TagOpen, ..pre }) && ts
                            =~= Seq::<TokenV>::empty()
                    } else if ch == '\0' {
                        post == (TkView {
                            errors: pre.errors.push(ParseHtmlError::UnexpectedNullCharacter),
                            ..pre
                        }) && ts =~= seq![TokenV::Character('\0')]
                    } else {
                        post == pre && ts =~= seq![TokenV::Character(ch)]
                    },
                    None => post == pre && ts =~= seq![TokenV::Eof],
                }
            }),
    {
        match c {
            Some('&') => {
                self.return_state = Some(State::Data);
                self.state = State::CharacterReference;
                Self::toks0()
            },
            Some('<') => {
                self.state = State::TagOpen;
                Self::toks0()
            },
            Some('\0') => {
                self.error(ParseHtmlError::UnexpectedNullCharacter);
                Self::toks1(Token::Character('\0'))
            },
            None => Self::toks1(Token::Eof),
            Some(ch) => Self::toks1(Token::Character(ch)),
        }
    }

    /// RCDATA state: as the data state, but NUL becomes U+FFFD.
    pub fn rcdata(&mut self, c: Option<char>) -> (r: Vec<Token>)
        requires
            old(self).inv(),
            old(self).state == State::Rcdata,
            !old(self).reconsume,
        ensures
            final(self).inv(),
            step_ok(old(self).vw(), final(self).vw(), c, toks(r@), State::Rcdata),
            ({
                let pre = old(self).vw();
                let post = final(self).vw();
                let ts = toks(r@);
                match c {
                    Some(ch) => if ch == '&' {
                        post == (TkView {
                            state: State::CharacterReference,
                            return_state: Some(State::Rcdata),
                            ..pre
                        }) && ts =~= Seq::<TokenV>::empty()
                    } else if ch == '<' {
                        post == (TkView { state: State::RcdataLessThanSign, ..pre }) && ts
                            =~= Seq::<TokenV>::empty()
                    } else if ch == '\0' {
                        post == (TkView {
                            errors: pre.errors.push(ParseHtmlError::UnexpectedNullCharacter),
                            ..pre
                        }) && ts =~= seq![TokenV::Character('\u{FFFD}')]
                    } else {
                        post == pre && ts =~= seq![TokenV::Character(ch)]
                    },
                    None => post == pre && ts =~= seq![TokenV::Eof],
                }
            }),
    {
        match c {
            Some('&') => {
                self.return_state = Some(State::Rcdata);
                self.state = State::CharacterReference;
                Self::toks0()
            },
            Some('<') => {
                self.state = State::RcdataLessThanSign;
                Self::toks0()
            },
            Some('\0') => {
                self.error(ParseHtmlError::UnexpectedNullCharacter);
                Self::toks1(Token::Character('\u{FFFD}'))
            },
            None => Self::toks1(Token::Eof),
            Some(ch) => Self::toks1(Token::Character(ch)),
        }
    }

    /// RAWTEXT state: relay; `<` may open an end tag; NUL becomes U+FFFD.
    pub fn rawtext(&mut self, c: Option<char>) -> (r: Vec<Token>)
        requires
            old(self).inv(),
            old(self).state == State::Rawtext,
            !old(self).reconsume,
        ensures
            final(self).inv(),
            step_ok(old(self).vw(), final(self).vw(), c, toks(r@), State::Rawtext),
            ({
                let pre = old(self).vw();
                let post = final(self).vw();
                let ts = toks(r@);
                match c {
                    Some(ch) => if ch == '<' {
                        post == (TkView { state: State::RawtextLessThanSign, ..pre }) && ts
                            =~= Seq::<TokenV>::empty()
                    } else if ch == '\0' {
                        post == (TkView {
                            errors: pre.errors.push(ParseHtmlError::UnexpectedNullCharacter),
                            ..pre
                        }) && ts =~= seq![TokenV::Character('\u{FFFD}')]
                    } else {
                        post == pre && ts =~= seq![TokenV::Character(ch)]
                    },
                    None => post == pre && ts =~= seq![TokenV::Eof],
                }
            }),
    {
        match c {
            Some('<') => {
                self.state = State::RawtextLessThanSign;
                Self::toks0()
            },
            Some('\0') => {
                self.error(ParseHtmlError::UnexpectedNullCharacter);
                Self::toks1(Token::Character('\u{FFFD}'))
            },
            None => Self::toks1(Token::Eof),
            Some(ch) => Self::toks1(Token::Character(ch)),
        }
    }

    /// Script data state: relay; `<` may open script end-tag or escape
    /// handling; NUL becomes U+FFFD.
    pub fn script_data(&mut self, c: Option<char>) -> (r: Vec<Token>)
        requires
            old(self).inv(),
            old(self).state == State::ScriptData,
            !old(self).reconsume,
        ensures
            final(self).inv(),
            step_ok(old(self).vw(), final(self).vw(), c, toks(r@), State::ScriptData),
            ({
                let pre = old(self).vw();
                let post = final(self).vw();
                let ts = toks(r@);
                match c {
                    Some(ch) => if ch == '<' {
                        post == (TkView { state: State::ScriptDataLessThanSign, ..pre }) && ts
                            =~= Seq::<TokenV>::empty()
                    } else if ch == '\0' {
                        post == (TkView {
                            errors: pre.errors.push(ParseHtmlError::UnexpectedNullCharacter),
                            ..pre
                        }) && ts =~= seq![TokenV::Character('\u{FFFD}')]
                    } else {
                        post == pre && ts =~= seq![TokenV::Character(ch)]
                    },
                    None => post == pre && ts =~= seq![TokenV::Eof],
                }
            }),
    {
        match c {
            Some('<') => {
                self.state = State::ScriptDataLessThanSign;
                Self::toks0()
            },
            Some('\0') => {
                self.error(ParseHtmlError::UnexpectedNullCharacter);
                Self::toks1(Token::Character('\u{FFFD}'))
            },
            None => Self::toks1(Token::Eof),
            Some(ch) => Self::toks1(Token::Character(ch)),
        }
    }

    /// PLAINTEXT state: relay everything; NUL becomes U+FFFD.
    pub fn plaintext(&mut self, c: Option<char>) -> (r: Vec<Token>)
        requires
            old(self).inv(),
            old(self).state == State::Plaintext,
            !old(self).reconsume,
        ensures
            final(self).inv(),
            step_ok(old(self).vw(), final(self).vw(), c, toks(r@), State::Plaintext),
            ({
                let pre = old(self).vw();
                let post = final(self).vw();
                let ts = toks(r@);
                match c {
                    Some(ch) => if ch == '\0' {
                        post == (TkView {
                            errors: pre.errors.push(ParseHtmlError::UnexpectedNullCharacter),
                            ..pre
                        }) && ts =~= seq![TokenV::Character('\u{FFFD}')]
                    } else {
                        post == pre && ts =~= seq![TokenV::Character(ch)]
                    },
                    None => post == pre && ts =~= seq![TokenV::Eof],
                }
            }),
    {
        match c {
            Some('\0') => {
                self.error(ParseHtmlError::UnexpectedNullCharacter);
                Self::toks1(Token::Character('\u{FFFD}'))
            },
            None => Self::toks1(Token::Eof),
            Some(ch) => Self::toks1(Token::Character(ch)),
        }
    }

    /// CDATA section state: relay verbatim until `]]>`.
    pub fn cdata_section(&mut self, c: Option<char>) -> (r: Vec<Token>)
        requires
            old(self).inv(),
            old(self).state == State::CdataSection,
            !old(self).reconsume,
        ensures
            final(self).inv(),
            step_ok(old(self).vw(), final(self).vw(), c, toks(r@), State::CdataSection),
            ({
                let pre = old(self).vw();
                let post = final(self).vw();
                let ts = toks(r@);
                match c {
                    Some(ch) => if ch == ']' {
                        post == (TkView { state: State::CdataSectionBracket, ..pre }) && ts
                            =~= Seq::<TokenV>::empty()
                    } else {
                        post == pre && ts =~= seq![TokenV::Character(ch)]
                    },
                    None => post == (TkView {
                        errors: pre.errors.push(ParseHtmlError::EofInCData),
                        ..pre
                    }) && ts =~= seq![TokenV::Eof],
                }
            }),
    {
        match c {
            Some(']') => {
                self.state = State::CdataSectionBracket;
                Self::toks0()
            },
            None => {
                self.error(ParseHtmlError::EofInCData);
                Self::toks1(Token::Eof)
            },
            Some(ch) => Self::toks1(Token::Character(ch)),
        }
    }

    /// CDATA bracket state: a second `]` may begin the close marker; anything
    /// else flushes the lone `]` and is reconsumed.
    pub fn cdata_section_bracket(&mut self, c: Option<char>) -> (r: Vec<Token>)
        requires
            old(self).inv(),
            old(self).state == State::CdataSectionBracket,
            !old(self).reconsume,
        ensures
            final(self).inv(),
            step_ok(old(self).vw(), final(self).vw(), c, toks(r@), State::CdataSectionBracket),
            ({
                let pre = old(self).vw();
                let post = final(self).vw();
                let ts = toks(r@);
                match c {
                    Some(ch) => if ch == ']' {
                        post == (TkView { state: State::CdataSectionEnd, ..pre }) && ts
                            =~= Seq::<TokenV>::empty()
                    } else {
                        post == (TkView { state: State::CdataSection, reconsume: true, ..pre })
                            && ts =~= seq![TokenV::Character(']')]
                    },
                    None => post == (TkView { state: State::CdataSection, reconsume: true, ..pre })
                        && ts =~= seq![TokenV::Character(']')],
                }
            }),
    {
        match c {
            Some(']') => {
                self.state = State::CdataSectionEnd;
                Self::toks0()
            },
            _ => {
                self.state = State::CdataSection;
                self.reconsume = true;
                Self::toks1(Token::Character(']'))
            },
        }
    }

    /// CDATA end state: `>` closes the section, `]` flushes one `]`, anything
    /// else flushes `]]` and is reconsumed.
    pub fn cdata_section_end(&mut self, c: Option<char>) -> (r: Vec<Token>)
        requires
            old(self).inv(),
            old(self).state == State::CdataSectionEnd,
            !old(self).reconsume,
        ensures
            final(self).inv(),
            step_ok(old(self).vw(), final(self).vw(), c, toks(r@), State::CdataSectionEnd),
            ({
                let pre = old(self).vw();
                let post = final(self).vw();
                let ts = toks(r@);
                match c {
                    Some(ch) => if ch == ']' {
                        post == pre && ts =~= seq![TokenV::Character(']')]
                    } else if ch == '>' {
                        post == (TkView { state: State::Data, ..pre }) && ts
                            =~= Seq::<TokenV>::empty()
                    } else {
                        post == (TkView { state: State::CdataSection, reconsume: true, ..pre })
                            && ts =~= seq![TokenV::Character(']'), TokenV::Character(']')]
                    },
                    None => post == (TkView { state: State::CdataSection, reconsume: true, ..pre })
                        && ts =~= seq![TokenV::Character(']'), TokenV::Character(']')],
                }
            }),
    {
        match c {
            Some(']') => Self::toks1(Token::Character(']')),
            Some('>') => {
                self.state = State::Data;
                Self::toks0()
            },
            _ => {
                self.state = State::CdataSection;
                self.reconsume = true;
                Self::toks2(Token::Character(']'), Token::Character(']'))
            },
        }
    }
}

} // verus!
