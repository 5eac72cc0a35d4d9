//! Handlers for the doctype states: name, public and system identifiers
//! are built incrementally, and any malformed sequence sets the
//! force-quirks flag on the emitted token.

use vstd::prelude::*;
use crate::chars::{lower_char, lower_vec, vec_eq_str, spec_lower_char, spec_lower_seq};
use crate::code_point::{ascii_upper_alpha, ascii_whitespace, spec_ascii_upper_alpha,
    spec_ascii_whitespace};
use crate::parser_detail::ParseHtmlError;
use crate::token::{State, Token, TokenV, Doctype, DoctypeV, toks, opt_chars_pushed};
use crate::tokenizer::{HtmlTokenizer, TkView, step_ok, fresh_doctype};
use crate::tokenizer_comment::keyword_lookahead;

verus! {

/// A blank doctype with the force-quirks flag set, as emitted when the
/// declaration breaks off before any name.
pub open spec fn quirks_doctype() -> DoctypeV {
    DoctypeV { force_quirks: true, name: None, public_id: None, system_id: None }
}

impl HtmlTokenizer {
    /// A freshly built doctype token with only the force-quirks flag set.
    pub(crate) fn blank_quirks_doctype() -> (t: Token)
        ensures
            t@ == TokenV::Doctype(quirks_doctype()),
    {
        Token::Doctype(Doctype { force_quirks: true, name: None, public_id: None, system_id: None })
    }

    /// Doctype state, after `<!DOCTYPE`.
    pub fn doctype(&mut self, c: Option<char>) -> (r: Vec<Token>)
        requires
            old(self).inv(),
            old(self).state == State::Doctype,
            !old(self).reconsume,
        ensures
            final(self).inv(),
            step_ok(old(self).vw(), final(self).vw(), c, toks(r@), State::Doctype),
            ({
                let pre = old(self).vw();
                let post = final(self).vw();
                let ts = toks(r@);
                match c {
                    Some(ch) => if spec_ascii_whitespace(ch as u32) {
                        post == (TkView { state: State::BeforeDoctypeName, ..pre }) && ts
                            =~= Seq::<TokenV>::empty()
                    } else if ch == '>' {
                        post == (TkView { state: State::BeforeDoctypeName, reconsume: true, ..pre })
                            && ts =~= Seq::<TokenV>::empty()
                    } else {
                        post == (TkView {
                            errors: pre.errors.push(
                                ParseHtmlError::MissingWhitespaceBeforeDoctypeName,
                            ),
                            state: State::BeforeDoctypeName,
                            reconsume: true,
                            ..pre
                        }) && ts =~= Seq::<TokenV>::empty()
                    },
                    None => post == (TkView {
                        errors: pre.errors.push(ParseHtmlError::EofInDoctype),
                        ..pre
                    }) && ts =~= seq![TokenV::Doctype(quirks_doctype()), TokenV::Eof],
                }
            }),
    {
        match c {
            Some('>') => {
                self.state = State::BeforeDoctypeName;
                self.reconsume = true;
                Self::toks0()
            },
            None => {
                self.error(ParseHtmlError::EofInDoctype);
                Self::toks2(Self::blank_quirks_doctype(), Token::Eof)
            },
            Some(ch) => {
                if ascii_whitespace(ch as u32) {
                    self.state = State::BeforeDoctypeName;
                    Self::toks0()
                } else {
                    self.error(ParseHtmlError::MissingWhitespaceBeforeDoctypeName);
                    self.state = State::BeforeDoctypeName;
                    self.reconsume = true;
                    Self::toks0()
                }
            },
        }
    }

    /// Before-doctype-name state: the first name character opens the
    /// doctype builder; `>` alone forces quirks.
    pub fn before_doctype_name(&mut self, c: Option<char>) -> (r: Vec<Token>)
        requires
            old(self).inv(),
            old(self).state == State::BeforeDoctypeName,
            !old(self).reconsume,
        ensures
            final(self).inv(),
            step_ok(old(self).vw(), final(self).vw(), c, toks(r@), State::BeforeDoctypeName),
            ({
                let pre = old(self).vw();
                let post = final(self).vw();
                let ts = toks(r@);
                match c {
                    Some(ch) => if spec_ascii_whitespace(ch as u32) {
                        post == pre && ts =~= Seq::<TokenV>::empty()
                    } else if ch == '>' {
                        post == (TkView {
                            errors: pre.errors.push(ParseHtmlError::MissingDoctypeName),
                            state: State::Data,
                            ..pre
                        }) && ts =~= seq![TokenV::Doctype(quirks_doctype())]
                    } else {
                        post == (TkView {
                            errors: (if ch == '\0' {
                                pre.errors.push(ParseHtmlError::UnexpectedNullCharacter)
                            } else {
                                pre.errors
                            }),
                            doctype: Some(
                                (DoctypeV {
                                    name: Some(
                                        seq![
                                            (if spec_ascii_upper_alpha(ch as u32) {
                                                spec_lower_char(ch)
                                            } else if ch == '\0' {
                                                '\u{FFFD}'
                                            } else {
                                                ch
                                            }),
                                        ],
                                    ),
                                    ..fresh_doctype()
                                }),
                            ),
                            state: State::DoctypeName,
                            ..pre
                        }) && ts =~= Seq::<TokenV>::empty()
                    },
                    None => post == (TkView {
                        errors: pre.errors.push(ParseHtmlError::EofInDoctype),
                        ..pre
                    }) && ts =~= seq![TokenV::Doctype(quirks_doctype()), TokenV::Eof],
                }
            }),
    {
        match c {
            Some('>') => {
                self.error(ParseHtmlError::MissingDoctypeName);
                self.state = State::Data;
                Self::toks1(Self::blank_quirks_doctype())
            },
            None => {
                self.error(ParseHtmlError::EofInDoctype);
                Self::toks2(Self::blank_quirks_doctype(), Token::Eof)
            },
            Some(ch) => {
                if ascii_whitespace(ch as u32) {
                    Self::toks0()
                } else if ascii_upper_alpha(ch as u32) {
                    self.new_doctype();
                    self.doctype_push_name(lower_char(ch));
                    self.state = State::DoctypeName;
                    Self::toks0()
                } else if ch == '\0' {
                    self.error(ParseHtmlError::UnexpectedNullCharacter);
                    self.new_doctype();
                    self.doctype_push_name('\u{FFFD}');
                    self.state = State::DoctypeName;
                    Self::toks0()
                } else {
                    self.new_doctype();
                    self.doctype_push_name(ch);
                    self.state = State::DoctypeName;
                    Self::toks0()
                }
            },
        }
    }

    /// Doctype-name state: builds the name with case folding; `>` emits.
    pub fn doctype_name(&mut self, c: Option<char>) -> (r: Vec<Token>)
        requires
            old(self).inv(),
            old(self).state == State::DoctypeName,
            !old(self).reconsume,
        ensures
            final(self).inv(),
            step_ok(old(self).vw(), final(self).vw(), c, toks(r@), State::DoctypeName),
            ({
                let pre = old(self).vw();
                let post = final(self).vw();
                let ts = toks(r@);
                match c {
                    Some(ch) => if spec_ascii_whitespace(ch as u32) {
                        post == (TkView { state: State::AfterDoctypeName, ..pre }) && ts
                            =~= Seq::<TokenV>::empty()
                    } else if ch == '>' {
                        post == (TkView { state: State::Data, doctype: None, ..pre }) && ts
                            =~= seq![TokenV::Doctype(pre.doctype->0)]
                    } else {
                        post == (TkView {
                            errors: (if ch == '\0' {
                                pre.errors.push(ParseHtmlError::UnexpectedNullCharacter)
                            } else {
                                pre.errors
                            }),
                            doctype: Some(
                                (DoctypeV {
                                    name: opt_chars_pushed(
                                        pre.doctype->0.name,
                                        (if spec_ascii_upper_alpha(ch as u32) {
                                            spec_lower_char(ch)
                                        } else if ch == '\0' {
                                            '\u{FFFD}'
                                        } else {
                                            ch
                                        }),
                                    ),
                                    ..pre.doctype->0
                                }),
                            ),
                            ..pre
                        }) && ts =~= Seq::<TokenV>::empty()
                    },
                    None => post == (TkView {
                        errors: pre.errors.push(ParseHtmlError::EofInDoctype),
                        doctype: None,
                        state: State::Data,
                        ..pre
                    }) && ts =~= seq![
                        TokenV::Doctype((DoctypeV { force_quirks: true, ..pre.doctype->0 })),
                        TokenV::Eof,
                    ],
                }
            }),
    {
        match c {
            Some('>') => {
                self.state = State::Data;
                let t = self.take_doctype();
                Self::toks1(t)
            },
            None => {
                self.error(ParseHtmlError::EofInDoctype);
                self.doctype_quirks();
                self.state = State::Data;
                let t = self.take_doctype();
                Self::toks2(t, Token::Eof)
            },
            Some(ch) => {
                if ascii_whitespace(ch as u32) {
                    self.state = State::AfterDoctypeName;
                    Self::toks0()
                } else if ascii_upper_alpha(ch as u32) {
                    self.doctype_push_name(lower_char(ch));
                    Self::toks0()
                } else if ch == '\0' {
                    self.error(ParseHtmlError::UnexpectedNullCharacter);
                    self.doctype_push_name('\u{FFFD}');
                    Self::toks0()
                } else {
                    self.doctype_push_name(ch);
                    Self::toks0()
                }
            },
        }
    }

    /// After-doctype-name state: looks ahead for the `PUBLIC` or `SYSTEM`
    /// keyword, backtracking exactly on a non-match.
    pub fn after_doctype_name(&mut self, c: Option<char>) -> (r: Vec<Token>)
        requires
            old(self).inv(),
            old(self).state == State::AfterDoctypeName,
            !old(self).reconsume,
        ensures
            final(self).inv(),
            step_ok(old(self).vw(), final(self).vw(), c, toks(r@), State::AfterDoctypeName),
            ({
                let pre = old(self).vw();
                let post = final(self).vw();
                let ts = toks(r@);
                let lk = keyword_lookahead(pre);
                let bogus = (TkView {
                    errors: pre.errors.push(
                        ParseHtmlError::InvalidCharacterSequenceAfterDoctypeName,
                    ),
                    doctype: Some((DoctypeV { force_quirks: true, ..pre.doctype->0 })),
                    state: State::BogusDoctype,
                    reconsume: true,
                    ..pre
                });
                match c {
                    Some(ch) => if spec_ascii_whitespace(ch as u32) {
                        post == pre && ts =~= Seq::<TokenV>::empty()
                    } else if ch == '>' {
                        post == (TkView { state: State::Data, doctype: None, ..pre }) && ts
                            =~= seq![TokenV::Doctype(pre.doctype->0)]
                    } else if spec_lower_char(ch) == 'p' && lk.len() == 5 && spec_lower_seq(lk)
                        == "ublic"@ {
                        post == (TkView {
                            pos: pre.pos + 5,
                            state: State::AfterDoctypePublicKeyword,
                            ..pre
                        }) && ts =~= Seq::<TokenV>::empty()
                    } else if spec_lower_char(ch) == 's' && lk.len() == 5 && spec_lower_seq(lk)
                        == "ystem"@ {
                        post == (TkView {
                            pos: pre.pos + 5,
                            state: State::AfterDoctypeSystemKeyword,
                            ..pre
                        }) && ts =~= Seq::<TokenV>::empty()
                    } else {
                        post == bogus && ts =~= Seq::<TokenV>::empty()
                    },
                    None => post == (TkView {
                        errors: pre.errors.push(ParseHtmlError::EofInDoctype),
                        doctype: None,
                        state: State::Data,
                        ..pre
                    }) && ts =~= seq![
                        TokenV::Doctype((DoctypeV { force_quirks: true, ..pre.doctype->0 })),
                        TokenV::Eof,
                    ],
                }
            }),
    {
        match c {
            None => {
                self.error(ParseHtmlError::EofInDoctype);
                self.doctype_quirks();
                self.state = State::Data;
                let t = self.take_doctype();
                Self::toks2(t, Token::Eof)
            },
            Some('>') => {
                self.state = State::Data;
                let t = self.take_doctype();
                Self::toks1(t)
            },
            Some(ch) => {
                if ascii_whitespace(ch as u32) {
                    return Self::toks0();
                }
                proof {
                    reveal_strlit("ublic");
                    reveal_strlit("ystem");
                }
                let peek = self.html.read_multiple(5);
                proof {
                    assert(peek@ =~= keyword_lookahead(old(self).vw()));
                }
                let lowered = lower_vec(&peek);
                if lower_char(ch) == 'p' && vec_eq_str(&lowered, "ublic") {
                    proof {
                        crate::chars::lemma_lower_len(peek@);
                        assert(peek@.len() == 5);
                    }
                    self.state = State::AfterDoctypePublicKeyword;
                    return Self::toks0();
                }
                if lower_char(ch) == 's' && vec_eq_str(&lowered, "ystem") {
                    proof {
                        crate::chars::lemma_lower_len(peek@);
                        assert(peek@.len() == 5);
                    }
                    self.state = State::AfterDoctypeSystemKeyword;
                    return Self::toks0();
                }
                self.html.backtrack_multiple(peek.len());
                self.error(ParseHtmlError::InvalidCharacterSequenceAfterDoctypeName);
                self.doctype_quirks();
                self.state = State::BogusDoctype;
                self.reconsume = true;
                Self::toks0()
            },
        }
    }

    /// After the `PUBLIC` keyword.
    pub fn after_doctype_public_keyword(&mut self, c: Option<char>) -> (r: Vec<Token>)
        requires
            old(self).inv(),
            old(self).state == State::AfterDoctypePublicKeyword,
            !old(self).reconsume,
        ensures
            final(self).inv(),
            step_ok(
                old(self).vw(),
                final(self).vw(),
                c,
                toks(r@),
                State::AfterDoctypePublicKeyword,
            ),
            ({
                let pre = old(self).vw();
                let post = final(self).vw();
                let ts = toks(r@);
                match c {
                    Some(ch) => if spec_ascii_whitespace(ch as u32) {
                        post == (TkView { state: State::BeforeDoctypePublicIdentifier, ..pre })
                            && ts =~= Seq::<TokenV>::empty()
                    } else if ch == '"' {
                        post == (TkView {
                            errors: pre.errors.push(
                                ParseHtmlError::MissingWhitespaceAfterDoctypePublicKeyword,
                            ),
                            doctype: Some(
                                (DoctypeV {
                                    public_id: Some(Seq::<char>::empty()),
                                    ..pre.doctype->0
                                }),
                            ),
                            state: State::DoctypePublicIdentifierDoubleQuoted,
                            ..pre
                        }) && ts =~= Seq::<TokenV>::empty()
                    } else if ch == '\'' {
                        post == (TkView {
                            errors: pre.errors.push(
                                ParseHtmlError::MissingWhitespaceAfterDoctypePublicKeyword,
                            ),
                            doctype: Some(
                                (DoctypeV {
                                    public_id: Some(Seq::<char>::empty()),
                                    ..pre.doctype->0
                                }),
                            ),
                            state: State::DoctypePublicIdentifierSingleQuoted,
                            ..pre
                        }) && ts =~= Seq::<TokenV>::empty()
                    } else if ch == '>' {
                        post == (TkView {
                            errors: pre.errors.push(ParseHtmlError::MissingDoctypePublicIdentifier),
                            state: State::Data,
                            doctype: None,
                            ..pre
                        }) && ts =~= seq![
                            TokenV::Doctype((DoctypeV { force_quirks: true, ..pre.doctype->0 })),
                        ]
                    } else {
                        post == (TkView {
                            errors: pre.errors.push(
                                ParseHtmlError::MissingQuoteBeforeDoctypePublicIdentifier,
                            ),
                            doctype: Some((DoctypeV { force_quirks: true, ..pre.doctype->0 })),
                            state: State::BogusDoctype,
                            reconsume: true,
                            ..pre
                        }) && ts =~= Seq::<TokenV>::empty()
                    },
                    None => post == (TkView {
                        errors: pre.errors.push(ParseHtmlError::EofInDoctype),
                        doctype: None,
                        state: State::Data,
                        ..pre
                    }) && ts =~= seq![
                        TokenV::Doctype((DoctypeV { force_quirks: true, ..pre.doctype->0 })),
                        TokenV::Eof,
                    ],
                }
            }),
    {
        match c {
            Some('"') => {
                self.error(ParseHtmlError::MissingWhitespaceAfterDoctypePublicKeyword);
                self.doctype_empty_public();
                self.state = State::DoctypePublicIdentifierDoubleQuoted;
                Self::toks0()
            },
            Some('\'') => {
                self.error(ParseHtmlError::MissingWhitespaceAfterDoctypePublicKeyword);
                self.doctype_empty_public();
                self.state = State::DoctypePublicIdentifierSingleQuoted;
                Self::toks0()
            },
            Some('>') => {
                self.error(ParseHtmlError::MissingDoctypePublicIdentifier);
                self.doctype_quirks();
                self.state = State::Data;
                let t = self.take_doctype();
                Self::toks1(t)
            },
            None => {
                self.error(ParseHtmlError::EofInDoctype);
                self.doctype_quirks();
                self.state = State::Data;
                let t = self.take_doctype();
                Self::toks2(t, Token::Eof)
            },
            Some(ch) => {
                if ascii_whitespace(ch as u32) {
                    self.state = State::BeforeDoctypePublicIdentifier;
                    Self::toks0()
                } else {
                    self.error(ParseHtmlError::MissingQuoteBeforeDoctypePublicIdentifier);
                    self.doctype_quirks();
                    self.state = State::BogusDoctype;
                    self.reconsume = true;
                    Self::toks0()
                }
            },
        }
    }

    /// Before the public identifier.
    pub fn before_doctype_public_identifier(&mut self, c: Option<char>) -> (r: Vec<Token>)
        requires
            old(self).inv(),
            old(self).state == State::BeforeDoctypePublicIdentifier,
            !old(self).reconsume,
        ensures
            final(self).inv(),
            step_ok(
                old(self).vw(),
                final(self).vw(),
                c,
                toks(r@),
                State::BeforeDoctypePublicIdentifier,
            ),
            ({
                let pre = old(self).vw();
                let post = final(self).vw();
                let ts = toks(r@);
                match c {
                    Some(ch) => if spec_ascii_whitespace(ch as u32) {
                        post == pre && ts =~= Seq::<TokenV>::empty()
                    } else if ch == '"' {
                        post == (TkView {
                            doctype: Some(
                                (DoctypeV {
                                    public_id: Some(Seq::<char>::empty()),
                                    ..pre.doctype->0
                                }),
                            ),
                            state: State::DoctypePublicIdentifierDoubleQuoted,
                            ..pre
                        }) && ts =~= Seq::<TokenV>::empty()
                    } else if ch == '\'' {
                        post == (TkView {
                            doctype: Some(
                                (DoctypeV {
                                    public_id: Some(Seq::<char>::empty()),
                                    ..pre.doctype->0
                                }),
                            ),
                            state: State::DoctypePublicIdentifierSingleQuoted,
                            ..pre
                        }) && ts =~= Seq::<TokenV>::empty()
                    } else if ch == '>' {
                        post == (TkView {
                            errors: pre.errors.push(ParseHtmlError::MissingDoctypePublicIdentifier),
                            state: State::Data,
                            doctype: None,
                            ..pre
                        }) && ts =~= seq![
                            TokenV::Doctype((DoctypeV { force_quirks: true, ..pre.doctype->0 })),
                        ]
                    } else {
                        post == (TkView {
                            errors: pre.errors.push(
                                ParseHtmlError::MissingQuoteBeforeDoctypePublicIdentifier,
                            ),
                            doctype: Some((DoctypeV { force_quirks: true, ..pre.doctype->0 })),
                            state: State::BogusDoctype,
                            reconsume: true,
                            ..pre
                        }) && ts =~= Seq::<TokenV>::empty()
                    },
                    None => post == (TkView {
                        errors: pre.errors.push(ParseHtmlError::EofInDoctype),
                        doctype: None,
                        state: State::Data,
                        ..pre
                    }) && ts =~= seq![
                        TokenV::Doctype((DoctypeV { force_quirks: true, ..pre.doctype->0 })),
                        TokenV::Eof,
                    ],
                }
            }),
    {
        match c {
            Some('"') => {
                self.doctype_empty_public();
                self.state = State::DoctypePublicIdentifierDoubleQuoted;
                Self::toks0()
            },
            Some('\'') => {
                self.doctype_empty_public();
                self.state = State::DoctypePublicIdentifierSingleQuoted;
                Self::toks0()
            },
            Some('>') => {
                self.error(ParseHtmlError::MissingDoctypePublicIdentifier);
                self.doctype_quirks();
                self.state = State::Data;
                let t = self.take_doctype();
                Self::toks1(t)
            },
            None => {
                self.error(ParseHtmlError::EofInDoctype);
                self.doctype_quirks();
                self.state = State::Data;
                let t = self.take_doctype();
                Self::toks2(t, Token::Eof)
            },
            Some(ch) => {
                if ascii_whitespace(ch as u32) {
                    Self::toks0()
                } else {
                    self.error(ParseHtmlError::MissingQuoteBeforeDoctypePublicIdentifier);
                    self.doctype_quirks();
                    self.state = State::BogusDoctype;
                    self.reconsume = true;
                    Self::toks0()
                }
            },
        }
    }

    /// Double-quoted public identifier.
    pub fn doctype_public_identifier_double_quoted(&mut self, c: Option<char>) -> (r: Vec<
        Token,
    >)
        requires
            old(self).inv(),
            old(self).state == State::DoctypePublicIdentifierDoubleQuoted,
            !old(self).reconsume,
        ensures
            final(self).inv(),
            step_ok(
                old(self).vw(),
                final(self).vw(),
                c,
                toks(r@),
                State::DoctypePublicIdentifierDoubleQuoted,
            ),
            ({
                let pre = old(self).vw();
                let post = final(self).vw();
                let ts = toks(r@);
                match c {
                    Some(ch) => if ch == '"' {
                        post == (TkView { state: State::AfterDoctypePublicIdentifier, ..pre })
                            && ts =~= Seq::<TokenV>::empty()
                    } else if ch == '\0' {
                        post == (TkView {
                            errors: pre.errors.push(ParseHtmlError::UnexpectedNullCharacter),
                            doctype: Some(
                                (DoctypeV {
                                    public_id: opt_chars_pushed(
                                        pre.doctype->0.public_id,
                                        '\u{FFFD}',
                                    ),
                                    ..pre.doctype->0
                                }),
                            ),
                            ..pre
                        }) && ts =~= Seq::<TokenV>::empty()
                    } else if ch == '>' {
                        post == (TkView {
                            errors: pre.errors.push(ParseHtmlError::AbruptDoctypePublicIdentifier),
                            state: State::Data,
                            doctype: None,
                            ..pre
                        }) && ts =~= seq![
                            TokenV::Doctype((DoctypeV { force_quirks: true, ..pre.doctype->0 })),
                        ]
                    } else {
                        post == (TkView {
                            doctype: Some(
                                (DoctypeV {
                                    public_id: opt_chars_pushed(pre.doctype->0.public_id, ch),
                                    ..pre.doctype->0
                                }),
                            ),
                            ..pre
                        }) && ts =~= Seq::<TokenV>::empty()
                    },
                    None => post == (TkView {
                        errors: pre.errors.push(ParseHtmlError::EofInDoctype),
                        doctype: None,
                        state: State::Data,
                        ..pre
                    }) && ts =~= seq![
                        TokenV::Doctype((DoctypeV { force_quirks: true, ..pre.doctype->0 })),
                        TokenV::Eof,
                    ],
                }
            }),
    {
        match c {
            Some('"') => {
                self.state = State::AfterDoctypePublicIdentifier;
                Self::toks0()
            },
            Some('\0') => {
                self.error(ParseHtmlError::UnexpectedNullCharacter);
                self.doctype_push_public('\u{FFFD}');
                Self::toks0()
            },
            Some('>') => {
                self.error(ParseHtmlError::AbruptDoctypePublicIdentifier);
                self.doctype_quirks();
                self.state = State::Data;
                let t = self.take_doctype();
                Self::toks1(t)
            },
            None => {
                self.error(ParseHtmlError::EofInDoctype);
                self.doctype_quirks();
                self.state = State::Data;
                let t = self.take_doctype();
                Self::toks2(t, Token::Eof)
            },
            Some(ch) => {
                self.doctype_push_public(ch);
                Self::toks0()
            },
        }
    }

    /// Single-quoted public identifier.
    pub fn doctype_public_identifier_single_quoted(&mut self, c: Option<char>) -> (r: Vec<
        Token,
    >)
        requires
            old(self).inv(),
            old(self).state == State::DoctypePublicIdentifierSingleQuoted,
            !old(self).reconsume,
        ensures
            final(self).inv(),
            step_ok(
                old(self).vw(),
                final(self).vw(),
                c,
                toks(r@),
                State::DoctypePublicIdentifierSingleQuoted,
            ),
            ({
                let pre = old(self).vw();
                let post = final(self).vw();
                let ts = toks(r@);
                match c {
                    Some(ch) => if ch == '\'' {
                        post == (TkView { state: State::AfterDoctypePublicIdentifier, ..pre })
                            && ts =~= Seq::<TokenV>::empty()
                    } else if ch == '\0' {
                        post == (TkView {
                            errors: pre.errors.push(ParseHtmlError::UnexpectedNullCharacter),
                            doctype: Some(
                                (DoctypeV {
                                    public_id: opt_chars_pushed(
                                        pre.doctype->0.public_id,
                                        '\u{FFFD}',
                                    ),
                                    ..pre.doctype->0
                                }),
                            ),
                            ..pre
                        }) && ts =~= Seq::<TokenV>::empty()
                    } else if ch == '>' {
                        post == (TkView {
                            errors: pre.errors.push(ParseHtmlError::AbruptDoctypePublicIdentifier),
                            state: State::Data,
                            doctype: None,
                            ..pre
                        }) && ts =~= seq![
                            TokenV::Doctype((DoctypeV { force_quirks: true, ..pre.doctype->0 })),
                        ]
                    } else {
                        post == (TkView {
                            doctype: Some(
                                (DoctypeV {
                                    public_id: opt_chars_pushed(pre.doctype->0.public_id, ch),
                                    ..pre.doctype->0
                                }),
                            ),
                            ..pre
                        }) && ts =~= Seq::<TokenV>::empty()
                    },
                    None => post == (TkView {
                        errors: pre.errors.push(ParseHtmlError::EofInDoctype),
                        doctype: None,
                        state: State::Data,
                        ..pre
                    }) && ts =~= seq![
                        TokenV::Doctype((DoctypeV { force_quirks: true, ..pre.doctype->0 })),
                        TokenV::Eof,
                    ],
                }
            }),
    {
        match c {
            Some('\'') => {
                self.state = State::AfterDoctypePublicIdentifier;
                Self::toks0()
            },
            Some('\0') => {
                self.error(ParseHtmlError::UnexpectedNullCharacter);
                self.doctype_push_public('\u{FFFD}');
                Self::toks0()
            },
            Some('>') => {
                self.error(ParseHtmlError::AbruptDoctypePublicIdentifier);
                self.doctype_quirks();
                self.state = State::Data;
                let t = self.take_doctype();
                Self::toks1(t)
            },
            None => {
                self.error(ParseHtmlError::EofInDoctype);
                self.doctype_quirks();
                self.state = State::Data;
                let t = self.take_doctype();
                Self::toks2(t, Token::Eof)
            },
            Some(ch) => {
                self.doctype_push_public(ch);
                Self::toks0()
            },
        }
    }

    /// After the public identifier.
    pub fn after_doctype_public_identifier(&mut self, c: Option<char>) -> (r: Vec<Token>)
        requires
            old(self).inv(),
            old(self).state == State::AfterDoctypePublicIdentifier,
            !old(self).reconsume,
        ensures
            final(self).inv(),
            step_ok(
                old(self).vw(),
                final(self).vw(),
                c,
                toks(r@),
                State::AfterDoctypePublicIdentifier,
            ),
            ({
                let pre = old(self).vw();
                let post = final(self).vw();
                let ts = toks(r@);
                match c {
                    Some(ch) => if spec_ascii_whitespace(ch as u32) {
                        post == (TkView {
                            state: State::BetweenDoctypePublicAndSystemIdentifiers,
                            ..pre
                        }) && ts =~= Seq::<TokenV>::empty()
                    } else if ch == '>' {
                        post == (TkView { state: State::Data, doctype: None, ..pre }) && ts
                            =~= seq![TokenV::Doctype(pre.doctype->0)]
                    } else if ch == '"' {
                        post == (TkView {
                            errors: pre.errors.push(
                                ParseHtmlError::MissingWhitespaceBetweenDoctypePublicAndSystemIdentifiers,
                            ),
                            doctype: Some(
                                (DoctypeV {
                                    system_id: Some(Seq::<char>::empty()),
                                    ..pre.doctype->0
                                }),
                            ),
                            state: State::DoctypeSystemIdentifierDoubleQuoted,
                            ..pre
                        }) && ts =~= Seq::<TokenV>::empty()
                    } else if ch == '\'' {
                        post == (TkView {
                            errors: pre.errors.push(
                                ParseHtmlError::MissingWhitespaceBetweenDoctypePublicAndSystemIdentifiers,
                            ),
                            doctype: Some(
                                (DoctypeV {
                                    system_id: Some(Seq::<char>::empty()),
                                    ..pre.doctype->0
                                }),
                            ),
                            state: State::DoctypeSystemIdentifierSingleQuoted,
                            ..pre
                        }) && ts =~= Seq::<TokenV>::empty()
                    } else {
                        post == (TkView {
                            errors: pre.errors.push(
                                ParseHtmlError::MissingQuoteBeforeDoctypeSystemIdentifier,
                            ),
                            doctype: Some((DoctypeV { force_quirks: true, ..pre.doctype->0 })),
                            state: State::BogusDoctype,
                            reconsume: true,
                            ..pre
                        }) && ts =~= Seq::<TokenV>::empty()
                    },
                    None => post == (TkView {
                        errors: pre.errors.push(ParseHtmlError::EofInDoctype),
                        doctype: None,
                        state: State::Data,
                        ..pre
                    }) && ts =~= seq![
                        TokenV::Doctype((DoctypeV { force_quirks: true, ..pre.doctype->0 })),
                        TokenV::Eof,
                    ],
                }
            }),
    {
        match c {
            Some('>') => {
                self.state = State::Data;
                let t = self.take_doctype();
                Self::toks1(t)
            },
            Some('"') => {
                self.error(
                    ParseHtmlError::MissingWhitespaceBetweenDoctypePublicAndSystemIdentifiers,
                );
                self.doctype_empty_system();
                self.state = State::DoctypeSystemIdentifierDoubleQuoted;
                Self::toks0()
            },
            Some('\'') => {
                self.error(
                    ParseHtmlError::MissingWhitespaceBetweenDoctypePublicAndSystemIdentifiers,
                );
                self.doctype_empty_system();
                self.state = State::DoctypeSystemIdentifierSingleQuoted;
                Self::toks0()
            },
            None => {
                self.error(ParseHtmlError::EofInDoctype);
                self.doctype_quirks();
                self.state = State::Data;
                let t = self.take_doctype();
                Self::toks2(t, Token::Eof)
            },
            Some(ch) => {
                if ascii_whitespace(ch as u32) {
                    self.state = State::BetweenDoctypePublicAndSystemIdentifiers;
                    Self::toks0()
                } else {
                    self.error(ParseHtmlError::MissingQuoteBeforeDoctypeSystemIdentifier);
                    self.doctype_quirks();
                    self.state = State::BogusDoctype;
                    self.reconsume = true;
                    Self::toks0()
                }
            },
        }
    }

    /// Between the public and system identifiers.
    pub fn between_doctype_public_and_system_identifiers(&mut self, c: Option<char>) -> (r:
        Vec<Token>)
        requires
            old(self).inv(),
            old(self).state == State::BetweenDoctypePublicAndSystemIdentifiers,
            !old(self).reconsume,
        ensures
            final(self).inv(),
            step_ok(
                old(self).vw(),
                final(self).vw(),
                c,
                toks(r@),
                State::BetweenDoctypePublicAndSystemIdentifiers,
            ),
            ({
                let pre = old(self).vw();
                let post = final(self).vw();
                let ts = toks(r@);
                match c {
                    Some(ch) => if spec_ascii_whitespace(ch as u32) {
                        post == pre && ts =~= Seq::<TokenV>::empty()
                    } else if ch == '>' {
                        post == (TkView { state: State::Data, doctype: None, ..pre }) && ts
                            =~= seq![TokenV::Doctype(pre.doctype->0)]
                    } else if ch == '"' {
                        post == (TkView {
                            doctype: Some(
                                (DoctypeV {
                                    system_id: Some(Seq::<char>::empty()),
                                    ..pre.doctype->0
                                }),
                            ),
                            state: State::DoctypeSystemIdentifierDoubleQuoted,
                            ..pre
                        }) && ts =~= Seq::<TokenV>::empty()
                    } else if ch == '\'' {
                        post == (TkView {
                            doctype: Some(
                                (DoctypeV {
                                    system_id: Some(Seq::<char>::empty()),
                                    ..pre.doctype->0
                                }),
                            ),
                            state: State::DoctypeSystemIdentifierSingleQuoted,
                            ..pre
                        }) && ts =~= Seq::<TokenV>::empty()
                    } else {
                        post == (TkView {
                            errors: pre.errors.push(
                                ParseHtmlError::MissingQuoteBeforeDoctypeSystemIdentifier,
                            ),
                            doctype: Some((DoctypeV { force_quirks: true, ..pre.doctype->0 })),
                            state: State::BogusDoctype,
                            reconsume: true,
                            ..pre
                        }) && ts =~= Seq::<TokenV>::empty()
                    },
                    None => post == (TkView {
                        errors: pre.errors.push(ParseHtmlError::EofInDoctype),
                        doctype: None,
                        state: State::Data,
                        ..pre
                    }) && ts =~= seq![
                        TokenV::Doctype((DoctypeV { force_quirks: true, ..pre.doctype->0 })),
                        TokenV::Eof,
                    ],
                }
            }),
    {
        match c {
            Some('>') => {
                self.state = State::Data;
                let t = self.take_doctype();
                Self::toks1(t)
            },
            Some('"') => {
                self.doctype_empty_system();
                self.state = State::DoctypeSystemIdentifierDoubleQuoted;
                Self::toks0()
            },
            Some('\'') => {
                self.doctype_empty_system();
                self.state = State::DoctypeSystemIdentifierSingleQuoted;
                Self::toks0()
            },
            None => {
                self.error(ParseHtmlError::EofInDoctype);
                self.doctype_quirks();
                self.state = State::Data;
                let t = self.take_doctype();
                Self::toks2(t, Token::Eof)
            },
            Some(ch) => {
                if ascii_whitespace(ch as u32) {
                    Self::toks0()
                } else {
                    self.error(ParseHtmlError::MissingQuoteBeforeDoctypeSystemIdentifier);
                    self.doctype_quirks();
                    self.state = State::BogusDoctype;
                    self.reconsume = true;
                    Self::toks0()
                }
            },
        }
    }

    /// After the `SYSTEM` keyword.
    pub fn after_doctype_system_keyword(&mut self, c: Option<char>) -> (r: Vec<Token>)
        requires
            old(self).inv(),
            old(self).state == State::AfterDoctypeSystemKeyword,
            !old(self).reconsume,
        ensures
            final(self).inv(),
            step_ok(
                old(self).vw(),
                final(self).vw(),
                c,
                toks(r@),
                State::AfterDoctypeSystemKeyword,
            ),
            ({
                let pre = old(self).vw();
                let post = final(self).vw();
                let ts = toks(r@);
                match c {
                    Some(ch) => if spec_ascii_whitespace(ch as u32) {
                        post == (TkView { state: State::BeforeDoctypeSystemIdentifier, ..pre })
                            && ts =~= Seq::<TokenV>::empty()
                    } else if ch == '"' {
                        post == (TkView {
                            errors: pre.errors.push(
                                ParseHtmlError::MissingWhitespaceAfterDoctypeSystemKeyword,
                            ),
                            doctype: Some(
                                (DoctypeV {
                                    system_id: Some(Seq::<char>::empty()),
                                    ..pre.doctype->0
                                }),
                            ),
                            state: State::DoctypeSystemIdentifierDoubleQuoted,
                            ..pre
                        }) && ts =~= Seq::<TokenV>::empty()
                    } else if ch == '\'' {
                        post == (TkView {
                            errors: pre.errors.push(
                                ParseHtmlError::MissingWhitespaceAfterDoctypeSystemKeyword,
                            ),
                            doctype: Some(
                                (DoctypeV {
                                    system_id: Some(Seq::<char>::empty()),
                                    ..pre.doctype->0
                                }),
                            ),
                            state: State::DoctypeSystemIdentifierSingleQuoted,
                            ..pre
                        }) && ts =~= Seq::<TokenV>::empty()
                    } else if ch == '>' {
                        post == (TkView {
                            errors: pre.errors.push(ParseHtmlError::MissingDoctypeSystemIdentifier),
                            state: State::Data,
                            doctype: None,
                            ..pre
                        }) && ts =~= seq![
                            TokenV::Doctype((DoctypeV { force_quirks: true, ..pre.doctype->0 })),
                        ]
                    } else {
                        post == (TkView {
                            errors: pre.errors.push(
                                ParseHtmlError::MissingQuoteBeforeDoctypeSystemIdentifier,
                            ),
                            doctype: Some((DoctypeV { force_quirks: true, ..pre.doctype->0 })),
                            state: State::BogusDoctype,
                            reconsume: true,
                            ..pre
                        }) && ts =~= Seq::<TokenV>::empty()
                    },
                    None => post == (TkView {
                        errors: pre.errors.push(ParseHtmlError::EofInDoctype),
                        doctype: None,
                        state: State::Data,
                        ..pre
                    }) && ts =~= seq![
                        TokenV::Doctype((DoctypeV { force_quirks: true, ..pre.doctype->0 })),
                        TokenV::Eof,
                    ],
                }
            }),
    {
        match c {
            Some('"') => {
                self.error(ParseHtmlError::MissingWhitespaceAfterDoctypeSystemKeyword);
                self.doctype_empty_system();
                self.state = State::DoctypeSystemIdentifierDoubleQuoted;
                Self::toks0()
            },
            Some('\'') => {
                self.error(ParseHtmlError::MissingWhitespaceAfterDoctypeSystemKeyword);
                self.doctype_empty_system();
                self.state = State::DoctypeSystemIdentifierSingleQuoted;
                Self::toks0()
            },
            Some('>') => {
                self.error(ParseHtmlError::MissingDoctypeSystemIdentifier);
                self.doctype_quirks();
                self.state = State::Data;
                let t = self.take_doctype();
                Self::toks1(t)
            },
            None => {
                self.error(ParseHtmlError::EofInDoctype);
                self.doctype_quirks();
                self.state = State::Data;
                let t = self.take_doctype();
                Self::toks2(t, Token::Eof)
            },
            Some(ch) => {
                if ascii_whitespace(ch as u32) {
                    self.state = State::BeforeDoctypeSystemIdentifier;
                    Self::toks0()
                } else {
                    self.error(ParseHtmlError::MissingQuoteBeforeDoctypeSystemIdentifier);
                    self.doctype_quirks();
                    self.state = State::BogusDoctype;
                    self.reconsume = true;
                    Self::toks0()
                }
            },
        }
    }

    /// Before the system identifier.
    pub fn before_doctype_system_identifier(&mut self, c: Option<char>) -> (r: Vec<Token>)
        requires
            old(self).inv(),
            old(self).state == State::BeforeDoctypeSystemIdentifier,
            !old(self).reconsume,
        ensures
            final(self).inv(),
            step_ok(
                old(self).vw(),
                final(self).vw(),
                c,
                toks(r@),
                State::BeforeDoctypeSystemIdentifier,
            ),
            ({
                let pre = old(self).vw();
                let post = final(self).vw();
                let ts = toks(r@);
                match c {
                    Some(ch) => if spec_ascii_whitespace(ch as u32) {
                        post == pre && ts =~= Seq::<TokenV>::empty()
                    } else if ch == '"' {
                        post == (TkView {
                            doctype: Some(
                                (DoctypeV {
                                    system_id: Some(Seq::<char>::empty()),
                                    ..pre.doctype->0
                                }),
                            ),
                            state: State::DoctypeSystemIdentifierDoubleQuoted,
                            ..pre
                        }) && ts =~= Seq::<TokenV>::empty()
                    } else if ch == '\'' {
                        post == (TkView {
                            doctype: Some(
                                (DoctypeV {
                                    system_id: Some(Seq::<char>::empty()),
                                    ..pre.doctype->0
                                }),
                            ),
                            state: State::DoctypeSystemIdentifierSingleQuoted,
                            ..pre
                        }) && ts =~= Seq::<TokenV>::empty()
                    } else if ch == '>' {
                        post == (TkView {
                            errors: pre.errors.push(ParseHtmlError::MissingDoctypeSystemIdentifier),
                            state: State::Data,
                            doctype: None,
                            ..pre
                        }) && ts =~= seq![
                            TokenV::Doctype((DoctypeV { force_quirks: true, ..pre.doctype->0 })),
                        ]
                    } else {
                        post == (TkView {
                            errors: pre.errors.push(
                                ParseHtmlError::MissingQuoteBeforeDoctypeSystemIdentifier,
                            ),
                            doctype: Some((DoctypeV { force_quirks: true, ..pre.doctype->0 })),
                            state: State::BogusDoctype,
                            reconsume: true,
                            ..pre
                        }) && ts =~= Seq::<TokenV>::empty()
                    },
                    None => post == (TkView {
                        errors: pre.errors.push(ParseHtmlError::EofInDoctype),
                        doctype: None,
                        state: State::Data,
                        ..pre
                    }) && ts =~= seq![
                        TokenV::Doctype((DoctypeV { force_quirks: true, ..pre.doctype->0 })),
                        TokenV::Eof,
                    ],
                }
            }),
    {
        match c {
            Some('"') => {
                self.doctype_empty_system();
                self.state = State::DoctypeSystemIdentifierDoubleQuoted;
                Self::toks0()
            },
            Some('\'') => {
                self.doctype_empty_system();
                self.state = State::DoctypeSystemIdentifierSingleQuoted;
                Self::toks0()
            },
            Some('>') => {
                self.error(ParseHtmlError::MissingDoctypeSystemIdentifier);
                self.doctype_quirks();
                self.state = State::Data;
                let t = self.take_doctype();
                Self::toks1(t)
            },
            None => {
                self.error(ParseHtmlError::EofInDoctype);
                self.doctype_quirks();
                self.state = State::Data;
                let t = self.take_doctype();
                Self::toks2(t, Token::Eof)
            },
            Some(ch) => {
                if ascii_whitespace(ch as u32) {
                    Self::toks0()
                } else {
                    self.error(ParseHtmlError::MissingQuoteBeforeDoctypeSystemIdentifier);
                    self.doctype_quirks();
                    self.state = State::BogusDoctype;
                    self.reconsume = true;
                    Self::toks0()
                }
            },
        }
    }

    /// Double-quoted system identifier.
    pub fn doctype_system_identifier_double_quoted(&mut self, c: Option<char>) -> (r: Vec<
        Token,
    >)
        requires
            old(self).inv(),
            old(self).state == State::DoctypeSystemIdentifierDoubleQuoted,
            !old(self).reconsume,
        ensures
            final(self).inv(),
            step_ok(
                old(self).vw(),
                final(self).vw(),
                c,
                toks(r@),
                State::DoctypeSystemIdentifierDoubleQuoted,
            ),
            ({
                let pre = old(self).vw();
                let post = final(self).vw();
                let ts = toks(r@);
                match c {
                    Some(ch) => if ch == '"' {
                        post == (TkView { state: State::AfterDoctypeSystemIdentifier, ..pre })
                            && ts =~= Seq::<TokenV>::empty()
                    } else if ch == '\0' {
                        post == (TkView {
                            errors: pre.errors.push(ParseHtmlError::UnexpectedNullCharacter),
                            doctype: Some(
                                (DoctypeV {
                                    system_id: opt_chars_pushed(
                                        pre.doctype->0.system_id,
                                        '\u{FFFD}',
                                    ),
                                    ..pre.doctype->0
                                }),
                            ),
                            ..pre
                        }) && ts =~= Seq::<TokenV>::empty()
                    } else if ch == '>' {
                        post == (TkView {
                            errors: pre.errors.push(ParseHtmlError::AbruptDoctypeSystemIdentifier),
                            state: State::Data,
                            doctype: None,
                            ..pre
                        }) && ts =~= seq![
                            TokenV::Doctype((DoctypeV { force_quirks: true, ..pre.doctype->0 })),
                        ]
                    } else {
                        post == (TkView {
                            doctype: Some(
                                (DoctypeV {
                                    system_id: opt_chars_pushed(pre.doctype->0.system_id, ch),
                                    ..pre.doctype->0
                                }),
                            ),
                            ..pre
                        }) && ts =~= Seq::<TokenV>::empty()
                    },
                    None => post == (TkView {
                        errors: pre.errors.push(ParseHtmlError::EofInDoctype),
                        doctype: None,
                        state: State::Data,
                        ..pre
                    }) && ts =~= seq![
                        TokenV::Doctype((DoctypeV { force_quirks: true, ..pre.doctype->0 })),
                        TokenV::Eof,
                    ],
                }
            }),
    {
        match c {
            Some('"') => {
                self.state = State::AfterDoctypeSystemIdentifier;
                Self::toks0()
            },
            Some('\0') => {
                self.error(ParseHtmlError::UnexpectedNullCharacter);
                self.doctype_push_system('\u{FFFD}');
                Self::toks0()
            },
            Some('>') => {
                self.error(ParseHtmlError::AbruptDoctypeSystemIdentifier);
                self.doctype_quirks();
                self.state = State::Data;
                let t = self.take_doctype();
                Self::toks1(t)
            },
            None => {
                self.error(ParseHtmlError::EofInDoctype);
                self.doctype_quirks();
                self.state = State::Data;
                let t = self.take_doctype();
                Self::toks2(t, Token::Eof)
            },
            Some(ch) => {
                self.doctype_push_system(ch);
                Self::toks0()
            },
        }
    }

    /// Single-quoted system identifier.
    pub fn doctype_system_identifier_single_quoted(&mut self, c: Option<char>) -> (r: Vec<
        Token,
    >)
        requires
            old(self).inv(),
            old(self).state == State::DoctypeSystemIdentifierSingleQuoted,
            !old(self).reconsume,
        ensures
            final(self).inv(),
            step_ok(
                old(self).vw(),
                final(self).vw(),
                c,
                toks(r@),
                State::DoctypeSystemIdentifierSingleQuoted,
            ),
            ({
                let pre = old(self).vw();
                let post = final(self).vw();
                let ts = toks(r@);
                match c {
                    Some(ch) => if ch == '\'' {
                        post == (TkView { state: State::AfterDoctypeSystemIdentifier, ..pre })
                            && ts =~= Seq::<TokenV>::empty()
                    } else if ch == '\0' {
                        post == (TkView {
                            errors: pre.errors.push(ParseHtmlError::UnexpectedNullCharacter),
                            doctype: Some(
                                (DoctypeV {
                                    system_id: opt_chars_pushed(
                                        pre.doctype->0.system_id,
                                        '\u{FFFD}',
                                    ),
                                    ..pre.doctype->0
                                }),
                            ),
                            ..pre
                        }) && ts =~= Seq::<TokenV>::empty()
                    } else if ch == '>' {
                        post == (TkView {
                            errors: pre.errors.push(ParseHtmlError::AbruptDoctypeSystemIdentifier),
                            state: State::Data,
                            doctype: None,
                            ..pre
                        }) && ts =~= seq![
                            TokenV::Doctype((DoctypeV { force_quirks: true, ..pre.doctype->0 })),
                        ]
                    } else {
                        post == (TkView {
                            doctype: Some(
                                (DoctypeV {
                                    system_id: opt_chars_pushed(pre.doctype->0.system_id, ch),
                                    ..pre.doctype->0
                                }),
                            ),
                            ..pre
                        }) && ts =~= Seq::<TokenV>::empty()
                    },
                    None => post == (TkView {
                        errors: pre.errors.push(ParseHtmlError::EofInDoctype),
                        doctype: None,
                        state: State::Data,
                        ..pre
                    }) && ts =~= seq![
                        TokenV::Doctype((DoctypeV { force_quirks: true, ..pre.doctype->0 })),
                        TokenV::Eof,
                    ],
                }
            }),
    {
        match c {
            Some('\'') => {
                self.state = State::AfterDoctypeSystemIdentifier;
                Self::toks0()
            },
            Some('\0') => {
                self.error(ParseHtmlError::UnexpectedNullCharacter);
                self.doctype_push_system('\u{FFFD}');
                Self::toks0()
            },
            Some('>') => {
                self.error(ParseHtmlError::AbruptDoctypeSystemIdentifier);
                self.doctype_quirks();
                self.state = State::Data;
                let t = self.take_doctype();
                Self::toks1(t)
            },
            None => {
                self.error(ParseHtmlError::EofInDoctype);
                self.doctype_quirks();
                self.state = State::Data;
                let t = self.take_doctype();
                Self::toks2(t, Token::Eof)
            },
            Some(ch) => {
                self.doctype_push_system(ch);
                Self::toks0()
            },
        }
    }

    /// After the system identifier: only whitespace or `>` is clean; any
    /// other character is reported but does not force quirks.
    pub fn after_doctype_system_identifier(&mut self, c: Option<char>) -> (r: Vec<Token>)
        requires
            old(self).inv(),
            old(self).state == State::AfterDoctypeSystemIdentifier,
            !old(self).reconsume,
        ensures
            final(self).inv(),
            step_ok(
                old(self).vw(),
                final(self).vw(),
                c,
                toks(r@),
                State::AfterDoctypeSystemIdentifier,
            ),
            ({
                let pre = old(self).vw();
                let post = final(self).vw();
                let ts = toks(r@);
                match c {
                    Some(ch) => if spec_ascii_whitespace(ch as u32) {
                        post == pre && ts =~= Seq::<TokenV>::empty()
                    } else if ch == '>' {
                        post == (TkView { state: State::Data, doctype: None, ..pre }) && ts
                            =~= seq![TokenV::Doctype(pre.doctype->0)]
                    } else {
                        post == (TkView {
                            errors: pre.errors.push(
                                ParseHtmlError::UnexpectedCharacterAfterDoctypeSystemIdentifier,
                            ),
                            state: State::BogusDoctype,
                            reconsume: true,
                            ..pre
                        }) && ts =~= Seq::<TokenV>::empty()
                    },
                    None => post == (TkView {
                        errors: pre.errors.push(ParseHtmlError::EofInDoctype),
                        doctype: None,
                        state: State::Data,
                        ..pre
                    }) && ts =~= seq![
                        TokenV::Doctype((DoctypeV { force_quirks: true, ..pre.doctype->0 })),
                        TokenV::Eof,
                    ],
                }
            }),
    {
        match c {
            Some('>') => {
                self.state = State::Data;
                let t = self.take_doctype();
                Self::toks1(t)
            },
            None => {
                self.error(ParseHtmlError::EofInDoctype);
                self.doctype_quirks();
                self.state = State::Data;
                let t = self.take_doctype();
                Self::toks2(t, Token::Eof)
            },
            Some(ch) => {
                if ascii_whitespace(ch as u32) {
                    Self::toks0()
                } else {
                    self.error(ParseHtmlError::UnexpectedCharacterAfterDoctypeSystemIdentifier);
                    self.state = State::BogusDoctype;
                    self.reconsume = true;
                    Self::toks0()
                }
            },
        }
    }

    /// Bogus-doctype state: everything up to `>` is dropped.
    pub fn bogus_doctype(&mut self, c: Option<char>) -> (r: Vec<Token>)
        requires
            old(self).inv(),
            old(self).state == State::BogusDoctype,
            !old(self).reconsume,
        ensures
            final(self).inv(),
            step_ok(old(self).vw(), final(self).vw(), c, toks(r@), State::BogusDoctype),
            ({
                let pre = old(self).vw();
                let post = final(self).vw();
                let ts = toks(r@);
                match c {
                    Some(ch) => if ch == '>' {
                        post == (TkView { state: State::Data, doctype: None, ..pre }) && ts
                            =~= seq![TokenV::Doctype(pre.doctype->0)]
                    } else if ch == '\0' {
                        post == (TkView {
                            errors: pre.errors.push(ParseHtmlError::UnexpectedNullCharacter),
                            ..pre
                        }) && ts =~= Seq::<TokenV>::empty()
                    } else {
                        post == pre && ts =~= Seq::<TokenV>::empty()
                    },
                    None => post == (TkView { doctype: None, state: State::Data, ..pre }) && ts
                        =~= seq![TokenV::Doctype(pre.doctype->0), TokenV::Eof],
                }
            }),
    {
        match c {
            Some('>') => {
                self.state = State::Data;
                let t = self.take_doctype();
                Self::toks1(t)
            },
            Some('\0') => {
                self.error(ParseHtmlError::UnexpectedNullCharacter);
                Self::toks0()
            },
            None => {
                self.state = State::Data;
                let t = self.take_doctype();
                Self::toks2(t, Token::Eof)
            },
            _ => Self::toks0(),
        }
    }
}

} // verus!
