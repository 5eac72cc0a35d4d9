//! The HTML tokenization automaton: one handler per named state, a
//! backtrackable cursor underneath, and a pull-based driver on top.
//!
//! Every handler carries the same frame of guarantees ([`step_ok`]): the
//! invariant tying the current state to the open builders is preserved, a
//! re-dispatch of the same character only moves down a fixed rank of states,
//! the end-of-file token is produced exactly on end of input and only as the
//! last token of a step, and the emitted tokens are bounded by the consumed
//! input. On that frame the driver proves that pulling tokens terminates,
//! that exactly one end-of-file token is ever delivered, and that it comes
//! last.

use vstd::prelude::*;
use crate::cursor::LineOffsetIterator;
use crate::parser_detail::ParseHtmlError;
use crate::token::{
    State, Token, TokenV, Tag, TagV, Comment, Doctype, DoctypeV, AttributeV, toks, no_eof,
    eof_last, opt_chars_pushed,
};

verus! {

/// The mathematical state of the tokenizer.
pub struct TkView {
    pub text: Seq<char>,
    pub pos: int,
    pub state: State,
    pub return_state: Option<State>,
    pub last_start_tag: Option<TagV>,
    pub comment: Option<Seq<char>>,
    pub tag: Option<TagV>,
    pub doctype: Option<DoctypeV>,
    pub temp_buf: Seq<char>,
    pub char_ref_code: u32,
    pub queue: Seq<TokenV>,
    pub errors: Seq<ParseHtmlError>,
    pub reconsume: bool,
    pub done: bool,
}

/// The tokenizer: a character cursor, the current state, the in-progress
/// builders, and a queue of tokens already produced but not yet pulled.
pub struct HtmlTokenizer {
    pub html: LineOffsetIterator,
    pub state: State,
    pub return_state: Option<State>,
    pub last_emitted_tag: Option<Tag>,
    pub comment: Option<Comment>,
    pub tag: Option<Tag>,
    pub doctype: Option<Doctype>,
    pub temp_buf: Vec<char>,
    pub char_ref_code: u32,
    pub tokens_to_emit: Vec<Token>,
    pub errors: Vec<ParseHtmlError>,
    pub reconsume: bool,
    pub done: bool,
}

pub open spec fn opt_tag_view(o: Option<Tag>) -> Option<TagV> {
    match o {
        Some(t) => Some(t@),
        None => None,
    }
}

pub open spec fn opt_comment_view(o: Option<Comment>) -> Option<Seq<char>> {
    match o {
        Some(c) => Some(c@),
        None => None,
    }
}

pub open spec fn opt_doctype_view(o: Option<Doctype>) -> Option<DoctypeV> {
    match o {
        Some(d) => Some(d@),
        None => None,
    }
}

/// The character that goes into an attribute or tag name for an input
/// character: ASCII upper case folds to lower case, NUL to U+FFFD.
pub open spec fn folded_name_char(ch: char) -> char {
    if crate::code_point::spec_ascii_upper_alpha(ch as u32) {
        crate::chars::spec_lower_char(ch)
    } else if ch == '\0' {
        '\u{FFFD}'
    } else {
        ch
    }
}

/// The parse error an attribute-name character is reported with, if any.
pub open spec fn name_char_error(ch: char) -> Option<ParseHtmlError> {
    if ch == '\0' {
        Some(ParseHtmlError::UnexpectedNullCharacter)
    } else if ch == '"' || ch == '\'' || ch == '<' {
        Some(ParseHtmlError::UnexpectedCharacterInAttributeName)
    } else {
        None
    }
}

/// A freshly opened tag builder's value.
pub open spec fn fresh_tag(end_tag: bool) -> TagV {
    TagV { name: Seq::empty(), self_closing: false, is_end_tag: end_tag, attributes: None }
}

/// A freshly opened doctype builder's value.
pub open spec fn fresh_doctype() -> DoctypeV {
    DoctypeV { force_quirks: false, name: None, public_id: None, system_id: None }
}

/// The character token of one character.
pub open spec fn char_token(c: char) -> TokenV {
    TokenV::Character(c)
}

/// The character tokens of a character sequence, one each, in order.
pub open spec fn chars_tokens(s: Seq<char>) -> Seq<TokenV> {
    s.map_values(|c: char| char_token(c))
}

/// How far a state may hand the current character on to another state's
/// handler without consuming it. Every re-dispatch strictly lowers the rank,
/// so a single input character is dispatched at most five times.
pub open spec fn state_rank(s: State) -> nat {
    match s {
        State::TagOpen => 1,
        State::EndTagOpen => 1,
        State::RcdataLessThanSign => 1,
        State::RcdataEndTagOpen => 2,
        State::RcdataEndTagName => 1,
        State::RawtextLessThanSign => 1,
        State::RawtextEndTagOpen => 2,
        State::RawtextEndTagName => 1,
        State::ScriptDataLessThanSign => 1,
        State::ScriptDataEndTagOpen => 2,
        State::ScriptDataEndTagName => 1,
        State::ScriptDataEscapeStart => 1,
        State::ScriptDataEscapeStartDash => 1,
        State::ScriptDataEscapedLessThanSign => 2,
        State::ScriptDataEscapedEndTagOpen => 2,
        State::ScriptDataEscapedEndTagName => 1,
        State::ScriptDataDoubleEscapeStart => 1,
        State::ScriptDataDoubleEscapedLessThanSign => 1,
        State::ScriptDataDoubleEscapeEnd => 1,
        State::BeforeAttributeName => 1,
        State::AttributeName => 1,
        State::BeforeAttributeValue => 1,
        State::AfterAttributeValueQuoted => 2,
        State::SelfClosingStartTag => 2,
        State::MarkupDeclarationOpen => 1,
        State::CommentStart => 1,
        State::CommentStartDash => 1,
        State::CommentLessThanSign => 1,
        State::CommentLessThanSignBang => 2,
        State::CommentLessThanSignBangDash => 2,
        State::CommentLessThanSignBangDashDash => 2,
        State::CommentEndDash => 1,
        State::CommentEnd => 1,
        State::CommentEndBang => 1,
        State::Doctype => 1,
        State::AfterDoctypeName => 1,
        State::AfterDoctypePublicKeyword => 1,
        State::BeforeDoctypePublicIdentifier => 1,
        State::AfterDoctypePublicIdentifier => 1,
        State::BetweenDoctypePublicAndSystemIdentifiers => 1,
        State::AfterDoctypeSystemKeyword => 1,
        State::BeforeDoctypeSystemIdentifier => 1,
        State::AfterDoctypeSystemIdentifier => 1,
        State::CdataSectionBracket => 1,
        State::CdataSectionEnd => 1,
        State::CharacterReference => 3,
        State::NamedCharacterReference => 2,
        State::AmbiguousAmpersand => 1,
        State::NumericCharacterReference => 4,
        State::HexadecimalCharacterReferenceStart => 3,
        State::DecimalCharacterReferenceStart => 3,
        State::HexadecimalCharacterReference => 2,
        State::DecimalCharacterReference => 2,
        State::NumericCharacterReferenceEnd => 1,
        _ => 0,
    }
}

/// Whether the recorded return state of the character-reference sub-machine
/// says the reference stands inside an attribute value.
pub open spec fn spec_in_attr(rs: Option<State>) -> bool {
    match rs {
        Some(State::AttributeValueDoubleQuoted) => true,
        Some(State::AttributeValueSingleQuoted) => true,
        Some(State::AttributeValueUnquoted) => true,
        _ => false,
    }
}

/// What each state needs of the in-progress builders: which builder must be
/// open so that the state's handler can mutate or emit it.
pub open spec fn state_needs(s: State, t: TkView) -> bool {
    match s {
        State::TagName => t.tag is Some,
        State::BeforeAttributeName => t.tag is Some,
        State::AfterAttributeName => t.tag is Some,
        State::SelfClosingStartTag => t.tag is Some,
        State::RcdataEndTagName => t.tag is Some,
        State::RawtextEndTagName => t.tag is Some,
        State::ScriptDataEndTagName => t.tag is Some,
        State::ScriptDataEscapedEndTagName => t.tag is Some,
        State::AttributeName => t.tag matches Some(tag) && tag.has_open_attr(),
        State::BeforeAttributeValue => t.tag matches Some(tag) && tag.has_open_attr(),
        State::AttributeValueDoubleQuoted => t.tag matches Some(tag) && tag.has_open_attr(),
        State::AttributeValueSingleQuoted => t.tag matches Some(tag) && tag.has_open_attr(),
        State::AttributeValueUnquoted => t.tag matches Some(tag) && tag.has_open_attr(),
        State::AfterAttributeValueQuoted => t.tag matches Some(tag) && tag.has_open_attr(),
        State::BogusComment => t.comment is Some,
        State::CommentStart => t.comment is Some,
        State::CommentStartDash => t.comment is Some,
        State::Comment => t.comment is Some,
        State::CommentLessThanSign => t.comment is Some,
        State::CommentLessThanSignBang => t.comment is Some,
        State::CommentLessThanSignBangDash => t.comment is Some,
        State::CommentLessThanSignBangDashDash => t.comment is Some,
        State::CommentEndDash => t.comment is Some,
        State::CommentEnd => t.comment is Some,
        State::CommentEndBang => t.comment is Some,
        State::DoctypeName => t.doctype is Some,
        State::AfterDoctypeName => t.doctype is Some,
        State::AfterDoctypePublicKeyword => t.doctype is Some,
        State::BeforeDoctypePublicIdentifier => t.doctype is Some,
        State::DoctypePublicIdentifierDoubleQuoted => t.doctype is Some,
        State::DoctypePublicIdentifierSingleQuoted => t.doctype is Some,
        State::AfterDoctypePublicIdentifier => t.doctype is Some,
        State::BetweenDoctypePublicAndSystemIdentifiers => t.doctype is Some,
        State::AfterDoctypeSystemKeyword => t.doctype is Some,
        State::BeforeDoctypeSystemIdentifier => t.doctype is Some,
        State::DoctypeSystemIdentifierDoubleQuoted => t.doctype is Some,
        State::DoctypeSystemIdentifierSingleQuoted => t.doctype is Some,
        State::AfterDoctypeSystemIdentifier => t.doctype is Some,
        State::BogusDoctype => t.doctype is Some,
        State::CharacterReference => char_ref_ok(t),
        State::NamedCharacterReference => char_ref_ok(t),
        State::AmbiguousAmpersand => char_ref_ok(t),
        State::NumericCharacterReference => char_ref_ok(t),
        State::HexadecimalCharacterReferenceStart => char_ref_ok(t),
        State::DecimalCharacterReferenceStart => char_ref_ok(t),
        State::HexadecimalCharacterReference => char_ref_ok(t),
        State::DecimalCharacterReference => char_ref_ok(t),
        State::NumericCharacterReferenceEnd => char_ref_ok(t),
        _ => true,
    }
}

/// Inside the character-reference sub-machine the recorded return state is
/// one of the five states that allow a reference, it is of rank zero, and
/// where it is an attribute-value state the open tag has an attribute to
/// receive the flushed characters.
pub open spec fn char_ref_ok(t: TkView) -> bool {
    &&& (match t.return_state {
        Some(State::Data) => true,
        Some(State::Rcdata) => true,
        Some(State::AttributeValueDoubleQuoted) => true,
        Some(State::AttributeValueSingleQuoted) => true,
        Some(State::AttributeValueUnquoted) => true,
        _ => false,
    })
    &&& (spec_in_attr(t.return_state) ==> (t.tag matches Some(tag) && tag.has_open_attr()))
}

impl HtmlTokenizer {
    /// The mathematical value of the whole tokenizer.
    pub open spec fn vw(&self) -> TkView {
        TkView {
            text: self.html.text(),
            pos: self.html.position(),
            state: self.state,
            return_state: self.return_state,
            last_start_tag: opt_tag_view(self.last_emitted_tag),
            comment: opt_comment_view(self.comment),
            tag: opt_tag_view(self.tag),
            doctype: opt_doctype_view(self.doctype),
            temp_buf: self.temp_buf@,
            char_ref_code: self.char_ref_code,
            queue: toks(self.tokens_to_emit@),
            errors: self.errors@,
            reconsume: self.reconsume,
            done: self.done,
        }
    }

    /// The tokenizer's invariant: the cursor is within its text, the current
    /// state has its builders open, and the queue holds the end-of-file
    /// token at most once, only at the back, with nothing queued once it
    /// has been delivered.
    pub open spec fn inv(&self) -> bool {
        &&& self.html.wf()
        &&& self.html.position() <= self.html.text().len()
        &&& state_needs(self.state, self.vw())
        &&& queue_shape(self.vw().queue)
        &&& self.done ==> self.vw().queue.len() == 0
    }

    /// The invariant as callers hold it between pulls: no re-dispatch is
    /// pending.
    pub open spec fn wf(&self) -> bool {
        self.inv() && !self.reconsume
    }

    /// Whether the terminal end-of-file token has been delivered.
    pub open spec fn spec_done(&self) -> bool {
        self.done
    }

    /// The parse errors reported so far.
    pub open spec fn spec_errors(&self) -> Seq<ParseHtmlError> {
        self.errors@
    }
}

impl View for HtmlTokenizer {
    type V = TkView;

    /// The mathematical value of the tokenizer, for callers' contracts.
    open spec fn view(&self) -> TkView {
        self.vw()
    }
}

/// The open tag with the given characters appended to the value of its
/// last attribute, everything else unchanged.
pub open spec fn attr_value_appended(t: TagV, s: Seq<char>) -> TagV {
    TagV {
        attributes: Some(
            t.attrs().update(
                t.attrs().len() - 1,
                AttributeV { value: t.attrs().last().value + s, ..t.attrs().last() },
            ),
        ),
        ..t
    }
}

/// Whether the open end tag's name equals the name of the last start tag
/// the tree stage announced: only then is the end tag honored in the
/// raw-text-like states.
pub open spec fn spec_appropriate(t: TkView) -> bool {
    &&& t.last_start_tag matches Some(lt) && (t.tag matches Some(tag) && lt.name == tag.name)
}

/// The end-of-file token appears at most once in the queue, and only as the
/// last element.
pub open spec fn queue_shape(q: Seq<TokenV>) -> bool {
    q.len() == 0 || no_eof(q.take(q.len() - 1))
}

/// The guarantees every state handler gives, beyond its exact transition:
/// the text is fixed, the cursor only moves forward, the queue, the done
/// flag and the recorded errors are only extended or left alone, a
/// re-dispatch strictly lowers the state rank, the end-of-file token comes
/// exactly on end of input and last, and the emitted tokens are paid for by
/// consumed input characters and drained temporary-buffer characters.
pub open spec fn step_ok(
    pre: TkView,
    post: TkView,
    c: Option<char>,
    r: Seq<TokenV>,
    disp: State,
) -> bool {
    &&& post.text == pre.text
    &&& pre.pos <= post.pos <= pre.text.len()
    &&& post.queue == pre.queue
    &&& post.done == pre.done
    &&& post.last_start_tag == pre.last_start_tag
    &&& post.reconsume ==> state_rank(post.state) < state_rank(disp)
    &&& c is Some ==> no_eof(r)
    &&& (c is None && !post.reconsume) ==> eof_last(r)
    &&& (c is None && post.reconsume) ==> no_eof(r)
    &&& r.len() + post.temp_buf.len() + 40 * pre.pos <= pre.temp_buf.len() + 40 * post.pos + 3
}

/// The view list of a token list has the same length.
pub proof fn lemma_toks_len(s: Seq<Token>)
    ensures
        toks(s).len() == s.len(),
{
}

/// The view list of a token list, entry for entry.
pub proof fn lemma_toks_index(s: Seq<Token>, i: int)
    requires
        0 <= i < s.len(),
    ensures
        toks(s).len() == s.len(),
        toks(s)[i] == s[i]@,
{
}

/// The character-token list of a character sequence, entry for entry.
pub proof fn lemma_chars_tokens_index(s: Seq<char>, i: int)
    requires
        0 <= i < s.len(),
    ensures
        chars_tokens(s).len() == s.len(),
        chars_tokens(s)[i] == TokenV::Character(s[i]),
{
}

/// The character-token list has the same length and is never an
/// end-of-file token.
pub proof fn lemma_chars_tokens_len(s: Seq<char>)
    ensures
        chars_tokens(s).len() == s.len(),
        no_eof(chars_tokens(s)),
{
    assert forall|i: int| 0 <= i < chars_tokens(s).len() implies !((#[trigger] chars_tokens(
        s,
    )[i]) is Eof) by {
        lemma_chars_tokens_index(s, i);
    }
}

/// Concatenation keeps freedom from the end-of-file token.
pub proof fn lemma_no_eof_concat(a: Seq<TokenV>, b: Seq<TokenV>)
    requires
        no_eof(a),
        no_eof(b),
    ensures
        no_eof(a + b),
{
    assert forall|i: int| 0 <= i < (a + b).len() implies !((#[trigger] (a + b)[i]) is Eof) by {
        if i < a.len() {
            assert((a + b)[i] == a[i]);
        } else {
            assert((a + b)[i] == b[i - a.len()]);
        }
    }
}

/// Appending an end-of-file-terminated list to a clean list keeps the
/// end-of-file token last and unique.
pub proof fn lemma_eof_last_concat(a: Seq<TokenV>, b: Seq<TokenV>)
    requires
        no_eof(a),
        eof_last(b),
    ensures
        eof_last(a + b),
{
    assert((a + b).last() == b.last());
    assert forall|i: int| 0 <= i < (a + b).len() - 1 implies !((#[trigger] (a + b).take(
        (a + b).len() - 1,
    )[i]) is Eof) by {
        assert((a + b).take((a + b).len() - 1)[i] == (a + b)[i]);
        if i < a.len() {
            assert((a + b)[i] == a[i]);
        } else {
            assert((a + b)[i] == b[i - a.len()]);
            assert(b[i - a.len()] == b.take(b.len() - 1)[i - a.len()]);
        }
    }
}

/// `toks` distributes over concatenation.
pub proof fn lemma_toks_add(a: Seq<Token>, b: Seq<Token>)
    ensures
        toks(a + b) =~= toks(a) + toks(b),
{
    assert forall|i: int| 0 <= i < (a + b).len() implies toks(a + b)[i] == (toks(a) + toks(b))[i]
    by {
        if i < a.len() {
            assert((a + b)[i] == a[i]);
        } else {
            assert((a + b)[i] == b[i - a.len()]);
        }
    }
}

impl HtmlTokenizer {
    /// A fresh tokenizer over already-decoded text: the text is the input's
    /// characters with nothing read, the state is the data state, no builder
    /// is open, no token is queued, and no error is recorded.
    pub fn new(html: &str) -> (r: HtmlTokenizer)
        ensures
            r.wf(),
            !r.spec_done(),
            r@ == (TkView {
                text: html@,
                pos: 0,
                state: State::Data,
                return_state: None,
                last_start_tag: None,
                comment: None,
                tag: None,
                doctype: None,
                temp_buf: Seq::<char>::empty(),
                char_ref_code: 0,
                queue: Seq::<TokenV>::empty(),
                errors: Seq::<ParseHtmlError>::empty(),
                reconsume: false,
                done: false,
            }),
    {
        let r = HtmlTokenizer {
            html: LineOffsetIterator::new(html),
            state: State::Data,
            return_state: None,
            last_emitted_tag: None,
            comment: None,
            tag: None,
            doctype: None,
            temp_buf: Vec::new(),
            char_ref_code: 0,
            tokens_to_emit: Vec::new(),
            errors: Vec::new(),
            reconsume: false,
            done: false,
        };
        proof {
            lemma_toks_len(r.tokens_to_emit@);
            assert(toks(r.tokens_to_emit@) =~= Seq::<TokenV>::empty());
        }
        r
    }

    /// Records a parse error. Errors never stop tokenization; the caller
    /// reads them back in order when done.
    pub(crate) fn error(&mut self, err: ParseHtmlError)
        ensures
            final(self).vw() == (TkView { errors: old(self).vw().errors.push(err), ..old(
                self,
            ).vw() }),
            final(self).html == old(self).html,
    {
        self.errors.push(err);
    }

    /// The parse errors reported so far, in the order they were found.
    pub fn parse_errors(&self) -> (r: &Vec<ParseHtmlError>)
        ensures
            r@ == self.spec_errors(),
    {
        &self.errors
    }

    /// An empty token list.
    pub(crate) fn toks0() -> (r: Vec<Token>)
        ensures
            toks(r@) =~= Seq::<TokenV>::empty(),
            toks(r@).len() == 0,
            no_eof(toks(r@)),
    {
        let v: Vec<Token> = Vec::new();
        proof {
            lemma_toks_len(v@);
        }
        v
    }

    /// A token list of one.
    pub(crate) fn toks1(t: Token) -> (r: Vec<Token>)
        ensures
            toks(r@) =~= seq![t@],
            toks(r@).len() == 1,
            toks(r@)[0] == t@,
            !(t@ is Eof) ==> no_eof(toks(r@)),
            t@ is Eof ==> eof_last(toks(r@)),
    {
        let ghost tv = t@;
        let mut v: Vec<Token> = Vec::new();
        crate::chars::vec_push(&mut v, t);
        proof {
            lemma_toks_index(v@, 0);
            assert(toks(v@) =~= seq![tv]);
            assert forall|j: int| 0 <= j < 0 implies !((#[trigger] toks(v@).take(0)[j]) is Eof)
            by {}
            assert(toks(v@).take(0).len() == 0);
        }
        v
    }

    /// A token list of two.
    pub(crate) fn toks2(t1: Token, t2: Token) -> (r: Vec<Token>)
        ensures
            toks(r@) =~= seq![t1@, t2@],
            toks(r@).len() == 2,
            toks(r@)[0] == t1@,
            toks(r@)[1] == t2@,
            !(t1@ is Eof) && !(t2@ is Eof) ==> no_eof(toks(r@)),
            !(t1@ is Eof) && t2@ is Eof ==> eof_last(toks(r@)),
    {
        let ghost v1 = t1@;
        let ghost v2 = t2@;
        let mut v: Vec<Token> = Vec::new();
        crate::chars::vec_push(&mut v, t1);
        crate::chars::vec_push(&mut v, t2);
        proof {
            lemma_toks_index(v@, 0);
            lemma_toks_index(v@, 1);
            assert(toks(v@) =~= seq![v1, v2]);
            let front = toks(v@).take(1);
            assert(front.len() == 1);
            assert(front[0] == v1);
            assert forall|j: int| 0 <= j < front.len() && !(v1 is Eof) implies !((#[trigger] front[j]) is Eof)
            by {
                assert(front[j] == v1);
            }
        }
        v
    }

    /// A token list of three.
    pub(crate) fn toks3(t1: Token, t2: Token, t3: Token) -> (r: Vec<Token>)
        ensures
            toks(r@) =~= seq![t1@, t2@, t3@],
            toks(r@).len() == 3,
            toks(r@)[0] == t1@,
            toks(r@)[1] == t2@,
            toks(r@)[2] == t3@,
            !(t1@ is Eof) && !(t2@ is Eof) && !(t3@ is Eof) ==> no_eof(toks(r@)),
            !(t1@ is Eof) && !(t2@ is Eof) && t3@ is Eof ==> eof_last(toks(r@)),
    {
        let ghost v1 = t1@;
        let ghost v2 = t2@;
        let ghost v3 = t3@;
        let mut v: Vec<Token> = Vec::new();
        crate::chars::vec_push(&mut v, t1);
        crate::chars::vec_push(&mut v, t2);
        crate::chars::vec_push(&mut v, t3);
        proof {
            lemma_toks_index(v@, 0);
            lemma_toks_index(v@, 1);
            lemma_toks_index(v@, 2);
            assert(toks(v@) =~= seq![v1, v2, v3]);
            let front = toks(v@).take(2);
            assert(front.len() == 2);
            assert(front[0] == v1);
            assert(front[1] == v2);
            assert forall|j: int|
                0 <= j < front.len() && !(v1 is Eof) && !(v2 is Eof) implies !((#[trigger] front[j]) is Eof)
            by {
                assert(front[j] == v1 || front[j] == v2);
            }
        }
        v
    }

    /// Marks the open tag self-closing.
    pub(crate) fn tag_self_closing(&mut self)
        requires
            old(self).tag is Some,
        ensures
            final(self).vw() == (TkView {
                tag: Some(TagV { self_closing: true, ..old(self).vw().tag->0 }),
                ..old(self).vw()
            }),
            final(self).html == old(self).html,
    {
        match self.tag.as_mut() {
            Some(t) => t.set_self_closing_flag(),
            None => {
                proof {
                    assert(false);
                }
            },
        }
    }

    /// Whether the open tag has an attribute to receive characters.
    pub(crate) fn tag_has_open_attr(&self) -> (r: bool)
        requires
            self.tag is Some,
        ensures
            r == self.vw().tag->0.has_open_attr(),
    {
        match self.tag.as_ref() {
            Some(t) => match t.attributes.as_ref() {
                Some(a) => a.len() > 0,
                None => false,
            },
            None => {
                proof {
                    assert(false);
                }
                false
            },
        }
    }

    /// One character of an attribute name: ASCII upper case is folded, NUL
    /// becomes U+FFFD with a reported error, and a quote or `<` is taken
    /// with a reported error.
    pub(crate) fn attr_name_char(&mut self, ch: char)
        requires
            old(self).tag is Some,
            old(self).vw().tag->0.has_open_attr(),
        ensures
            final(self).vw() == (TkView {
                tag: Some(
                    TagV {
                        attributes: Some(
                            old(self).vw().tag->0.attrs().update(
                                old(self).vw().tag->0.attrs().len() - 1,
                                AttributeV {
                                    name: old(self).vw().tag->0.attrs().last().name.push(
                                        folded_name_char(ch),
                                    ),
                                    ..old(self).vw().tag->0.attrs().last()
                                },
                            ),
                        ),
                        ..old(self).vw().tag->0
                    },
                ),
                errors: (match name_char_error(ch) {
                    Some(e) => old(self).vw().errors.push(e),
                    None => old(self).vw().errors,
                }),
                ..old(self).vw()
            }),
            final(self).vw().tag->0.has_open_attr(),
            final(self).html == old(self).html,
    {
        if crate::code_point::ascii_upper_alpha(ch as u32) {
            self.attr_push_name(crate::chars::lower_char(ch));
        } else if ch == '\0' {
            self.error(ParseHtmlError::UnexpectedNullCharacter);
            self.attr_push_name('\u{FFFD}');
        } else if ch == '"' || ch == '\'' || ch == '<' {
            self.error(ParseHtmlError::UnexpectedCharacterInAttributeName);
            self.attr_push_name(ch);
        } else {
            self.attr_push_name(ch);
        }
    }

    /// Whether the current character reference stands inside an attribute
    /// value, so that its characters go to the open attribute instead of
    /// becoming character tokens.
    pub(crate) fn consumed_as_part_of_attribute(&self) -> (r: bool)
        ensures
            r == spec_in_attr(self.vw().return_state),
    {
        match self.return_state {
            Some(State::AttributeValueDoubleQuoted) => true,
            Some(State::AttributeValueSingleQuoted) => true,
            Some(State::AttributeValueUnquoted) => true,
            _ => false,
        }
    }

    /// Whether the open end tag's name equals the name of the last start
    /// tag the tree stage announced.
    pub(crate) fn end_tag_appropriate(&self) -> (r: bool)
        requires
            self.tag is Some,
        ensures
            r == (self.vw().last_start_tag matches Some(lt) && lt.name
                == self.vw().tag->0.name),
    {
        match (self.last_emitted_tag.as_ref(), self.tag.as_ref()) {
            (Some(last_tag), Some(tag)) => crate::chars::vec_eq(&last_tag.name, &tag.name),
            _ => false,
        }
    }

    /// One character token for each character of `v`.
    pub(crate) fn chars_to_tokens(v: &Vec<char>) -> (r: Vec<Token>)
        ensures
            toks(r@) =~= chars_tokens(v@),
    {
        let mut buf: Vec<Token> = Vec::new();
        let mut i: usize = 0;
        while i < v.len()
            invariant
                i <= v@.len(),
                buf@.len() == i,
                forall|j: int| 0 <= j < i ==> (#[trigger] buf@[j])@ == TokenV::Character(v@[j]),
            decreases v@.len() - i,
        {
            crate::chars::vec_push(&mut buf, Token::Character(v[i]));
            i = i + 1;
        }
        proof {
            assert forall|j: int| 0 <= j < buf@.len() implies toks(buf@)[j] == chars_tokens(v@)[j]
            by {
                lemma_toks_index(buf@, j);
                assert(buf@[j]@ == TokenV::Character(v@[j]));
                assert(chars_tokens(v@)[j] == TokenV::Character(v@[j]));
            }
            lemma_toks_len(buf@);
            lemma_chars_tokens_len(v@);
            assert(toks(buf@) =~= chars_tokens(v@));
        }
        buf
    }

    /// Opens a fresh tag builder.
    pub(crate) fn new_tag(&mut self, end_tag: bool)
        ensures
            final(self).vw() == (TkView { tag: Some(fresh_tag(end_tag)), ..old(self).vw() }),
            final(self).html == old(self).html,
    {
        self.tag = Some(Tag::new(end_tag));
    }

    /// Opens a fresh, empty comment builder.
    pub(crate) fn new_comment(&mut self)
        ensures
            final(self).vw() == (TkView { comment: Some(Seq::<char>::empty()), ..old(self).vw() }),
            final(self).html == old(self).html,
    {
        self.comment = Some(Comment::new());
    }

    /// Opens a fresh doctype builder.
    pub(crate) fn new_doctype(&mut self)
        ensures
            final(self).vw() == (TkView { doctype: Some(fresh_doctype()), ..old(self).vw() }),
            final(self).html == old(self).html,
    {
        self.doctype = Some(Doctype::new());
    }

    /// Closes the tag builder and hands its token out.
    pub(crate) fn take_tag(&mut self) -> (t: Token)
        requires
            old(self).tag is Some,
        ensures
            final(self).vw() == (TkView { tag: None, ..old(self).vw() }),
            t@ == TokenV::Tag(old(self).vw().tag->0),
            final(self).html == old(self).html,
    {
        match self.tag.take() {
            Some(t) => Token::Tag(t),
            None => {
                proof {
                    assert(false);
                }
                Token::Eof
            },
        }
    }

    /// Closes the comment builder and hands its token out.
    pub(crate) fn take_comment(&mut self) -> (t: Token)
        requires
            old(self).comment is Some,
        ensures
            final(self).vw() == (TkView { comment: None, ..old(self).vw() }),
            t@ == TokenV::Comment(old(self).vw().comment->0),
            final(self).html == old(self).html,
    {
        match self.comment.take() {
            Some(c) => Token::Comment(c),
            None => {
                proof {
                    assert(false);
                }
                Token::Eof
            },
        }
    }

    /// Closes the doctype builder and hands its token out.
    pub(crate) fn take_doctype(&mut self) -> (t: Token)
        requires
            old(self).doctype is Some,
        ensures
            final(self).vw() == (TkView { doctype: None, ..old(self).vw() }),
            t@ == TokenV::Doctype(old(self).vw().doctype->0),
            final(self).html == old(self).html,
    {
        match self.doctype.take() {
            Some(d) => Token::Doctype(d),
            None => {
                proof {
                    assert(false);
                }
                Token::Eof
            },
        }
    }

    /// Sets the force-quirks flag on the open doctype.
    pub(crate) fn doctype_quirks(&mut self)
        requires
            old(self).doctype is Some,
        ensures
            final(self).vw() == (TkView {
                doctype: Some(
                    DoctypeV { force_quirks: true, ..old(self).vw().doctype->0 },
                ),
                ..old(self).vw()
            }),
            final(self).html == old(self).html,
    {
        match self.doctype.as_mut() {
            Some(d) => d.force_quirks = true,
            None => {
                proof {
                    assert(false);
                }
            },
        }
    }

    /// Appends one character to the open tag's name.
    pub(crate) fn tag_push_name(&mut self, ch: char)
        requires
            old(self).tag is Some,
        ensures
            final(self).vw() == (TkView {
                tag: Some(
                    TagV { name: old(self).vw().tag->0.name.push(ch), ..old(self).vw().tag->0 },
                ),
                ..old(self).vw()
            }),
            final(self).html == old(self).html,
    {
        match self.tag.as_mut() {
            Some(t) => t.name.push(ch),
            None => {
                proof {
                    assert(false);
                }
            },
        }
    }

    /// Opens a fresh attribute on the open tag.
    pub(crate) fn attr_create(&mut self)
        requires
            old(self).tag is Some,
        ensures
            final(self).vw() == (TkView {
                tag: Some(
                    TagV {
                        attributes: Some(
                            old(self).vw().tag->0.attrs().push(
                                AttributeV { name: Seq::empty(), value: Seq::empty() },
                            ),
                        ),
                        ..old(self).vw().tag->0
                    },
                ),
                ..old(self).vw()
            }),
            final(self).vw().tag->0.has_open_attr(),
            final(self).html == old(self).html,
    {
        match self.tag.as_mut() {
            Some(t) => t.create_attribute(),
            None => {
                proof {
                    assert(false);
                }
            },
        }
    }

    /// Appends one character to the name of the open tag's last attribute.
    pub(crate) fn attr_push_name(&mut self, ch: char)
        requires
            old(self).tag is Some,
            old(self).vw().tag->0.has_open_attr(),
        ensures
            final(self).vw() == (TkView {
                tag: Some(
                    TagV {
                        attributes: Some(
                            old(self).vw().tag->0.attrs().update(
                                old(self).vw().tag->0.attrs().len() - 1,
                                AttributeV {
                                    name: old(self).vw().tag->0.attrs().last().name.push(ch),
                                    ..old(self).vw().tag->0.attrs().last()
                                },
                            ),
                        ),
                        ..old(self).vw().tag->0
                    },
                ),
                ..old(self).vw()
            }),
            final(self).vw().tag->0.has_open_attr(),
            final(self).html == old(self).html,
    {
        match self.tag.as_mut() {
            Some(t) => t.append_to_cur_attr_name(ch),
            None => {
                proof {
                    assert(false);
                }
            },
        }
    }

    /// Appends one character to the value of the open tag's last attribute.
    pub(crate) fn attr_push_value(&mut self, ch: char)
        requires
            old(self).tag is Some,
            old(self).vw().tag->0.has_open_attr(),
        ensures
            final(self).vw() == (TkView {
                tag: Some(
                    TagV {
                        attributes: Some(
                            old(self).vw().tag->0.attrs().update(
                                old(self).vw().tag->0.attrs().len() - 1,
                                AttributeV {
                                    value: old(self).vw().tag->0.attrs().last().value.push(ch),
                                    ..old(self).vw().tag->0.attrs().last()
                                },
                            ),
                        ),
                        ..old(self).vw().tag->0
                    },
                ),
                ..old(self).vw()
            }),
            final(self).vw().tag->0.has_open_attr(),
            final(self).html == old(self).html,
    {
        match self.tag.as_mut() {
            Some(t) => t.append_to_cur_attr_value(ch),
            None => {
                proof {
                    assert(false);
                }
            },
        }
    }

    /// Appends the characters of `chars` to the value of the open tag's
    /// last attribute.
    pub(crate) fn attr_push_value_vec(&mut self, chars: &Vec<char>)
        requires
            old(self).tag is Some,
            old(self).vw().tag->0.has_open_attr(),
        ensures
            final(self).vw() == (TkView {
                tag: Some(
                    TagV {
                        attributes: Some(
                            old(self).vw().tag->0.attrs().update(
                                old(self).vw().tag->0.attrs().len() - 1,
                                AttributeV {
                                    value: old(self).vw().tag->0.attrs().last().value + chars@,
                                    ..old(self).vw().tag->0.attrs().last()
                                },
                            ),
                        ),
                        ..old(self).vw().tag->0
                    },
                ),
                ..old(self).vw()
            }),
            final(self).vw().tag->0.has_open_attr(),
            final(self).html == old(self).html,
    {
        match self.tag.as_mut() {
            Some(t) => t.append_to_cur_attr_value_str(chars),
            None => {
                proof {
                    assert(false);
                }
            },
        }
    }

    /// Appends one character to the open comment.
    pub(crate) fn comment_push(&mut self, ch: char)
        requires
            old(self).comment is Some,
        ensures
            final(self).vw() == (TkView {
                comment: Some(old(self).vw().comment->0.push(ch)),
                ..old(self).vw()
            }),
            final(self).html == old(self).html,
    {
        match self.comment.as_mut() {
            Some(c) => c.value.push(ch),
            None => {
                proof {
                    assert(false);
                }
            },
        }
    }

    /// Appends one character to the open doctype's name.
    pub(crate) fn doctype_push_name(&mut self, ch: char)
        requires
            old(self).doctype is Some,
        ensures
            final(self).vw() == (TkView {
                doctype: Some(
                    DoctypeV {
                        name: opt_chars_pushed(old(self).vw().doctype->0.name, ch),
                        ..old(self).vw().doctype->0
                    },
                ),
                ..old(self).vw()
            }),
            final(self).html == old(self).html,
    {
        match self.doctype.as_mut() {
            Some(d) => d.append_to_name(ch),
            None => {
                proof {
                    assert(false);
                }
            },
        }
    }

    /// Appends one character to the open doctype's public identifier.
    pub(crate) fn doctype_push_public(&mut self, ch: char)
        requires
            old(self).doctype is Some,
        ensures
            final(self).vw() == (TkView {
                doctype: Some(
                    DoctypeV {
                        public_id: opt_chars_pushed(old(self).vw().doctype->0.public_id, ch),
                        ..old(self).vw().doctype->0
                    },
                ),
                ..old(self).vw()
            }),
            final(self).html == old(self).html,
    {
        match self.doctype.as_mut() {
            Some(d) => d.append_to_public_id(ch),
            None => {
                proof {
                    assert(false);
                }
            },
        }
    }

    /// Appends one character to the open doctype's system identifier.
    pub(crate) fn doctype_push_system(&mut self, ch: char)
        requires
            old(self).doctype is Some,
        ensures
            final(self).vw() == (TkView {
                doctype: Some(
                    DoctypeV {
                        system_id: opt_chars_pushed(old(self).vw().doctype->0.system_id, ch),
                        ..old(self).vw().doctype->0
                    },
                ),
                ..old(self).vw()
            }),
            final(self).html == old(self).html,
    {
        match self.doctype.as_mut() {
            Some(d) => d.append_to_system_id(ch),
            None => {
                proof {
                    assert(false);
                }
            },
        }
    }

    /// Gives the open doctype an empty public identifier.
    pub(crate) fn doctype_empty_public(&mut self)
        requires
            old(self).doctype is Some,
        ensures
            final(self).vw() == (TkView {
                doctype: Some(
                    DoctypeV {
                        public_id: Some(Seq::<char>::empty()),
                        ..old(self).vw().doctype->0
                    },
                ),
                ..old(self).vw()
            }),
            final(self).html == old(self).html,
    {
        match self.doctype.as_mut() {
            Some(d) => d.public_id = Some(Vec::new()),
            None => {
                proof {
                    assert(false);
                }
            },
        }
    }

    /// Gives the open doctype an empty system identifier.
    pub(crate) fn doctype_empty_system(&mut self)
        requires
            old(self).doctype is Some,
        ensures
            final(self).vw() == (TkView {
                doctype: Some(
                    DoctypeV {
                        system_id: Some(Seq::<char>::empty()),
                        ..old(self).vw().doctype->0
                    },
                ),
                ..old(self).vw()
            }),
            final(self).html == old(self).html,
    {
        match self.doctype.as_mut() {
            Some(d) => d.system_id = Some(Vec::new()),
            None => {
                proof {
                    assert(false);
                }
            },
        }
    }

    /// Empties the temporary buffer.
    pub(crate) fn temp_clear(&mut self)
        ensures
            final(self).vw() == (TkView { temp_buf: Seq::<char>::empty(), ..old(self).vw() }),
            final(self).html == old(self).html,
    {
        self.temp_buf = Vec::new();
    }

    /// Appends one character to the temporary buffer.
    pub(crate) fn temp_push(&mut self, ch: char)
        ensures
            final(self).vw() == (TkView {
                temp_buf: old(self).vw().temp_buf.push(ch),
                ..old(self).vw()
            }),
            final(self).html == old(self).html,
    {
        self.temp_buf.push(ch);
    }

    /// Flushes the code points consumed as a character reference: into the
    /// open attribute's value when the reference stands in an attribute
    /// value, otherwise as one character token per buffered character. The
    /// temporary buffer itself is left as it stands.
    pub(crate) fn flush_code_points(&mut self) -> (r: Vec<Token>)
        requires
            spec_in_attr(old(self).return_state) ==> (old(self).vw().tag matches Some(t)
                && t.has_open_attr()),
        ensures
            final(self).html == old(self).html,
            no_eof(toks(r@)),
            (if spec_in_attr(old(self).return_state) {
                final(self).vw() == (TkView {
                    tag: Some(attr_value_appended(old(self).vw().tag->0, old(self).vw().temp_buf)),
                    ..old(self).vw()
                }) && toks(r@) =~= Seq::<TokenV>::empty()
            } else {
                final(self).vw() == old(self).vw() && toks(r@) =~= chars_tokens(
                    old(self).vw().temp_buf,
                )
            }),
            toks(r@).len() <= old(self).vw().temp_buf.len(),
    {
        if self.consumed_as_part_of_attribute() {
            let tmp = crate::chars::clone_chars(&self.temp_buf);
            self.attr_push_value_vec(&tmp);
            let r = Self::toks0();
            r
        } else {
            let r = self.temp_buf_to_tokens();
            proof {
                lemma_chars_tokens_len(self.vw().temp_buf);
            }
            r
        }
    }

    /// The literal flush of a failed end-tag match: a `<`, a `/`, and one
    /// character token per character of the temporary buffer, which is then
    /// emptied.
    pub(crate) fn flush_lt_solidus_temp(&mut self) -> (r: Vec<Token>)
        ensures
            final(self).vw() == (TkView {
                temp_buf: Seq::<char>::empty(),
                ..old(self).vw()
            }),
            final(self).html == old(self).html,
            toks(r@) =~= seq![TokenV::Character('<'), TokenV::Character('/')] + chars_tokens(
                old(self).vw().temp_buf,
            ),
            toks(r@).len() == 2 + old(self).vw().temp_buf.len(),
            no_eof(toks(r@)),
    {
        let ghost pre_temp = self.vw().temp_buf;
        let mut out = Self::toks2(Token::Character('<'), Token::Character('/'));
        let ghost head = out@;
        let mut rest = self.temp_buf_to_tokens();
        let ghost tail = rest@;
        out.append(&mut rest);
        self.temp_clear();
        proof {
            lemma_toks_add(head, tail);
            lemma_chars_tokens_len(pre_temp);
            assert(toks(out@) =~= toks(head) + toks(tail));
            assert(toks(out@) =~= seq![TokenV::Character('<'), TokenV::Character('/')]
                + chars_tokens(pre_temp));
            assert forall|i: int| 0 <= i < toks(out@).len() implies !((#[trigger] toks(
                out@,
            )[i]) is Eof) by {
                if i < 2 {
                    assert(toks(out@)[i] == toks(head)[i]);
                } else {
                    assert(toks(out@)[i] == chars_tokens(pre_temp)[i - 2]);
                }
            }
        }
        out
    }

    /// One character token for each character of the temporary buffer.
    pub(crate) fn temp_buf_to_tokens(&self) -> (r: Vec<Token>)
        ensures
            toks(r@) =~= chars_tokens(self.vw().temp_buf),
    {
        Self::chars_to_tokens(&self.temp_buf)
    }
}

/// A queue of this shape may lose its front entry: the shape is kept, and
/// the front is the end-of-file token only when it is alone.
pub proof fn lemma_queue_pop(q: Seq<TokenV>)
    requires
        q.len() >= 1,
        queue_shape(q),
    ensures
        queue_shape(q.subrange(1, q.len() as int)),
        q[0] is Eof ==> q.len() == 1,
        q.len() > 1 ==> q.subrange(1, q.len() as int).last() == q.last(),
        q.len() > 1 ==> !(q[0] is Eof),
{
    let rest = q.subrange(1, q.len() as int);
    if q.len() > 1 {
        assert(q.take(q.len() - 1)[0] == q[0]);
        assert forall|i: int| 0 <= i < rest.len() - 1 implies !((#[trigger] rest.take(
            rest.len() - 1,
        )[i]) is Eof) by {
            assert(rest.take(rest.len() - 1)[i] == q[i + 1]);
            assert(q[i + 1] == q.take(q.len() - 1)[i + 1]);
        }
        assert(rest.last() == q.last());
    }
}

/// A step's token list, clean or terminated by the end-of-file token, has
/// the queue's shape.
pub proof fn lemma_shape_from_chain(v: Seq<TokenV>)
    requires
        no_eof(v) || eof_last(v),
    ensures
        queue_shape(v),
{
    if v.len() > 0 {
        assert forall|i: int| 0 <= i < v.len() - 1 implies !((#[trigger] v.take(
            v.len() - 1,
        )[i]) is Eof) by {
            assert(v.take(v.len() - 1)[i] == v[i]);
            if eof_last(v) {
                assert(v.take(v.len() - 1)[i] == v.take(v.len() - 1)[i]);
            }
        }
    }
}

/// The view list of a list with its front removed.
pub proof fn lemma_toks_remove0(s: Seq<Token>)
    requires
        s.len() >= 1,
    ensures
        toks(s.subrange(1, s.len() as int)) =~= toks(s).subrange(1, toks(s).len() as int),
{
    lemma_toks_len(s);
    let a = toks(s.subrange(1, s.len() as int));
    let b = toks(s).subrange(1, toks(s).len() as int);
    assert forall|i: int| 0 <= i < a.len() implies a[i] == b[i] by {
        lemma_toks_index(s.subrange(1, s.len() as int), i);
        lemma_toks_index(s, i + 1);
    }
}

impl HtmlTokenizer {
    /// The current state of the automaton.
    pub open spec fn spec_state(&self) -> State {
        self.state
    }

    /// The start-tag name the tree stage last announced.
    pub open spec fn spec_last_start_tag(&self) -> Option<TagV> {
        opt_tag_view(self.last_emitted_tag)
    }

    /// Where the pull loop stands: tokens still to come, the end-of-file
    /// token already queued, or everything delivered.
    pub open spec fn spec_phase(&self) -> int {
        if self.done {
            0
        } else if self.vw().queue.len() > 0 && self.vw().queue.last() is Eof {
            1
        } else {
            2
        }
    }

    /// An upper bound on the work left: unread input weighs most, then the
    /// temporary buffer and the queued tokens. Every pull strictly shrinks
    /// the pair (phase, measure), which is why any finite input yields a
    /// finite token sequence.
    pub open spec fn spec_measure(&self) -> int {
        40 * (self.html.text().len() - self.html.position()) + self.temp_buf@.len()
            + self.tokens_to_emit@.len()
    }

    /// The current state, for the tree stage.
    pub fn state(&self) -> (r: State)
        ensures
            r == self.spec_state(),
    {
        self.state
    }

    /// Switches the automaton to one of the text modes. The tree stage uses
    /// this after inserting an element whose content is raw text, RCDATA,
    /// script data, plain text, or a CDATA section.
    pub fn set_state(&mut self, s: State)
        requires
            old(self).wf(),
            s == State::Data || s == State::Rcdata || s == State::Rawtext || s == State::ScriptData
                || s == State::Plaintext || s == State::CdataSection,
        ensures
            final(self).wf(),
            final(self).spec_state() == s,
            final(self).spec_done() == old(self).spec_done(),
    {
        self.state = s;
    }

    /// Records the last start tag the tree stage emitted, against which a
    /// candidate end tag in the raw-text modes is matched.
    pub fn notify_last_start_tag(&mut self, tag: Tag)
        requires
            old(self).wf(),
        ensures
            final(self).wf(),
            final(self).spec_last_start_tag() == Some(tag@),
            final(self).spec_state() == old(self).spec_state(),
            final(self).spec_done() == old(self).spec_done(),
    {
        self.last_emitted_tag = Some(tag);
    }

    /// Dispatches one character-or-end-of-input to the handler of the
    /// current state. Exactly one handler is defined for every state, and
    /// each is total in the character: no reachable pair is unhandled.
    pub fn dispatch(&mut self, c: Option<char>) -> (r: Vec<Token>)
        requires
            old(self).inv(),
            !old(self).reconsume,
        ensures
            final(self).inv(),
            step_ok(old(self).vw(), final(self).vw(), c, toks(r@), old(self).state),
    {
        match self.state {
            State::Data => self.data(c),
            State::Rcdata => self.rcdata(c),
            State::Rawtext => self.rawtext(c),
            State::ScriptData => self.script_data(c),
            State::Plaintext => self.plaintext(c),
            State::TagOpen => self.tag_open(c),
            State::EndTagOpen => self.end_tag_open(c),
            State::TagName => self.tag_name(c),
            State::RcdataLessThanSign => self.rcdata_less_than_sign(c),
            State::RcdataEndTagOpen => self.rcdata_end_tag_open(c),
            State::RcdataEndTagName => self.rcdata_end_tag_name(c),
            State::RawtextLessThanSign => self.rawtext_less_than_sign(c),
            State::RawtextEndTagOpen => self.rawtext_end_tag_open(c),
            State::RawtextEndTagName => self.rawtext_end_tag_name(c),
            State::ScriptDataLessThanSign => self.script_data_less_than_sign(c),
            State::ScriptDataEndTagOpen => self.script_data_end_tag_open(c),
            State::ScriptDataEndTagName => self.script_data_end_tag_name(c),
            State::ScriptDataEscapeStart => self.script_data_escape_start(c),
            State::ScriptDataEscapeStartDash => self.script_data_escape_start_dash(c),
            State::ScriptDataEscaped => self.script_data_escaped(c),
            State::ScriptDataEscapedDash => self.script_data_escaped_dash(c),
            State::ScriptDataEscapedDashDash => self.script_data_escaped_dash_dash(c),
            State::ScriptDataEscapedLessThanSign => self.script_data_escaped_less_than_sign(c),
            State::ScriptDataEscapedEndTagOpen => self.script_data_escaped_end_tag_open(c),
            State::ScriptDataEscapedEndTagName => self.script_data_escaped_end_tag_name(c),
            State::ScriptDataDoubleEscapeStart => self.script_data_double_escape_start(c),
            State::ScriptDataDoubleEscaped => self.script_data_double_escaped(c),
            State::ScriptDataDoubleEscapedDash => self.script_data_double_escaped_dash(c),
            State::ScriptDataDoubleEscapedDashDash => self.script_data_double_escaped_dash_dash(c),
            State::ScriptDataDoubleEscapedLessThanSign => self.script_data_double_escaped_less_than_sign(
                c,
            ),
            State::ScriptDataDoubleEscapeEnd => self.script_data_double_escape_end(c),
            State::BeforeAttributeName => self.before_attribute_name(c),
            State::AttributeName => self.attribute_name(c),
            State::AfterAttributeName => self.after_attribute_name(c),
            State::BeforeAttributeValue => self.before_attribute_value(c),
            State::AttributeValueDoubleQuoted => self.attribute_value_double_quoted(c),
            State::AttributeValueSingleQuoted => self.attribute_value_single_quoted(c),
            State::AttributeValueUnquoted => self.attribute_value_unquoted(c),
            State::AfterAttributeValueQuoted => self.after_attribute_value_quoted(c),
            State::SelfClosingStartTag => self.self_closing_start_tag(c),
            State::BogusComment => self.bogus_comment(c),
            State::MarkupDeclarationOpen => self.markup_declaration_open(c),
            State::CommentStart => self.comment_start(c),
            State::CommentStartDash => self.comment_start_dash(c),
            State::Comment => self.comment(c),
            State::CommentLessThanSign => self.comment_less_than_sign(c),
            State::CommentLessThanSignBang => self.comment_less_than_sign_bang(c),
            State::CommentLessThanSignBangDash => self.comment_less_than_sign_bang_dash(c),
            State::CommentLessThanSignBangDashDash => self.comment_less_than_sign_bang_dash_dash(c),
            State::CommentEndDash => self.comment_end_dash(c),
            State::CommentEnd => self.comment_end(c),
            State::CommentEndBang => self.comment_end_bang(c),
            State::Doctype => self.doctype(c),
            State::BeforeDoctypeName => self.before_doctype_name(c),
            State::DoctypeName => self.doctype_name(c),
            State::AfterDoctypeName => self.after_doctype_name(c),
            State::AfterDoctypePublicKeyword => self.after_doctype_public_keyword(c),
            State::BeforeDoctypePublicIdentifier => self.before_doctype_public_identifier(c),
            State::DoctypePublicIdentifierDoubleQuoted => self.doctype_public_identifier_double_quoted(
                c,
            ),
            State::DoctypePublicIdentifierSingleQuoted => self.doctype_public_identifier_single_quoted(
                c,
            ),
            State::AfterDoctypePublicIdentifier => self.after_doctype_public_identifier(c),
            State::BetweenDoctypePublicAndSystemIdentifiers => self.between_doctype_public_and_system_identifiers(
                c,
            ),
            State::AfterDoctypeSystemKeyword => self.after_doctype_system_keyword(c),
            State::BeforeDoctypeSystemIdentifier => self.before_doctype_system_identifier(c),
            State::DoctypeSystemIdentifierDoubleQuoted => self.doctype_system_identifier_double_quoted(
                c,
            ),
            State::DoctypeSystemIdentifierSingleQuoted => self.doctype_system_identifier_single_quoted(
                c,
            ),
            State::AfterDoctypeSystemIdentifier => self.after_doctype_system_identifier(c),
            State::BogusDoctype => self.bogus_doctype(c),
            State::CdataSection => self.cdata_section(c),
            State::CdataSectionBracket => self.cdata_section_bracket(c),
            State::CdataSectionEnd => self.cdata_section_end(c),
            State::CharacterReference => self.character_reference(c),
            State::NamedCharacterReference => self.named_character_reference(c),
            State::AmbiguousAmpersand => self.ambiguous_ampersand(c),
            State::NumericCharacterReference => self.numeric_character_reference(c),
            State::HexadecimalCharacterReferenceStart => self.hexadecimal_character_reference_start(
                c,
            ),
            State::DecimalCharacterReferenceStart => self.decimal_character_reference_start(c),
            State::HexadecimalCharacterReference => self.hexadecimal_character_reference(c),
            State::DecimalCharacterReference => self.decimal_character_reference(c),
            State::NumericCharacterReferenceEnd => self.numeric_character_reference_end(c),
        }
    }

    /// Reads input and dispatches until the automaton yields a step's worth
    /// of tokens: one consumed character may be re-dispatched down the state
    /// ranks, and its tokens accumulate in order.
    pub fn step_chain(&mut self, c: Option<char>) -> (r: Vec<Token>)
        requires
            old(self).inv(),
            !old(self).reconsume,
        ensures
            final(self).inv(),
            !final(self).reconsume,
            final(self).vw().text == old(self).vw().text,
            old(self).vw().pos <= final(self).vw().pos <= final(self).vw().text.len(),
            final(self).vw().queue == old(self).vw().queue,
            final(self).vw().done == old(self).vw().done,
            final(self).vw().last_start_tag == old(self).vw().last_start_tag,
            c is Some ==> no_eof(toks(r@)),
            c is None ==> eof_last(toks(r@)),
            toks(r@).len() + final(self).vw().temp_buf.len() + 40 * old(self).vw().pos <= old(
                self,
            ).vw().temp_buf.len() + 40 * final(self).vw().pos + 18,
    {
        let ghost chain0 = self.vw();
        let mut out = self.dispatch(c);
        let mut fuel: usize = 5;
        proof {
            if !self.reconsume && c is None {
                assert(eof_last(toks(out@)));
            }
        }
        while self.reconsume
            invariant
                self.inv(),
                fuel <= 5,
                self.reconsume ==> state_rank(self.state) < fuel,
                self.vw().text == chain0.text,
                chain0.pos <= self.vw().pos <= self.vw().text.len(),
                self.vw().queue == chain0.queue,
                self.vw().done == chain0.done,
                self.vw().last_start_tag == chain0.last_start_tag,
                c is Some ==> no_eof(toks(out@)),
                (c is None && self.reconsume) ==> no_eof(toks(out@)),
                (c is None && !self.reconsume) ==> eof_last(toks(out@)),
                toks(out@).len() + self.vw().temp_buf.len() + 40 * chain0.pos <= chain0.temp_buf.len()
                    + 40 * self.vw().pos + 3 * (6 - fuel),
            decreases fuel,
        {
            self.reconsume = false;
            fuel = fuel - 1;
            let ghost mid = self.vw();
            let ghost out_prev = out@;
            let mut r2 = self.dispatch(c);
            let ghost r2v = r2@;
            out.append(&mut r2);
            proof {
                lemma_toks_add(out_prev, r2v);
                if c is Some {
                    lemma_no_eof_concat(toks(out_prev), toks(r2v));
                } else {
                    if self.reconsume {
                        lemma_no_eof_concat(toks(out_prev), toks(r2v));
                    } else {
                        lemma_eof_last_concat(toks(out_prev), toks(r2v));
                    }
                }
            }
        }
        out
    }

    /// Pulls the next token. Each call terminates; the end-of-file token is
    /// delivered exactly once, after every other token, only once the input
    /// is exhausted, and afterwards every call answers `None`. A non-empty
    /// queue hands out exactly its front token; otherwise the automaton
    /// consumes input until a step yields tokens, of which the first is
    /// returned and the rest are queued. Each delivering call strictly
    /// shrinks the pair (phase, measure), so a finite input yields a finite
    /// token sequence.
    pub fn next_token(&mut self) -> (r: Option<Token>)
        requires
            old(self).wf(),
        ensures
            final(self).wf(),
            old(self).spec_done() ==> (r is None && final(self).spec_done()),
            !old(self).spec_done() ==> r is Some,
            (final(self).spec_done() <==> (old(self).spec_done() || (r matches Some(t)
                && t@ is Eof))),
            !old(self).spec_done() ==> (final(self).spec_phase() < old(self).spec_phase() || (
            final(self).spec_phase() == old(self).spec_phase() && final(self).spec_measure() < old(
                self,
            ).spec_measure())),
            final(self)@.text == old(self)@.text,
            final(self)@.last_start_tag == old(self)@.last_start_tag,
            old(self)@.pos <= final(self)@.pos <= final(self)@.text.len(),
            !old(self).spec_done() && old(self)@.queue.len() > 0 ==> (r matches Some(t) && t@
                == old(self)@.queue[0]) && final(self)@ == (TkView {
                queue: old(self)@.queue.subrange(1, old(self)@.queue.len() as int),
                done: old(self)@.queue[0] is Eof,
                ..old(self)@
            }),
            !old(self).spec_done() && old(self)@.queue.len() == 0 ==> ({
                let post = final(self)@;
                &&& ((r matches Some(t) && t@ is Eof) ==> post.pos == post.text.len())
                &&& ((r matches Some(t) && !(t@ is Eof)) ==> (post.pos > old(self)@.pos || post.pos
                    == post.text.len()))
                &&& (post.queue.len() > 0 && post.queue.last() is Eof ==> post.pos
                    == post.text.len())
            }),
    {
        if self.done {
            return None;
        }
        let ghost m0 = self.spec_measure();
        let ghost t0 = self.vw();
        if self.tokens_to_emit.len() == 0 {
            let ghost text_len = self.html.text().len();
            loop
                invariant_except_break
                    self.inv(),
                    !self.reconsume,
                    !self.done,
                    self.tokens_to_emit@.len() == 0,
                    self.html.text().len() == text_len,
                    self.vw().text == t0.text,
                    self.vw().last_start_tag == t0.last_start_tag,
                    self.vw().pos >= t0.pos,
                    40 * (text_len - self.vw().pos) + self.vw().temp_buf.len() <= m0,
                ensures
                    self.inv(),
                    !self.reconsume,
                    !self.done,
                    self.tokens_to_emit@.len() >= 1,
                    queue_shape(self.vw().queue),
                    (self.spec_measure() + 22 <= m0 || self.vw().queue.last() is Eof),
                    self.vw().text == t0.text,
                    self.vw().last_start_tag == t0.last_start_tag,
                    t0.pos <= self.vw().pos <= self.vw().text.len(),
                    self.vw().queue.last() is Eof ==> self.vw().pos == self.vw().text.len(),
                    self.vw().pos > t0.pos || self.vw().pos == self.vw().text.len(),
                decreases 40 * (text_len - self.vw().pos) + self.vw().temp_buf.len(),
            {
                let ghost head = self.vw();
                let c = self.html.read();
                let out = self.step_chain(c);
                if out.len() > 0 {
                    proof {
                        lemma_toks_len(out@);
                        lemma_shape_from_chain(toks(out@));
                        if c is Some {
                            assert(!(toks(out@).last() is Eof)) by {
                                assert(!(toks(out@)[toks(out@).len() - 1] is Eof));
                            }
                        } else {
                            assert(head.pos == head.text.len());
                            assert(self.vw().pos == self.vw().text.len());
                        }
                    }
                    self.tokens_to_emit = out;
                    break ;
                }
                proof {
                    lemma_toks_len(out@);
                    assert(c is Some) by {
                        if c is None {
                            assert(eof_last(toks(out@)));
                        }
                    }
                }
            }
        }
        let ghost qvec = self.tokens_to_emit@;
        let ghost qtoks = toks(self.tokens_to_emit@);
        proof {
            lemma_toks_len(qvec);
            lemma_toks_index(qvec, 0);
        }
        let t = self.tokens_to_emit.remove(0);
        proof {
            lemma_queue_pop(qtoks);
            lemma_toks_remove0(qvec);
            assert(qvec.remove(0) =~= qvec.subrange(1, qvec.len() as int));
            assert(toks(self.tokens_to_emit@) =~= qtoks.subrange(1, qtoks.len() as int));
        }
        let is_eof = match &t {
            Token::Eof => true,
            _ => false,
        };
        proof {
            assert(is_eof == (t@ is Eof));
        }
        if is_eof {
            self.done = true;
        }
        Some(t)
    }

    /// Pulls every remaining token. This function terminates on any finite
    /// input, and the list it returns is non-empty, ends with the
    /// end-of-file token, and holds that token nowhere else: the token
    /// sequence of a finite input is finite, with exactly one end-of-file
    /// token, always last.
    pub fn tokenize_to_end(&mut self) -> (r: Vec<Token>)
        requires
            old(self).wf(),
            !old(self).spec_done(),
        ensures
            final(self).wf(),
            final(self).spec_done(),
            eof_last(toks(r@)),
            final(self)@.text == old(self)@.text,
            old(self)@.queue.len() == 0 ==> final(self)@.pos == final(self)@.text.len(),
    {
        let ghost t0 = self.vw();
        let mut out: Vec<Token> = Vec::new();
        loop
            invariant_except_break
                self.wf(),
                !self.spec_done(),
                no_eof(toks(out@)),
                self.vw().text == t0.text,
                t0.queue.len() == 0 ==> (self.vw().queue.len() > 0 && self.vw().queue.last() is Eof
                    ==> self.vw().pos == self.vw().text.len()),
            ensures
                self.wf(),
                self.spec_done(),
                eof_last(toks(out@)),
                self.vw().text == t0.text,
                t0.queue.len() == 0 ==> self.vw().pos == self.vw().text.len(),
            decreases self.spec_phase(), self.spec_measure(),
        {
            let ghost out_prev = out@;
            match self.next_token() {
                Some(t) => {
                    let ghost tv = t@;
                    crate::chars::vec_push(&mut out, t);
                    proof {
                        lemma_toks_add(out_prev, seq![out@.last()]);
                        assert(out@ =~= out_prev + seq![out@.last()]);
                        lemma_toks_len(out_prev);
                        lemma_toks_len(out@);
                        lemma_toks_index(out@, out@.len() - 1);
                        assert forall|i: int| 0 <= i < toks(out@).len() implies (#[trigger] toks(
                            out@,
                        )[i]) == (if i < out_prev.len() {
                            toks(out_prev)[i]
                        } else {
                            tv
                        }) by {
                            lemma_toks_index(out@, i);
                            if i < out_prev.len() {
                                lemma_toks_index(out_prev, i);
                            }
                        }
                    }
                    if self.done {
                        proof {
                            assert(tv is Eof);
                            assert(toks(out@).last() == tv);
                            assert forall|i: int| 0 <= i < toks(out@).len() - 1 implies !((
                            #[trigger] toks(out@).take(toks(out@).len() - 1)[i]) is Eof) by {
                                assert(toks(out@).take(toks(out@).len() - 1)[i] == toks(out@)[i]);
                            }
                        }
                        break ;
                    }
                    proof {
                        if t0.queue.len() == 0 && self.vw().queue.len() > 0
                            && self.vw().queue.last() is Eof {
                            assert(self.vw().pos == self.vw().text.len());
                        }
                    }
                    proof {
                        assert(!(tv is Eof));
                        assert forall|i: int| 0 <= i < toks(out@).len() implies !((#[trigger] toks(
                            out@,
                        )[i]) is Eof) by {}
                    }
                },
                None => {
                    proof {
                        assert(false);
                    }
                },
            }
        }
        out
    }
}

} // verus!
