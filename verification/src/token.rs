//! The tokenizer's data model: tokens, in-progress builders, and the named
//! states of the tokenization automaton, with a mathematical view for each
//! buffer-holding type.

use vstd::prelude::*;

verus! {

/// One name/value pair of a tag. Built incrementally: characters are pushed
/// onto the name or the value of the last attribute of the open tag.
#[derive(Clone)]
pub struct Attribute {
    pub name: Vec<char>,
    pub value: Vec<char>,
}

/// The mathematical value of an [`Attribute`].
pub struct AttributeV {
    pub name: Seq<char>,
    pub value: Seq<char>,
}

impl View for Attribute {
    type V = AttributeV;

    open spec fn view(&self) -> AttributeV {
        AttributeV { name: self.name@, value: self.value@ }
    }
}

impl Attribute {
    pub fn new() -> (r: Attribute)
        ensures
            r@.name == Seq::<char>::empty(),
            r@.value == Seq::<char>::empty(),
    {
        Attribute { name: Vec::new(), value: Vec::new() }
    }
}

/// An in-progress or emitted comment.
#[derive(Clone)]
pub struct Comment {
    pub value: Vec<char>,
}

impl View for Comment {
    type V = Seq<char>;

    open spec fn view(&self) -> Seq<char> {
        self.value@
    }
}

impl Comment {
    pub fn new() -> (r: Comment)
        ensures
            r@ == Seq::<char>::empty(),
    {
        Comment { value: Vec::new() }
    }
}

/// An in-progress or emitted doctype declaration.
#[derive(Clone)]
pub struct Doctype {
    pub force_quirks: bool,
    pub name: Option<Vec<char>>,
    pub public_id: Option<Vec<char>>,
    pub system_id: Option<Vec<char>>,
}

/// The mathematical value of a [`Doctype`].
pub struct DoctypeV {
    pub force_quirks: bool,
    pub name: Option<Seq<char>>,
    pub public_id: Option<Seq<char>>,
    pub system_id: Option<Seq<char>>,
}

pub open spec fn opt_chars_view(o: Option<Vec<char>>) -> Option<Seq<char>> {
    match o {
        Some(v) => Some(v@),
        None => None,
    }
}

/// `o` with the characters of `c` appended, where a missing string counts
/// as empty.
pub open spec fn opt_chars_pushed(o: Option<Seq<char>>, c: char) -> Option<Seq<char>> {
    match o {
        Some(s) => Some(s.push(c)),
        None => Some(seq![c]),
    }
}

impl View for Doctype {
    type V = DoctypeV;

    open spec fn view(&self) -> DoctypeV {
        DoctypeV {
            force_quirks: self.force_quirks,
            name: opt_chars_view(self.name),
            public_id: opt_chars_view(self.public_id),
            system_id: opt_chars_view(self.system_id),
        }
    }
}

impl Doctype {
    pub fn new() -> (r: Doctype)
        ensures
            r@ == (DoctypeV { force_quirks: false, name: None, public_id: None, system_id: None }),
    {
        Doctype { force_quirks: false, name: None, public_id: None, system_id: None }
    }

    /// Appends one character to the name, creating an empty name first if
    /// none is open yet.
    pub fn append_to_name(&mut self, c: char)
        ensures
            final(self)@ == (DoctypeV {
                name: opt_chars_pushed(old(self)@.name, c),
                ..old(self)@
            }),
    {
        if self.name.is_none() {
            self.name = Some(Vec::new());
        }
        match self.name.as_mut() {
            Some(n) => n.push(c),
            None => {
                proof {
                    assert(false);
                }
            },
        }
    }

    /// Appends one character to the public identifier, creating it empty
    /// first if none is open yet.
    pub fn append_to_public_id(&mut self, c: char)
        ensures
            final(self)@ == (DoctypeV {
                public_id: opt_chars_pushed(old(self)@.public_id, c),
                ..old(self)@
            }),
    {
        if self.public_id.is_none() {
            self.public_id = Some(Vec::new());
        }
        match self.public_id.as_mut() {
            Some(n) => n.push(c),
            None => {
                proof {
                    assert(false);
                }
            },
        }
    }

    /// Appends one character to the system identifier, creating it empty
    /// first if none is open yet.
    pub fn append_to_system_id(&mut self, c: char)
        ensures
            final(self)@ == (DoctypeV {
                system_id: opt_chars_pushed(old(self)@.system_id, c),
                ..old(self)@
            }),
    {
        if self.system_id.is_none() {
            self.system_id = Some(Vec::new());
        }
        match self.system_id.as_mut() {
            Some(n) => n.push(c),
            None => {
                proof {
                    assert(false);
                }
            },
        }
    }
}

/// An in-progress or emitted start or end tag.
#[derive(Clone)]
pub struct Tag {
    pub name: Vec<char>,
    pub self_closing: bool,
    pub is_end_tag: bool,
    pub attributes: Option<Vec<Attribute>>,
}

/// The mathematical value of a [`Tag`].
pub struct TagV {
    pub name: Seq<char>,
    pub self_closing: bool,
    pub is_end_tag: bool,
    pub attributes: Option<Seq<AttributeV>>,
}

impl TagV {
    /// The attribute list, where a missing list counts as empty.
    pub open spec fn attrs(&self) -> Seq<AttributeV> {
        match self.attributes {
            Some(s) => s,
            None => Seq::empty(),
        }
    }

    /// Whether the last attribute exists, so that a character can be added
    /// to its name or value.
    pub open spec fn has_open_attr(&self) -> bool {
        self.attributes matches Some(s) && s.len() > 0
    }
}

impl View for Tag {
    type V = TagV;

    open spec fn view(&self) -> TagV {
        TagV {
            name: self.name@,
            self_closing: self.self_closing,
            is_end_tag: self.is_end_tag,
            attributes: match self.attributes {
                Some(v) => Some(v@.map_values(|a: Attribute| a@)),
                None => None,
            },
        }
    }
}

impl Tag {
    pub fn new(end_tag: bool) -> (r: Tag)
        ensures
            r@ == (TagV {
                name: Seq::<char>::empty(),
                self_closing: false,
                is_end_tag: end_tag,
                attributes: None,
            }),
    {
        Tag { name: Vec::new(), self_closing: false, is_end_tag: end_tag, attributes: None }
    }

    /// Opens a fresh, empty attribute at the end of the list, creating the
    /// list first if the tag has none yet.
    pub fn create_attribute(&mut self)
        ensures
            final(self)@ == (TagV {
                attributes: Some(
                    old(self)@.attrs().push(
                        AttributeV { name: Seq::empty(), value: Seq::empty() },
                    ),
                ),
                ..old(self)@
            }),
            final(self)@.has_open_attr(),
    {
        if self.attributes.is_none() {
            self.attributes = Some(Vec::new());
        }
        match self.attributes.as_mut() {
            Some(attrs) => {
                attrs.push(Attribute::new());
                proof {
                    assert(attrs@.map_values(|a: Attribute| a@) =~= old(
                        self,
                    )@.attrs().push(AttributeV { name: Seq::empty(), value: Seq::empty() }));
                }
            },
            None => {
                proof {
                    assert(false);
                }
            },
        }
    }

    /// Appends one character to the name of the last attribute. The caller
    /// must have opened an attribute first.
    pub fn append_to_cur_attr_name(&mut self, c: char)
        requires
            old(self)@.has_open_attr(),
        ensures
            final(self)@ == (TagV {
                attributes: Some(
                    old(self)@.attrs().update(
                        old(self)@.attrs().len() - 1,
                        AttributeV {
                            name: old(self)@.attrs().last().name.push(c),
                            ..old(self)@.attrs().last()
                        },
                    ),
                ),
                ..old(self)@
            }),
            final(self)@.has_open_attr(),
    {
        match self.attributes.as_mut() {
            Some(attrs) => {
                let i = attrs.len() - 1;
                let mut a = attrs.remove(i);
                a.name.push(c);
                attrs.insert(i, a);
                proof {
                    assert(attrs@.map_values(|x: Attribute| x@) =~= old(self)@.attrs().update(
                        old(self)@.attrs().len() - 1,
                        AttributeV {
                            name: old(self)@.attrs().last().name.push(c),
                            ..old(self)@.attrs().last()
                        },
                    ));
                }
            },
            None => {
                proof {
                    assert(false);
                }
            },
        }
    }

    /// Appends one character to the value of the last attribute. The caller
    /// must have opened an attribute first.
    pub fn append_to_cur_attr_value(&mut self, c: char)
        requires
            old(self)@.has_open_attr(),
        ensures
            final(self)@ == (TagV {
                attributes: Some(
                    old(self)@.attrs().update(
                        old(self)@.attrs().len() - 1,
                        AttributeV {
                            value: old(self)@.attrs().last().value.push(c),
                            ..old(self)@.attrs().last()
                        },
                    ),
                ),
                ..old(self)@
            }),
            final(self)@.has_open_attr(),
    {
        match self.attributes.as_mut() {
            Some(attrs) => {
                let i = attrs.len() - 1;
                let mut a = attrs.remove(i);
                a.value.push(c);
                attrs.insert(i, a);
                proof {
                    assert(attrs@.map_values(|x: Attribute| x@) =~= old(self)@.attrs().update(
                        old(self)@.attrs().len() - 1,
                        AttributeV {
                            value: old(self)@.attrs().last().value.push(c),
                            ..old(self)@.attrs().last()
                        },
                    ));
                }
            },
            None => {
                proof {
                    assert(false);
                }
            },
        }
    }

    /// Appends every character of `chars` to the value of the last
    /// attribute. The caller must have opened an attribute first.
    pub fn append_to_cur_attr_value_str(&mut self, chars: &Vec<char>)
        requires
            old(self)@.has_open_attr(),
        ensures
            final(self)@ == (TagV {
                attributes: Some(
                    old(self)@.attrs().update(
                        old(self)@.attrs().len() - 1,
                        AttributeV {
                            value: old(self)@.attrs().last().value + chars@,
                            ..old(self)@.attrs().last()
                        },
                    ),
                ),
                ..old(self)@
            }),
            final(self)@.has_open_attr(),
    {
        match self.attributes.as_mut() {
            Some(attrs) => {
                let i = attrs.len() - 1;
                let mut a = attrs.remove(i);
                let ghost a0 = a@;
                let mut j: usize = 0;
                while j < chars.len()
                    invariant
                        j <= chars@.len(),
                        a@.name == a0.name,
                        a@.value == a0.value + chars@.take(j as int),
                    decreases chars@.len() - j,
                {
                    a.value.push(chars[j]);
                    proof {
                        assert(a0.value + chars@.take(j + 1) =~= (a0.value + chars@.take(
                            j as int,
                        )).push(chars@[j as int]));
                    }
                    j = j + 1;
                }
                attrs.insert(i, a);
                proof {
                    assert(chars@.take(chars@.len() as int) =~= chars@);
                    assert(a@ == (AttributeV {
                        value: old(self)@.attrs().last().value + chars@,
                        ..old(self)@.attrs().last()
                    }));
                    assert(attrs@.map_values(|x: Attribute| x@) =~= old(self)@.attrs().update(
                        old(self)@.attrs().len() - 1,
                        AttributeV {
                            value: old(self)@.attrs().last().value + chars@,
                            ..old(self)@.attrs().last()
                        },
                    ));
                }
            },
            None => {
                proof {
                    assert(false);
                }
            },
        }
    }

    /// Marks the tag as self-closing.
    pub fn set_self_closing_flag(&mut self)
        ensures
            final(self)@ == (TagV { self_closing: true, ..old(self)@ }),
    {
        self.self_closing = true;
    }
}

/// The position a token started at: absolute offset, line, and offset
/// within the line.
#[derive(Copy, Clone)]
pub struct TokenMetadata {
    pub file_offset: usize,
    pub line: u32,
    pub line_offset: u32,
}

impl TokenMetadata {
    pub fn new(file_offset: usize, line: u32, line_offset: u32) -> (r: TokenMetadata)
        ensures
            r.file_offset == file_offset,
            r.line == line,
            r.line_offset == line_offset,
    {
        TokenMetadata { file_offset, line, line_offset }
    }
}

/// One unit of tokenizer output.
#[derive(Clone)]
pub enum Token {
    Attribute(Attribute),
    Character(char),
    Comment(Comment),
    Doctype(Doctype),
    Eof,
    Tag(Tag),
}

/// The mathematical value of a [`Token`].
pub enum TokenV {
    Attribute(AttributeV),
    Character(char),
    Comment(Seq<char>),
    Doctype(DoctypeV),
    Eof,
    Tag(TagV),
}

impl View for Token {
    type V = TokenV;

    open spec fn view(&self) -> TokenV {
        match self {
            Token::Attribute(a) => TokenV::Attribute(a@),
            Token::Character(c) => TokenV::Character(*c),
            Token::Comment(c) => TokenV::Comment(c@),
            Token::Doctype(d) => TokenV::Doctype(d@),
            Token::Eof => TokenV::Eof,
            Token::Tag(t) => TokenV::Tag(t@),
        }
    }
}

/// The views of a token list, in order.
pub open spec fn toks(r: Seq<Token>) -> Seq<TokenV> {
    r.map_values(|t: Token| t@)
}

/// No token of the sequence is the end-of-file token.
pub open spec fn no_eof(s: Seq<TokenV>) -> bool {
    forall|i: int| 0 <= i < s.len() ==> !((#[trigger] s[i]) is Eof)
}

/// The sequence is non-empty, ends with the end-of-file token, and holds it
/// nowhere else.
pub open spec fn eof_last(s: Seq<TokenV>) -> bool {
    &&& s.len() >= 1
    &&& s.last() is Eof
    &&& no_eof(s.take(s.len() - 1))
}

/// One named mode of the tokenization automaton.
#[derive(Copy, Clone, PartialEq, Eq, Structural, Debug)]
pub enum State {
    Data,
    Rcdata,
    Rawtext,
    ScriptData,
    Plaintext,
    TagOpen,
    EndTagOpen,
    TagName,
    RcdataLessThanSign,
    RcdataEndTagOpen,
    RcdataEndTagName,
    RawtextLessThanSign,
    RawtextEndTagOpen,
    RawtextEndTagName,
    ScriptDataLessThanSign,
    ScriptDataEndTagOpen,
    ScriptDataEndTagName,
    ScriptDataEscapeStart,
    ScriptDataEscapeStartDash,
    ScriptDataEscaped,
    ScriptDataEscapedDash,
    ScriptDataEscapedDashDash,
    ScriptDataEscapedLessThanSign,
    ScriptDataEscapedEndTagOpen,
    ScriptDataEscapedEndTagName,
    ScriptDataDoubleEscapeStart,
    ScriptDataDoubleEscaped,
    ScriptDataDoubleEscapedDash,
    ScriptDataDoubleEscapedDashDash,
    ScriptDataDoubleEscapedLessThanSign,
    ScriptDataDoubleEscapeEnd,
    BeforeAttributeName,
    AttributeName,
    AfterAttributeName,
    BeforeAttributeValue,
    AttributeValueDoubleQuoted,
    AttributeValueSingleQuoted,
    AttributeValueUnquoted,
    AfterAttributeValueQuoted,
    SelfClosingStartTag,
    BogusComment,
    MarkupDeclarationOpen,
    CommentStart,
    CommentStartDash,
    Comment,
    CommentLessThanSign,
    CommentLessThanSignBang,
    CommentLessThanSignBangDash,
    CommentLessThanSignBangDashDash,
    CommentEndDash,
    CommentEnd,
    CommentEndBang,
    Doctype,
    BeforeDoctypeName,
    DoctypeName,
    AfterDoctypeName,
    AfterDoctypePublicKeyword,
    BeforeDoctypePublicIdentifier,
    DoctypePublicIdentifierDoubleQuoted,
    DoctypePublicIdentifierSingleQuoted,
    AfterDoctypePublicIdentifier,
    BetweenDoctypePublicAndSystemIdentifiers,
    AfterDoctypeSystemKeyword,
    BeforeDoctypeSystemIdentifier,
    DoctypeSystemIdentifierDoubleQuoted,
    DoctypeSystemIdentifierSingleQuoted,
    AfterDoctypeSystemIdentifier,
    BogusDoctype,
    CdataSection,
    CdataSectionBracket,
    CdataSectionEnd,
    CharacterReference,
    NamedCharacterReference,
    AmbiguousAmpersand,
    NumericCharacterReference,
    HexadecimalCharacterReferenceStart,
    DecimalCharacterReferenceStart,
    HexadecimalCharacterReference,
    DecimalCharacterReference,
    NumericCharacterReferenceEnd,
}

} // verus!
