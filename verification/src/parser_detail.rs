//! The parse-error catalogue, insertion modes, and per-element classification
//! used by the tree-construction stage.

use vstd::prelude::*;
use crate::chars::{lower_vec, vec_eq_str, spec_lower_seq};
use crate::cursor::str_to_char_vec;
use crate::namespace::Namespace;

verus! {

/// A named, non-fatal deviation from well-formed input. Every reported error
/// is paired with a defined recovery action; tokenization always continues.
#[derive(Copy, Clone, PartialEq, Eq, Structural, Debug)]
pub enum ParseHtmlError {
    AbruptClosingOfEmptyComment,
    AbruptDoctypePublicIdentifier,
    AbruptDoctypeSystemIdentifier,
    AbsenseOfDigitsInNumericCharacterReference,
    CDataInHtmlContext,
    CharacterReferenceOutsideUnicodeRange,
    ControlCharacterInInputStream,
    ControlCharacterReference,
    EndTagWithAttributes,
    DuplicateAttribute,
    EndTagWithTrailingSolidus,
    EofBeforeTagName,
    EofInCData,
    EofInComment,
    EofInDoctype,
    EofInScriptHtmlCommentLikeText,
    EofInTag,
    IncorrectlyClosedComment,
    IncorrectlyOpenedComment,
    InvalidCharacterSequenceAfterDoctypeName,
    InvalidFirstCharacterOfTagName,
    MissingAttributeValue,
    MissingDoctypeName,
    MissingDoctypePublicIdentifier,
    MissingDoctypeSystemIdentifier,
    MissingEndTagName,
    MissingQuoteBeforeDoctypePublicIdentifier,
    MissingQuoteBeforeDoctypeSystemIdentifier,
    MissingSemicolonAfterCharacterReference,
    MissingWhitespaceAfterDoctypePublicKeyword,
    MissingWhitespaceAfterDoctypeSystemKeyword,
    MissingWhitespaceBeforeDoctypeName,
    MissingWhitespaceBetweenAttributes,
    MissingWhitespaceBetweenDoctypePublicAndSystemIdentifiers,
    NestedComment,
    NoncharacterCharacterReference,
    NoncharacterInInputStream,
    NonVoidHtmlElementStartTagWithTrailingSolidus,
    NullCharacterReference,
    SurrogateCharacterReference,
    SurrogateCharacterInInputStream,
    UnexpectedCharacterAfterDoctypeSystemIdentifier,
    UnexpectedCharacterInAttributeName,
    UnexpectedCharacterInUnquotedAttributeValue,
    UnexpectedEqualsSignBeforeAttributeName,
    UnexpectedNullCharacter,
    UnexpectedQuestionMarkInsteadOfTagName,
    UnexpectedSolidusInTag,
    UnknownNamedCharacterReference,
}

#[derive(Copy, Clone, PartialEq, Eq, Structural, Debug)]
pub enum InsertionMode {
    Initial,
    BeforeHtml,
    BeforeHead,
    InHead,
    InHeadNoscript,
    AfterHead,
    InBody,
    Text,
    InTable,
    InTableText,
    InCaption,
    InColumnGroup,
    InTableBody,
    InRow,
    InCell,
    InSelect,
    InSelectInTable,
    InTemplate,
    AfterBody,
    InFrameset,
    AfterFrameset,
    AfterAfterBody,
    AfterAfterFrameset,
}

pub enum EncodingCertainty {
    Certain(String),
    Irrelevant,
    Tentative(String),
}

pub struct ElementDetail;

/// Whether a lower-case element name in the given namespace is in the
/// "special" category of the HTML standard.
pub open spec fn spec_special_element(ns: Namespace, lname: Seq<char>) -> bool {
    match ns {
        Namespace::Html => lname == "address"@ || lname == "applet"@ || lname == "area"@
            || lname == "article"@ || lname == "aside"@ || lname == "base"@
            || lname == "basefont"@ || lname == "bgsound"@ || lname == "blockquote"@
            || lname == "body"@ || lname == "br"@ || lname == "button"@ || lname == "caption"@
            || lname == "center"@ || lname == "col"@ || lname == "colgroup"@ || lname == "dd"@
            || lname == "details"@ || lname == "dir"@ || lname == "div"@ || lname == "dl"@
            || lname == "dt"@ || lname == "embed"@ || lname == "fieldset"@
            || lname == "figcaption"@ || lname == "figure"@ || lname == "footer"@
            || lname == "form"@ || lname == "frame"@ || lname == "frameset"@ || lname == "h1"@
            || lname == "h2"@ || lname == "h3"@ || lname == "h4"@ || lname == "h5"@
            || lname == "h6"@ || lname == "head"@ || lname == "header"@ || lname == "hgroup"@
            || lname == "hr"@ || lname == "html"@ || lname == "iframe"@ || lname == "img"@
            || lname == "input"@ || lname == "li"@ || lname == "link"@ || lname == "listing"@
            || lname == "main"@ || lname == "marquee"@ || lname == "menu"@ || lname == "meta"@
            || lname == "nav"@ || lname == "noembed"@ || lname == "noframes"@
            || lname == "noscript"@ || lname == "object"@ || lname == "ol"@ || lname == "p"@
            || lname == "param"@ || lname == "plaintext"@ || lname == "pre"@ || lname == "script"@
            || lname == "section"@ || lname == "select"@ || lname == "source"@
            || lname == "style"@ || lname == "summary"@ || lname == "table"@ || lname == "tbody"@
            || lname == "td"@ || lname == "template"@ || lname == "textarea"@ || lname == "tfoot"@
            || lname == "th"@ || lname == "thead"@ || lname == "title"@ || lname == "tr"@
            || lname == "track"@ || lname == "ul"@ || lname == "wbr"@ || lname == "xmp"@,
        Namespace::MathML => lname == "annotation-xml"@ || lname == "mi"@ || lname == "mo"@
            || lname == "mn"@ || lname == "ms"@ || lname == "mtext"@,
        Namespace::Svg => lname == "desc"@ || lname == "foreignobject"@ || lname == "title"@,
        _ => false,
    }
}

/// Whether a lower-case element name in the given namespace is in the
/// "formatting" category of the HTML standard.
pub open spec fn spec_formatting_element(ns: Namespace, lname: Seq<char>) -> bool {
    match ns {
        Namespace::Html => lname == "a"@ || lname == "b"@ || lname == "big"@ || lname == "code"@
            || lname == "em"@ || lname == "font"@ || lname == "i"@ || lname == "nobr"@
            || lname == "s"@ || lname == "small"@ || lname == "strike"@ || lname == "strong"@
            || lname == "tt"@ || lname == "u"@,
        _ => false,
    }
}

impl ElementDetail {
    pub fn special_element(ns: Namespace, element_name: &str) -> (r: bool)
        ensures
            r == spec_special_element(ns, spec_lower_seq(element_name@)),
    {
        let name = lower_vec(&str_to_char_vec(element_name));
        match ns {
            Namespace::Html => vec_eq_str(&name, "address") || vec_eq_str(&name, "applet")
                || vec_eq_str(&name, "area") || vec_eq_str(&name, "article") || vec_eq_str(
                &name,
                "aside",
            ) || vec_eq_str(&name, "base") || vec_eq_str(&name, "basefont") || vec_eq_str(
                &name,
                "bgsound",
            ) || vec_eq_str(&name, "blockquote") || vec_eq_str(&name, "body") || vec_eq_str(
                &name,
                "br",
            ) || vec_eq_str(&name, "button") || vec_eq_str(&name, "caption") || vec_eq_str(
                &name,
                "center",
            ) || vec_eq_str(&name, "col") || vec_eq_str(&name, "colgroup") || vec_eq_str(
                &name,
                "dd",
            ) || vec_eq_str(&name, "details") || vec_eq_str(&name, "dir") || vec_eq_str(
                &name,
                "div",
            ) || vec_eq_str(&name, "dl") || vec_eq_str(&name, "dt") || vec_eq_str(&name, "embed")
                || vec_eq_str(&name, "fieldset") || vec_eq_str(&name, "figcaption") || vec_eq_str(
                &name,
                "figure",
            ) || vec_eq_str(&name, "footer") || vec_eq_str(&name, "form") || vec_eq_str(
                &name,
                "frame",
            ) || vec_eq_str(&name, "frameset") || vec_eq_str(&name, "h1") || vec_eq_str(
                &name,
                "h2",
            ) || vec_eq_str(&name, "h3") || vec_eq_str(&name, "h4") || vec_eq_str(&name, "h5")
                || vec_eq_str(&name, "h6") || vec_eq_str(&name, "head") || vec_eq_str(
                &name,
                "header",
            ) || vec_eq_str(&name, "hgroup") || vec_eq_str(&name, "hr") || vec_eq_str(
                &name,
                "html",
            ) || vec_eq_str(&name, "iframe") || vec_eq_str(&name, "img") || vec_eq_str(
                &name,
                "input",
            ) || vec_eq_str(&name, "li") || vec_eq_str(&name, "link") || vec_eq_str(
                &name,
                "listing",
            ) || vec_eq_str(&name, "main") || vec_eq_str(&name, "marquee") || vec_eq_str(
                &name,
                "menu",
            ) || vec_eq_str(&name, "meta") || vec_eq_str(&name, "nav") || vec_eq_str(
                &name,
                "noembed",
            ) || vec_eq_str(&name, "noframes") || vec_eq_str(&name, "noscript") || vec_eq_str(
                &name,
                "object",
            ) || vec_eq_str(&name, "ol") || vec_eq_str(&name, "p") || vec_eq_str(&name, "param")
                || vec_eq_str(&name, "plaintext") || vec_eq_str(&name, "pre") || vec_eq_str(
                &name,
                "script",
            ) || vec_eq_str(&name, "section") || vec_eq_str(&name, "select") || vec_eq_str(
                &name,
                "source",
            ) || vec_eq_str(&name, "style") || vec_eq_str(&name, "summary") || vec_eq_str(
                &name,
                "table",
            ) || vec_eq_str(&name, "tbody") || vec_eq_str(&name, "td") || vec_eq_str(
                &name,
                "template",
            ) || vec_eq_str(&name, "textarea") || vec_eq_str(&name, "tfoot") || vec_eq_str(
                &name,
                "th",
            ) || vec_eq_str(&name, "thead") || vec_eq_str(&name, "title") || vec_eq_str(
                &name,
                "tr",
            ) || vec_eq_str(&name, "track") || vec_eq_str(&name, "ul") || vec_eq_str(&name, "wbr")
                || vec_eq_str(&name, "xmp"),
            Namespace::MathML => vec_eq_str(&name, "annotation-xml") || vec_eq_str(&name, "mi")
                || vec_eq_str(&name, "mo") || vec_eq_str(&name, "mn") || vec_eq_str(&name, "ms")
                || vec_eq_str(&name, "mtext"),
            Namespace::Svg => vec_eq_str(&name, "desc") || vec_eq_str(&name, "foreignobject")
                || vec_eq_str(&name, "title"),
            _ => false,
        }
    }

    pub fn formatting_element(ns: Namespace, element_name: &str) -> (r: bool)
        ensures
            r == spec_formatting_element(ns, spec_lower_seq(element_name@)),
    {
        let name = lower_vec(&str_to_char_vec(element_name));
        match ns {
            Namespace::Html => vec_eq_str(&name, "a") || vec_eq_str(&name, "b") || vec_eq_str(
                &name,
                "big",
            ) || vec_eq_str(&name, "code") || vec_eq_str(&name, "em") || vec_eq_str(&name, "font")
                || vec_eq_str(&name, "i") || vec_eq_str(&name, "nobr") || vec_eq_str(&name, "s")
                || vec_eq_str(&name, "small") || vec_eq_str(&name, "strike") || vec_eq_str(
                &name,
                "strong",
            ) || vec_eq_str(&name, "tt") || vec_eq_str(&name, "u"),
            _ => false,
        }
    }
}

} // verus!
