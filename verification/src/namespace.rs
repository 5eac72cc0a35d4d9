//! Namespaces from the WHATWG Infra standard, section 8.

use vstd::prelude::*;
use crate::chars::str_eq;

verus! {

pub enum Namespace {
    Html,
    MathML,
    Svg,
    XLink,
    Xml,
    Xmlns,
    Unknown(String),
}

pub open spec fn spec_html_ns() -> Seq<char> {
    "http://www.w3.org/1999/xhtml"@
}

pub open spec fn spec_mathml_ns() -> Seq<char> {
    "http://www.w3.org/1998/Math/MathML"@
}

pub open spec fn spec_svg_ns() -> Seq<char> {
    "http://www.w3.org/2000/svg"@
}

pub open spec fn spec_xlink_ns() -> Seq<char> {
    "http://www.w3.org/1999/xlink"@
}

pub open spec fn spec_xml_ns() -> Seq<char> {
    "http://www.w3.org/XML/1998/namespace"@
}

pub open spec fn spec_xmlns_ns() -> Seq<char> {
    "http://www.w3.org/2000/xmlns/"@
}

/// The namespace a URL string names.
pub open spec fn spec_namespace_of(s: Seq<char>) -> Namespace {
    if s == spec_html_ns() {
        Namespace::Html
    } else if s == spec_mathml_ns() {
        Namespace::MathML
    } else if s == spec_svg_ns() {
        Namespace::Svg
    } else if s == spec_xlink_ns() {
        Namespace::XLink
    } else if s == spec_xml_ns() {
        Namespace::Xml
    } else if s == spec_xmlns_ns() {
        Namespace::Xmlns
    } else {
        Namespace::Unknown(arbitrary())
    }
}

/// The URL string of a namespace.
pub open spec fn spec_namespace_str(ns: Namespace) -> Seq<char> {
    match ns {
        Namespace::Html => spec_html_ns(),
        Namespace::MathML => spec_mathml_ns(),
        Namespace::Svg => spec_svg_ns(),
        Namespace::XLink => spec_xlink_ns(),
        Namespace::Xml => spec_xml_ns(),
        Namespace::Xmlns => spec_xmlns_ns(),
        Namespace::Unknown(url) => url@,
    }
}

impl Namespace {
    pub fn from_str(string: &str) -> (r: Namespace)
        ensures
            (match spec_namespace_of(string@) {
                Namespace::Unknown(_) => r matches Namespace::Unknown(u) && u@ == string@,
                known => r == known,
            }),
    {
        if str_eq(string, "http://www.w3.org/1999/xhtml") {
            Namespace::Html
        } else if str_eq(string, "http://www.w3.org/1998/Math/MathML") {
            Namespace::MathML
        } else if str_eq(string, "http://www.w3.org/2000/svg") {
            Namespace::Svg
        } else if str_eq(string, "http://www.w3.org/1999/xlink") {
            Namespace::XLink
        } else if str_eq(string, "http://www.w3.org/XML/1998/namespace") {
            Namespace::Xml
        } else if str_eq(string, "http://www.w3.org/2000/xmlns/") {
            Namespace::Xmlns
        } else {
            Namespace::Unknown(string.to_owned())
        }
    }

    pub fn as_str(&self) -> (r: &str)
        ensures
            r@ == spec_namespace_str(*self),
    {
        match self {
            Namespace::Html => "http://www.w3.org/1999/xhtml",
            Namespace::MathML => "http://www.w3.org/1998/Math/MathML",
            Namespace::Svg => "http://www.w3.org/2000/svg",
            Namespace::XLink => "http://www.w3.org/1999/xlink",
            Namespace::Xml => "http://www.w3.org/XML/1998/namespace",
            Namespace::Xmlns => "http://www.w3.org/2000/xmlns/",
            Namespace::Unknown(url) => url.as_str(),
        }
    }
}

impl Clone for Namespace {
    fn clone(&self) -> (r: Namespace)
        ensures
            spec_eq_namespace(*self, r),
    {
        match self {
            Namespace::Html => Namespace::Html,
            Namespace::MathML => Namespace::MathML,
            Namespace::Svg => Namespace::Svg,
            Namespace::XLink => Namespace::XLink,
            Namespace::Xml => Namespace::Xml,
            Namespace::Xmlns => Namespace::Xmlns,
            Namespace::Unknown(url) => Namespace::Unknown(url.clone()),
        }
    }
}

/// Two namespaces are the same when they are the same variant, and for the
/// unknown variant carry the same URL text.
pub open spec fn spec_eq_namespace(a: Namespace, b: Namespace) -> bool {
    match (a, b) {
        (Namespace::Html, Namespace::Html) => true,
        (Namespace::MathML, Namespace::MathML) => true,
        (Namespace::Svg, Namespace::Svg) => true,
        (Namespace::XLink, Namespace::XLink) => true,
        (Namespace::Xml, Namespace::Xml) => true,
        (Namespace::Xmlns, Namespace::Xmlns) => true,
        (Namespace::Unknown(u), Namespace::Unknown(v)) => u@ == v@,
        _ => false,
    }
}

impl PartialEq for Namespace {
    fn eq(&self, other: &Namespace) -> (r: bool) {
        match (self, other) {
            (Namespace::Html, Namespace::Html) => true,
            (Namespace::MathML, Namespace::MathML) => true,
            (Namespace::Svg, Namespace::Svg) => true,
            (Namespace::XLink, Namespace::XLink) => true,
            (Namespace::Xml, Namespace::Xml) => true,
            (Namespace::Xmlns, Namespace::Xmlns) => true,
            (Namespace::Unknown(u), Namespace::Unknown(v)) => str_eq(u.as_str(), v.as_str()),
            _ => false,
        }
    }
}

impl vstd::std_specs::cmp::PartialEqSpecImpl for Namespace {
    open spec fn obeys_eq_spec() -> bool {
        true
    }

    open spec fn eq_spec(&self, other: &Namespace) -> bool {
        spec_eq_namespace(*self, *other)
    }
}

} // verus!
