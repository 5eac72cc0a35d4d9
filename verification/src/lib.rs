//! An HTML lexical engine: the WHATWG tokenization state machine over a
//! backtrackable character cursor, together with the small leaf utilities
//! (code-point classes, namespaces, percent decoding, UTF-8 decoding) that
//! surround it.

pub mod code_point;
pub mod element;
pub mod gc;
pub mod chars;
pub mod cursor;
pub mod namespace;
pub mod parser;
pub mod parser_detail;
pub mod percent_encoding;
pub mod token;
pub mod tokenizer;
pub mod tokenizer_attr;
pub mod tokenizer_charref;
pub mod tokenizer_comment;
pub mod tokenizer_doctype;
pub mod tokenizer_rawend;
pub mod tokenizer_script;
pub mod tokenizer_tag;
pub mod tokenizer_text;
pub mod utf16;
pub mod utf8_decode;
