//! A byte-fed UTF-8 decoder following the decoder of the WHATWG Encoding
//! standard: bytes go in one at a time, characters and errors come out,
//! and a caller that reaches the end of its bytes asks for the finish.

use vstd::prelude::*;
use crate::chars::char_from_u32;

verus! {

/// What feeding one byte (or finishing) produced.
pub enum ConvertByteResult {
    Char(char),
    Error,
    ErrorWithPrepend(u8),
    Finished,
}

/// The decoder's state between bytes: the partial code point, how many
/// continuation bytes it has seen and still needs, and the bounds the next
/// continuation byte must lie in.
pub struct Utf8Decoder {
    code_point: u32,
    bytes_seen: usize,
    bytes_needed: usize,
    lower_bound: u8,
    upper_bound: u8,
}

impl Utf8Decoder {
    /// The decoder's well-formedness: a bounded number of continuations,
    /// and a partial code point small enough that six more bits fit.
    pub closed spec fn wf(&self) -> bool {
        &&& self.bytes_needed <= 3
        &&& (self.bytes_needed == 0 ==> self.bytes_seen == 0 && self.code_point == 0
            && self.lower_bound == 0x80 && self.upper_bound == 0xBF)
        &&& (self.bytes_needed > 0 ==> self.bytes_seen < self.bytes_needed)
        &&& (self.bytes_needed > 0 ==> self.code_point < (if self.bytes_seen == 0 {
            0x20u32
        } else if self.bytes_seen == 1 {
            0x800u32
        } else {
            0x20000u32
        }))
        &&& self.code_point < 0x20000
    }

    /// Whether a code point is open, so that end of input mid-way is an
    /// error.
    pub closed spec fn spec_mid_code_point(&self) -> bool {
        self.bytes_needed != 0
    }

    /// The partial code point accumulated so far.
    pub closed spec fn spec_code_point(&self) -> u32 {
        self.code_point
    }

    /// How many continuation bytes the open sequence needs in all.
    pub closed spec fn spec_needed(&self) -> usize {
        self.bytes_needed
    }

    /// How many continuation bytes the open sequence has taken.
    pub closed spec fn spec_seen(&self) -> usize {
        self.bytes_seen
    }

    /// The smallest byte the next continuation may be.
    pub closed spec fn spec_lower(&self) -> u8 {
        self.lower_bound
    }

    /// The largest byte the next continuation may be.
    pub closed spec fn spec_upper(&self) -> u8 {
        self.upper_bound
    }

    pub fn new() -> (r: Utf8Decoder)
        ensures
            r.wf(),
            !r.spec_mid_code_point(),
    {
        Utf8Decoder {
            code_point: 0,
            bytes_seen: 0,
            bytes_needed: 0,
            lower_bound: 0x80,
            upper_bound: 0xBF,
        }
    }

    /// Feeds one byte. `None` asks for more input; otherwise an ASCII byte
    /// or a completed sequence yields its character, a stray lead or
    /// out-of-place byte an error, and a broken continuation an error that
    /// hands the byte back to be reprocessed.
    pub fn push_byte(&mut self, byte: u8) -> (r: Option<ConvertByteResult>)
        requires
            old(self).wf(),
        ensures
            final(self).wf(),
            !old(self).spec_mid_code_point() && byte <= 0x7F ==> r == Some(
                ConvertByteResult::Char(((byte as u32) as char)),
            ) && !final(self).spec_mid_code_point(),
            !old(self).spec_mid_code_point() && 0xC2 <= byte <= 0xDF ==> ({
                &&& r is None
                &&& final(self).spec_needed() == 1
                &&& final(self).spec_seen() == 0
                &&& final(self).spec_code_point() == (byte % 32) as u32
                &&& final(self).spec_lower() == 0x80
                &&& final(self).spec_upper() == 0xBF
            }),
            !old(self).spec_mid_code_point() && 0xE0 <= byte <= 0xEF ==> ({
                &&& r is None
                &&& final(self).spec_needed() == 2
                &&& final(self).spec_seen() == 0
                &&& final(self).spec_code_point() == (byte % 16) as u32
                &&& final(self).spec_lower() == (if byte == 0xE0 {
                    0xA0u8
                } else {
                    0x80u8
                })
                &&& final(self).spec_upper() == (if byte == 0xED {
                    0x9Fu8
                } else {
                    0xBFu8
                })
            }),
            !old(self).spec_mid_code_point() && 0xF0 <= byte <= 0xF4 ==> ({
                &&& r is None
                &&& final(self).spec_needed() == 3
                &&& final(self).spec_seen() == 0
                &&& final(self).spec_code_point() == (byte % 8) as u32
                &&& final(self).spec_lower() == (if byte == 0xF0 {
                    0x90u8
                } else {
                    0x80u8
                })
                &&& final(self).spec_upper() == (if byte == 0xF4 {
                    0x8Fu8
                } else {
                    0xBFu8
                })
            }),
            !old(self).spec_mid_code_point() && byte > 0x7F && !(0xC2 <= byte <= 0xDF) && !(0xE0
                <= byte <= 0xEF) && !(0xF0 <= byte <= 0xF4) ==> r == Some(ConvertByteResult::Error)
                && !final(self).spec_mid_code_point(),
            old(self).spec_mid_code_point() && (byte < old(self).spec_lower() || byte > old(
                self,
            ).spec_upper()) ==> ({
                &&& r == Some(ConvertByteResult::ErrorWithPrepend(byte))
                &&& !final(self).spec_mid_code_point()
            }),
            old(self).spec_mid_code_point() && old(self).spec_lower() <= byte <= old(
                self,
            ).spec_upper() ==> ({
                let acc: int = old(self).spec_code_point() * 64 + (byte % 64) as int;
                if old(self).spec_seen() + 1 < old(self).spec_needed() {
                    &&& r is None
                    &&& final(self).spec_mid_code_point()
                    &&& final(self).spec_code_point() == acc
                    &&& final(self).spec_seen() == old(self).spec_seen() + 1
                    &&& final(self).spec_needed() == old(self).spec_needed()
                    &&& final(self).spec_lower() == 0x80 && final(self).spec_upper() == 0xBF
                } else {
                    &&& !final(self).spec_mid_code_point()
                    &&& (if acc <= 0x10FFFF && !(0xD800 <= acc <= 0xDFFF) {
                        r == Some(ConvertByteResult::Char((acc as char)))
                    } else {
                        r == Some(ConvertByteResult::Error)
                    })
                }
            }),
            r matches Some(res) && res is Char ==> !final(self).spec_mid_code_point(),
    {
        if self.bytes_needed == 0 {
            if byte <= 0x7F {
                return Some(ConvertByteResult::Char(match char_from_u32(byte as u32) {
                    Some(ch) => {
                        proof {
                            vstd::utf8::char_u32_cast(ch, byte as u32);
                        }
                        ch
                    },
                    None => {
                        proof {
                            assert(false);
                        }
                        '\u{FFFD}'
                    },
                }));
            } else if 0xC2 <= byte && byte <= 0xDF {
                self.bytes_needed = 1;
                self.code_point = (byte % 32) as u32;
                return None;
            } else if 0xE0 <= byte && byte <= 0xEF {
                if byte == 0xE0 {
                    self.lower_bound = 0xA0;
                }
                if byte == 0xED {
                    self.upper_bound = 0x9F;
                }
                self.bytes_needed = 2;
                self.code_point = (byte % 16) as u32;
                return None;
            } else if 0xF0 <= byte && byte <= 0xF4 {
                if byte == 0xF0 {
                    self.lower_bound = 0x90;
                }
                if byte == 0xF4 {
                    self.upper_bound = 0x8F;
                }
                self.bytes_needed = 3;
                self.code_point = (byte % 8) as u32;
                return None;
            } else {
                return Some(ConvertByteResult::Error);
            }
        }
        if byte < self.lower_bound || byte > self.upper_bound {
            self.code_point = 0;
            self.bytes_needed = 0;
            self.bytes_seen = 0;
            self.lower_bound = 0x80;
            self.upper_bound = 0xBF;
            return Some(ConvertByteResult::ErrorWithPrepend(byte));
        }
        self.lower_bound = 0x80;
        self.upper_bound = 0xBF;
        self.code_point = self.code_point * 64 + (byte % 64) as u32;
        self.bytes_seen = self.bytes_seen + 1;
        if self.bytes_seen != self.bytes_needed {
            return None;
        }
        let code_point = self.code_point;
        self.code_point = 0;
        self.bytes_needed = 0;
        self.bytes_seen = 0;
        match char_from_u32(code_point) {
            Some(ch) => {
                proof {
                    vstd::utf8::char_u32_cast(ch, code_point);
                }
                Some(ConvertByteResult::Char(ch))
            },
            None => Some(ConvertByteResult::Error),
        }
    }

    /// Ends the input: end of input in the middle of a code point is an
    /// error, otherwise the stream finished cleanly. Either way the decoder
    /// is reset.
    pub fn finish(&mut self) -> (r: ConvertByteResult)
        requires
            old(self).wf(),
        ensures
            final(self).wf(),
            !final(self).spec_mid_code_point(),
            r == (if old(self).spec_mid_code_point() {
                ConvertByteResult::Error
            } else {
                ConvertByteResult::Finished
            }),
    {
        if self.bytes_needed != 0 {
            self.code_point = 0;
            self.bytes_needed = 0;
            self.bytes_seen = 0;
            self.lower_bound = 0x80;
            self.upper_bound = 0xBF;
            ConvertByteResult::Error
        } else {
            ConvertByteResult::Finished
        }
    }
}

} // verus!
