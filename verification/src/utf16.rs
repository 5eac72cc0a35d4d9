//! A string of UTF-16 code units, grown unit by unit or from characters,
//! with surrogate pairs produced exactly as the encoding prescribes.

use vstd::prelude::*;

verus! {

/// The UTF-16 code units of one character: one unit below 0x10000, and a
/// high/low surrogate pair above.
pub open spec fn spec_utf16_units(c: char) -> Seq<u16> {
    if (c as u32) < 0x10000 {
        seq![(c as u32) as u16]
    } else {
        seq![
            (((c as u32 - 0x10000) / 0x400 + 0xD800) as u16),
            (((c as u32 - 0x10000) % 0x400 + 0xDC00) as u16),
        ]
    }
}

/// A growable UTF-16 string; its mathematical value is its unit sequence.
pub struct Utf16String {
    vec: Vec<u16>,
}

impl View for Utf16String {
    type V = Seq<u16>;

    closed spec fn view(&self) -> Seq<u16> {
        self.vec@
    }
}

impl Utf16String {
    pub fn new() -> (r: Utf16String)
        ensures
            r@ == Seq::<u16>::empty(),
    {
        Utf16String { vec: Vec::new() }
    }

    pub fn with_capacity(capacity: usize) -> (r: Utf16String)
        ensures
            r@ == Seq::<u16>::empty(),
    {
        Utf16String { vec: Vec::with_capacity(capacity) }
    }

    /// Appends every unit of another UTF-16 string.
    pub fn push_str(&mut self, string: &Utf16String)
        ensures
            final(self)@ == old(self)@ + string@,
    {
        let mut i: usize = 0;
        while i < string.vec.len()
            invariant
                i <= string@.len(),
                self@ == old(self)@ + string@.take(i as int),
            decreases string@.len() - i,
        {
            self.vec.push(string.vec[i]);
            proof {
                assert(old(self)@ + string@.take(i + 1) =~= (old(self)@ + string@.take(
                    i as int,
                )).push(string@[i as int]));
            }
            i = i + 1;
        }
        proof {
            assert(string@.take(string@.len() as int) =~= string@);
        }
    }

    /// The code units so far, in order.
    pub fn units(&self) -> (r: &Vec<u16>)
        ensures
            r@ == self@,
    {
        &self.vec
    }

    /// Relies on Vec::capacity of std: the vector can hold at least its
    /// current length without reallocating.
    #[verifier::external_body]
    pub fn capacity(&self) -> (r: usize)
        ensures
            r >= self@.len(),
    {
        self.vec.capacity()
    }

    /// Asks for room for `extra` more units; the contents stay as they are.
    pub fn reserve(&mut self, extra: usize)
        ensures
            final(self)@ == old(self)@,
    {
        self.vec.reserve(extra);
    }

    /// Appends one code unit.
    pub fn push(&mut self, cp: u16)
        ensures
            final(self)@ == old(self)@.push(cp),
    {
        self.vec.push(cp);
    }

    /// Appends one character: one unit, or a surrogate pair for a character
    /// beyond the basic multilingual plane.
    pub fn push_char(&mut self, c: char)
        ensures
            final(self)@ == old(self)@ + spec_utf16_units(c),
    {
        proof {
            vstd::utf8::char_is_scalar(c);
        }
        let u = c as u32;
        if u < 0x10000 {
            self.vec.push(u as u16);
            proof {
                assert(self@ =~= old(self)@ + spec_utf16_units(c));
            }
        } else {
            let u_prime = u - 0x10000;
            let high = u_prime / 0x400 + 0xD800;
            let low = u_prime % 0x400 + 0xDC00;
            self.vec.push(high as u16);
            self.vec.push(low as u16);
            proof {
                assert(self@ =~= old(self)@ + spec_utf16_units(c));
            }
        }
    }
}

} // verus!
