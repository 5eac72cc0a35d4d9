//! A seekable, backtrackable character reader over a decoded text buffer.
//!
//! The tokenizer needs bounded lookahead (`read_multiple` + `backtrack_multiple`)
//! and single-character push-back; both must restore the position exactly.
//! The reader also reports a line/column pair, derived from the position, so
//! that backtracking restores the whole `(offset, line, column)` triple.

use vstd::prelude::*;

verus! {

broadcast use vstd::string::next_postcondition, vstd::string::axiom_spec_iter;

/// Collects the characters of a string slice into a vector, in order.
pub fn str_to_char_vec(s: &str) -> (r: Vec<char>)
    ensures
        r@ == s@,
{
    let mut out: Vec<char> = Vec::new();
    let mut it = s.chars();
    loop
        invariant
            vstd::std_specs::iter::IteratorSpec::obeys_prophetic_iter_laws(&it),
            vstd::std_specs::iter::IteratorSpec::decrease(&it) is Some,
            s@ == out@ + vstd::std_specs::iter::IteratorSpec::remaining(&it),
        decreases vstd::std_specs::iter::IteratorSpec::decrease(&it)->0,
    {
        let ghost prev = vstd::std_specs::iter::IteratorSpec::remaining(&it);
        match it.next() {
            Some(c) => {
                out.push(c);
                proof {
                    assert(out@ + prev.drop_first() =~= s@);
                }
            },
            None => {
                proof {
                    assert(out@ =~= s@);
                }
                return out;
            },
        }
    }
}

/// The number of line breaks in `s` before position `pos`.
pub open spec fn spec_line_of(s: Seq<char>, pos: int) -> int
    decreases pos,
{
    if pos <= 0 {
        0
    } else {
        spec_line_of(s, pos - 1) + if s[pos - 1] == '\n' {
            1int
        } else {
            0int
        }
    }
}

/// The number of characters between the last line break before `pos` and `pos`.
pub open spec fn spec_column_of(s: Seq<char>, pos: int) -> int
    decreases pos,
{
    if pos <= 0 {
        0
    } else if s[pos - 1] == '\n' {
        0
    } else {
        spec_column_of(s, pos - 1) + 1
    }
}

/// A character reader with exact backtracking. Its abstract state is the
/// character buffer together with the current offset into it; the line and
/// column are functions of the two.
pub struct LineOffsetIterator {
    chars: Vec<char>,
    pos: usize,
}

impl LineOffsetIterator {
    pub open spec fn wf(&self) -> bool {
        0 <= self.position() <= self.text().len()
    }

    /// The whole decoded text.
    pub closed spec fn text(&self) -> Seq<char> {
        self.chars@
    }

    /// The current offset into the text.
    pub closed spec fn position(&self) -> int {
        self.pos as int
    }

    /// The characters not yet read.
    pub open spec fn remaining(&self) -> int {
        self.text().len() - self.position()
    }

    pub fn new(text: &str) -> (r: LineOffsetIterator)
        ensures
            r.wf(),
            r.text() == text@,
            r.position() == 0,
    {
        LineOffsetIterator { chars: str_to_char_vec(text), pos: 0 }
    }

    /// The offset of the next character to be read.
    pub fn offset(&self) -> (r: usize)
        ensures
            r == self.position(),
    {
        self.pos
    }

    /// The line the next character belongs to, counted from zero.
    pub fn line(&self) -> (r: usize)
        requires
            self.wf(),
        ensures
            r == spec_line_of(self.text(), self.position()),
    {
        let mut i: usize = 0;
        let mut n: usize = 0;
        while i < self.pos
            invariant
                self.wf(),
                i <= self.pos,
                n == spec_line_of(self.chars@, i as int),
                n <= i,
            decreases self.pos - i,
        {
            if self.chars[i] == '\n' {
                n = n + 1;
            }
            i = i + 1;
        }
        n
    }

    /// The column of the next character: characters since the last line break.
    pub fn column(&self) -> (r: usize)
        requires
            self.wf(),
        ensures
            r == spec_column_of(self.text(), self.position()),
    {
        let mut i: usize = 0;
        let mut n: usize = 0;
        while i < self.pos
            invariant
                self.wf(),
                i <= self.pos,
                n == spec_column_of(self.chars@, i as int),
                n <= i,
            decreases self.pos - i,
        {
            if self.chars[i] == '\n' {
                n = 0;
            } else {
                n = n + 1;
            }
            i = i + 1;
        }
        n
    }

    /// Absolute repositioning.
    pub fn seek(&mut self, new_pos: usize)
        requires
            old(self).wf(),
            new_pos <= old(self).text().len(),
        ensures
            final(self).wf(),
            final(self).text() == old(self).text(),
            final(self).position() == new_pos,
    {
        self.pos = new_pos;
    }

    /// Reads the next character and advances; at the end of the text it
    /// returns `None` and stays put, so reading at the end is idempotent.
    pub fn read(&mut self) -> (r: Option<char>)
        requires
            old(self).wf(),
        ensures
            final(self).wf(),
            final(self).text() == old(self).text(),
            (if old(self).position() < old(self).text().len() {
                r == Some(old(self).text()[old(self).position()]) && final(self).position() == old(
                    self,
                ).position() + 1
            } else {
                r is None && final(self).position() == old(self).position()
            }),
    {
        if self.pos < self.chars.len() {
            let c = self.chars[self.pos];
            self.pos = self.pos + 1;
            Some(c)
        } else {
            None
        }
    }

    /// Same as `read`, without advancing.
    pub fn peek(&self) -> (r: Option<char>)
        requires
            self.wf(),
        ensures
            (if self.position() < self.text().len() {
                r == Some(self.text()[self.position()])
            } else {
                r is None
            }),
    {
        if self.pos < self.chars.len() {
            Some(self.chars[self.pos])
        } else {
            None
        }
    }

    /// Reads up to `n` characters, stopping early at the end of the text.
    pub fn read_multiple(&mut self, n: usize) -> (r: Vec<char>)
        requires
            old(self).wf(),
        ensures
            final(self).wf(),
            final(self).text() == old(self).text(),
            r@.len() == (if old(self).remaining() < n {
                old(self).remaining()
            } else {
                n as int
            }),
            final(self).position() == old(self).position() + r@.len(),
            r@ == old(self).text().subrange(
                old(self).position(),
                old(self).position() + r@.len(),
            ),
    {
        let mut out: Vec<char> = Vec::new();
        let mut i: usize = 0;
        while i < n
            invariant
                self.wf(),
                self.text() == old(self).text(),
                i <= n,
                out@.len() == i || (out@.len() < i && self.position() == self.text().len()),
                self.position() == old(self).position() + out@.len(),
                out@ == self.text().subrange(
                    old(self).position(),
                    old(self).position() + out@.len(),
                ),
            decreases n - i,
        {
            match self.read() {
                Some(c) => {
                    out.push(c);
                    proof {
                        assert(out@ =~= self.text().subrange(
                            old(self).position(),
                            old(self).position() + out@.len(),
                        ));
                    }
                },
                None => {
                    return out;
                },
            }
            i = i + 1;
        }
        out
    }

    /// Same as `read_multiple`, restoring the position afterwards.
    pub fn peek_multiple(&mut self, n: usize) -> (r: Vec<char>)
        requires
            old(self).wf(),
        ensures
            final(self).wf(),
            final(self).text() == old(self).text(),
            final(self).position() == old(self).position(),
            r@.len() == (if old(self).remaining() < n {
                old(self).remaining()
            } else {
                n as int
            }),
            r@ == old(self).text().subrange(
                old(self).position(),
                old(self).position() + r@.len(),
            ),
    {
        let out = self.read_multiple(n);
        self.backtrack_multiple(out.len());
        out
    }

    /// Un-reads one character; at the start of the text it stays put.
    pub fn backtrack(&mut self)
        requires
            old(self).wf(),
        ensures
            final(self).wf(),
            final(self).text() == old(self).text(),
            final(self).position() == (if old(self).position() == 0 {
                0int
            } else {
                old(self).position() - 1
            }),
    {
        if self.pos > 0 {
            self.pos = self.pos - 1;
        }
    }

    /// Un-reads `count` characters, clamping at the start of the text.
    pub fn backtrack_multiple(&mut self, count: usize)
        requires
            old(self).wf(),
        ensures
            final(self).wf(),
            final(self).text() == old(self).text(),
            final(self).position() == (if old(self).position() < count {
                0int
            } else {
                old(self).position() - count
            }),
    {
        if self.pos < count {
            self.pos = 0;
        } else {
            self.pos = self.pos - count;
        }
    }
}

/// Backtracking is exact: after reading `n` characters, backtracking `n`
/// restores the offset, and with it the line and the column, that held
/// before the reads, for any `n` not exceeding the characters read so far.
pub proof fn lemma_backtrack_restores_position(before: LineOffsetIterator, n: int)
    requires
        before.wf(),
        0 <= n <= before.text().len() - before.position(),
    ensures
        ({
            let after_read = before.position() + n;
            let restored = if after_read < n {
                0int
            } else {
                after_read - n
            };
            &&& restored == before.position()
            &&& spec_line_of(before.text(), restored) == spec_line_of(
                before.text(),
                before.position(),
            )
            &&& spec_column_of(before.text(), restored) == spec_column_of(
                before.text(),
                before.position(),
            )
        }),
{
}

} // verus!
