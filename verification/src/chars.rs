//! Small character and string helpers shared across the crate: ASCII case
//! folding and exact string comparison over character sequences.

use vstd::prelude::*;
use crate::code_point::{ascii_upper_alpha, spec_ascii_upper_alpha};

verus! {

/// Relies on char::from_u32 of std: it returns `Some` exactly on Unicode
/// scalar values (at most 0x10FFFF and not a surrogate), and the returned
/// character has the given value.
#[verifier::external_body]
pub(crate) fn char_from_u32(v: u32) -> (r: Option<char>)
    ensures
        r is Some <==> (v <= 0x10FFFF && !(0xD800 <= v <= 0xDFFF)),
        r is Some ==> (r->0) as u32 == v,
{
    char::from_u32(v)
}

/// ASCII case folding of one character: an upper-case ASCII letter becomes
/// the corresponding lower-case letter, anything else is unchanged.
pub open spec fn spec_lower_char(c: char) -> char {
    if spec_ascii_upper_alpha(c as u32) {
        ((c as u32) + 0x20) as char
    } else {
        c
    }
}

pub open spec fn spec_lower_seq(s: Seq<char>) -> Seq<char> {
    s.map_values(|c: char| spec_lower_char(c))
}

pub fn lower_char(c: char) -> (r: char)
    ensures
        r == spec_lower_char(c),
{
    if ascii_upper_alpha(c as u32) {
        let v: u32 = (c as u32) + 0x20;
        proof {
            vstd::utf8::char_is_scalar(c);
        }
        match char_from_u32(v) {
            Some(l) => {
                proof {
                    vstd::utf8::char_u32_cast(l, v);
                }
                l
            },
            None => {
                proof {
                    assert(false);
                }
                c
            },
        }
    } else {
        c
    }
}

/// ASCII case folding of a whole character vector.
pub fn lower_vec(v: &Vec<char>) -> (r: Vec<char>)
    ensures
        r@ == spec_lower_seq(v@),
{
    let mut out: Vec<char> = Vec::new();
    let mut i: usize = 0;
    while i < v.len()
        invariant
            i <= v@.len(),
            out@ == spec_lower_seq(v@.take(i as int)),
        decreases v@.len() - i,
    {
        out.push(lower_char(v[i]));
        proof {
            assert(spec_lower_seq(v@.take(i + 1)) =~= spec_lower_seq(v@.take(i as int)).push(
                spec_lower_char(v@[i as int]),
            ));
        }
        i = i + 1;
    }
    proof {
        assert(v@.take(v@.len() as int) =~= v@);
    }
    out
}

/// `Vec::push`, with its effect restated as direct facts about the length
/// and every index, so that callers inside loops need no sequence axioms.
pub(crate) fn vec_push<T>(v: &mut Vec<T>, x: T)
    ensures
        final(v)@.len() == old(v)@.len() + 1,
        forall|j: int| 0 <= j < old(v)@.len() ==> final(v)@[j] == old(v)@[j],
        final(v)@[old(v)@.len() as int] == x,
        final(v)@ == old(v)@.push(x),
        final(v)@.last() == x,
        final(v)@.drop_last() == old(v)@,
{
    let ghost v0 = v@;
    v.push(x);
    proof {
        vstd::seq::axiom_seq_push_len(v0, x);
        vstd::seq::axiom_seq_push_index_same(v0, x, v0.len() as int);
        assert forall|j: int| 0 <= j < v0.len() implies v@[j] == v0[j] by {
            vstd::seq::axiom_seq_push_index_different(v0, x, j);
        }
        assert(v@.drop_last() =~= v0);
    }
}

/// An element-for-element copy of a character vector.
pub fn clone_chars(v: &Vec<char>) -> (r: Vec<char>)
    ensures
        r@ == v@,
{
    let mut out: Vec<char> = Vec::new();
    let mut i: usize = 0;
    while i < v.len()
        invariant
            i <= v@.len(),
            out@ == v@.take(i as int),
        decreases v@.len() - i,
    {
        out.push(v[i]);
        proof {
            assert(v@.take(i + 1) =~= v@.take(i as int).push(v@[i as int]));
        }
        i = i + 1;
    }
    proof {
        assert(v@.take(v@.len() as int) =~= v@);
    }
    out
}

/// Lower-case folding keeps the length of a sequence.
pub proof fn lemma_lower_len(s: Seq<char>)
    ensures
        spec_lower_seq(s).len() == s.len(),
{
}

/// Exact equality of two character vectors.
pub fn vec_eq(a: &Vec<char>, b: &Vec<char>) -> (r: bool)
    ensures
        r == (a@ == b@),
{
    if a.len() != b.len() {
        proof {
            assert(a@ != b@);
        }
        return false;
    }
    let mut i: usize = 0;
    while i < a.len()
        invariant
            a@.len() == b@.len(),
            i <= a@.len(),
            forall|j: int| 0 <= j < i ==> a@[j] == b@[j],
        decreases a@.len() - i,
    {
        if a[i] != b[i] {
            return false;
        }
        i = i + 1;
    }
    proof {
        assert(a@ =~= b@);
    }
    true
}

/// Exact equality of a character vector and a string slice.
pub fn vec_eq_str(v: &Vec<char>, s: &str) -> (r: bool)
    ensures
        r == (v@ == s@),
{
    let sv = crate::cursor::str_to_char_vec(s);
    if v.len() != sv.len() {
        proof {
            assert(v@ != s@);
        }
        return false;
    }
    let mut i: usize = 0;
    while i < v.len()
        invariant
            v@.len() == sv@.len(),
            sv@ == s@,
            i <= v@.len(),
            forall|j: int| 0 <= j < i ==> v@[j] == sv@[j],
        decreases v@.len() - i,
    {
        if v[i] != sv[i] {
            proof {
                assert(v@[i as int] != s@[i as int]);
            }
            return false;
        }
        i = i + 1;
    }
    proof {
        assert(v@ =~= s@);
    }
    true
}

/// Exact equality of two string slices.
pub fn str_eq(a: &str, b: &str) -> (r: bool)
    ensures
        r == (a@ == b@),
{
    let av = crate::cursor::str_to_char_vec(a);
    vec_eq_str(&av, b)
}

} // verus!
