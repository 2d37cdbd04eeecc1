//! Lexicographic ordering of identifiers and sorting of bridge entities by
//! identifier. Listings and bulk operations present lights and groups in
//! ascending identifier order no matter the order the bridge returned them.

use vstd::prelude::*;
use vstd::string::StrSliceExecFns;

use crate::light::{Group, Light};

verus! {

/// Lexicographic "less or equal" on the characters of `a` and `b`, starting
/// at position `i`: the usual string order, comparing code points.
pub open spec fn lex_le_from(a: Seq<char>, b: Seq<char>, i: int) -> bool
    decreases a.len() - i,
{
    if i >= a.len() {
        true
    } else if i >= b.len() {
        false
    } else if (a[i] as u32) == (b[i] as u32) {
        lex_le_from(a, b, i + 1)
    } else {
        (a[i] as u32) < (b[i] as u32)
    }
}

/// Lexicographic "less or equal" over whole character sequences.
pub open spec fn lex_le(a: Seq<char>, b: Seq<char>) -> bool {
    lex_le_from(a, b, 0)
}

pub proof fn lemma_lex_le_refl(a: Seq<char>, i: int)
    ensures
        lex_le_from(a, a, i),
    decreases a.len() - i,
{
    if i < a.len() {
        lemma_lex_le_refl(a, i + 1);
    }
}

pub proof fn lemma_lex_le_total(a: Seq<char>, b: Seq<char>, i: int)
    ensures
        lex_le_from(a, b, i) || lex_le_from(b, a, i),
    decreases a.len() - i,
{
    if i < a.len() && i < b.len() && (a[i] as u32) == (b[i] as u32) {
        lemma_lex_le_total(a, b, i + 1);
    }
}

pub proof fn lemma_lex_le_trans(a: Seq<char>, b: Seq<char>, c: Seq<char>, i: int)
    requires
        lex_le_from(a, b, i),
        lex_le_from(b, c, i),
    ensures
        lex_le_from(a, c, i),
    decreases a.len() - i,
{
    if i < a.len() {
        assert(i < b.len());
        assert(i < c.len());
        if (a[i] as u32) == (b[i] as u32) && (b[i] as u32) == (c[i] as u32) {
            lemma_lex_le_trans(a, b, c, i + 1);
        }
    }
}

/// Decides `lex_le` on two strings.
pub fn str_lex_le(a: &str, b: &str) -> (r: bool)
    ensures
        r == lex_le(a@, b@),
{
    let alen: usize = a.unicode_len();
    let blen: usize = b.unicode_len();
    let mut i: usize = 0;
    loop
        invariant
            i <= alen,
            i <= blen,
            alen == a@.len(),
            blen == b@.len(),
            lex_le(a@, b@) == lex_le_from(a@, b@, i as int),
        decreases alen - i,
    {
        if i == alen {
            return true;
        }
        if i == blen {
            return false;
        }
        let ca: char = a.get_char(i);
        let cb: char = b.get_char(i);
        if (ca as u32) != (cb as u32) {
            return (ca as u32) < (cb as u32);
        }
        i = i + 1;
    }
}

/// An entity carrying the identifier it is sorted by.
pub trait Identified: Sized {
    spec fn sort_key(&self) -> Seq<char>;

    fn key_str(&self) -> (r: &str)
        ensures
            r@ == self.sort_key(),
    ;
}

impl Identified for Light {
    open spec fn sort_key(&self) -> Seq<char> {
        self.id@
    }

    fn key_str(&self) -> (r: &str) {
        self.id.as_str()
    }
}

impl Identified for Group {
    open spec fn sort_key(&self) -> Seq<char> {
        self.id@
    }

    fn key_str(&self) -> (r: &str) {
        self.id.as_str()
    }
}

/// Ascending lexicographic order by identifier.
pub open spec fn sorted_by_key<T: Identified>(s: Seq<T>) -> bool {
    forall|i: int, j: int|
        0 <= i < j < s.len() ==> lex_le(#[trigger] s[i].sort_key(), #[trigger] s[j].sort_key())
}

/// Sorts the items into ascending identifier order; the result holds exactly
/// the items given, as a multiset.
pub fn sort_by_key<T: Identified>(items: Vec<T>) -> (r: Vec<T>)
    ensures
        sorted_by_key(r@),
        r@.to_multiset() =~= items@.to_multiset(),
        r@.len() == items@.len(),
{
    broadcast use vstd::seq_lib::group_to_multiset_ensures;
    broadcast use vstd::multiset::group_multiset_axioms;

    let mut rest = items;
    let mut out: Vec<T> = Vec::new();
    while rest.len() > 0
        invariant
            sorted_by_key(out@),
            out@.to_multiset().add(rest@.to_multiset()) =~= items@.to_multiset(),
            forall|i: int, j: int|
                0 <= i < out@.len() && 0 <= j < rest@.len() ==> lex_le(
                    #[trigger] out@[i].sort_key(),
                    #[trigger] rest@[j].sort_key(),
                ),
        decreases rest@.len(),
    {
        let mut m: usize = 0;
        let mut k: usize = 1;
        proof {
            lemma_lex_le_refl(rest@[0].sort_key(), 0);
        }
        while k < rest.len()
            invariant
                0 <= m < rest@.len(),
                k <= rest@.len(),
                forall|j: int|
                    0 <= j < k ==> lex_le(rest@[m as int].sort_key(), #[trigger] rest@[j].sort_key()),
            decreases rest@.len() - k,
        {
            if str_lex_le(rest[k].key_str(), rest[m].key_str()) {
                proof {
                    assert forall|j: int| 0 <= j < k + 1 implies lex_le(
                        rest@[k as int].sort_key(),
                        #[trigger] rest@[j].sort_key(),
                    ) by {
                        lemma_lex_le_refl(rest@[k as int].sort_key(), 0);
                        if j < k {
                            lemma_lex_le_trans(
                                rest@[k as int].sort_key(),
                                rest@[m as int].sort_key(),
                                rest@[j].sort_key(),
                                0,
                            );
                        }
                    }
                }
                m = k;
            } else {
                proof {
                    lemma_lex_le_total(rest@[k as int].sort_key(), rest@[m as int].sort_key(), 0);
                    lemma_lex_le_refl(rest@[k as int].sort_key(), 0);
                }
            }
            k = k + 1;
        }
        let ghost old_out = out@;
        let ghost old_rest = rest@;
        let x = rest.remove(m);
        out.push(x);
        proof {
            let ghost picked = old_rest[m as int];
            assert(old_rest.contains(picked));
            vstd::seq_lib::to_multiset_contains(old_rest, picked);
            vstd::seq_lib::to_multiset_remove(old_rest, m as int);
            vstd::seq_lib::to_multiset_build(old_out, picked);
            assert(rest@.to_multiset() =~= old_rest.to_multiset().remove(picked));
            assert(out@.to_multiset() =~= old_out.to_multiset().insert(picked));
            assert(out@.to_multiset().add(rest@.to_multiset()) =~= items@.to_multiset());
            assert forall|i: int, j: int|
                0 <= i < out@.len() && 0 <= j < rest@.len() implies lex_le(
                #[trigger] out@[i].sort_key(),
                #[trigger] rest@[j].sort_key(),
            ) by {
                if i < old_out.len() {
                    if j < m {
                        assert(rest@[j] == old_rest[j]);
                    } else {
                        assert(rest@[j] == old_rest[j + 1]);
                    }
                } else {
                    assert(out@[i] == old_rest[m as int]);
                    if j < m {
                        assert(rest@[j] == old_rest[j]);
                    } else {
                        assert(rest@[j] == old_rest[j + 1]);
                    }
                }
            }
            assert(sorted_by_key(out@)) by {
                assert forall|i: int, j: int| 0 <= i < j < out@.len() implies lex_le(
                    #[trigger] out@[i].sort_key(),
                    #[trigger] out@[j].sort_key(),
                ) by {
                    if j == out@.len() - 1 {
                        assert(out@[i] == old_out[i]);
                        assert(out@[j] == old_rest[m as int]);
                    }
                }
            }
        }
    }
    proof {
        assert(out@.to_multiset() =~= items@.to_multiset()) by {
            assert(rest@.len() == 0);
            assert(out@.to_multiset().add(rest@.to_multiset()) =~= items@.to_multiset());
            assert forall|a: T| rest@.to_multiset().count(a) == 0 by {
                vstd::seq_lib::to_multiset_contains(rest@, a);
                assert(!rest@.contains(a));
            }
        }
        vstd::seq_lib::to_multiset_len(out@);
        vstd::seq_lib::to_multiset_len(items@);
        assert(out@.to_multiset() == items@.to_multiset());
    }
    out
}

} // verus!
