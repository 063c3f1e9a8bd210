//! A set of strings kept as a strictly sorted vector: membership tests,
//! insertion, and the canonical-form law that makes registration idempotent
//! and order-independent.

use vstd::prelude::*;

use crate::text::lemma_lex_lt_asym;
use crate::text::lemma_lex_lt_connected;
use crate::text::lemma_lex_lt_irrefl;
use crate::text::lemma_lex_lt_trans;
use crate::text::lex_lt;
use crate::text::str_eq;
use crate::text::str_lt;

verus! {

/// The sequences stand in strictly increasing lexicographic order; in
/// particular, no element repeats.
pub open spec fn strictly_sorted(s: Seq<Seq<char>>) -> bool {
    forall|i: int, j: int| 0 <= i < j < s.len() ==> lex_lt(s[i], s[j])
}

/// Decides whether the characters of `s` occur as an element of `v`.
pub fn contains_string(v: &Vec<String>, s: &str) -> (r: bool)
    ensures
        r == v.deep_view().contains(s@),
{
    let mut i: usize = 0;
    while i < v.len()
        invariant
            i <= v.len(),
            forall|j: int| 0 <= j < i ==> v.deep_view()[j] != s@,
        decreases v.len() - i,
    {
        if str_eq(v[i].as_str(), s) {
            assert(v.deep_view()[i as int] == s@);
            return true;
        }
        i += 1;
    }
    false
}

/// Decides whether two string vectors hold the same characters in the same
/// order.
pub fn vec_string_eq(a: &Vec<String>, b: &Vec<String>) -> (r: bool)
    ensures
        r == (a.deep_view() == b.deep_view()),
{
    if a.len() != b.len() {
        proof {
            assert(a.deep_view().len() == a@.len());
            assert(b.deep_view().len() == b@.len());
        }
        return false;
    }
    let mut i: usize = 0;
    while i < a.len()
        invariant
            a@.len() == b@.len(),
            i <= a@.len(),
            forall|j: int| 0 <= j < i ==> a.deep_view()[j] == b.deep_view()[j],
        decreases a@.len() - i,
    {
        if !str_eq(a[i].as_str(), b[i].as_str()) {
            proof {
                assert(a.deep_view()[i as int] != b.deep_view()[i as int]);
            }
            return false;
        }
        proof {
            assert(a.deep_view()[i as int] == b.deep_view()[i as int]);
        }
        i += 1;
    }
    proof {
        assert(a.deep_view() =~= b.deep_view());
    }
    true
}

/// Copies a string vector; the copy holds the same characters in the same
/// order.
pub fn clone_string_vec(v: &Vec<String>) -> (r: Vec<String>)
    ensures
        r.deep_view() == v.deep_view(),
{
    let mut copy: Vec<String> = Vec::new();
    let mut i: usize = 0;
    while i < v.len()
        invariant
            i <= v@.len(),
            copy@.len() == i,
            forall|j: int| 0 <= j < i ==> copy.deep_view()[j] == v.deep_view()[j],
        decreases v@.len() - i,
    {
        let ghost pre = copy@;
        copy.push(v[i].clone());
        proof {
            assert(copy@ == pre.push(v@[i as int]));
            assert(copy.deep_view()[i as int] == v.deep_view()[i as int]);
            assert(forall|j: int| 0 <= j < i ==> copy@[j] == pre[j]);
        }
        i += 1;
    }
    proof {
        assert(copy.deep_view() =~= v.deep_view());
    }
    copy
}

/// Inserts the string into the sorted vector, unless it is already there.
pub fn insert_string(v: &mut Vec<String>, s: String)
    requires
        strictly_sorted(old(v).deep_view()),
    ensures
        strictly_sorted(final(v).deep_view()),
        forall|x: Seq<char>|
            final(v).deep_view().contains(x) <==> (old(v).deep_view().contains(x) || x == s@),
{
    let ghost old_dv = old(v).deep_view();
    let mut i: usize = 0;
    while i < v.len() && str_lt(v[i].as_str(), s.as_str())
        invariant
            *v == *old(v),
            old_dv == v.deep_view(),
            i <= v.len(),
            forall|j: int| 0 <= j < i ==> lex_lt(old_dv[j], s@),
        decreases v.len() - i,
    {
        proof {
            assert(old_dv[i as int] == v@[i as int]@);
        }
        i += 1;
    }
    if i < v.len() && str_eq(v[i].as_str(), s.as_str()) {
        proof {
            assert(old_dv[i as int] == s@);
            assert(old_dv.contains(s@));
        }
        return;
    }
    proof {
        if i < v.len() {
            assert(old_dv[i as int] == v@[i as int]@);
            assert(!lex_lt(old_dv[i as int], s@) && old_dv[i as int] != s@);
            lemma_lex_lt_connected(old_dv[i as int], s@);
            assert(lex_lt(s@, old_dv[i as int]));
        }
    }
    let ghost ii: int = i as int;
    v.insert(i, s);
    proof {
        let dv = v.deep_view();
        assert(v@ == old(v)@.insert(ii, s));
        assert(dv.len() == old_dv.len() + 1);
        assert forall|j: int| 0 <= j < dv.len() implies dv[j] == (if j < ii {
            old_dv[j]
        } else if j == ii {
            s@
        } else {
            old_dv[j - 1]
        }) by {
            if j < ii {
                assert(v@[j] == old(v)@[j]);
            } else if j > ii {
                assert(v@[j] == old(v)@[j - 1]);
            }
        }
        assert forall|k: int, l: int| 0 <= k < l < dv.len() implies lex_lt(dv[k], dv[l]) by {
            if l < ii {
                assert(lex_lt(old_dv[k], old_dv[l]));
            } else if l == ii {
                assert(lex_lt(old_dv[k], s@));
            } else if k < ii {
                assert(dv[k] == old_dv[k]);
                assert(dv[l] == old_dv[l - 1]);
                assert(lex_lt(old_dv[k], old_dv[l - 1]));
            } else if k == ii {
                assert(lex_lt(s@, old_dv[ii]));
                if l - 1 > ii {
                    assert(lex_lt(old_dv[ii], old_dv[l - 1]));
                    lemma_lex_lt_trans(s@, old_dv[ii], old_dv[l - 1]);
                }
            } else {
                assert(lex_lt(old_dv[k - 1], old_dv[l - 1]));
            }
        }
        assert forall|x: Seq<char>| dv.contains(x) implies (old_dv.contains(x) || x == s@) by {
            let j = choose|j: int| 0 <= j < dv.len() && dv[j] == x;
            if j < ii {
                assert(old_dv[j] == x);
            } else if j > ii {
                assert(old_dv[j - 1] == x);
            }
        }
        assert forall|x: Seq<char>| (old_dv.contains(x) || x == s@) implies dv.contains(x) by {
            if x == s@ {
                assert(dv[ii] == x);
            } else {
                let j = choose|j: int| 0 <= j < old_dv.len() && old_dv[j] == x;
                if j < ii {
                    assert(dv[j] == x);
                } else {
                    assert(dv[j + 1] == x);
                }
            }
        }
    }
}

/// Two strictly sorted sequences with the same members are the same
/// sequence: the sorted form of a set of strings is canonical, so the order
/// in which the strings were gathered leaves no trace.
pub proof fn lemma_sorted_canonical(s1: Seq<Seq<char>>, s2: Seq<Seq<char>>)
    requires
        strictly_sorted(s1),
        strictly_sorted(s2),
        forall|x: Seq<char>| s1.contains(x) <==> s2.contains(x),
    ensures
        s1 == s2,
    decreases s1.len(),
{
    if s1.len() == 0 {
        if s2.len() > 0 {
            assert(s2.contains(s2[0]));
            assert(s1.contains(s2[0]));
        }
        assert(s1 =~= s2);
    } else {
        assert(s1.contains(s1[0]));
        assert(s2.contains(s1[0]));
        let k = choose|k: int| 0 <= k < s2.len() && s2[k] == s1[0];
        assert(s2.contains(s2[0]));
        assert(s1.contains(s2[0]));
        let m = choose|m: int| 0 <= m < s1.len() && s1[m] == s2[0];
        if k > 0 && m > 0 {
            assert(lex_lt(s2[0], s2[k]));
            assert(lex_lt(s1[0], s1[m]));
            lemma_lex_lt_asym(s1[0], s2[0]);
            assert(false);
        }
        assert(s1[0] == s2[0]);
        let t1 = s1.skip(1);
        let t2 = s2.skip(1);
        assert forall|i: int, j: int| 0 <= i < j < t1.len() implies lex_lt(t1[i], t1[j]) by {
            assert(lex_lt(s1[i + 1], s1[j + 1]));
        }
        assert forall|i: int, j: int| 0 <= i < j < t2.len() implies lex_lt(t2[i], t2[j]) by {
            assert(lex_lt(s2[i + 1], s2[j + 1]));
        }
        assert forall|x: Seq<char>| t1.contains(x) implies t2.contains(x) by {
            let j = choose|j: int| 0 <= j < t1.len() && t1[j] == x;
            assert(s1[j + 1] == x);
            assert(lex_lt(s1[0], x));
            lemma_lex_lt_irrefl(x);
            assert(s1.contains(x));
            assert(s2.contains(x));
            let l = choose|l: int| 0 <= l < s2.len() && s2[l] == x;
            assert(l > 0);
            assert(t2[l - 1] == x);
        }
        assert forall|x: Seq<char>| t2.contains(x) implies t1.contains(x) by {
            let j = choose|j: int| 0 <= j < t2.len() && t2[j] == x;
            assert(s2[j + 1] == x);
            assert(lex_lt(s2[0], x));
            lemma_lex_lt_irrefl(x);
            assert(s2.contains(x));
            assert(s1.contains(x));
            let l = choose|l: int| 0 <= l < s1.len() && s1[l] == x;
            assert(l > 0);
            assert(t1[l - 1] == x);
        }
        lemma_sorted_canonical(t1, t2);
        assert forall|j: int| 0 <= j < s1.len() implies s1[j] == s2[j] by {
            if j > 0 {
                assert(t1[j - 1] == t2[j - 1]);
            }
        }
        assert(s1 =~= s2);
    }
}

} // verus!
