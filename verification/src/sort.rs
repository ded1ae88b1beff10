//! Lexicographic ordering of strings (by code point, which is the order of
//! their UTF-8 bytes) and sorting of string lists.
use vstd::prelude::*;
use vstd::seq_lib::*;

use crate::text::chars_of;

verus! {

broadcast use {group_to_multiset_ensures, group_seq_properties};

/// `a` sorts before or equal to `b`, comparing characters by code point and a
/// proper prefix before the longer sequence.
pub open spec fn lex_le(a: Seq<char>, b: Seq<char>) -> bool
    decreases a.len(),
{
    if a.len() == 0 {
        true
    } else if b.len() == 0 {
        false
    } else if a[0] != b[0] {
        a[0] < b[0]
    } else {
        lex_le(a.drop_first(), b.drop_first())
    }
}

pub proof fn lemma_lex_total(a: Seq<char>, b: Seq<char>)
    ensures
        lex_le(a, b) || lex_le(b, a),
    decreases a.len(),
{
    if a.len() > 0 && b.len() > 0 {
        if a[0] == b[0] {
            lemma_lex_total(a.drop_first(), b.drop_first());
        }
    }
}

pub proof fn lemma_lex_antisymmetric(a: Seq<char>, b: Seq<char>)
    requires
        lex_le(a, b),
        lex_le(b, a),
    ensures
        a == b,
    decreases a.len(),
{
    if a.len() > 0 && b.len() > 0 {
        if a[0] == b[0] {
            lemma_lex_antisymmetric(a.drop_first(), b.drop_first());
            assert(a =~= seq![a[0]] + a.drop_first());
            assert(b =~= seq![b[0]] + b.drop_first());
        } else {
            
        }
    } else {
        assert(a.len() == 0 && b.len() == 0);
        assert(a =~= b);
    }
}

pub proof fn lemma_lex_transitive(a: Seq<char>, b: Seq<char>, c: Seq<char>)
    requires
        lex_le(a, b),
        lex_le(b, c),
    ensures
        lex_le(a, c),
    decreases a.len(),
{
    if a.len() > 0 && b.len() > 0 && c.len() > 0 {
        if a[0] == b[0] && b[0] == c[0] {
            lemma_lex_transitive(a.drop_first(), b.drop_first(), c.drop_first());
        } else {
            
        }
    }
}

pub proof fn lemma_lex_reflexive(a: Seq<char>)
    ensures
        lex_le(a, a),
    decreases a.len(),
{
    if a.len() > 0 {
        lemma_lex_reflexive(a.drop_first());
    }
}

/// Every earlier element sorts before or equal to every later one.
pub open spec fn sorted(s: Seq<Seq<char>>) -> bool {
    forall|i: int, j: int| 0 <= i < j < s.len() ==> lex_le(#[trigger] s[i], #[trigger] s[j])
}

/// No element occurs twice.
pub open spec fn distinct(s: Seq<Seq<char>>) -> bool {
    forall|i: int, j: int| 0 <= i < j < s.len() ==> #[trigger] s[i] != #[trigger] s[j]
}

pub open spec fn views(v: Seq<String>) -> Seq<Seq<char>> {
    v.map_values(|s: String| s@)
}

/// Compares two strings lexicographically.
pub fn string_le(a: &String, b: &String) -> (r: bool)
    ensures
        r == lex_le(a@, b@),
{
    let x = chars_of(a.as_str());
    let y = chars_of(b.as_str());
    let mut i: usize = 0;
    assert(a@.skip(0) =~= a@);
    assert(b@.skip(0) =~= b@);
    while i < x.len() && i < y.len() && x[i] == y[i]
        invariant
            x@ == a@,
            y@ == b@,
            i <= x.len(),
            i <= y.len(),
            lex_le(a@, b@) == lex_le(a@.skip(i as int), b@.skip(i as int)),
        decreases x.len() - i,
    {
        proof {
            assert(a@.skip(i as int).drop_first() =~= a@.skip(i + 1));
            assert(b@.skip(i as int).drop_first() =~= b@.skip(i + 1));
        }
        i = i + 1;
    }
    if i == x.len() {
        true
    } else if i == y.len() {
        false
    } else {
        x[i] < y[i]
    }
}

/// The strings in lexicographic order (the same strings, each as often as given).
pub fn sort_strings(items: Vec<String>) -> (r: Vec<String>)
    ensures
        sorted(views(r@)),
        views(r@).to_multiset() == views(items@).to_multiset(),
{
    let mut out: Vec<String> = Vec::new();
    let ghost src = views(items@);
    let mut rest = items;
    let ghost taken: Seq<Seq<char>> = Seq::empty();
    proof {
        assert(views(out@) =~= Seq::<Seq<char>>::empty());
    }
    let n = rest.len();
    let mut k: usize = 0;
    while k < n
        invariant
            rest@.len() == n,
            views(rest@) == src,
            k <= n,
            sorted(views(out@)),
            views(out@).to_multiset() == src.take(k as int).to_multiset(),
        decreases n - k,
    {
        let x = rest[k].clone();
        let mut p: usize = 0;
        while p < out.len() && string_le(&out[p], &x)
            invariant
                p <= out.len(),
                forall|q: int| 0 <= q < p ==> lex_le(#[trigger] views(out@)[q], x@),
            decreases out.len() - p,
        {
            p = p + 1;
        }
        let ghost before = views(out@);
        proof {
            if p < out.len() {
                lemma_lex_total(before[p as int], x@);
                assert forall|q: int| p <= q < before.len() implies lex_le(x@, #[trigger] before[q]) by {
                    if q > p {
                        lemma_lex_transitive(x@, before[p as int], before[q]);
                    }
                }
            }
        }
        out.insert(p, x);
        proof {
            let after = views(out@);
            assert(after =~= before.insert(p as int, x@));
            assert forall|i: int, j: int| 0 <= i < j < after.len() implies lex_le(
                #[trigger] after[i],
                #[trigger] after[j],
            ) by {
                if i < p && j == p {
                } else if i < p && j > p {
                    lemma_lex_transitive(before[i], x@, before[j - 1]);
                } else if i == p {
                } else {
                }
            }
            assert(src.take(k + 1) =~= src.take(k as int).push(src[k as int]));
            assert(src[k as int] == x@);
        }
        k = k + 1;
    }
    proof {
        assert(src.take(n as int) =~= src);
    }
    out
}

/// The distinct strings in lexicographic order.
pub fn sort_unique_strings(items: Vec<String>) -> (r: Vec<String>)
    ensures
        sorted(views(r@)),
        distinct(views(r@)),
        views(r@).to_set() == views(items@).to_set(),
{
    let ghost src = views(items@);
    let s = sort_strings(items);
    let ghost sv = views(s@);
    proof {
        assert forall|x: Seq<char>| sv.contains(x) <==> src.contains(x) by {
            to_multiset_contains(sv, x);
            to_multiset_contains(src, x);
        }
    }
    let mut out: Vec<String> = Vec::new();
    for i in 0..s.len()
        invariant
            sv == views(s@),
            sorted(sv),
            sorted(views(out@)),
            distinct(views(out@)),
            views(out@).to_set() == sv.take(i as int).to_set(),
            i > 0 ==> views(out@).len() > 0 && views(out@).last() == sv[i - 1],
            i == 0 ==> views(out@).len() == 0,
    {
        let ghost before = views(out@);
        let keep = if out.len() == 0 {
            true
        } else {
            let last = out.len() - 1;
            !(out[last] == s[i])
        };
        if keep {
            let item = s[i].clone();
            out.push(item);
            proof {
                let after = views(out@);
                assert(after =~= before.push(sv[i as int]));
                assert forall|a: int, b: int| 0 <= a < b < after.len() implies lex_le(
                    #[trigger] after[a],
                    #[trigger] after[b],
                ) by {
                    if b == after.len() - 1 && a < b {
                        if i > 0 {
                            lemma_lex_reflexive(sv[i - 1]);
                            assert(before.last() == sv[i - 1]);
                            assert(lex_le(sv[i - 1], sv[i as int]));
                            if a < before.len() - 1 {
                                lemma_lex_transitive(before[a], before.last(), sv[i as int]);
                            }
                        }
                    }
                }
                assert forall|a: int, b: int| 0 <= a < b < after.len() implies #[trigger] after[a]
                    != #[trigger] after[b] by {
                    if b == after.len() - 1 && i > 0 {
                        if a < before.len() - 1 {
                            lemma_lex_transitive(before[a], before.last(), sv[i as int]);
                            if after[a] == after[b] {
                                lemma_lex_antisymmetric(before[a], before.last());
                            }
                        }
                    }
                }
            }
        }
        proof {
            assert(sv.take(i + 1) =~= sv.take(i as int).push(sv[i as int]));
            assert(sv.take(i + 1).contains(sv[i as int]));
            if i > 0 {
                assert(before.contains(sv[i - 1]));
            }
            assert forall|z: Seq<char>| #[trigger] views(out@).contains(z) <==> sv.take(i + 1).contains(z) by {
                if sv.take(i + 1).contains(z) {
                    let j = choose|j: int| 0 <= j < i + 1 && #[trigger] sv.take(i + 1)[j] == z;
                    if j < i {
                        assert(sv.take(i as int)[j] == z);
                        assert(sv.take(i as int).contains(z));
                        assert(before.to_set().contains(z));
                    }
                }
                if views(out@).contains(z) {
                    if before.contains(z) {
                        assert(before.to_set().contains(z));
                        assert(sv.take(i as int).contains(z));
                    }
                }
            }
            assert(views(out@).to_set() =~= sv.take(i + 1).to_set());
        }
    }
    proof {
        assert(sv.take(s.len() as int) =~= sv);
        assert(views(out@).to_set() =~= src.to_set());
    }
    out
}

} // verus!
