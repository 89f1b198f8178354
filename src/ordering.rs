use vstd::prelude::*;

use vstd::multiset::Multiset;

use crate::text::text_less;

verus! {

/// A strict weak order on a type: `precedes` is asymmetric and its
/// complement is transitive.
pub trait Ranked: Sized {
    /// Whether `self` must come strictly before `other`.
    spec fn precedes(self, other: Self) -> bool;

    /// Computes `precedes`.
    fn precedes_exec(&self, other: &Self) -> (r: bool)
        ensures
            r == self.precedes(*other),
    ;

    /// `precedes` is a strict weak order.
    proof fn lemma_strict_weak(a: Self, b: Self, c: Self)
        ensures
            a.precedes(b) ==> !b.precedes(a),
            !a.precedes(b) && !b.precedes(c) ==> !a.precedes(c),
    ;
}

/// No element precedes an earlier one.
pub open spec fn in_order<T: Ranked>(s: Seq<T>) -> bool {
    forall|i: int, j: int| 0 <= i < j < s.len() ==> !(#[trigger] s[j]).precedes(#[trigger] s[i])
}

/// Sorts `v` by `precedes`.
pub fn sort_ranked<T: Ranked>(v: Vec<T>) -> (r: Vec<T>)
    ensures
        r@.to_multiset() == v@.to_multiset(),
        in_order(r@),
{
    broadcast use vstd::seq_lib::to_multiset_build, vstd::seq_lib::to_multiset_insert;
    broadcast use vstd::multiset::group_multiset_axioms;
    broadcast use vstd::seq_lib::to_multiset_len, vstd::multiset::lemma_multiset_empty_len;

    let mut src = v;
    let mut out: Vec<T> = Vec::new();
    proof {
        assert(out@.to_multiset().len() == 0);
        assert(out@.to_multiset() =~= Multiset::empty());
        assert(out@.to_multiset().add(src@.to_multiset()) =~= v@.to_multiset());
    }
    while src.len() > 0
        invariant
            out@.to_multiset().add(src@.to_multiset()) == v@.to_multiset(),
            in_order(out@),
        decreases src@.len(),
    {
        let ghost before = src@;
        let x = match src.pop() {
            Some(x) => x,
            None => {
                return out;
            },
        };
        proof {
            assert(before =~= src@.push(x));
        }
        let mut j: usize = 0;
        while j < out.len() && out[j].precedes_exec(&x)
            invariant
                j <= out@.len(),
                forall|k: int| 0 <= k < j ==> (#[trigger] out@[k]).precedes(x),
            decreases out@.len() - j,
        {
            j += 1;
        }
        let ghost prev = out@;
        out.insert(j, x);
        proof {
            assert(out@ =~= prev.insert(j as int, x));
            vstd::seq_lib::to_multiset_build(src@, x);
            vstd::seq_lib::to_multiset_insert(prev, j as int, x);
            assert(src@.push(x).to_multiset() =~= src@.to_multiset().insert(x));
            assert(before.to_multiset() =~= src@.to_multiset().insert(x));
            assert(prev.insert(j as int, x).to_multiset() =~= prev.to_multiset().insert(x));
            assert(out@.to_multiset().add(src@.to_multiset()) =~= prev.to_multiset().add(
                before.to_multiset(),
            ));
            assert forall|a: int, b: int| 0 <= a < b < out@.len() implies !(#[trigger] out@[b]).precedes(
                #[trigger] out@[a],
            ) by {
                if a < j && b == j {
                    T::lemma_strict_weak(prev[a], x, x);
                } else if a == j && b > j {
                    let y = prev[b - 1];
                    assert(!prev[j as int].precedes(x));
                    if b - 1 > j {
                        assert(!prev[b - 1].precedes(prev[j as int]));
                    }
                    T::lemma_strict_weak(y, prev[j as int], x);
                } else if a < j && b > j {
                    assert(!prev[b - 1].precedes(prev[a]));
                } else if b < j {
                    assert(!prev[b].precedes(prev[a]));
                } else {
                    assert(!prev[b - 1].precedes(prev[a - 1]));
                }
            }
        }
    }
    proof {
        assert(src@ =~= Seq::<T>::empty());
        assert(src@.to_multiset().len() == 0);
        assert(src@.to_multiset() =~= Multiset::empty());
        assert(out@.to_multiset().add(Multiset::empty()) =~= out@.to_multiset());
    }
    out
}

/// Strict lexicographic order on texts never holds both ways.
pub proof fn lemma_text_less_asymmetric(a: Seq<char>, b: Seq<char>)
    ensures
        !(text_less(a, b) && text_less(b, a)),
        !text_less(a, a),
    decreases a.len(),
{
    if a.len() > 0 && b.len() > 0 && a[0] == b[0] {
        lemma_text_less_asymmetric(a.drop_first(), b.drop_first());
    }
    if a.len() > 0 {
        lemma_text_less_asymmetric(a.drop_first(), a.drop_first());
    }
}

/// Strict lexicographic order on texts is transitive.
pub proof fn lemma_text_less_transitive(a: Seq<char>, b: Seq<char>, c: Seq<char>)
    requires
        text_less(a, b),
        text_less(b, c),
    ensures
        text_less(a, c),
    decreases a.len(),
{
    if a.len() > 0 && b.len() > 0 && c.len() > 0 && a[0] == b[0] && b[0] == c[0] {
        lemma_text_less_transitive(a.drop_first(), b.drop_first(), c.drop_first());
    }
}

/// Two different texts are ordered one way or the other.
pub proof fn lemma_text_less_total(a: Seq<char>, b: Seq<char>)
    ensures
        a != b ==> text_less(a, b) || text_less(b, a),
    decreases a.len(),
{
    if a.len() > 0 && b.len() > 0 && a[0] == b[0] {
        lemma_text_less_total(a.drop_first(), b.drop_first());
        if a.drop_first() == b.drop_first() {
            assert(a =~= seq![a[0]] + a.drop_first());
            assert(b =~= seq![b[0]] + b.drop_first());
        }
    } else if a.len() > 0 && b.len() > 0 {
        assert(a[0] != b[0]);
    } else if a.len() == 0 && b.len() == 0 {
        assert(a =~= b);
    }
}

/// Everything a strict weak order needs of lexicographic text order.
pub proof fn lemma_text_order(a: Seq<char>, b: Seq<char>, c: Seq<char>)
    ensures
        !(text_less(a, b) && text_less(b, a)),
        !text_less(a, a),
        text_less(a, b) && text_less(b, c) ==> text_less(a, c),
        a != b ==> text_less(a, b) || text_less(b, a),
        b != c ==> text_less(b, c) || text_less(c, b),
        a != c ==> text_less(a, c) || text_less(c, a),
{
    lemma_text_less_asymmetric(a, b);
    lemma_text_less_asymmetric(b, c);
    lemma_text_less_asymmetric(a, c);
    lemma_text_less_total(a, b);
    lemma_text_less_total(b, c);
    lemma_text_less_total(a, c);
    if text_less(a, b) && text_less(b, c) {
        lemma_text_less_transitive(a, b, c);
    }
}

/// `lemma_text_order` for every arrangement of three texts.
pub proof fn lemma_text_order_all(a: Seq<char>, b: Seq<char>, c: Seq<char>)
    ensures
        !(text_less(a, b) && text_less(b, a)),
        !(text_less(b, c) && text_less(c, b)),
        !(text_less(a, c) && text_less(c, a)),
        !text_less(a, a),
        !text_less(b, b),
        !text_less(c, c),
        text_less(a, b) && text_less(b, c) ==> text_less(a, c),
        text_less(a, c) && text_less(c, b) ==> text_less(a, b),
        text_less(b, a) && text_less(a, c) ==> text_less(b, c),
        text_less(b, c) && text_less(c, a) ==> text_less(b, a),
        text_less(c, a) && text_less(a, b) ==> text_less(c, b),
        text_less(c, b) && text_less(b, a) ==> text_less(c, a),
        a != b ==> text_less(a, b) || text_less(b, a),
        b != c ==> text_less(b, c) || text_less(c, b),
        a != c ==> text_less(a, c) || text_less(c, a),
{
    lemma_text_order(a, b, c);
    lemma_text_order(a, c, b);
    lemma_text_order(b, a, c);
    lemma_text_order(b, c, a);
    lemma_text_order(c, a, b);
    lemma_text_order(c, b, a);
}

} // verus!
