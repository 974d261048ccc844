//! Orderings used to present lists, and a verified stable sort.

use vstd::prelude::*;

verus! {

/// Lexicographic order of character sequences by code point, which is the
/// order `String`'s `Ord` gives (UTF-8 preserves code point order).
pub open spec fn lex_le(a: Seq<char>, b: Seq<char>) -> bool
    decreases a.len(),
{
    if a.len() == 0 {
        true
    } else if b.len() == 0 {
        false
    } else if (a[0] as u32) < (b[0] as u32) {
        true
    } else if (a[0] as u32) > (b[0] as u32) {
        false
    } else {
        lex_le(a.drop_first(), b.drop_first())
    }
}

/// Any two sequences are comparable.
pub proof fn lemma_lex_total(a: Seq<char>, b: Seq<char>)
    ensures
        lex_le(a, b) || lex_le(b, a),
    decreases a.len(),
{
    if a.len() > 0 && b.len() > 0 && a[0] as u32 == b[0] as u32 {
        lemma_lex_total(a.drop_first(), b.drop_first());
    }
}

/// The order is transitive.
pub proof fn lemma_lex_trans(a: Seq<char>, b: Seq<char>, c: Seq<char>)
    requires
        lex_le(a, b),
        lex_le(b, c),
    ensures
        lex_le(a, c),
    decreases a.len(),
{
    if a.len() > 0 && b.len() > 0 && c.len() > 0 && a[0] as u32 == b[0] as u32 && b[0] as u32
        == c[0] as u32 {
        lemma_lex_trans(a.drop_first(), b.drop_first(), c.drop_first());
    }
}

/// Lexicographic comparison of two strings: whether `a <= b`.
pub fn str_le(a: &str, b: &str) -> (r: bool)
    ensures
        r == lex_le(a@, b@),
{
    let x = crate::text::chars_of(a);
    let y = crate::text::chars_of(b);
    let mut i: usize = 0;
    assert(a@.skip(0) =~= a@);
    assert(b@.skip(0) =~= b@);
    while i < x.len() && i < y.len()
        invariant
            i <= x.len(),
            i <= y.len(),
            x@ == a@,
            y@ == b@,
            lex_le(a@, b@) == lex_le(a@.skip(i as int), b@.skip(i as int)),
        decreases x.len() - i,
    {
        let p = x[i] as u32;
        let q = y[i] as u32;
        let ghost sa = a@.skip(i as int);
        let ghost sb = b@.skip(i as int);
        assert(sa[0] == x@[i as int]);
        assert(sb[0] == y@[i as int]);
        if p < q {
            return true;
        }
        if p > q {
            return false;
        }
        assert(sa.drop_first() =~= a@.skip(i + 1));
        assert(sb.drop_first() =~= b@.skip(i + 1));
        i += 1;
    }
    let ghost sa = a@.skip(i as int);
    let ghost sb = b@.skip(i as int);
    if i == x.len() {
        assert(sa.len() == 0);
        true
    } else {
        assert(sb.len() == 0);
        false
    }
}

/// An ordering by which a list is presented: a total preorder, with an
/// executable comparison.
pub trait Ranked: Sized {
    /// Whether `self` comes no later than `other`.
    spec fn rank_le(&self, other: &Self) -> bool;

    /// Any two items are comparable.
    proof fn rank_total(a: &Self, b: &Self)
        ensures
            a.rank_le(b) || b.rank_le(a),
    ;

    /// The order is transitive.
    proof fn rank_trans(a: &Self, b: &Self, c: &Self)
        requires
            a.rank_le(b),
            b.rank_le(c),
        ensures
            a.rank_le(c),
    ;

    /// Whether `self` comes no later than `other`.
    fn le(&self, other: &Self) -> (r: bool)
        ensures
            r == self.rank_le(other),
    ;
}

/// Every item comes no later than every item after it.
pub open spec fn sorted<T: Ranked>(s: Seq<T>) -> bool {
    forall|i: int, j: int| #![trigger s[i], s[j]] 0 <= i < j < s.len() ==> s[i].rank_le(&s[j])
}

/// `r` holds the items of `v` rearranged by `p` (`r[k] == v[p[k]]`, `p` a
/// permutation of the positions), sorted, with items of equal rank kept in
/// their order in `v`.
pub open spec fn stable_arrangement<T: Ranked>(r: Seq<T>, v: Seq<T>, p: Seq<int>) -> bool {
    &&& r.len() == v.len()
    &&& p.len() == r.len()
    &&& forall|k: int| 0 <= k < p.len() ==> 0 <= #[trigger] p[k] < v.len() && r[k] == v[p[k]]
    &&& forall|k1: int, k2: int| 0 <= k1 < k2 < p.len() ==> #[trigger] p[k1] != #[trigger] p[k2]
    &&& sorted(r)
    &&& forall|k1: int, k2: int|
        #![trigger r[k1], r[k2]]
        0 <= k1 < k2 < r.len() && r[k2].rank_le(&r[k1]) ==> p[k1] < p[k2]
}

/// `r` is the stable sort of `v`, as `slice::sort_by` gives it.
pub open spec fn is_stable_sort<T: Ranked>(r: Seq<T>, v: Seq<T>) -> bool {
    exists|p: Seq<int>| stable_arrangement(r, v, p)
}

/// Sorts `v` by its rank, keeping items of equal rank in their order.
pub fn stable_sort<T: Ranked>(v: Vec<T>) -> (r: Vec<T>)
    ensures
        is_stable_sort(r@, v@),
{
    let ghost orig = v@;
    let n = v.len();
    let mut rest = v;
    let mut out: Vec<T> = Vec::new();
    let ghost mut p: Seq<int> = Seq::empty();
    let mut i: usize = 0;
    while i < n
        invariant
            n == orig.len(),
            i <= n,
            rest@ == orig.skip(i as int),
            out@.len() == i,
            p.len() == i,
            forall|k: int| 0 <= k < i ==> 0 <= #[trigger] p[k] < i && out@[k] == orig[p[k]],
            forall|k1: int, k2: int| 0 <= k1 < k2 < i ==> #[trigger] p[k1] != #[trigger] p[k2],
            sorted(out@),
            forall|k1: int, k2: int|
                #![trigger out@[k1], out@[k2]]
                0 <= k1 < k2 < i && out@[k2].rank_le(&out@[k1]) ==> p[k1] < p[k2],
        decreases n - i,
    {
        let x = rest.remove(0);
        assert(x == orig[i as int]);
        assert(rest@ =~= orig.skip(i + 1));
        let mut pos: usize = 0;
        while pos < out.len() && out[pos].le(&x)
            invariant
                pos <= out@.len(),
                forall|k: int| 0 <= k < pos ==> (#[trigger] out@[k]).rank_le(&x),
            decreases out@.len() - pos,
        {
            pos += 1;
        }
        proof {
            if pos < out@.len() {
                T::rank_total(&out@[pos as int], &x);
            }
        }
        let ghost old_out = out@;
        let ghost old_p = p;
        out.insert(pos, x);
        proof {
            p = old_p.insert(pos as int, i as int);
            assert(out@ == old_out.insert(pos as int, x));
            assert forall|k: int| 0 <= k < i + 1 implies 0 <= #[trigger] p[k] < i + 1 && out@[k]
                == orig[p[k]] by {
                if k < pos {
                    assert(p[k] == old_p[k]);
                } else if k > pos {
                    assert(p[k] == old_p[k - 1]);
                }
            }
            assert forall|k1: int, k2: int| 0 <= k1 < k2 < i + 1 implies #[trigger] p[k1]
                != #[trigger] p[k2] by {
                if k1 != pos && k2 != pos {
                    let a = if k1 < pos { k1 } else { k1 - 1 };
                    let b = if k2 < pos { k2 } else { k2 - 1 };
                    assert(p[k1] == old_p[a]);
                    assert(p[k2] == old_p[b]);
                } else if k1 == pos {
                    let b = k2 - 1;
                    assert(p[k2] == old_p[b]);
                } else {
                    let a = k1;
                    assert(p[k1] == old_p[a]);
                }
            }
            assert forall|k1: int, k2: int| #![trigger out@[k1], out@[k2]]
                0 <= k1 < k2 < i + 1 implies out@[k1].rank_le(&out@[k2]) by {
                if k1 != pos && k2 != pos {
                    let a = if k1 < pos { k1 } else { k1 - 1 };
                    let b = if k2 < pos { k2 } else { k2 - 1 };
                    assert(out@[k1] == old_out[a]);
                    assert(out@[k2] == old_out[b]);
                } else if k1 == pos {
                    let b = k2 - 1;
                    assert(out@[k2] == old_out[b]);
                    assert(x.rank_le(&old_out[pos as int]));
                    if b > pos {
                        assert(old_out[pos as int].rank_le(&old_out[b]));
                        T::rank_trans(&x, &old_out[pos as int], &old_out[b]);
                    }
                } else {
                    assert(out@[k1] == old_out[k1]);
                }
            }
            assert forall|k1: int, k2: int|
                #![trigger out@[k1], out@[k2]]
                0 <= k1 < k2 < i + 1 && out@[k2].rank_le(&out@[k1]) implies p[k1] < p[k2] by {
                if k1 != pos && k2 != pos {
                    let a = if k1 < pos { k1 } else { k1 - 1 };
                    let b = if k2 < pos { k2 } else { k2 - 1 };
                    assert(out@[k1] == old_out[a]);
                    assert(out@[k2] == old_out[b]);
                    assert(p[k1] == old_p[a]);
                    assert(p[k2] == old_p[b]);
                } else if k1 == pos {
                    let b = k2 - 1;
                    assert(out@[k2] == old_out[b]);
                    assert(x.rank_le(&old_out[pos as int]));
                    if b > pos {
                        assert(old_out[pos as int].rank_le(&old_out[b]));
                        T::rank_trans(&old_out[pos as int], &old_out[b], &x);
                    }
                    assert(false);
                } else {
                    assert(p[k1] == old_p[k1]);
                    assert(p[k2] == i);
                }
            }
        }
        i += 1;
    }
    assert(stable_arrangement(out@, orig, p));
    out
}

} // verus!
