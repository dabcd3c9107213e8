//! Stable sorting by a key, as `sort_by_key` on a slice does it.
use vstd::prelude::*;

verus! {

/// A type whose values are ordered by a key (a total preorder).
pub trait SortKey: Sized {
    /// The key of `self` is at most the key of `other`.
    spec fn key_le(&self, other: &Self) -> bool;

    proof fn lemma_key_total(a: &Self, b: &Self)
        ensures
            a.key_le(b) || b.key_le(a),
    ;

    proof fn lemma_key_trans(a: &Self, b: &Self, c: &Self)
        requires
            a.key_le(b),
            b.key_le(c),
        ensures
            a.key_le(c),
    ;

    /// Compares the keys.
    fn le(&self, other: &Self) -> (b: bool)
        ensures
            b == self.key_le(other),
    ;
}

/// `x` put into `s` after every element whose key is at most its own, that
/// is, after the last such element when `s` is sorted.
pub open spec fn insert_sorted<T: SortKey>(s: Seq<T>, x: T) -> Seq<T>
    decreases s.len(),
{
    if s.len() == 0 {
        seq![x]
    } else if s.last().key_le(&x) {
        s.push(x)
    } else {
        insert_sorted(s.drop_last(), x).push(s.last())
    }
}

/// The elements of `s` ordered by key; elements with equal keys keep their
/// order.
pub open spec fn sort_by_key<T: SortKey>(s: Seq<T>) -> Seq<T>
    decreases s.len(),
{
    if s.len() == 0 {
        s
    } else {
        insert_sorted(sort_by_key(s.drop_last()), s.last())
    }
}

/// Every element of `s` has a key at most that of `y`.
pub open spec fn all_key_le<T: SortKey>(s: Seq<T>, y: T) -> bool {
    forall|i: int| 0 <= i < s.len() ==> #[trigger] s[i].key_le(&y)
}

/// `s` is ordered by key.
pub open spec fn is_sorted<T: SortKey>(s: Seq<T>) -> bool {
    forall|i: int, j: int| 0 <= i < j < s.len() ==> #[trigger] s[i].key_le(&s[j])
}

proof fn lemma_insert_at<T: SortKey>(s: Seq<T>, x: T, j: int)
    requires
        0 <= j <= s.len(),
        j == 0 || s[j - 1].key_le(&x),
        forall|k: int| j <= k < s.len() ==> !#[trigger] s[k].key_le(&x),
    ensures
        insert_sorted(s, x) == s.take(j).push(x) + s.skip(j),
    decreases s.len(),
{
    if s.len() == 0 {
        assert(s.take(j).push(x) + s.skip(j) =~= seq![x]);
    } else if s.last().key_le(&x) {
        if j < s.len() {
            assert(!s[s.len() - 1].key_le(&x));
        }
        assert(s.take(j).push(x) + s.skip(j) =~= s.push(x));
    } else {
        let d = s.drop_last();
        assert(j < s.len());
        assert forall|k: int| j <= k < d.len() implies !#[trigger] d[k].key_le(&x) by {
            assert(d[k] == s[k]);
        }
        if j > 0 {
            assert(d[j - 1] == s[j - 1]);
        }
        lemma_insert_at(d, x, j);
        assert(d.take(j).push(x) + d.skip(j) + seq![s.last()] =~= s.take(j).push(x) + s.skip(j));
    }
}

proof fn lemma_insert_bound<T: SortKey>(s: Seq<T>, x: T, y: T)
    requires
        all_key_le(s, y),
        x.key_le(&y),
    ensures
        all_key_le(insert_sorted(s, x), y),
    decreases s.len(),
{
    if s.len() == 0 {
    } else if s.last().key_le(&x) {
        assert(s.push(x)[s.len() as int] == x);
    } else {
        let d = s.drop_last();
        assert(all_key_le(d, y)) by {
            assert forall|i: int| 0 <= i < d.len() implies #[trigger] d[i].key_le(&y) by {
                assert(d[i] == s[i]);
            }
        }
        lemma_insert_bound(d, x, y);
        let r = insert_sorted(d, x);
        assert(s[s.len() - 1].key_le(&y));
        assert forall|i: int| 0 <= i < r.push(s.last()).len() implies #[trigger] r.push(
            s.last(),
        )[i].key_le(&y) by {
            if i < r.len() {
                assert(r.push(s.last())[i] == r[i]);
            }
        }
    }
}

proof fn lemma_insert_sorted<T: SortKey>(s: Seq<T>, x: T)
    requires
        is_sorted(s),
    ensures
        is_sorted(insert_sorted(s, x)),
        insert_sorted(s, x).len() == s.len() + 1,
    decreases s.len(),
{
    if s.len() == 0 {
    } else if s.last().key_le(&x) {
        let r = s.push(x);
        assert forall|i: int, j: int| 0 <= i < j < r.len() implies #[trigger] r[i].key_le(&r[j]) by {
            if j == s.len() {
                if i < s.len() - 1 {
                    assert(s[i].key_le(&s[s.len() - 1]));
                    T::lemma_key_trans(&s[i], &s[s.len() - 1], &x);
                }
            } else {
                assert(r[i] == s[i] && r[j] == s[j]);
            }
        }
    } else {
        let d = s.drop_last();
        let last = s.last();
        assert(is_sorted(d)) by {
            assert forall|i: int, j: int| 0 <= i < j < d.len() implies #[trigger] d[i].key_le(
                &d[j],
            ) by {
                assert(d[i] == s[i] && d[j] == s[j]);
            }
        }
        lemma_insert_sorted(d, x);
        T::lemma_key_total(&last, &x);
        assert(all_key_le(d, last)) by {
            assert forall|i: int| 0 <= i < d.len() implies #[trigger] d[i].key_le(&last) by {
                assert(d[i] == s[i]);
                assert(s[i].key_le(&s[s.len() - 1]));
            }
        }
        lemma_insert_bound(d, x, last);
        let q = insert_sorted(d, x);
        let r = q.push(last);
        assert forall|i: int, j: int| 0 <= i < j < r.len() implies #[trigger] r[i].key_le(&r[j]) by {
            if j == q.len() {
                assert(r[i] == q[i]);
                assert(q[i].key_le(&last));
            } else {
                assert(r[i] == q[i] && r[j] == q[j]);
            }
        }
    }
}

/// A sorted sequence is ordered by key.
pub proof fn lemma_sort_sorted<T: SortKey>(s: Seq<T>)
    ensures
        is_sorted(sort_by_key(s)),
        sort_by_key(s).len() == s.len(),
    decreases s.len(),
{
    if s.len() > 0 {
        lemma_sort_sorted(s.drop_last());
        lemma_insert_sorted(sort_by_key(s.drop_last()), s.last());
    }
}

proof fn lemma_insert_members<T: SortKey>(t: Seq<T>, x: T, i: int)
    requires
        0 <= i < insert_sorted(t, x).len(),
    ensures
        insert_sorted(t, x).len() == t.len() + 1,
        insert_sorted(t, x)[i] == x || exists|j: int|
            0 <= j < t.len() && insert_sorted(t, x)[i] == #[trigger] t[j],
    decreases t.len(),
{
    if t.len() == 0 {
    } else if t.last().key_le(&x) {
        if i < t.len() {
            assert(insert_sorted(t, x)[i] == t[i]);
        }
    } else {
        let d = t.drop_last();
        let q = insert_sorted(d, x);
        if i < q.len() {
            lemma_insert_members(d, x, i);
            assert(insert_sorted(t, x)[i] == q[i]);
            if q[i] != x {
                let j = choose|j: int| 0 <= j < d.len() && q[i] == #[trigger] d[j];
                assert(d[j] == t[j]);
            }
        } else {
            lemma_insert_members(d, x, 0);
            assert(insert_sorted(t, x)[i] == t[t.len() - 1]);
        }
    }
}

/// Every element of a sorted sequence is an element of the input.
pub proof fn lemma_sort_members<T: SortKey>(s: Seq<T>, i: int)
    requires
        0 <= i < sort_by_key(s).len(),
    ensures
        exists|k: int| 0 <= k < s.len() && sort_by_key(s)[i] == #[trigger] s[k],
    decreases s.len(),
{
    lemma_sort_sorted(s);
    let d = s.drop_last();
    lemma_sort_sorted(d);
    lemma_insert_members(sort_by_key(d), s.last(), i);
    let r = sort_by_key(s);
    if r[i] == s.last() {
        assert(s[s.len() - 1] == s.last());
    } else {
        let j = choose|j: int| 0 <= j < sort_by_key(d).len() && r[i] == #[trigger] sort_by_key(d)[j];
        lemma_sort_members(d, j);
        let k = choose|k: int| 0 <= k < d.len() && sort_by_key(d)[j] == #[trigger] d[k];
        assert(d[k] == s[k]);
    }
}

proof fn lemma_insert_permutation<T: SortKey>(t: Seq<T>, x: T)
    ensures
        insert_sorted(t, x).to_multiset() =~= t.to_multiset().insert(x),
    decreases t.len(),
{
    broadcast use vstd::seq_lib::group_to_multiset_ensures;

    if t.len() == 0 {
        assert(seq![x] =~= t.push(x));
    } else if t.last().key_le(&x) {
    } else {
        let d = t.drop_last();
        lemma_insert_permutation(d, x);
        assert(d.push(t.last()) =~= t);
    }
}

/// Sorting keeps every element, as often as it occurs.
pub proof fn lemma_sort_permutation<T: SortKey>(s: Seq<T>)
    ensures
        sort_by_key(s).to_multiset() =~= s.to_multiset(),
    decreases s.len(),
{
    broadcast use vstd::seq_lib::group_to_multiset_ensures;

    if s.len() > 0 {
        let d = s.drop_last();
        lemma_sort_permutation(d);
        lemma_insert_permutation(sort_by_key(d), s.last());
        assert(d.push(s.last()) =~= s);
    }
}

/// Sorts by key, stably.
pub fn stable_sort<T: SortKey + Copy>(v: &Vec<T>) -> (r: Vec<T>)
    ensures
        r@ == sort_by_key(v@),
{
    let mut res: Vec<T> = Vec::new();
    let mut i: usize = 0;
    while i < v.len()
        invariant
            i <= v@.len(),
            res@ == sort_by_key(v@.take(i as int)),
        decreases v@.len() - i,
    {
        let x = v[i];
        proof {
            lemma_sort_sorted(v@.take(i as int));
        }
        let mut j: usize = res.len();
        while j > 0 && !res[j - 1].le(&x)
            invariant
                j <= res@.len(),
                forall|k: int| j <= k < res@.len() ==> !#[trigger] res@[k].key_le(&x),
            decreases j,
        {
            j = j - 1;
        }
        proof {
            lemma_insert_at(res@, x, j as int);
        }
        res.insert(j, x);
        proof {
            assert(v@.take(i + 1).drop_last() =~= v@.take(i as int));
            assert(v@.take(i + 1).last() == x);
            assert(res@ =~= insert_sorted(sort_by_key(v@.take(i as int)), x));
        }
        i = i + 1;
    }
    assert(v@.take(i as int) =~= v@);
    res
}

} // verus!
