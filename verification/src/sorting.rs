//! Stable ordering of sequences by a precedence relation.
use vstd::prelude::*;

verus! {

/// `s` with `x` placed in front of the first element that `x` strictly precedes.
pub open spec fn insert_by<T>(s: Seq<T>, x: T, prec: spec_fn(T, T) -> bool) -> Seq<T>
    decreases s.len(),
{
    if s.len() == 0 {
        seq![x]
    } else if prec(x, s[0]) {
        seq![x] + s
    } else {
        seq![s[0]] + insert_by(s.drop_first(), x, prec)
    }
}

/// Stable sort: elements are inserted in their original order, each one in front of the
/// first already placed element that it strictly precedes.
pub open spec fn sort_by<T>(s: Seq<T>, prec: spec_fn(T, T) -> bool) -> Seq<T>
    decreases s.len(),
{
    if s.len() == 0 {
        seq![]
    } else {
        insert_by(sort_by(s.drop_last(), prec), s.last(), prec)
    }
}

proof fn lemma_insert_by_at<T>(s: Seq<T>, x: T, prec: spec_fn(T, T) -> bool, p: int)
    requires
        0 <= p <= s.len(),
        forall|k: int| 0 <= k < p ==> !prec(x, #[trigger] s[k]),
        p == s.len() || prec(x, s[p]),
    ensures
        insert_by(s, x, prec) == s.insert(p, x),
    decreases s.len(),
{
    if s.len() == 0 {
        assert(s.insert(p, x) =~= seq![x]);
    } else if p == 0 {
        assert(s.insert(p, x) =~= seq![x] + s);
    } else {
        let t = s.drop_first();
        assert forall|k: int| 0 <= k < p - 1 implies !prec(x, #[trigger] t[k]) by {
            assert(t[k] == s[k + 1]);
        }
        if p < s.len() {
            assert(t[p - 1] == s[p]);
        }
        lemma_insert_by_at(t, x, prec, p - 1);
        assert(seq![s[0]] + t.insert(p - 1, x) =~= s.insert(p, x));
    }
}

/// Sorts `v` stably: `prec_exec(a, b)` tells whether `a` must come before `b`.
pub fn sort_vec_by<T, F: Fn(&T, &T) -> bool>(
    v: Vec<T>,
    prec_exec: &F,
    Ghost(prec): Ghost<spec_fn(T, T) -> bool>,
) -> (r: Vec<T>)
    requires
        forall|a: &T, b: &T| #[trigger] prec_exec.requires((a, b)),
        forall|a: &T, b: &T, res: bool| prec_exec.ensures((a, b), res) ==> res == prec(*a, *b),
    ensures
        r@ == sort_by(v@, prec),
{
    let ghost orig = v@;
    let mut rest = v;
    let mut res: Vec<T> = Vec::new();
    let n: usize = rest.len();
    let mut i: usize = 0;
    while i < n
        invariant
            n == orig.len(),
            i <= n,
            rest@ == orig.subrange(i as int, n as int),
            res@ == sort_by(orig.take(i as int), prec),
            forall|a: &T, b: &T| #[trigger] prec_exec.requires((a, b)),
            forall|a: &T, b: &T, r: bool| prec_exec.ensures((a, b), r) ==> r == prec(*a, *b),
        decreases n - i,
    {
        let x = rest.remove(0);
        let mut p: usize = 0;
        while p < res.len() && !prec_exec(&x, &res[p])
            invariant
                p <= res.len(),
                forall|k: int| 0 <= k < p ==> !prec(x, #[trigger] res@[k]),
                forall|a: &T, b: &T| #[trigger] prec_exec.requires((a, b)),
                forall|a: &T, b: &T, r: bool| prec_exec.ensures((a, b), r) ==> r == prec(*a, *b),
            decreases res.len() - p,
        {
            p = p + 1;
        }
        proof {
            lemma_insert_by_at(res@, x, prec, p as int);
            assert(orig.take(i + 1).drop_last() =~= orig.take(i as int));
            assert(orig.take(i + 1).last() == x);
        }
        res.insert(p, x);
        i = i + 1;
    }
    assert(orig.take(n as int) =~= orig);
    res
}

/// Filtering a sequence extended by one element.
pub proof fn lemma_filter_push<T>(s: Seq<T>, pred: spec_fn(T) -> bool, e: T)
    ensures
        s.push(e).filter(pred) == (if pred(e) {
            s.filter(pred).push(e)
        } else {
            s.filter(pred)
        }),
{
    reveal(Seq::filter);
    assert(s.push(e).drop_last() =~= s);
}

/// Filtering the first `i + 1` elements of a sequence.
pub proof fn lemma_filter_take_next<T>(s: Seq<T>, pred: spec_fn(T) -> bool, i: int)
    requires
        0 <= i < s.len(),
    ensures
        s.take(i + 1).filter(pred) == (if pred(s[i]) {
            s.take(i).filter(pred).push(s[i])
        } else {
            s.take(i).filter(pred)
        }),
        pred(s[i]) ==> s.filter(pred).contains(s[i]),
{
    assert(s.take(i + 1) =~= s.take(i).push(s[i]));
    lemma_filter_push(s.take(i), pred, s[i]);
    if pred(s[i]) {
        s.lemma_filter_contains(pred, i);
    }
}

/// Inserting adds one element.
pub proof fn lemma_insert_by_len<T>(s: Seq<T>, x: T, prec: spec_fn(T, T) -> bool)
    ensures
        insert_by(s, x, prec).len() == s.len() + 1,
    decreases s.len(),
{
    if s.len() > 0 && !prec(x, s[0]) {
        lemma_insert_by_len(s.drop_first(), x, prec);
    }
}

/// Sorting keeps the length.
pub proof fn lemma_sort_by_len<T>(s: Seq<T>, prec: spec_fn(T, T) -> bool)
    ensures
        sort_by(s, prec).len() == s.len(),
    decreases s.len(),
{
    if s.len() > 0 {
        lemma_sort_by_len(s.drop_last(), prec);
        lemma_insert_by_len(sort_by(s.drop_last(), prec), s.last(), prec);
    }
}

proof fn lemma_insert_by_multiset<T>(s: Seq<T>, x: T, prec: spec_fn(T, T) -> bool)
    ensures
        insert_by(s, x, prec).to_multiset() == s.to_multiset().insert(x),
    decreases s.len(),
{
    broadcast use vstd::seq_lib::group_to_multiset_ensures;
    if s.len() == 0 {
        assert(seq![x] =~= Seq::<T>::empty().push(x));
    } else if prec(x, s[0]) {
        assert(seq![x] + s =~= s.insert(0, x));
        vstd::seq_lib::to_multiset_insert(s, 0, x);
    } else {
        let t = s.drop_first();
        lemma_insert_by_multiset(t, x, prec);
        let r = insert_by(t, x, prec);
        assert(seq![s[0]] + r =~= r.insert(0, s[0]));
        vstd::seq_lib::to_multiset_insert(r, 0, s[0]);
        assert(s =~= t.insert(0, s[0]));
        vstd::seq_lib::to_multiset_insert(t, 0, s[0]);
    }
}

/// Whether no element of a sequence strictly precedes an earlier one.
pub open spec fn in_order<T>(s: Seq<T>, prec: spec_fn(T, T) -> bool) -> bool {
    forall|i: int, j: int| 0 <= i < j < s.len() ==> !prec(s[j], s[i])
}

/// Whether `prec` is a strict order: irreflexive and transitive.
pub open spec fn strict_order<T>(prec: spec_fn(T, T) -> bool) -> bool {
    &&& forall|a: T| !#[trigger] prec(a, a)
    &&& forall|a: T, b: T, c: T| #[trigger] prec(a, b) && #[trigger] prec(b, c) ==> prec(a, c)
}

proof fn lemma_insert_by_in_order<T>(s: Seq<T>, x: T, prec: spec_fn(T, T) -> bool)
    requires
        strict_order(prec),
        in_order(s, prec),
    ensures
        in_order(insert_by(s, x, prec), prec),
    decreases s.len(),
{
    if s.len() == 0 {
    } else if prec(x, s[0]) {
        let r = seq![x] + s;
        assert forall|i: int, j: int| 0 <= i < j < r.len() implies !prec(r[j], r[i]) by {
            if i == 0 {
                assert(r[j] == s[j - 1]);
                if prec(s[j - 1], x) {
                    assert(prec(s[j - 1], s[0]));
                }
            } else {
                assert(r[i] == s[i - 1] && r[j] == s[j - 1]);
            }
        }
    } else {
        let t = s.drop_first();
        assert(in_order(t, prec)) by {
            assert forall|i: int, j: int| 0 <= i < j < t.len() implies !prec(t[j], t[i]) by {
                assert(t[i] == s[i + 1] && t[j] == s[j + 1]);
            }
        }
        lemma_insert_by_in_order(t, x, prec);
        let it = insert_by(t, x, prec);
        lemma_insert_by_multiset(t, x, prec);
        let r = seq![s[0]] + it;
        assert forall|i: int, j: int| 0 <= i < j < r.len() implies !prec(r[j], r[i]) by {
            if i == 0 {
                assert(r[j] == it[j - 1]);
                assert(it.to_multiset().count(it[j - 1]) > 0) by {
                    broadcast use vstd::seq_lib::group_to_multiset_ensures;
                    assert(it.contains(it[j - 1]));
                }
                broadcast use vstd::seq_lib::group_to_multiset_ensures;
                if it[j - 1] == x {
                } else {
                    assert(t.to_multiset().count(it[j - 1]) > 0);
                    assert(t.contains(it[j - 1]));
                    let k = choose|k: int| 0 <= k < t.len() && t[k] == it[j - 1];
                    assert(s[k + 1] == t[k]);
                }
            } else {
                assert(r[i] == it[i - 1] && r[j] == it[j - 1]);
            }
        }
    }
}

/// Stable sorting by a strict order rearranges the sequence, and no element of the
/// result strictly precedes an earlier one.
pub proof fn law_sort_by_sorted_permutation<T>(s: Seq<T>, prec: spec_fn(T, T) -> bool)
    requires
        strict_order(prec),
    ensures
        sort_by(s, prec).to_multiset() == s.to_multiset(),
        in_order(sort_by(s, prec), prec),
    decreases s.len(),
{
    broadcast use vstd::seq_lib::group_to_multiset_ensures;
    if s.len() > 0 {
        law_sort_by_sorted_permutation(s.drop_last(), prec);
        lemma_insert_by_multiset(sort_by(s.drop_last(), prec), s.last(), prec);
        lemma_insert_by_in_order(sort_by(s.drop_last(), prec), s.last(), prec);
        assert(s =~= s.drop_last().push(s.last()));
    }
}


/// Whether no two elements of a sequence share a key.
pub open spec fn keys_distinct<T, K>(s: Seq<T>, key: spec_fn(T) -> K) -> bool {
    forall|i: int, j: int| 0 <= i < j < s.len() ==> key(s[i]) != key(s[j])
}

proof fn lemma_contains_at<T>(s: Seq<T>, y: T) -> (k: int)
    requires
        s.contains(y),
    ensures
        0 <= k < s.len(),
        s[k] == y,
{
    choose|k: int| 0 <= k < s.len() && s[k] == y
}

proof fn lemma_insert_by_keys<T, K>(s: Seq<T>, x: T, prec: spec_fn(T, T) -> bool, key: spec_fn(T) -> K)
    requires
        keys_distinct(s, key),
        forall|k: int| 0 <= k < s.len() ==> key(#[trigger] s[k]) != key(x),
    ensures
        keys_distinct(insert_by(s, x, prec), key),
        forall|y: T| #[trigger] insert_by(s, x, prec).contains(y) <==> (s.contains(y) || y == x),
    decreases s.len(),
{
    let r = insert_by(s, x, prec);
    if s.len() == 0 {
        assert(r == seq![x]);
        assert forall|y: T| #[trigger] r.contains(y) <==> (s.contains(y) || y == x) by {
            if r.contains(y) {
                let k = lemma_contains_at(r, y);
            }
            if y == x {
                assert(r[0] == x);
            }
        }
    } else if prec(x, s[0]) {
        assert(r == seq![x] + s);
        assert forall|i: int, j: int| 0 <= i < j < r.len() implies key(r[i]) != key(r[j]) by {
            assert(r[j] == s[j - 1]);
            if i > 0 {
                assert(r[i] == s[i - 1]);
            }
        }
        assert forall|y: T| #[trigger] r.contains(y) <==> (s.contains(y) || y == x) by {
            if r.contains(y) {
                let k = lemma_contains_at(r, y);
                if k > 0 {
                    assert(s[k - 1] == y);
                }
            }
            if s.contains(y) {
                let k = lemma_contains_at(s, y);
                assert(r[k + 1] == y);
            }
            if y == x {
                assert(r[0] == x);
            }
        }
    } else {
        let t = s.drop_first();
        assert forall|i: int, j: int| 0 <= i < j < t.len() implies key(t[i]) != key(t[j]) by {
            assert(t[i] == s[i + 1] && t[j] == s[j + 1]);
        }
        assert forall|k: int| 0 <= k < t.len() implies key(#[trigger] t[k]) != key(x) by {
            assert(t[k] == s[k + 1]);
        }
        lemma_insert_by_keys(t, x, prec, key);
        let q = insert_by(t, x, prec);
        assert(r == seq![s[0]] + q);
        assert forall|j: int| 0 <= j < q.len() implies key(s[0]) != key(#[trigger] q[j]) by {
            assert(q.contains(q[j]));
            if t.contains(q[j]) {
                let k = lemma_contains_at(t, q[j]);
                assert(t[k] == s[k + 1]);
            }
        }
        assert forall|i: int, j: int| 0 <= i < j < r.len() implies key(r[i]) != key(r[j]) by {
            assert(r[j] == q[j - 1]);
            if i > 0 {
                assert(r[i] == q[i - 1]);
            }
        }
        assert forall|y: T| #[trigger] r.contains(y) <==> (s.contains(y) || y == x) by {
            if r.contains(y) {
                let k = lemma_contains_at(r, y);
                if k > 0 {
                    assert(q[k - 1] == y);
                    assert(q.contains(y));
                    if t.contains(y) {
                        let m = lemma_contains_at(t, y);
                        assert(s[m + 1] == y);
                    }
                } else {
                    assert(s[0] == y);
                }
            }
            if s.contains(y) {
                let k = lemma_contains_at(s, y);
                if k == 0 {
                    assert(r[0] == y);
                } else {
                    assert(t[k - 1] == y);
                    assert(t.contains(y));
                    let m = lemma_contains_at(q, y);
                    assert(r[m + 1] == y);
                }
            }
            if y == x {
                assert(q.contains(x));
                let m = lemma_contains_at(q, x);
                assert(r[m + 1] == x);
            }
        }
    }
}

/// Stable sorting keeps the elements, and keys that no two elements share stay unshared.
pub proof fn lemma_sort_by_keys<T, K>(s: Seq<T>, prec: spec_fn(T, T) -> bool, key: spec_fn(T) -> K)
    requires
        keys_distinct(s, key),
    ensures
        keys_distinct(sort_by(s, prec), key),
        forall|y: T| #[trigger] sort_by(s, prec).contains(y) <==> s.contains(y),
    decreases s.len(),
{
    if s.len() > 0 {
        let d = s.drop_last();
        assert forall|i: int, j: int| 0 <= i < j < d.len() implies key(d[i]) != key(d[j]) by {
            assert(d[i] == s[i] && d[j] == s[j]);
        }
        lemma_sort_by_keys(d, prec, key);
        let sd = sort_by(d, prec);
        assert forall|k: int| 0 <= k < sd.len() implies key(#[trigger] sd[k]) != key(s.last()) by {
            assert(sd.contains(sd[k]));
            let m = lemma_contains_at(d, sd[k]);
            assert(d[m] == s[m]);
            assert(s.last() == s[s.len() - 1]);
        }
        lemma_insert_by_keys(sd, s.last(), prec, key);
        assert forall|y: T| #[trigger] sort_by(s, prec).contains(y) <==> s.contains(y) by {
            if d.contains(y) {
                let m = lemma_contains_at(d, y);
                assert(s[m] == y);
            }
            if s.contains(y) {
                let m = lemma_contains_at(s, y);
                if m < s.len() - 1 {
                    assert(d[m] == y);
                }
            }
        }
    }
}

/// Filtering keeps keys that no two elements share unshared.
pub proof fn lemma_filter_keys<T, K>(s: Seq<T>, pred: spec_fn(T) -> bool, key: spec_fn(T) -> K)
    requires
        keys_distinct(s, key),
    ensures
        keys_distinct(s.filter(pred), key),
    decreases s.len(),
{
    broadcast use vstd::seq_lib::group_filter_ensures;
    if s.len() > 0 {
        let d = s.drop_last();
        assert forall|i: int, j: int| 0 <= i < j < d.len() implies key(d[i]) != key(d[j]) by {
            assert(d[i] == s[i] && d[j] == s[j]);
        }
        lemma_filter_keys(d, pred, key);
        assert(d.push(s.last()) =~= s);
        lemma_filter_push(d, pred, s.last());
        let f = d.filter(pred);
        if pred(s.last()) {
            assert forall|i: int| 0 <= i < f.len() implies key(#[trigger] f[i]) != key(s.last()) by {
                assert(f.contains(f[i]));
                d.lemma_filter_contains_rev(pred, f[i]);
                let m = lemma_contains_at(d, f[i]);
                assert(d[m] == s[m]);
                assert(s.last() == s[s.len() - 1]);
            }
            let g = f.push(s.last());
            assert forall|i: int, j: int| 0 <= i < j < g.len() implies key(g[i]) != key(g[j]) by {
                assert(g[i] == f[i]);
                if j < f.len() {
                    assert(g[j] == f[j]);
                }
            }
        }
    }
}

} // verus!
