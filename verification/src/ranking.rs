//! Stable ordering of scored items, best score first.

use vstd::prelude::*;

verus! {

/// Inserts `x` into `s` behind every element whose score is at least
/// `x`'s score, scanning from the back.
pub open spec fn insert_by_score<T>(s: Seq<(i64, T)>, x: (i64, T)) -> Seq<(i64, T)>
    decreases s.len(),
{
    if s.len() == 0 {
        seq![x]
    } else if s.last().0 >= x.0 {
        s.push(x)
    } else {
        insert_by_score(s.drop_last(), x).push(s.last())
    }
}

/// The items ordered by descending score, items with equal scores keeping
/// their input order (what a stable sort by descending score yields).
pub open spec fn sort_by_score<T>(s: Seq<(i64, T)>) -> Seq<(i64, T)>
    decreases s.len(),
{
    if s.len() == 0 {
        Seq::empty()
    } else {
        insert_by_score(sort_by_score(s.drop_last()), s.last())
    }
}

/// Whether scores never increase along the sequence.
pub open spec fn scores_descending<T>(s: Seq<(i64, T)>) -> bool {
    forall|i: int, j: int| 0 <= i <= j < s.len() ==> s[i].0 >= s[j].0
}

proof fn lemma_insert_at<T>(s: Seq<(i64, T)>, x: (i64, T), j: int)
    requires
        0 <= j <= s.len(),
        forall|k: int| j <= k < s.len() ==> #[trigger] s[k].0 < x.0,
        j == 0 || s[j - 1].0 >= x.0,
    ensures
        insert_by_score(s, x) == s.insert(j, x),
    decreases s.len(),
{
    if s.len() == 0 {
        assert(s.insert(j, x) =~= seq![x]);
    } else if s.last().0 >= x.0 {
        assert(j == s.len());
        assert(s.insert(j, x) =~= s.push(x));
    } else {
        assert(j < s.len());
        lemma_insert_at(s.drop_last(), x, j);
        assert(s.drop_last().insert(j, x).push(s.last()) =~= s.insert(j, x));
    }
}

proof fn lemma_insert_keeps_order<T>(s: Seq<(i64, T)>, x: (i64, T), j: int)
    requires
        0 <= j <= s.len(),
        scores_descending(s),
        forall|k: int| j <= k < s.len() ==> #[trigger] s[k].0 < x.0,
        j == 0 || s[j - 1].0 >= x.0,
    ensures
        scores_descending(s.insert(j, x)),
{
    let t = s.insert(j, x);
    assert forall|a: int, b: int| 0 <= a <= b < t.len() implies t[a].0 >= t[b].0 by {
        if a < j && b < j {
        } else if a < j && b == j {
            assert(s[a].0 >= s[j - 1].0);
        } else if a < j && b > j {
            assert(t[b] == s[b - 1]);
        } else if a == j && b > j {
            assert(t[b] == s[b - 1]);
        } else if a > j {
            assert(t[a] == s[a - 1]);
            assert(t[b] == s[b - 1]);
        }
    }
}

proof fn lemma_insert_multiset<T>(s: Seq<(i64, T)>, x: (i64, T))
    ensures
        insert_by_score(s, x).len() == s.len() + 1,
        insert_by_score(s, x).to_multiset() == s.to_multiset().insert(x),
    decreases s.len(),
{
    broadcast use vstd::seq_lib::group_to_multiset_ensures;
    broadcast use vstd::multiset::group_multiset_axioms;

    if s.len() == 0 {
        assert(seq![x] =~= s.push(x));
    } else if s.last().0 >= x.0 {
    } else {
        let init = s.drop_last();
        lemma_insert_multiset(init, x);
        assert(init.push(s.last()) =~= s);
        assert(insert_by_score(s, x).to_multiset() =~= s.to_multiset().insert(x));
    }
}

/// Ordering by score keeps every item: the result holds the same items,
/// each as often as the input does.
pub proof fn lemma_sort_permutes<T>(s: Seq<(i64, T)>)
    ensures
        sort_by_score(s).len() == s.len(),
        sort_by_score(s).to_multiset() == s.to_multiset(),
    decreases s.len(),
{
    broadcast use vstd::seq_lib::group_to_multiset_ensures;

    if s.len() == 0 {
    } else {
        lemma_sort_permutes(s.drop_last());
        lemma_insert_multiset(sort_by_score(s.drop_last()), s.last());
        assert(s.drop_last().push(s.last()) =~= s);
    }
}

proof fn lemma_insert_lower<T>(s: Seq<(i64, T)>, x: (i64, T), lo: i64)
    requires
        forall|k: int| 0 <= k < s.len() ==> #[trigger] s[k].0 >= lo,
        x.0 >= lo,
    ensures
        forall|k: int| 0 <= k < insert_by_score(s, x).len() ==> #[trigger] insert_by_score(s, x)[k].0 >= lo,
    decreases s.len(),
{
    if s.len() == 0 {
        assert(insert_by_score(s, x) == seq![x]);
    } else if s.last().0 >= x.0 {
        let t = s.push(x);
        assert forall|k: int| 0 <= k < t.len() implies #[trigger] t[k].0 >= lo by {
            if k < s.len() {
                assert(t[k] == s[k]);
            }
        }
    } else {
        let init = s.drop_last();
        lemma_insert_lower(init, x, lo);
        let u = insert_by_score(init, x);
        let t = u.push(s.last());
        assert forall|k: int| 0 <= k < t.len() implies #[trigger] t[k].0 >= lo by {
            if k < u.len() {
                assert(t[k] == u[k]);
            } else {
                assert(t[k] == s[s.len() - 1]);
            }
        }
    }
}

proof fn lemma_insert_descending<T>(s: Seq<(i64, T)>, x: (i64, T))
    requires
        scores_descending(s),
    ensures
        scores_descending(insert_by_score(s, x)),
    decreases s.len(),
{
    if s.len() == 0 {
    } else if s.last().0 >= x.0 {
        let t = s.push(x);
        assert forall|i: int, j: int| 0 <= i <= j < t.len() implies t[i].0 >= t[j].0 by {
            if j == t.len() - 1 && i < j {
                assert(s[i].0 >= s[s.len() - 1].0);
            }
        }
    } else {
        let init = s.drop_last();
        lemma_insert_descending(init, x);
        lemma_insert_lower(init, x, s.last().0);
        let u = insert_by_score(init, x);
        let t = u.push(s.last());
        assert forall|i: int, j: int| 0 <= i <= j < t.len() implies t[i].0 >= t[j].0 by {
            if j == t.len() - 1 {
                if i < j {
                    assert(u[i].0 >= s.last().0);
                }
            } else {
                assert(t[i] == u[i] && t[j] == u[j]);
            }
        }
    }
}

/// Ordering by score puts the scores in descending order.
pub proof fn lemma_sort_descending<T>(s: Seq<(i64, T)>)
    ensures
        scores_descending(sort_by_score(s)),
    decreases s.len(),
{
    if s.len() > 0 {
        lemma_sort_descending(s.drop_last());
        lemma_insert_descending(sort_by_score(s.drop_last()), s.last());
    }
}

/// Every item of the ordered sequence is an item of the input.
pub proof fn lemma_sort_member<T>(s: Seq<(i64, T)>, k: int)
    requires
        0 <= k < sort_by_score(s).len(),
    ensures
        s.contains(sort_by_score(s)[k]),
{
    broadcast use vstd::seq_lib::group_to_multiset_ensures;

    lemma_sort_permutes(s);
    let x = sort_by_score(s)[k];
    assert(sort_by_score(s).contains(x));
    assert(sort_by_score(s).to_multiset().count(x) > 0);
    assert(s.to_multiset().count(x) > 0);
}

/// Orders scored items by descending score, keeping the input order of
/// items with equal scores.
pub fn sort_by_score_desc<T>(items: Vec<(i64, T)>) -> (r: Vec<(i64, T)>)
    ensures
        r@ == sort_by_score(items@),
        scores_descending(r@),
{
    let ghost input = items@;
    let mut rest = items;
    let mut out: Vec<(i64, T)> = Vec::new();
    // Items are taken from the back; record them to rebuild the input order.
    let mut taken: Vec<(i64, T)> = Vec::new();
    while rest.len() > 0
        invariant
            rest@ + taken@.reverse() == input,
        decreases rest@.len(),
    {
        let x = rest.pop().unwrap();
        taken.push(x);
        proof {
            assert(rest@ + taken@.reverse() =~= input);
        }
    }
    assert(taken@.reverse() =~= input);
    let n = taken.len();
    let ghost taken0 = taken@;
    let mut i: usize = 0;
    while i < n
        invariant
            n == taken0.len(),
            i <= n,
            taken@ == taken0.subrange(0, n - i),
            taken0.reverse() == input,
            out@ == sort_by_score(input.subrange(0, i as int)),
            scores_descending(out@),
        decreases n - i,
    {
        let x = taken.pop().unwrap();
        proof {
            assert(x == input[i as int]);
            assert(input.subrange(0, i + 1).drop_last() =~= input.subrange(0, i as int));
            assert(input.subrange(0, i + 1).last() == x);
        }
        let mut j = out.len();
        while j > 0 && out[j - 1].0 < x.0
            invariant
                j <= out@.len(),
                forall|k: int| j <= k < out@.len() ==> #[trigger] out@[k].0 < x.0,
            decreases j,
        {
            j = j - 1;
        }
        proof {
            lemma_insert_at(out@, x, j as int);
            lemma_insert_keeps_order(out@, x, j as int);
        }
        out.insert(j, x);
        i = i + 1;
        proof {
            assert(taken@ =~= taken0.subrange(0, n - i));
        }
    }
    assert(input.subrange(0, n as int) =~= input);
    out
}

} // verus!

verus! {

/// Applies `f` to the item of every scored pair.
pub open spec fn map_items<T, U>(s: Seq<(i64, T)>, f: spec_fn(T) -> U) -> Seq<(i64, U)> {
    s.map_values(|p: (i64, T)| (p.0, f(p.1)))
}

/// The items of scored pairs, without their scores.
pub open spec fn items_of<T>(s: Seq<(i64, T)>) -> Seq<T> {
    s.map_values(|p: (i64, T)| p.1)
}

proof fn lemma_insert_map<T, U>(s: Seq<(i64, T)>, x: (i64, T), f: spec_fn(T) -> U)
    ensures
        map_items(insert_by_score(s, x), f) == insert_by_score(map_items(s, f), (x.0, f(x.1))),
    decreases s.len(),
{
    if s.len() == 0 {
        assert(map_items(seq![x], f) =~= seq![(x.0, f(x.1))]);
    } else if s.last().0 >= x.0 {
        assert(map_items(s.push(x), f) =~= map_items(s, f).push((x.0, f(x.1))));
    } else {
        lemma_insert_map(s.drop_last(), x, f);
        assert(map_items(s, f).drop_last() =~= map_items(s.drop_last(), f));
        assert(map_items(insert_by_score(s.drop_last(), x).push(s.last()), f)
            =~= map_items(insert_by_score(s.drop_last(), x), f).push((s.last().0, f(s.last().1))));
    }
}

/// Ordering by score commutes with changing the items.
pub proof fn lemma_sort_map<T, U>(s: Seq<(i64, T)>, f: spec_fn(T) -> U)
    ensures
        map_items(sort_by_score(s), f) == sort_by_score(map_items(s, f)),
    decreases s.len(),
{
    if s.len() == 0 {
        assert(map_items(Seq::<(i64, T)>::empty(), f) =~= Seq::<(i64, U)>::empty());
    } else {
        lemma_sort_map(s.drop_last(), f);
        lemma_insert_map(sort_by_score(s.drop_last()), s.last(), f);
        assert(map_items(s, f).drop_last() =~= map_items(s.drop_last(), f));
    }
}

/// The items of scored pairs, in order.
pub fn strip_scores<T>(v: Vec<(i64, T)>) -> (r: Vec<T>)
    ensures
        r@ == items_of(v@),
{
    let ghost orig = v@;
    let mut rest = v;
    let mut rev: Vec<T> = Vec::new();
    while rest.len() > 0
        invariant
            items_of(rest@) + rev@.reverse() == items_of(orig),
        decreases rest@.len(),
    {
        let x = rest.pop().unwrap();
        proof {
            assert(items_of(rest@.push(x)) =~= items_of(rest@).push(x.1));
        }
        rev.push(x.1);
        assert(items_of(rest@) + rev@.reverse() =~= items_of(orig));
    }
    assert(items_of(rest@) =~= Seq::<T>::empty());
    let mut r: Vec<T> = Vec::new();
    let ghost target = rev@.reverse();
    while rev.len() > 0
        invariant
            r@ + rev@.reverse() == target,
        decreases rev@.len(),
    {
        let x = rev.pop().unwrap();
        r.push(x);
        assert(r@ + rev@.reverse() =~= target);
    }
    assert(r@ =~= target);
    r
}

} // verus!
