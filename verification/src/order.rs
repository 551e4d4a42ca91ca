//! Text order and sorting: the lexicographic order of strings by character
//! (which is the order `str`'s `Ord` gives, since UTF-8 preserves code-point
//! order), and a stable insertion sort into that order.

use vstd::prelude::*;
use crate::text::{chars_of, views};


verus! {

/// Lexicographic comparison by code point: -1, 0 or 1.
pub open spec fn lex_order(a: Seq<char>, b: Seq<char>) -> int
    decreases a.len(),
{
    if a.len() == 0 {
        if b.len() == 0 {
            0
        } else {
            -1
        }
    } else if b.len() == 0 {
        1
    } else if a[0] < b[0] {
        -1
    } else if a[0] > b[0] {
        1
    } else {
        lex_order(a.drop_first(), b.drop_first())
    }
}

pub open spec fn lex_le(a: Seq<char>, b: Seq<char>) -> bool {
    lex_order(a, b) <= 0
}

pub proof fn lemma_lex_antisym(a: Seq<char>, b: Seq<char>)
    ensures
        lex_order(a, b) == -lex_order(b, a),
        lex_order(a, b) == 0 <==> a == b,
        -1 <= lex_order(a, b) <= 1,
    decreases a.len(),
{
    if a.len() > 0 && b.len() > 0 && a[0] == b[0] {
        lemma_lex_antisym(a.drop_first(), b.drop_first());
        if a.drop_first() == b.drop_first() {
            assert(a =~= seq![a[0]] + a.drop_first());
            assert(b =~= seq![b[0]] + b.drop_first());
        }
    }
    if a.len() == 0 && b.len() == 0 {
        assert(a =~= b);
    }
}

pub proof fn lemma_lex_le_trans(a: Seq<char>, b: Seq<char>, c: Seq<char>)
    requires
        lex_le(a, b),
        lex_le(b, c),
    ensures
        lex_le(a, c),
    decreases a.len(),
{
    if a.len() > 0 && b.len() > 0 && c.len() > 0 && a[0] == b[0] && b[0] == c[0] {
        lemma_lex_le_trans(a.drop_first(), b.drop_first(), c.drop_first());
    }
}

/// Compares two strings character by character: -1, 0 or 1.
pub fn compare_str(a: &str, b: &str) -> (r: i8)
    ensures
        r as int == lex_order(a@, b@),
{
    let x = chars_of(a);
    let y = chars_of(b);
    let mut i: usize = 0;
    assert(x@.subrange(0, x@.len() as int) =~= x@);
    assert(y@.subrange(0, y@.len() as int) =~= y@);
    while i < x.len() && i < y.len() && x[i] == y[i]
        invariant
            x@ == a@,
            y@ == b@,
            i <= x@.len(),
            i <= y@.len(),
            lex_order(x@, y@) == lex_order(
                x@.subrange(i as int, x@.len() as int),
                y@.subrange(i as int, y@.len() as int),
            ),
        decreases x@.len() - i,
    {
        proof {
            let xs = x@.subrange(i as int, x@.len() as int);
            let ys = y@.subrange(i as int, y@.len() as int);
            assert(xs.drop_first() =~= x@.subrange(i + 1, x@.len() as int));
            assert(ys.drop_first() =~= y@.subrange(i + 1, y@.len() as int));
        }
        i = i + 1;
    }
    proof {
        let xs = x@.subrange(i as int, x@.len() as int);
        let ys = y@.subrange(i as int, y@.len() as int);
        if i < x@.len() {
            assert(xs[0] == x@[i as int]);
        }
        if i < y@.len() {
            assert(ys[0] == y@[i as int]);
        }
    }
    let xs_len = x.len();
    let ys_len = y.len();
    if i == xs_len {
        if i == ys_len {
            0
        } else {
            -1
        }
    } else if i == ys_len {
        1
    } else if x[i] < y[i] {
        -1
    } else {
        1
    }
}

/// Whether `s` is in non-decreasing lexicographic order.
pub open spec fn sorted_views(s: Seq<Seq<char>>) -> bool {
    forall|i: int, j: int| 0 <= i <= j < s.len() ==> lex_le(#[trigger] s[i], #[trigger] s[j])
}

/// `x` placed into the sorted `s` after every element that does not come
/// after it (so equal strings keep their order of arrival).
pub open spec fn insert_sorted(s: Seq<Seq<char>>, x: Seq<char>) -> Seq<Seq<char>>
    decreases s.len(),
{
    if s.len() == 0 {
        seq![x]
    } else if lex_order(x, s.last()) < 0 {
        insert_sorted(s.drop_last(), x).push(s.last())
    } else {
        s.push(x)
    }
}

/// The stable sort of `s` into lexicographic order.
pub open spec fn sort_spec(s: Seq<Seq<char>>) -> Seq<Seq<char>>
    decreases s.len(),
{
    if s.len() == 0 {
        s
    } else {
        insert_sorted(sort_spec(s.drop_last()), s.last())
    }
}

proof fn lemma_insert_sorted_len(s: Seq<Seq<char>>, x: Seq<char>)
    ensures
        insert_sorted(s, x).len() == s.len() + 1,
    decreases s.len(),
{
    if s.len() > 0 && lex_order(x, s.last()) < 0 {
        lemma_insert_sorted_len(s.drop_last(), x);
    }
}

/// Sorting keeps the length.
pub proof fn lemma_sort_len(s: Seq<Seq<char>>)
    ensures
        sort_spec(s).len() == s.len(),
    decreases s.len(),
{
    if s.len() > 0 {
        lemma_sort_len(s.drop_last());
        lemma_insert_sorted_len(sort_spec(s.drop_last()), s.last());
    }
}

proof fn lemma_insert_sorted_contents(s: Seq<Seq<char>>, x: Seq<char>)
    ensures
        insert_sorted(s, x).to_multiset() == s.to_multiset().insert(x),
        forall|y: Seq<char>| insert_sorted(s, x).contains(y) ==> y == x || s.contains(y),
    decreases s.len(),
{
    broadcast use vstd::seq_lib::group_to_multiset_ensures;

    if s.len() == 0 {
        assert(insert_sorted(s, x) =~= seq![x]);
        assert(seq![x] =~= Seq::<Seq<char>>::empty().push(x));
    } else if lex_order(x, s.last()) < 0 {
        lemma_insert_sorted_contents(s.drop_last(), x);
        assert(s =~= s.drop_last().push(s.last()));
        assert forall|y: Seq<char>| insert_sorted(s, x).contains(y) implies y == x || s.contains(y) by {
            let t = insert_sorted(s.drop_last(), x);
            if t.contains(y) {
                if y != x {
                    assert(s.drop_last().contains(y));
                    let k = choose|k: int| 0 <= k < s.drop_last().len() && s.drop_last()[k] == y;
                    assert(s[k] == y);
                }
            } else {
                let k = choose|k: int| 0 <= k < t.push(s.last()).len() && t.push(s.last())[k] == y;
                assert(k == t.len());
                assert(s[s.len() - 1] == y);
            }
        }
    } else {
        assert forall|y: Seq<char>| insert_sorted(s, x).contains(y) implies y == x || s.contains(y) by {
            let k = choose|k: int| 0 <= k < s.push(x).len() && s.push(x)[k] == y;
            if k < s.len() {
                assert(s[k] == y);
            }
        }
    }
}

proof fn lemma_insert_sorted_sorted(s: Seq<Seq<char>>, x: Seq<char>)
    requires
        sorted_views(s),
    ensures
        sorted_views(insert_sorted(s, x)),
    decreases s.len(),
{
    if s.len() == 0 {
        assert(insert_sorted(s, x) =~= seq![x]);
        lemma_lex_antisym(x, x);
    } else if lex_order(x, s.last()) < 0 {
        let t = insert_sorted(s.drop_last(), x);
        lemma_insert_sorted_sorted(s.drop_last(), x);
        lemma_insert_sorted_contents(s.drop_last(), x);
        let r = t.push(s.last());
        assert forall|i: int, j: int| 0 <= i <= j < r.len() implies lex_le(#[trigger] r[i], #[trigger] r[j]) by {
            if j == r.len() - 1 {
                if i == j {
                    lemma_lex_antisym(s.last(), s.last());
                } else {
                    assert(t.contains(r[i]));
                    if r[i] == x {
                        lemma_lex_antisym(x, s.last());
                    } else {
                        assert(s.drop_last().contains(r[i]));
                        let k = choose|k: int| 0 <= k < s.drop_last().len() && s.drop_last()[k] == r[i];
                        assert(s[k] == r[i]);
                        assert(lex_le(s[k], s[s.len() - 1]));
                    }
                }
            } else {
                assert(r[i] == t[i] && r[j] == t[j]);
            }
        }
    } else {
        let r = s.push(x);
        lemma_lex_antisym(x, s.last());
        assert forall|i: int, j: int| 0 <= i <= j < r.len() implies lex_le(#[trigger] r[i], #[trigger] r[j]) by {
            if j == s.len() {
                if i == j {
                    lemma_lex_antisym(x, x);
                } else {
                    assert(lex_le(s[i], s[s.len() - 1]));
                    lemma_lex_le_trans(s[i], s.last(), x);
                }
            } else {
                assert(r[i] == s[i] && r[j] == s[j]);
            }
        }
    }
}

/// Sorting puts the strings in lexicographic order and keeps every one of
/// them, each as often as it occurred.
pub proof fn sorting_orders_and_keeps_every_string(s: Seq<Seq<char>>)
    ensures
        sorted_views(sort_spec(s)),
        sort_spec(s).to_multiset() == s.to_multiset(),
    decreases s.len(),
{
    broadcast use vstd::seq_lib::group_to_multiset_ensures;

    if s.len() > 0 {
        sorting_orders_and_keeps_every_string(s.drop_last());
        lemma_insert_sorted_sorted(sort_spec(s.drop_last()), s.last());
        lemma_insert_sorted_contents(sort_spec(s.drop_last()), s.last());
        assert(s =~= s.drop_last().push(s.last()));
    } else {
        assert(sort_spec(s) =~= s);
    }
}

proof fn lemma_sorted_unique(s: Seq<Seq<char>>, t: Seq<Seq<char>>)
    requires
        sorted_views(s),
        sorted_views(t),
        s.to_multiset() == t.to_multiset(),
    ensures
        s == t,
    decreases s.len(),
{
    vstd::seq_lib::to_multiset_len(s);
    vstd::seq_lib::to_multiset_len(t);
    if s.len() == 0 {
        assert(s =~= t);
    } else {
        let (a, b) = (s[0], t[0]);
        vstd::seq_lib::to_multiset_contains(t, a);
        vstd::seq_lib::to_multiset_contains(s, a);
        vstd::seq_lib::to_multiset_contains(t, b);
        vstd::seq_lib::to_multiset_contains(s, b);
        assert(t.contains(t[0]));
        assert(s.contains(s[0]));
        assert(s.contains(b));
        assert(t.contains(a));
        let k = choose|k: int| 0 <= k < s.len() && s[k] == b;
        let m = choose|m: int| 0 <= m < t.len() && t[m] == a;
        assert(lex_le(s[0], s[k]));
        assert(lex_le(t[0], t[m]));
        lemma_lex_antisym(a, b);
        vstd::seq_lib::to_multiset_remove(s, 0);
        vstd::seq_lib::to_multiset_remove(t, 0);
        assert(s.remove(0) =~= s.drop_first());
        assert(t.remove(0) =~= t.drop_first());
        let (s1, t1) = (s.drop_first(), t.drop_first());
        assert forall|i: int, j: int| 0 <= i <= j < s1.len() implies lex_le(#[trigger] s1[i], #[trigger] s1[j]) by {
            assert(s1[i] == s[i + 1] && s1[j] == s[j + 1]);
        }
        assert forall|i: int, j: int| 0 <= i <= j < t1.len() implies lex_le(#[trigger] t1[i], #[trigger] t1[j]) by {
            assert(t1[i] == t[i + 1] && t1[j] == t[j + 1]);
        }
        lemma_sorted_unique(s1, t1);
        assert(a == b);
        assert forall|i: int| 0 <= i < s.len() implies s[i] == t[i] by {
            if i > 0 {
                assert(s[i] == s1[i - 1] && t[i] == t1[i - 1]);
            }
        }
        assert(s =~= t);
    }
}

/// Sorting does not depend on the order the strings came in: two lists that
/// hold the same strings, each as often, sort to the same list.
pub proof fn sorting_ignores_the_order_of_arrival(a: Seq<Seq<char>>, b: Seq<Seq<char>>)
    requires
        a.to_multiset() == b.to_multiset(),
    ensures
        sort_spec(a) == sort_spec(b),
{
    sorting_orders_and_keeps_every_string(a);
    sorting_orders_and_keeps_every_string(b);
    lemma_sorted_unique(sort_spec(a), sort_spec(b));
}

proof fn lemma_insert_sorted_at(s: Seq<Seq<char>>, x: Seq<char>, j: int)
    requires
        0 <= j <= s.len(),
        forall|k: int| j <= k < s.len() ==> lex_order(x, #[trigger] s[k]) < 0,
        j > 0 ==> lex_order(x, s[j - 1]) >= 0,
    ensures
        insert_sorted(s, x) == s.insert(j, x),
    decreases s.len(),
{
    if s.len() == 0 {
        assert(s.insert(j, x) =~= seq![x]);
    } else if j == s.len() {
        assert(s.insert(j, x) =~= s.push(x));
    } else {
        assert(lex_order(x, s[s.len() - 1]) < 0);
        lemma_insert_sorted_at(s.drop_last(), x, j);
        assert(s.drop_last().insert(j, x).push(s.last()) =~= s.insert(j, x));
    }
}

/// Sorts strings into lexicographic order (`slice::sort` on strings, which
/// is stable). The result is a rearrangement of the input: the same strings,
/// each as often.
pub fn sort_strings(v: Vec<String>) -> (out: Vec<String>)
    ensures
        views(out@) == sort_spec(views(v@)),
        out@.to_multiset() == v@.to_multiset(),
        sorted_views(views(out@)),
        out@.len() == v@.len(),
{
    let mut out: Vec<String> = Vec::new();
    let mut rest = v;
    let ghost original = rest@;
    let mut consumed: usize = 0;
    let n = rest.len();
    broadcast use vstd::seq_lib::group_to_multiset_ensures;

    while consumed < n
        invariant
            n == original.len(),
            rest@ == original,
            consumed <= n,
            out@.to_multiset() == original.subrange(0, consumed as int).to_multiset(),
            out@.len() == consumed,
            sorted_views(views(out@)),
            views(out@) == sort_spec(views(original.subrange(0, consumed as int))),
        decreases n - consumed,
    {
        let x = rest[consumed].clone();
        let mut j: usize = out.len();
        while j > 0 && compare_str(x.as_str(), out[j - 1].as_str()) < 0
            invariant
                j <= out@.len(),
                forall|k: int| j <= k < out@.len() ==> lex_order(x@, #[trigger] out@[k]@) < 0,
            decreases j,
        {
            j = j - 1;
        }
        proof {
            let ghost s = views(out@);
            assert forall|k: int| 0 <= k < j implies lex_le(#[trigger] s[k], x@) by {
                if j > 0 {
                    lemma_lex_antisym(x@, out@[j - 1]@);
                    assert(lex_le(out@[j - 1]@, x@));
                    if k < j - 1 {
                        lemma_lex_le_trans(s[k], s[j - 1], x@);
                    }
                }
            }
        }
        let ghost before = out@;
        let ghost xv = x;
        out.insert(j, x);
        proof {
            assert(xv == original[consumed as int]);
            assert(out@ == before.insert(j as int, xv));
            assert(original.subrange(0, consumed + 1) =~= original.subrange(
                0,
                consumed as int,
            ).push(original[consumed as int]));
            vstd::seq_lib::to_multiset_insert(before, j as int, xv);
            vstd::seq_lib::to_multiset_build(original.subrange(0, consumed as int), xv);
            assert(out@.to_multiset() =~= original.subrange(0, consumed + 1).to_multiset());
            let vb = views(before);
            if j > 0 {
                lemma_lex_antisym(x@, before[j - 1]@);
            }
            assert forall|k: int| j <= k < vb.len() implies lex_order(xv@, #[trigger] vb[k]) < 0 by {
                assert(vb[k] == before[k]@);
            }
            lemma_insert_sorted_at(vb, xv@, j as int);
            assert(views(out@) =~= vb.insert(j as int, xv@));
            let pre = views(original.subrange(0, consumed + 1));
            assert(pre.drop_last() =~= views(original.subrange(0, consumed as int)));
            assert(pre.last() == xv@);
            let s = views(out@);
            assert forall|a: int, b: int| 0 <= a <= b < s.len() implies lex_le(
                #[trigger] s[a],
                #[trigger] s[b],
            ) by {
                let sb = views(before);
                if a < j && b < j {
                    assert(s[a] == sb[a] && s[b] == sb[b]);
                } else if a < j && b == j {
                    assert(s[a] == sb[a]);
                } else if a < j && b > j {
                    assert(s[a] == sb[a] && s[b] == sb[b - 1]);
                    assert(lex_le(sb[a], x@));
                    lemma_lex_antisym(x@, sb[b - 1]);
                    lemma_lex_le_trans(sb[a], x@, sb[b - 1]);
                } else if a == j && b > j {
                    assert(s[b] == sb[b - 1]);
                    lemma_lex_antisym(x@, sb[b - 1]);
                } else if a == j && b == j {
                    lemma_lex_antisym(x@, x@);
                } else {
                    assert(s[a] == sb[a - 1] && s[b] == sb[b - 1]);
                }
            }
        }
        consumed = consumed + 1;
    }
    assert(original.subrange(0, n as int) =~= original);
    out
}

} // verus!
