//! Stable ordering of lists by sort keys. A key is a list of components, and a
//! component a list of integers; both compare lexicographically, a proper
//! prefix first. Items with equal keys keep their relative order.

use vstd::prelude::*;

verus! {

/// `a` comes before `b` in lexicographic order (a proper prefix first).
pub open spec fn ints_lt(a: Seq<i64>, b: Seq<i64>) -> bool
    decreases a.len(),
{
    if a.len() == 0 {
        b.len() > 0
    } else if b.len() == 0 {
        false
    } else if a[0] != b[0] {
        a[0] < b[0]
    } else {
        ints_lt(a.drop_first(), b.drop_first())
    }
}

/// `a` comes before `b`: the components compare lexicographically, each
/// component by [`ints_lt`].
pub open spec fn key_lt(a: Seq<Seq<i64>>, b: Seq<Seq<i64>>) -> bool
    decreases a.len(),
{
    if a.len() == 0 {
        b.len() > 0
    } else if b.len() == 0 {
        false
    } else if a[0] != b[0] {
        ints_lt(a[0], b[0])
    } else {
        key_lt(a.drop_first(), b.drop_first())
    }
}

/// [`ints_lt`] is irreflexive.
pub proof fn lemma_ints_irreflexive(a: Seq<i64>)
    ensures
        !ints_lt(a, a),
    decreases a.len(),
{
    if a.len() > 0 {
        lemma_ints_irreflexive(a.drop_first());
    }
}

/// Of two different sequences, exactly one comes first.
pub proof fn lemma_ints_total(a: Seq<i64>, b: Seq<i64>)
    ensures
        a != b ==> (ints_lt(a, b) || ints_lt(b, a)),
        !(ints_lt(a, b) && ints_lt(b, a)),
    decreases a.len(),
{
    if a.len() > 0 && b.len() > 0 {
        lemma_ints_total(a.drop_first(), b.drop_first());
        if a != b && a[0] == b[0] {
            assert(a =~= seq![a[0]] + a.drop_first());
            assert(b =~= seq![b[0]] + b.drop_first());
        }
    }
    if a.len() == 0 && b.len() == 0 {
        assert(a =~= b);
    }
}

/// [`ints_lt`] is transitive.
pub proof fn lemma_ints_transitive(a: Seq<i64>, b: Seq<i64>, c: Seq<i64>)
    requires
        ints_lt(a, b),
        ints_lt(b, c),
    ensures
        ints_lt(a, c),
    decreases a.len(),
{
    if a.len() > 0 && a[0] == b[0] && b[0] == c[0] {
        lemma_ints_transitive(a.drop_first(), b.drop_first(), c.drop_first());
    }
}

/// [`key_lt`] is irreflexive.
pub proof fn lemma_key_irreflexive(a: Seq<Seq<i64>>)
    ensures
        !key_lt(a, a),
    decreases a.len(),
{
    if a.len() > 0 {
        lemma_key_irreflexive(a.drop_first());
    }
}

/// Of two different keys, exactly one comes first.
pub proof fn lemma_key_total(a: Seq<Seq<i64>>, b: Seq<Seq<i64>>)
    ensures
        a != b ==> (key_lt(a, b) || key_lt(b, a)),
        !(key_lt(a, b) && key_lt(b, a)),
    decreases a.len(),
{
    if a.len() > 0 && b.len() > 0 {
        lemma_key_total(a.drop_first(), b.drop_first());
        lemma_ints_total(a[0], b[0]);
        if a != b && a[0] == b[0] {
            assert(a =~= seq![a[0]] + a.drop_first());
            assert(b =~= seq![b[0]] + b.drop_first());
        }
    }
    if a.len() == 0 && b.len() == 0 {
        assert(a =~= b);
    }
}

/// [`key_lt`] is transitive.
pub proof fn lemma_key_transitive(a: Seq<Seq<i64>>, b: Seq<Seq<i64>>, c: Seq<Seq<i64>>)
    requires
        key_lt(a, b),
        key_lt(b, c),
    ensures
        key_lt(a, c),
    decreases a.len(),
{
    if a.len() > 0 {
        if a[0] == b[0] && b[0] == c[0] {
            lemma_key_transitive(a.drop_first(), b.drop_first(), c.drop_first());
        } else if a[0] != b[0] && b[0] != c[0] {
            lemma_ints_transitive(a[0], b[0], c[0]);
            lemma_ints_total(a[0], c[0]);
            if a[0] == c[0] {
                lemma_ints_total(a[0], b[0]);
            }
        }
    }
}

/// Item `i` is listed before item `j` when ordering by `keys`: its key comes
/// first (last, in descending order), or the keys are equal and `i` comes
/// first in the input.
pub open spec fn listed_before(keys: Seq<Seq<Seq<i64>>>, descending: bool, i: int, j: int) -> bool {
    if keys[i] == keys[j] {
        i < j
    } else if descending {
        key_lt(keys[j], keys[i])
    } else {
        key_lt(keys[i], keys[j])
    }
}

/// `order` lists every position of `keys` once, each before the next by
/// [`listed_before`].
pub open spec fn is_listing_order(keys: Seq<Seq<Seq<i64>>>, descending: bool, order: Seq<usize>) -> bool {
    &&& order.len() == keys.len()
    &&& forall|a: int| 0 <= a < order.len() ==> #[trigger] order[a] < keys.len()
    &&& forall|a: int, b: int| 0 <= a < b < order.len() ==> #[trigger] order[a] != #[trigger] order[b]
    &&& forall|a: int, b: int|
        0 <= a < b < order.len() ==> listed_before(keys, descending, #[trigger] order[a] as int, #[trigger] order[b] as int)
}

/// [`listed_before`] is a strict total order on positions.
pub proof fn lemma_listed_before(keys: Seq<Seq<Seq<i64>>>, descending: bool, i: int, j: int, k: int)
    ensures
        !listed_before(keys, descending, i, i),
        i != j ==> (listed_before(keys, descending, i, j) || listed_before(keys, descending, j, i)),
        !(listed_before(keys, descending, i, j) && listed_before(keys, descending, j, i)),
        listed_before(keys, descending, i, j) && listed_before(keys, descending, j, k)
            ==> listed_before(keys, descending, i, k),
{
    lemma_key_irreflexive(keys[i]);
    lemma_key_total(keys[i], keys[j]);
    lemma_key_total(keys[i], keys[k]);
    lemma_key_total(keys[j], keys[k]);
    if key_lt(keys[i], keys[j]) && key_lt(keys[j], keys[k]) {
        lemma_key_transitive(keys[i], keys[j], keys[k]);
    }
    if key_lt(keys[k], keys[j]) && key_lt(keys[j], keys[i]) {
        lemma_key_transitive(keys[k], keys[j], keys[i]);
    }
}

/// A listing order names every position.
pub proof fn lemma_listing_order_covers(keys: Seq<Seq<Seq<i64>>>, descending: bool, order: Seq<usize>, j: int)
    requires
        is_listing_order(keys, descending, order),
        0 <= j < keys.len(),
    ensures
        exists|a: int| 0 <= a < order.len() && #[trigger] order[a] == j,
{
    let ints = order.map_values(|x: usize| x as int);
    assert(ints.no_duplicates()) by {
        assert forall|a: int, b: int| 0 <= a < ints.len() && 0 <= b < ints.len() && a != b implies ints[a] != ints[b] by {
            if a < b {
                assert(order[a] != order[b]);
            } else {
                assert(order[b] != order[a]);
            }
        }
    }
    ints.unique_seq_to_set();
    vstd::set_lib::lemma_int_range(0, keys.len() as int);
    let range = vstd::set_lib::set_int_range(0, keys.len() as int);
    assert(ints.to_set().subset_of(range)) by {
        assert forall|x: int| ints.to_set().contains(x) implies range.contains(x) by {
            let a = choose|a: int| 0 <= a < ints.len() && ints[a] == x;
            assert(order[a] < keys.len());
        }
    }
    vstd::seq_lib::seq_to_set_is_finite(ints);
    vstd::set_lib::lemma_subset_equality(ints.to_set(), range);
    assert(range.contains(j));
    assert(ints.to_set().contains(j));
    let a = choose|a: int| 0 <= a < ints.len() && ints[a] == j;
    assert(order[a] == j);
}

/// Listing by keys is deterministic: there is exactly one listing order.
pub proof fn lemma_listing_order_unique(keys: Seq<Seq<Seq<i64>>>, descending: bool, o1: Seq<usize>, o2: Seq<usize>)
    requires
        is_listing_order(keys, descending, o1),
        is_listing_order(keys, descending, o2),
    ensures
        o1 == o2,
{
    assert forall|a: int| 0 <= a < o1.len() implies o1[a] == o2[a] by {
        lemma_listing_prefix_agrees(keys, descending, o1, o2, a);
    }
    assert(o1 =~= o2);
}

/// Two listing orders agree at each position, given that they agree before it.
proof fn lemma_listing_prefix_agrees(keys: Seq<Seq<Seq<i64>>>, descending: bool, o1: Seq<usize>, o2: Seq<usize>, a: int)
    requires
        is_listing_order(keys, descending, o1),
        is_listing_order(keys, descending, o2),
        0 <= a < o1.len(),
    ensures
        o1[a] == o2[a],
    decreases a,
{
    if a > 0 {
        lemma_listing_prefix_agrees(keys, descending, o1, o2, a - 1);
    }
    assert forall|k: int| 0 <= k < a implies o1[k] == o2[k] by {
        lemma_listing_prefix_agrees(keys, descending, o1, o2, k);
    }
    let x = o1[a] as int;
    let y = o2[a] as int;
    if x != y {
        lemma_listing_order_covers(keys, descending, o1, y);
        let b = choose|b: int| 0 <= b < o1.len() && #[trigger] o1[b] == y;
        lemma_listing_order_covers(keys, descending, o2, x);
        let c = choose|c: int| 0 <= c < o2.len() && #[trigger] o2[c] == x;
        if b < a {
            assert(o1[b] == o2[b]);
            assert(o2[b] != o2[a]);
        }
        if c < a {
            assert(o1[c] == o2[c]);
            assert(o1[c] != o1[a]);
        }
        assert(b > a && c > a);
        assert(listed_before(keys, descending, o1[a] as int, o1[b] as int));
        assert(listed_before(keys, descending, o2[a] as int, o2[c] as int));
        lemma_listed_before(keys, descending, x, y, x);
    }
}

/// Whether `a` comes before `b` by [`ints_lt`].
pub fn ints_less(a: &Vec<i64>, b: &Vec<i64>) -> (r: bool)
    ensures
        r == ints_lt(a@, b@),
{
    let mut k: usize = 0;
    assert(a@.skip(0) =~= a@);
    assert(b@.skip(0) =~= b@);
    while k < a.len() && k < b.len()
        invariant
            k <= a.len(),
            k <= b.len(),
            ints_lt(a@, b@) == ints_lt(a@.skip(k as int), b@.skip(k as int)),
        decreases a.len() - k,
    {
        if a[k] != b[k] {
            return a[k] < b[k];
        }
        assert(a@.skip(k as int).drop_first() =~= a@.skip(k + 1));
        assert(b@.skip(k as int).drop_first() =~= b@.skip(k + 1));
        k = k + 1;
    }
    k == a.len() && k < b.len()
}

/// Whether two components are equal.
pub fn ints_equal(a: &Vec<i64>, b: &Vec<i64>) -> (r: bool)
    ensures
        r == (a@ == b@),
{
    if a.len() != b.len() {
        return false;
    }
    let mut k: usize = 0;
    while k < a.len()
        invariant
            a.len() == b.len(),
            k <= a.len(),
            a@.take(k as int) == b@.take(k as int),
        decreases a.len() - k,
    {
        if a[k] != b[k] {
            assert(a@[k as int] != b@[k as int]);
            return false;
        }
        assert(a@.take(k + 1) =~= a@.take(k as int).push(a@[k as int]));
        assert(b@.take(k + 1) =~= b@.take(k as int).push(b@[k as int]));
        k = k + 1;
    }
    assert(a@ =~= a@.take(k as int));
    assert(b@ =~= b@.take(k as int));
    true
}

/// The contents of a key.
pub open spec fn key_view(k: Vec<Vec<i64>>) -> Seq<Seq<i64>> {
    k@.map_values(|c: Vec<i64>| c@)
}

/// The contents of a list of keys.
pub open spec fn keys_view(ks: Seq<Vec<Vec<i64>>>) -> Seq<Seq<Seq<i64>>> {
    ks.map_values(|k: Vec<Vec<i64>>| key_view(k))
}

/// Whether `a` comes before `b` by [`key_lt`].
pub fn key_less(a: &Vec<Vec<i64>>, b: &Vec<Vec<i64>>) -> (r: bool)
    ensures
        r == key_lt(key_view(*a), key_view(*b)),
{
    let ghost av = key_view(*a);
    let ghost bv = key_view(*b);
    let mut k: usize = 0;
    assert(av.skip(0) =~= av);
    assert(bv.skip(0) =~= bv);
    while k < a.len() && k < b.len()
        invariant
            k <= a.len(),
            k <= b.len(),
            av == key_view(*a),
            bv == key_view(*b),
            key_lt(av, bv) == key_lt(av.skip(k as int), bv.skip(k as int)),
        decreases a.len() - k,
    {
        assert(av.skip(k as int)[0] == a@[k as int]@);
        assert(bv.skip(k as int)[0] == b@[k as int]@);
        if !ints_equal(&a[k], &b[k]) {
            return ints_less(&a[k], &b[k]);
        }
        assert(av.skip(k as int).drop_first() =~= av.skip(k + 1));
        assert(bv.skip(k as int).drop_first() =~= bv.skip(k + 1));
        k = k + 1;
    }
    k == a.len() && k < b.len()
}

/// Whether two keys are equal.
pub fn key_equal(a: &Vec<Vec<i64>>, b: &Vec<Vec<i64>>) -> (r: bool)
    ensures
        r == (key_view(*a) == key_view(*b)),
{
    let ghost av = key_view(*a);
    let ghost bv = key_view(*b);
    if a.len() != b.len() {
        assert(av.len() != bv.len());
        return false;
    }
    let mut k: usize = 0;
    while k < a.len()
        invariant
            a.len() == b.len(),
            k <= a.len(),
            av == key_view(*a),
            bv == key_view(*b),
            av.take(k as int) == bv.take(k as int),
        decreases a.len() - k,
    {
        if !ints_equal(&a[k], &b[k]) {
            assert(av[k as int] != bv[k as int]);
            return false;
        }
        assert(av.take(k + 1) =~= av.take(k as int).push(av[k as int]));
        assert(bv.take(k + 1) =~= bv.take(k as int).push(bv[k as int]));
        k = k + 1;
    }
    assert(av =~= av.take(k as int));
    assert(bv =~= bv.take(k as int));
    true
}

/// The order in which to list items with these keys: ascending or
/// descending by key, items with equal keys in input order.
pub fn listing_order(keys: &Vec<Vec<Vec<i64>>>, descending: bool) -> (order: Vec<usize>)
    ensures
        is_listing_order(keys_view(keys@), descending, order@),
{
    let ghost ks = keys_view(keys@);
    let mut order: Vec<usize> = Vec::new();
    let mut i: usize = 0;
    while i < keys.len()
        invariant
            i <= keys.len(),
            ks == keys_view(keys@),
            order@.len() == i,
            forall|a: int| 0 <= a < order@.len() ==> #[trigger] order@[a] < i,
            forall|a: int, b: int| 0 <= a < b < order@.len() ==> #[trigger] order@[a] != #[trigger] order@[b],
            forall|a: int, b: int|
                0 <= a < b < order@.len() ==> listed_before(ks, descending, #[trigger] order@[a] as int, #[trigger] order@[b] as int),
        decreases keys.len() - i,
    {
        // The first listed item that item `i` goes before.
        let mut q: usize = 0;
        while q < order.len()
            invariant
                i < keys.len(),
                ks == keys_view(keys@),
                q <= order@.len(),
                order@.len() == i,
                forall|a: int| 0 <= a < order@.len() ==> #[trigger] order@[a] < i,
                forall|a: int| 0 <= a < q ==> !listed_before(ks, descending, i as int, #[trigger] order@[a] as int),
            ensures
                q <= order@.len(),
                forall|a: int| 0 <= a < q ==> !listed_before(ks, descending, i as int, #[trigger] order@[a] as int),
                q < order@.len() ==> listed_before(ks, descending, i as int, order@[q as int] as int),
            decreases order@.len() - q,
        {
            let o = order[q];
            assert(ks[i as int] == key_view(keys@[i as int]));
            assert(ks[o as int] == key_view(keys@[o as int]));
            let goes_before = if key_equal(&keys[i], &keys[o]) {
                false
            } else if descending {
                key_less(&keys[o], &keys[i])
            } else {
                key_less(&keys[i], &keys[o])
            };
            if goes_before {
                break;
            }
            q = q + 1;
        }
        let ghost old_order = order@;
        proof {
            assert forall|a: int| q <= a < old_order.len() implies listed_before(ks, descending, i as int, #[trigger] old_order[a] as int) by {
                if a > q {
                    lemma_listed_before(ks, descending, i as int, old_order[q as int] as int, old_order[a] as int);
                }
            }
            assert forall|a: int| 0 <= a < q implies listed_before(ks, descending, #[trigger] old_order[a] as int, i as int) by {
                lemma_listed_before(ks, descending, i as int, old_order[a] as int, i as int);
            }
        }
        order.insert(q, i);
        proof {
            assert(order@ =~= old_order.insert(q as int, i));
            assert forall|a: int, b: int| 0 <= a < b < order@.len() implies listed_before(ks, descending, #[trigger] order@[a] as int, #[trigger] order@[b] as int) by {
                if b < q {
                    assert(order@[a] == old_order[a] && order@[b] == old_order[b]);
                } else if b == q {
                    assert(order@[a] == old_order[a]);
                } else if a < q {
                    assert(order@[a] == old_order[a] && order@[b] == old_order[b - 1]);
                    lemma_listed_before(ks, descending, old_order[a] as int, i as int, old_order[b - 1] as int);
                } else if a == q {
                    assert(order@[b] == old_order[b - 1]);
                } else {
                    assert(order@[a] == old_order[a - 1] && order@[b] == old_order[b - 1]);
                }
            }
            assert forall|a: int, b: int| 0 <= a < b < order@.len() implies #[trigger] order@[a] != #[trigger] order@[b] by {
                if b < q {
                    assert(order@[a] == old_order[a] && order@[b] == old_order[b]);
                } else if b == q {
                    assert(order@[a] == old_order[a]);
                } else if a < q {
                    assert(order@[a] == old_order[a] && order@[b] == old_order[b - 1]);
                } else if a == q {
                    assert(order@[b] == old_order[b - 1]);
                } else {
                    assert(order@[a] == old_order[a - 1] && order@[b] == old_order[b - 1]);
                }
            }
            assert forall|a: int| 0 <= a < order@.len() implies #[trigger] order@[a] < i + 1 by {
                if a < q {
                    assert(order@[a] == old_order[a]);
                } else if a > q {
                    assert(order@[a] == old_order[a - 1]);
                }
            }
        }
        i = i + 1;
    }
    order
}

} // verus!
