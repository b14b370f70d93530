//! Putting things in the order of a key: by start for sessions and weekends,
//! by the time of posting for messages. Things with equal keys keep the
//! order in which they were given.

use vstd::prelude::*;

verus! {

/// A sorted sequence of places with one more place `k`, put behind the
/// places whose key is no greater and before those whose key is greater.
pub open spec fn insert_place(sorted: Seq<usize>, keys: Seq<i64>, k: usize) -> Seq<usize>
    decreases sorted.len(),
{
    if sorted.len() == 0 {
        seq![k]
    } else if keys[sorted.last() as int] <= keys[k as int] {
        sorted.push(k)
    } else {
        insert_place(sorted.drop_last(), keys, k).push(sorted.last())
    }
}

/// The places of the first `n` keys in the order of the keys.
pub open spec fn places_upto(keys: Seq<i64>, n: nat) -> Seq<usize>
    decreases n,
{
    if n == 0 {
        Seq::empty()
    } else {
        insert_place(places_upto(keys, (n - 1) as nat), keys, (n - 1) as usize)
    }
}

/// The places of the keys in the order of the keys.
pub open spec fn sorted_places(keys: Seq<i64>) -> Seq<usize> {
    places_upto(keys, keys.len())
}

/// The items that a sequence of places names.
pub open spec fn pick<T>(items: Seq<T>, places: Seq<usize>) -> Seq<T> {
    Seq::new(places.len(), |j: int| items[places[j] as int])
}

/// Whether `places` names the place `k`.
pub open spec fn names(places: Seq<usize>, k: int) -> bool {
    exists|a: int| 0 <= a < places.len() && #[trigger] places[a] == k
}

/// Whether `places` puts the first `n` keys in order: it names each of their
/// places once, keys do not fall along it, and of two equal keys the one
/// given first comes first.
pub open spec fn orders(places: Seq<usize>, keys: Seq<i64>, n: nat) -> bool {
    &&& places.len() == n
    &&& forall|a: int| 0 <= a < n ==> (#[trigger] places[a]) < n
    &&& forall|k: int| 0 <= k < n ==> #[trigger] names(places, k)
    &&& forall|a: int, b: int|
        0 <= a < b < n ==> keys[(#[trigger] places[a]) as int] < keys[(#[trigger] places[b]) as int]
            || (keys[places[a] as int] == keys[places[b] as int] && places[a] < places[b])
}

/// A place that is put in lands where the keys behind it are greater and
/// the key before it is not.
proof fn lemma_insert_at(sorted: Seq<usize>, keys: Seq<i64>, k: usize, p: int)
    requires
        0 <= p <= sorted.len(),
        forall|j: int|
            p <= j < sorted.len() ==> keys[(#[trigger] sorted[j]) as int] > keys[k as int],
        p > 0 ==> keys[sorted[p - 1] as int] <= keys[k as int],
    ensures
        insert_place(sorted, keys, k) == sorted.insert(p, k),
    decreases sorted.len(),
{
    if sorted.len() == 0 {
        assert(seq![k] =~= sorted.insert(p, k));
    } else if p == sorted.len() {
        assert(sorted.push(k) =~= sorted.insert(p, k));
    } else {
        assert(keys[sorted[sorted.len() - 1] as int] > keys[k as int]);
        lemma_insert_at(sorted.drop_last(), keys, k, p);
        assert(sorted.drop_last().insert(p, k).push(sorted.last()) =~= sorted.insert(p, k));
    }
}

/// Where the new place goes: behind every place with a key that is no
/// greater.
spec fn landing(sorted: Seq<usize>, keys: Seq<i64>, k: usize) -> int
    decreases sorted.len(),
{
    if sorted.len() == 0 {
        0
    } else if keys[sorted.last() as int] <= keys[k as int] {
        sorted.len() as int
    } else {
        landing(sorted.drop_last(), keys, k)
    }
}

/// Putting a place in puts it where it lands.
proof fn lemma_landing(sorted: Seq<usize>, keys: Seq<i64>, k: usize)
    ensures
        0 <= landing(sorted, keys, k) <= sorted.len(),
        forall|j: int|
            landing(sorted, keys, k) <= j < sorted.len() ==> keys[(#[trigger] sorted[j]) as int]
                > keys[k as int],
        landing(sorted, keys, k) > 0 ==> keys[sorted[landing(sorted, keys, k) - 1] as int]
            <= keys[k as int],
        insert_place(sorted, keys, k) == sorted.insert(landing(sorted, keys, k), k),
    decreases sorted.len(),
{
    if sorted.len() == 0 {
    } else if keys[sorted.last() as int] <= keys[k as int] {
    } else {
        lemma_landing(sorted.drop_last(), keys, k);
        let p = landing(sorted.drop_last(), keys, k);
        assert forall|j: int| p <= j < sorted.len() implies keys[(#[trigger] sorted[j]) as int]
            > keys[k as int] by {
            if j < sorted.len() - 1 {
                assert(sorted.drop_last()[j] == sorted[j]);
            }
        }
        if p > 0 {
            assert(sorted.drop_last()[p - 1] == sorted[p - 1]);
        }
    }
    lemma_insert_at(sorted, keys, k, landing(sorted, keys, k));
}

/// The places of the first `n` keys, sorted, are in order.
pub proof fn lemma_places_upto_orders(keys: Seq<i64>, n: nat)
    requires
        n <= keys.len(),
        n <= usize::MAX,
    ensures
        orders(places_upto(keys, n), keys, n),
    decreases n,
{
    if n > 0 {
        let m = (n - 1) as nat;
        let before = places_upto(keys, m);
        let k = m as usize;
        lemma_places_upto_orders(keys, m);
        lemma_landing(before, keys, k);
        let p = landing(before, keys, k);
        let after = before.insert(p, k);
        assert(places_upto(keys, n) == after);
        assert forall|a: int| 0 <= a < n implies (#[trigger] after[a]) < n by {
            if a < p {
                assert(after[a] == before[a]);
            } else if a > p {
                assert(after[a] == before[a - 1]);
            }
        }
        assert forall|x: int| 0 <= x < n implies #[trigger] names(after, x) by {
            if x == m {
                assert(after[p] == x);
            } else {
                assert(names(before, x));
                let a0 = choose|a: int| 0 <= a < before.len() && #[trigger] before[a] == x;
                if a0 < p {
                    assert(after[a0] == x);
                } else {
                    assert(after[a0 + 1] == x);
                }
            }
        }
        assert forall|a: int, b: int| 0 <= a < b < n implies keys[(#[trigger] after[a]) as int]
            < keys[(#[trigger] after[b]) as int] || (keys[after[a] as int] == keys[after[b] as int]
            && after[a] < after[b]) by {
            let ia = if a < p {
                a
            } else {
                a - 1
            };
            let ib = if b < p {
                b
            } else {
                b - 1
            };
            if a != p {
                assert(after[a] == before[ia]);
                assert(before[ia] < m);
            }
            if b != p {
                assert(after[b] == before[ib]);
                assert(before[ib] < m);
            }
            if a == p {
                assert(keys[before[ib] as int] > keys[k as int]);
            } else if b == p {
                if p > 0 {
                    if ia < p - 1 {
                        assert(keys[before[ia] as int] < keys[before[p - 1] as int] || (
                        keys[before[ia] as int] == keys[before[p - 1] as int] && before[ia]
                            < before[p - 1]));
                    }
                }
            } else {
                assert(ia < ib);
            }
        }
    }
}

/// The sorted places name every place once, along keys that do not fall,
/// and keep things with equal keys in the order in which they were given.
pub proof fn lemma_sorted_places_orders(keys: Seq<i64>)
    requires
        keys.len() <= usize::MAX,
    ensures
        orders(sorted_places(keys), keys, keys.len()),
{
    lemma_places_upto_orders(keys, keys.len());
}

/// The places of the keys in the order of the keys.
pub fn order_of(keys: &Vec<i64>) -> (order: Vec<usize>)
    ensures
        order@ == sorted_places(keys@),
        order@.len() == keys@.len(),
        forall|j: int| 0 <= j < order@.len() ==> (#[trigger] order@[j]) < keys@.len(),
{
    let mut order: Vec<usize> = Vec::new();
    let mut i: usize = 0;
    while i < keys.len()
        invariant
            i <= keys.len(),
            order@.len() == i,
            forall|j: int| 0 <= j < order@.len() ==> (#[trigger] order@[j]) < i,
            order@ == places_upto(keys@, i as nat),
        decreases keys.len() - i,
    {
        let mut p: usize = order.len();
        while p > 0 && keys[order[p - 1]] > keys[i]
            invariant
                p <= order@.len(),
                i < keys.len(),
                forall|j: int| 0 <= j < order@.len() ==> (#[trigger] order@[j]) < i,
                forall|j: int|
                    p <= j < order@.len() ==> keys@[(#[trigger] order@[j]) as int]
                        > keys@[i as int],
            decreases p,
        {
            p -= 1;
        }
        proof {
            lemma_insert_at(order@, keys@, i, p as int);
        }
        let ghost before = order@;
        order.insert(p, i);
        assert forall|j: int| 0 <= j < order@.len() implies (#[trigger] order@[j]) < i + 1 by {
            if j < p {
                assert(order@[j] == before[j]);
            } else if j > p {
                assert(order@[j] == before[j - 1]);
            }
        }
        i += 1;
    }
    order
}

} // verus!
