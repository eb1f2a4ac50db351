//! The display order of a list: larger keys first, and entries with equal keys
//! in the order in which the store handed them out.

use vstd::prelude::*;

verus! {

/// Entry `a` is shown before entry `b`: its key is larger, or the keys are
/// equal and `a` came first.
pub open spec fn precedes(keys: Seq<int>, a: int, b: int) -> bool {
    keys[a] > keys[b] || (keys[a] == keys[b] && a < b)
}

/// `order` names entries of `keys`, each before all those that it precedes.
pub open spec fn is_descending_stable(keys: Seq<int>, order: Seq<int>) -> bool {
    &&& forall|i: int| 0 <= i < order.len() ==> 0 <= #[trigger] order[i] < keys.len()
    &&& forall|i: int, j: int|
        0 <= i < j < order.len() ==> precedes(keys, #[trigger] order[i], #[trigger] order[j])
}

/// Where an entry with key `k` joins `order`: behind every entry whose key is
/// not smaller.
pub open spec fn insertion_point(keys: Seq<int>, order: Seq<int>, k: int) -> int
    decreases order.len(),
{
    if order.len() == 0 {
        0
    } else if keys[order.last()] >= k {
        order.len() as int
    } else {
        insertion_point(keys, order.drop_last(), k)
    }
}

/// The display order of the first `n` entries of `keys`.
pub open spec fn order_of_first(keys: Seq<int>, n: nat) -> Seq<int>
    decreases n,
{
    if n == 0 {
        Seq::empty()
    } else {
        let rest = order_of_first(keys, (n - 1) as nat);
        rest.insert(insertion_point(keys, rest, keys[n - 1]), n - 1)
    }
}

/// The display order of `keys`, largest key first.
pub open spec fn descending_order(keys: Seq<int>) -> Seq<int> {
    order_of_first(keys, keys.len())
}

/// The display order of `keys`: largest key first, or that order backwards
/// when `reverse` is set.
pub open spec fn display_order(keys: Seq<int>, reverse: bool) -> Seq<int> {
    if reverse {
        descending_order(keys).reverse()
    } else {
        descending_order(keys)
    }
}

/// The keys of a list as integers.
pub open spec fn key_ints(keys: Seq<i128>) -> Seq<int> {
    keys.map_values(|k: i128| k as int)
}

/// The entries of an order as integers.
pub open spec fn index_ints(order: Seq<usize>) -> Seq<int> {
    order.map_values(|i: usize| i as int)
}

/// In a sorted order the insertion point splits the entries by key.
pub proof fn lemma_insertion_point(keys: Seq<int>, order: Seq<int>, k: int)
    requires
        is_descending_stable(keys, order),
    ensures
        0 <= insertion_point(keys, order, k) <= order.len(),
        forall|i: int|
            0 <= i < insertion_point(keys, order, k) ==> keys[#[trigger] order[i]] >= k,
        forall|i: int|
            insertion_point(keys, order, k) <= i < order.len() ==> keys[#[trigger] order[i]] < k,
    decreases order.len(),
{
    if order.len() > 0 {
        if keys[order.last()] >= k {
            assert forall|i: int| 0 <= i < order.len() implies keys[#[trigger] order[i]] >= k by {
                if i < order.len() - 1 {
                    assert(precedes(keys, order[i], order[order.len() - 1]));
                }
            }
        } else {
            let front = order.drop_last();
            assert(is_descending_stable(keys, front)) by {
                assert forall|i: int, j: int| 0 <= i < j < front.len() implies precedes(
                    keys,
                    #[trigger] front[i],
                    #[trigger] front[j],
                ) by {
                    assert(precedes(keys, order[i], order[j]));
                }
            }
            lemma_insertion_point(keys, front, k);
            let p = insertion_point(keys, front, k);
            assert forall|i: int| 0 <= i < p implies keys[#[trigger] order[i]] >= k by {
                assert(order[i] == front[i]);
            }
            assert forall|i: int| p <= i < order.len() implies keys[#[trigger] order[i]] < k by {
                if i < front.len() {
                    assert(order[i] == front[i]);
                }
            }
        }
    }
}

/// The order of the first `n` entries names each of them once, larger keys
/// first and equal keys as they came.
pub proof fn lemma_order_of_first(keys: Seq<int>, n: nat)
    requires
        n <= keys.len(),
    ensures
        order_of_first(keys, n).len() == n,
        is_descending_stable(keys, order_of_first(keys, n)),
        forall|i: int| 0 <= i < n ==> 0 <= #[trigger] order_of_first(keys, n)[i] < n,
        forall|e: int| 0 <= e < n ==> order_of_first(keys, n).contains(e),
    decreases n,
{
    if n > 0 {
        let rest = order_of_first(keys, (n - 1) as nat);
        let k = keys[n - 1];
        let p = insertion_point(keys, rest, k);
        let order = order_of_first(keys, n);
        lemma_order_of_first(keys, (n - 1) as nat);
        lemma_insertion_point(keys, rest, k);
        assert(order == rest.insert(p, n - 1));
        assert forall|i: int, j: int| 0 <= i < j < order.len() implies precedes(
            keys,
            #[trigger] order[i],
            #[trigger] order[j],
        ) by {
            if j < p {
                assert(order[i] == rest[i] && order[j] == rest[j]);
            } else if j == p {
                assert(order[i] == rest[i]);
            } else if i < p {
                assert(order[i] == rest[i] && order[j] == rest[j - 1]);
            } else if i == p {
                assert(order[j] == rest[j - 1]);
            } else {
                assert(order[i] == rest[i - 1] && order[j] == rest[j - 1]);
            }
        }
        assert forall|i: int| 0 <= i < n implies 0 <= #[trigger] order[i] < n by {
            if i < p {
                assert(order[i] == rest[i]);
            } else if i > p {
                assert(order[i] == rest[i - 1]);
            }
        }
        assert forall|e: int| 0 <= e < n implies order.contains(e) by {
            if e == n - 1 {
                assert(order[p] == e);
            } else {
                assert(rest.contains(e));
                let at = choose|at: int| 0 <= at < rest.len() && rest[at] == e;
                if at < p {
                    assert(order[at] == e);
                } else {
                    assert(order[at + 1] == e);
                }
            }
        }
    }
}

/// The display order names every entry once, larger keys first, and entries
/// with equal keys in the order in which they came.
pub proof fn lemma_descending_order(keys: Seq<int>)
    ensures
        descending_order(keys).len() == keys.len(),
        is_descending_stable(keys, descending_order(keys)),
        forall|e: int| 0 <= e < keys.len() ==> descending_order(keys).contains(e),
{
    lemma_order_of_first(keys, keys.len());
}

/// Sorting with the reverse flag set gives exactly the reverse of sorting
/// without it, ties included.
pub proof fn lemma_reverse_flag_reverses(keys: Seq<int>)
    ensures
        display_order(keys, true) == display_order(keys, false).reverse(),
        display_order(keys, false) == display_order(keys, true).reverse(),
        display_order(keys, true).len() == keys.len(),
        forall|i: int|
            0 <= i < keys.len() ==> #[trigger] display_order(keys, true)[i] == display_order(
                keys,
                false,
            )[keys.len() - 1 - i],
{
    lemma_descending_order(keys);
    let down = descending_order(keys);
    assert(down.reverse().reverse() =~= down);
}

/// The display order of the entries whose keys are `keys`.
pub fn sort_descending(keys: &Vec<i128>) -> (order: Vec<usize>)
    ensures
        index_ints(order@) == descending_order(key_ints(keys@)),
{
    let ghost ks = key_ints(keys@);
    let mut order: Vec<usize> = Vec::new();
    let mut n: usize = 0;
    assert(index_ints(order@) =~= order_of_first(ks, 0));
    while n < keys.len()
        invariant
            n <= keys.len(),
            ks == key_ints(keys@),
            index_ints(order@) == order_of_first(ks, n as nat),
        decreases keys.len() - n,
    {
        let ghost rest = index_ints(order@);
        proof {
            lemma_order_of_first(ks, n as nat);
        }
        let k = keys[n];
        let mut at: usize = order.len();
        assert(rest.take(at as int) =~= rest);
        while at > 0 && keys[order[at - 1]] < k
            invariant
                at <= order.len(),
                n < keys.len(),
                ks == key_ints(keys@),
                k == keys@[n as int],
                rest == index_ints(order@),
                rest.len() == n,
                forall|i: int| 0 <= i < n ==> 0 <= #[trigger] rest[i] < n,
                insertion_point(ks, rest, k as int) == insertion_point(
                    ks,
                    rest.take(at as int),
                    k as int,
                ),
            decreases at,
        {
            proof {
                let shorter = rest.take(at as int);
                assert(shorter.last() == rest[at - 1]);
                assert(shorter.drop_last() =~= rest.take(at - 1));
            }
            at -= 1;
        }
        proof {
            let front = rest.take(at as int);
            if at > 0 {
                assert(front.last() == rest[at - 1]);
            }
            assert(insertion_point(ks, rest, k as int) == at);
        }
        order.insert(at, n);
        assert(index_ints(order@) =~= rest.insert(at as int, n as int));
        n += 1;
    }
    order
}

/// The display order of the entries whose keys are `keys`, backwards when
/// `reverse` is set.
pub fn sort_for_display(keys: &Vec<i128>, reverse: bool) -> (order: Vec<usize>)
    ensures
        index_ints(order@) == display_order(key_ints(keys@), reverse),
        order@.len() == keys@.len(),
        forall|i: int| 0 <= i < order@.len() ==> #[trigger] order@[i] < keys@.len(),
{
    let down = sort_descending(keys);
    proof {
        lemma_descending_order(key_ints(keys@));
        assert forall|i: int| 0 <= i < down@.len() implies #[trigger] down@[i] < keys@.len() by {
            assert(index_ints(down@)[i] == down@[i] as int);
        }
    }
    if !reverse {
        return down;
    }
    let mut up: Vec<usize> = Vec::new();
    let mut i: usize = down.len();
    while i > 0
        invariant
            i <= down.len(),
            up@.len() == down.len() - i,
            forall|j: int| 0 <= j < up@.len() ==> #[trigger] up@[j] == down@[down.len() - 1 - j],
        decreases i,
    {
        i -= 1;
        up.push(down[i]);
    }
    assert(index_ints(up@) =~= index_ints(down@).reverse());
    up
}

} // verus!
