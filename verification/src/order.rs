//! The order in which key shares are dealt out: by ascending authority id,
//! whatever order the authorities were enrolled in.

use vstd::prelude::*;

verus! {

/// How many of `ids` are smaller than `a`.
///
/// On a roster without duplicates this is the position that `a` takes when
/// the roster is put in ascending order, and so the index of the share that
/// authority `a` receives.
pub open spec fn count_below(ids: Seq<int>, a: int) -> nat
    decreases ids.len(),
{
    if ids.len() == 0 {
        0
    } else {
        count_below(ids.drop_last(), a) + if ids.last() < a {
            1nat
        } else {
            0nat
        }
    }
}

/// Each element is smaller than every later one.
pub open spec fn strictly_ascending(s: Seq<int>) -> bool {
    forall|i: int, j: int| 0 <= i < j < s.len() ==> s[i] < s[j]
}

/// The two sequences hold the same ids, in whatever order and number.
pub open spec fn same_members(a: Seq<int>, b: Seq<int>) -> bool {
    forall|x: int| a.contains(x) <==> b.contains(x)
}

/// `order` is `ids` put in ascending order, each id once.
pub open spec fn is_ascending_order_of(order: Seq<int>, ids: Seq<int>) -> bool {
    strictly_ascending(order) && same_members(order, ids)
}

/// The ids of a vector, as mathematical integers.
pub open spec fn as_ints(ids: Seq<i32>) -> Seq<int> {
    Seq::new(ids.len(), |i: int| ids[i] as int)
}

/// Counts the ids that are smaller than `authority_id`.
pub fn share_slot(ids: &Vec<i32>, authority_id: i32) -> (slot: usize)
    ensures
        slot == count_below(as_ints(ids@), authority_id as int),
{
    let mut slot: usize = 0;
    let mut i: usize = 0;
    while i < ids.len()
        invariant
            i <= ids.len(),
            slot <= i,
            slot == count_below(as_ints(ids@.take(i as int)), authority_id as int),
        decreases ids.len() - i,
    {
        assert(as_ints(ids@.take(i + 1)).drop_last() =~= as_ints(ids@.take(i as int)));
        if ids[i] < authority_id {
            slot += 1;
        }
        i += 1;
    }
    assert(ids@.take(i as int) =~= ids@);
    slot
}

/// Puts the ids in ascending order, keeping one of each.
pub fn ascending_ids(ids: &Vec<i32>) -> (order: Vec<i32>)
    ensures
        is_ascending_order_of(as_ints(order@), as_ints(ids@)),
{
    let mut order: Vec<i32> = Vec::new();
    let mut i: usize = 0;
    while i < ids.len()
        invariant
            i <= ids.len(),
            order.len() <= i,
            strictly_ascending(as_ints(order@)),
            same_members(as_ints(order@), as_ints(ids@.take(i as int))),
        decreases ids.len() - i,
    {
        let x = ids[i];
        let mut j: usize = 0;
        while j < order.len() && order[j] < x
            invariant
                j <= order.len(),
                strictly_ascending(as_ints(order@)),
                forall|k: int| 0 <= k < j ==> order[k] < x,
            decreases order.len() - j,
        {
            j += 1;
        }
        let ghost before = as_ints(order@);
        let ghost seen = as_ints(ids@.take(i as int));
        let ghost seen_next = as_ints(ids@.take(i + 1));
        assert(seen_next =~= seen.push(x as int));
        if j < order.len() && order[j] == x {
            assert forall|y: int| before.contains(y) <==> seen_next.contains(y) by {
                if seen_next.contains(y) {
                    let k = choose|k: int| 0 <= k < seen_next.len() && seen_next[k] == y;
                    if k < seen.len() {
                        assert(seen[k] == y);
                        assert(seen.contains(y));
                    } else {
                        assert(before[j as int] == y);
                    }
                }
                if before.contains(y) {
                    assert(seen.contains(y));
                    let k = choose|k: int| 0 <= k < seen.len() && seen[k] == y;
                    assert(seen_next[k] == y);
                }
            }
        } else {
            order.insert(j, x);
            let ghost after = as_ints(order@);
            proof {
                before.insert_ensures(j as int, x as int);
                assert(after =~= before.insert(j as int, x as int));
                assert forall|a: int, b: int| 0 <= a < b < after.len() implies after[a]
                    < after[b] by {
                    if b < j {
                        assert(after[a] == before[a] && after[b] == before[b]);
                    } else if b == j {
                        assert(after[a] == before[a]);
                    } else if a < j {
                        assert(after[a] == before[a] && after[b] == before[b - 1]);
                    } else if a == j {
                        assert(after[b] == before[b - 1]);
                        assert(before[j as int] >= x);
                    } else {
                        assert(after[a] == before[a - 1] && after[b] == before[b - 1]);
                    }
                }
                assert forall|y: int| after.contains(y) <==> seen_next.contains(y) by {
                    if after.contains(y) {
                        let k = choose|k: int| 0 <= k < after.len() && after[k] == y;
                        if k == j {
                            assert(seen_next[i as int] == y);
                        } else {
                            let k0 = if k < j {
                                k
                            } else {
                                k - 1
                            };
                            assert(before[k0] == y);
                            assert(before.contains(y));
                            assert(seen.contains(y));
                            let m = choose|m: int| 0 <= m < seen.len() && seen[m] == y;
                            assert(seen_next[m] == y);
                        }
                    }
                    if seen_next.contains(y) {
                        let k = choose|k: int| 0 <= k < seen_next.len() && seen_next[k] == y;
                        if k < seen.len() {
                            assert(seen[k] == y);
                            assert(seen.contains(y));
                            assert(before.contains(y));
                            let m = choose|m: int| 0 <= m < before.len() && before[m] == y;
                            if m < j {
                                assert(after[m] == y);
                            } else {
                                assert(after[m + 1] == y);
                            }
                        } else {
                            assert(after[j as int] == y);
                        }
                    }
                }
            }
        }
        i += 1;
    }
    assert(ids@.take(i as int) =~= ids@);
    order
}

/// Taking one element out of a sequence lowers `count_below` by one exactly
/// when that element was below `a`.
proof fn lemma_count_below_remove(s: Seq<int>, j: int, a: int)
    requires
        0 <= j < s.len(),
    ensures
        count_below(s, a) == count_below(s.remove(j), a) + if s[j] < a {
            1nat
        } else {
            0nat
        },
    decreases s.len(),
{
    if j == s.len() - 1 {
        assert(s.remove(j) =~= s.drop_last());
    } else {
        lemma_count_below_remove(s.drop_last(), j, a);
        assert(s.remove(j).drop_last() =~= s.drop_last().remove(j));
        assert(s.remove(j).last() == s.last());
    }
}

/// Two duplicate-free sequences with the same members have the same length
/// and the same number of members below any bound.
pub proof fn lemma_same_members_same_counts(ids: Seq<int>, order: Seq<int>, a: int)
    requires
        ids.no_duplicates(),
        order.no_duplicates(),
        same_members(order, ids),
    ensures
        ids.len() == order.len(),
        count_below(ids, a) == count_below(order, a),
    decreases ids.len(),
{
    if ids.len() == 0 {
        if order.len() > 0 {
            assert(order.contains(order[0]));
            assert(ids.contains(order[0]));
        }
    } else {
        let x = ids.last();
        assert(ids.contains(x));
        assert(order.contains(x));
        let j = choose|j: int| 0 <= j < order.len() && order[j] == x;
        let rest = ids.drop_last();
        let others = order.remove(j);
        order.remove_ensures(j);
        assert forall|y: int| others.contains(y) <==> rest.contains(y) by {
            if others.contains(y) {
                let k = choose|k: int| 0 <= k < others.len() && others[k] == y;
                let k0 = if k < j {
                    k
                } else {
                    k + 1
                };
                assert(order[k0] == y);
                assert(order.contains(y));
                assert(ids.contains(y));
                let m = choose|m: int| 0 <= m < ids.len() && ids[m] == y;
                assert(m != ids.len() - 1);
                assert(rest[m] == y);
            }
            if rest.contains(y) {
                let m = choose|m: int| 0 <= m < rest.len() && rest[m] == y;
                assert(ids[m] == y);
                assert(ids.contains(y));
                assert(order.contains(y));
                let k = choose|k: int| 0 <= k < order.len() && order[k] == y;
                assert(k != j);
                if k < j {
                    assert(others[k] == y);
                } else {
                    assert(others[k - 1] == y);
                }
            }
        }
        lemma_same_members_same_counts(rest, others, a);
        lemma_count_below_remove(order, j, a);
    }
}

/// In an ascending sequence, exactly the elements before position `i` are
/// below the element at position `i`.
pub proof fn lemma_ascending_position_is_count(order: Seq<int>, i: int)
    requires
        strictly_ascending(order),
        0 <= i < order.len(),
    ensures
        count_below(order, order[i]) == i,
    decreases order.len(),
{
    lemma_count_below_split(order, i, order[i]);
}

/// If the first `i` elements are below `a` and the others are not, the count
/// is `i`.
proof fn lemma_count_below_split(s: Seq<int>, i: int, a: int)
    requires
        0 <= i <= s.len(),
        forall|k: int| 0 <= k < i ==> s[k] < a,
        forall|k: int| i <= k < s.len() ==> s[k] >= a,
    ensures
        count_below(s, a) == i,
    decreases s.len(),
{
    if s.len() > 0 {
        if i == s.len() {
            lemma_count_below_split(s.drop_last(), i - 1, a);
        } else {
            lemma_count_below_split(s.drop_last(), i, a);
        }
    }
}

/// The share index of an authority is its position in the ascending order
/// of the roster: on a roster without duplicates, the authority that stands
/// at position `i` of the ascending order has exactly `i` roster ids below
/// its own.
pub proof fn lemma_slot_is_ascending_position(ids: Seq<int>, order: Seq<int>, i: int)
    requires
        ids.no_duplicates(),
        is_ascending_order_of(order, ids),
        0 <= i < order.len(),
    ensures
        order.len() == ids.len(),
        count_below(ids, order[i]) == i,
{
    lemma_same_members_same_counts(ids, order, order[i]);
    lemma_ascending_position_is_count(order, i);
}

} // verus!
