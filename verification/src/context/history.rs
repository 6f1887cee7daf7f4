//! What a suite owes to the tests that were added to it, one after the other.
use vstd::prelude::*;

use crate::cases::TestCase;

verus! {

/// All tests of `list` that were added under a key that is the same as `group`, in order.
pub open spec fn gathered<G, T>(
    same: spec_fn(G, G) -> bool,
    list: Seq<(G, Seq<TestCase<T>>)>,
    group: G,
) -> Seq<TestCase<T>>
    decreases list.len(),
{
    if list.len() == 0 {
        seq![]
    } else {
        let earlier = gathered(same, list.drop_last(), group);
        if same(list.last().0, group) {
            earlier + list.last().1
        } else {
            earlier
        }
    }
}

/// Something was added under a key that is the same as `group`.
pub open spec fn mentions<G, T>(
    same: spec_fn(G, G) -> bool,
    list: Seq<(G, Seq<TestCase<T>>)>,
    group: G,
) -> bool {
    exists|i: int| 0 <= i < list.len() && same((#[trigger] list[i]).0, group)
}

proof fn lemma_groups_hold_what_was_added<G: PartialEq, T>(
    same: spec_fn(G, G) -> bool,
    list: Seq<(G, Seq<TestCase<T>>)>,
    steps: Seq<Seq<(G, Seq<TestCase<T>>)>>,
    group: G,
    found: int,
)
    requires
        super::groups::compared_by(same),
        super::groups::added_in_turn(list, steps),
        steps.first().len() == 0,
        super::groups::first_same(same, steps.last(), group, found),
    ensures
        found < steps.last().len() <==> mentions(same, list, group),
        super::groups::cases_at(steps.last(), found) == gathered(same, list, group),
    decreases list.len(),
{
    if list.len() > 0 {
        let n = list.len() - 1;
        let before = steps[n];
        let (key, cases) = list[n];
        super::groups::lemma_earlier_groups(list, steps);
        let there = super::groups::lemma_some_position_is_first(same, before, group);
        lemma_groups_hold_what_was_added(same, list.drop_last(), steps.drop_last(), group, there);
        assert(mentions(same, list, group) <==> mentions(same, list.drop_last(), group) || same(
            key,
            group,
        )) by {
            if mentions(same, list.drop_last(), group) {
                let i = choose|i: int|
                    0 <= i < n && same((#[trigger] list.drop_last()[i]).0, group);
                assert(same(list[i].0, group));
            }
            if mentions(same, list, group) && !same(key, group) {
                let i = choose|i: int| 0 <= i <= n && same((#[trigger] list[i]).0, group);
                assert(same(list.drop_last()[i].0, group));
            }
        }
        assert(super::groups::added(steps[n], list[n].0, list[n].1, steps[n + 1]));
        let k = choose|k: int| #[trigger]
            super::groups::stands_at(before, key, k) && steps[n + 1] == super::groups::insert(before, key, k, cases);
        super::groups::lemma_stands_where_first(same, before, key, k);
        let after = super::groups::insert(before, key, k, cases);
        super::groups::lemma_shape_of_insert(before, key, k, cases);
        if same(key, group) {
            assert(same(group, key));
            if there < k {
                assert(same(before[there].0, group));
                assert(same(before[there].0, key));
            }
            if k < there {
                assert(same(before[k].0, key));
                assert(same(before[k].0, group));
            }
            assert(k == there);
            assert(same(after[k].0, group));
            if found < k {
                assert(same(after[found].0, group));
                assert(!same(before[found].0, group));
            }
            assert(found == k);
        } else {
            if k < before.len() && same(before[k].0, group) {
                assert(same(before[k].0, key));
                assert(same(key, before[k].0));
                assert(same(key, group));
            }
            if there < before.len() {
                assert(same(before[there].0, group));
                assert(same(after[there].0, group));
                if found < there {
                    assert(same(after[found].0, group));
                    assert(!same(before[found].0, group));
                }
                assert(found == there);
            } else if found < after.len() {
                assert(same(after[found].0, group));
                if found < before.len() {
                    assert(!same(before[found].0, group));
                }
            }
        }
    }
}

/// In a suite made by adding the tests of `list`, in turn and from nothing, a group is there exactly
/// if something was added to it, and it holds exactly the tests that were, in the order in which they
/// were added, and none of another group.
pub proof fn groups_hold_what_was_added<G: PartialEq, T>(
    same: spec_fn(G, G) -> bool,
    list: Seq<(G, Seq<TestCase<T>>)>,
    steps: Seq<Seq<(G, Seq<TestCase<T>>)>>,
    group: G,
    found: int,
)
    requires
        super::groups::compared_by(same),
        super::groups::added_in_turn(list, steps),
        steps.first().len() == 0,
        super::groups::stands_at(steps.last(), group, found),
    ensures
        found < steps.last().len() <==> mentions(same, list, group),
        super::groups::cases_at(steps.last(), found) == gathered(same, list, group),
{
    super::groups::lemma_stands_where_first(same, steps.last(), group, found);
    lemma_groups_hold_what_was_added(same, list, steps, group, found);
}

/// Adding the tests of `list`, in turn, gives every group what was added to it, behind what it had.
pub(crate) proof fn lemma_groups_gain_what_is_added<G: PartialEq, T>(
    same: spec_fn(G, G) -> bool,
    list: Seq<(G, Seq<TestCase<T>>)>,
    steps: Seq<Seq<(G, Seq<TestCase<T>>)>>,
    group: G,
    start: int,
    found: int,
)
    requires
        super::groups::compared_by(same),
        super::groups::added_in_turn(list, steps),
        super::groups::first_same(same, steps.first(), group, start),
        super::groups::first_same(same, steps.last(), group, found),
    ensures
        found < steps.last().len() <==> start < steps.first().len() || mentions(same, list, group),
        super::groups::cases_at(steps.last(), found) == super::groups::cases_at(
            steps.first(),
            start,
        ) + gathered(same, list, group),
    decreases list.len(),
{
    if list.len() > 0 {
        let n = list.len() - 1;
        let before = steps[n];
        let (key, cases) = list[n];
        super::groups::lemma_earlier_groups(list, steps);
        let there = super::groups::lemma_some_position_is_first(same, before, group);
        lemma_groups_gain_what_is_added(
            same,
            list.drop_last(),
            steps.drop_last(),
            group,
            start,
            there,
        );
        let at_first = super::groups::cases_at(steps.first(), start);
        let so_far = gathered(same, list.drop_last(), group);
        assert((at_first + so_far) + cases =~= at_first + (so_far + cases));
        assert(mentions(same, list, group) <==> mentions(same, list.drop_last(), group) || same(
            key,
            group,
        )) by {
            if mentions(same, list.drop_last(), group) {
                let i = choose|i: int|
                    0 <= i < n && same((#[trigger] list.drop_last()[i]).0, group);
                assert(same(list[i].0, group));
            }
            if mentions(same, list, group) && !same(key, group) {
                let i = choose|i: int| 0 <= i <= n && same((#[trigger] list[i]).0, group);
                assert(same(list.drop_last()[i].0, group));
            }
        }
        assert(super::groups::added(steps[n], list[n].0, list[n].1, steps[n + 1]));
        let k = choose|k: int| #[trigger]
            super::groups::stands_at(before, key, k) && steps[n + 1] == super::groups::insert(before, key, k, cases);
        super::groups::lemma_stands_where_first(same, before, key, k);
        let after = super::groups::insert(before, key, k, cases);
        super::groups::lemma_shape_of_insert(before, key, k, cases);
        if same(key, group) {
            assert(same(group, key));
            if there < k {
                assert(same(before[there].0, group));
                assert(same(before[there].0, key));
            }
            if k < there {
                assert(same(before[k].0, key));
                assert(same(before[k].0, group));
            }
            assert(k == there);
            assert(same(after[k].0, group));
            if found < k {
                assert(same(after[found].0, group));
                assert(!same(before[found].0, group));
            }
            assert(found == k);
        } else {
            if k < before.len() && same(before[k].0, group) {
                assert(same(before[k].0, key));
                assert(same(key, before[k].0));
                assert(same(key, group));
            }
            if there < before.len() {
                assert(same(before[there].0, group));
                assert(same(after[there].0, group));
                if found < there {
                    assert(same(after[found].0, group));
                    assert(!same(before[found].0, group));
                }
                assert(found == there);
            } else if found < after.len() {
                assert(same(after[found].0, group));
                if found < before.len() {
                    assert(!same(before[found].0, group));
                }
            }
        }
    } else {
        let groups = steps.first();
        if start < found {
            assert(!same(groups[start].0, group));
        }
        if found < start {
            assert(!same(groups[found].0, group));
        }
        assert(super::groups::cases_at(groups, start) + gathered(same, list, group)
            =~= super::groups::cases_at(groups, start));
    }
}

} // verus!
