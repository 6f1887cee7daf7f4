//! The tests of a suite, kept by group.
//!
//! The groups are a list: nothing is asked of a key but `==`, so that what is promised holds for keys
//! of every type.
use vstd::prelude::*;

use crate::cases::TestCase;

verus! {

/// The tests of one group, in the order in which they were added.
#[derive(Debug)]
pub struct TestGroup<G, T> {
    /// The key of the group.
    pub group: G,
    /// The tests.
    pub cases: Vec<TestCase<T>>,
}

/// The groups of a suite as plain sequences: each key with its tests.
pub open spec fn contents<G, T>(groups: Seq<TestGroup<G, T>>) -> Seq<(G, Seq<TestCase<T>>)> {
    groups.map_values(|g: TestGroup<G, T>| (g.group, g.cases@))
}

/// `a == b` may answer `r`.
pub open spec fn keys_answer<G: PartialEq>(a: G, b: G, r: bool) -> bool {
    call_ensures(<G as PartialEq>::eq, (&a, &b), r)
}

/// Position `k` is where the tests of `group` stand: the first group whose key answered that it is
/// equal to `group`, or the end if none did.
pub open spec fn stands_at<G: PartialEq, T>(
    groups: Seq<(G, Seq<TestCase<T>>)>,
    group: G,
    k: int,
) -> bool {
    &&& 0 <= k <= groups.len()
    &&& forall|j: int| 0 <= j < k ==> keys_answer((#[trigger] groups[j]).0, group, false)
    &&& k < groups.len() ==> keys_answer(groups[k].0, group, true)
}

/// The groups after `cases` have been added to the group at position `k`, or as a new group
/// behind all others if there is none.
pub open spec fn insert<G, T>(
    groups: Seq<(G, Seq<TestCase<T>>)>,
    group: G,
    k: int,
    cases: Seq<TestCase<T>>,
) -> Seq<(G, Seq<TestCase<T>>)> {
    if k < groups.len() {
        groups.update(k, (groups[k].0, groups[k].1 + cases))
    } else {
        groups.push((group, cases))
    }
}

/// `after` is `before` with `cases` added to `group`.
pub open spec fn added<G: PartialEq, T>(
    before: Seq<(G, Seq<TestCase<T>>)>,
    group: G,
    cases: Seq<TestCase<T>>,
    after: Seq<(G, Seq<TestCase<T>>)>,
) -> bool {
    exists|k: int| #[trigger]
        stands_at(before, group, k) && after == insert(before, group, k, cases)
}

/// `steps` leads from one state of the groups to another by adding the tests of `list`, one group
/// after the other.
pub open spec fn added_in_turn<G: PartialEq, T>(
    list: Seq<(G, Seq<TestCase<T>>)>,
    steps: Seq<Seq<(G, Seq<TestCase<T>>)>>,
) -> bool {
    &&& steps.len() == list.len() + 1
    &&& forall|i: int|
        0 <= i < list.len() ==> added(steps[i], (#[trigger] list[i]).0, list[i].1, steps[i + 1])
}

/// No two groups have the same key: each key answered that it differs from every later one.
pub open spec fn distinct<G: PartialEq, T>(groups: Seq<(G, Seq<TestCase<T>>)>) -> bool {
    forall|i: int, j: int|
        0 <= i < j < groups.len() ==> keys_answer((#[trigger] groups[i]).0, (#[trigger] groups[j]).0, false)
}

/// Finds where the tests of a group stand.
pub(crate) fn find_group<G: Eq, T>(groups: &Vec<TestGroup<G, T>>, group: &G) -> (k: usize)
    ensures
        stands_at(contents(groups@), *group, k as int),
{
    let mut k: usize = 0;
    while k < groups.len()
        invariant
            k <= groups.len(),
            forall|j: int|
                0 <= j < k ==> keys_answer((#[trigger] contents(groups@)[j]).0, *group, false),
        decreases groups.len() - k,
    {
        assert(contents(groups@)[k as int].0 == groups[k as int].group);
        if groups[k].group.eq(group) {
            return k;
        }
        k = k + 1;
    }
    k
}

/// Adds tests to a group.
pub(crate) fn add_cases<G: Eq, T>(
    groups: &mut Vec<TestGroup<G, T>>,
    group: G,
    cases: Vec<TestCase<T>>,
)
    ensures
        added(contents(old(groups)@), group, cases@, contents(final(groups)@)),
        distinct(contents(old(groups)@)) ==> distinct(contents(final(groups)@)),
        final(groups).len() > 0,
{
    let ghost before = contents(groups@);
    let mut cases = cases;
    let ghost new_cases = cases@;
    let k: usize = find_group(groups, &group);
    if k < groups.len() {
        groups[k].cases.append(&mut cases);
    } else {
        groups.push(TestGroup { group, cases });
    }
    proof {
        assert(contents(groups@) =~= insert(before, group, k as int, new_cases));
        if distinct(before) {
            adding_keeps_groups_distinct(before, group, k as int, new_cases);
        }
    }
}

/// Adding tests to a group keeps all keys where they are, puts the tests behind those that the group
/// had, and leaves the tests of the other groups alone.
pub(crate) proof fn lemma_shape_of_insert<G, T>(
    groups: Seq<(G, Seq<TestCase<T>>)>,
    group: G,
    k: int,
    cases: Seq<TestCase<T>>,
)
    requires
        0 <= k <= groups.len(),
    ensures
        insert(groups, group, k, cases).len() == if k < groups.len() {
            groups.len()
        } else {
            groups.len() + 1
        },
        forall|j: int|
            0 <= j < groups.len() ==> (#[trigger] insert(groups, group, k, cases)[j]).0
                == groups[j].0,
        forall|j: int|
            0 <= j < groups.len() && j != k ==> (#[trigger] insert(groups, group, k, cases)[j]).1
                == groups[j].1,
        k == groups.len() ==> insert(groups, group, k, cases)[k].0 == group,
        cases_at(insert(groups, group, k, cases), k) == cases_at(groups, k) + cases,
{
    assert(cases_at(insert(groups, group, k, cases), k) =~= cases_at(groups, k) + cases);
}

/// However tests are added, no two groups ever have the same key.
pub proof fn adding_keeps_groups_distinct<G: PartialEq, T>(
    groups: Seq<(G, Seq<TestCase<T>>)>,
    group: G,
    k: int,
    cases: Seq<TestCase<T>>,
)
    requires
        distinct(groups),
        stands_at(groups, group, k),
    ensures
        distinct(insert(groups, group, k, cases)),
{
    let after = insert(groups, group, k, cases);
    assert forall|i: int, j: int| 0 <= i < j < after.len() implies keys_answer(
        (#[trigger] after[i]).0,
        (#[trigger] after[j]).0,
        false,
    ) by {
        assert(i < groups.len() ==> after[i].0 == groups[i].0);
        if j < groups.len() {
            assert(after[j].0 == groups[j].0);
            assert(keys_answer(groups[i].0, groups[j].0, false));
        } else {
            assert(keys_answer(groups[i].0, group, false));
        }
    }
}

/// The keys are compared by the equivalence `same`: whatever `==` answers, it answers that.
pub open spec fn compared_by<G: PartialEq>(same: spec_fn(G, G) -> bool) -> bool {
    &&& forall|a: G, b: G, r: bool| #[trigger] keys_answer(a, b, r) ==> r == same(a, b)
    &&& forall|a: G| #[trigger] same(a, a)
    &&& forall|a: G, b: G| #[trigger] same(a, b) ==> same(b, a)
    &&& forall|a: G, b: G, c: G| #[trigger] same(a, b) && #[trigger] same(b, c) ==> same(a, c)
}

/// The tests of a group: those that stand at its position, or none.
pub open spec fn cases_at<G, T>(groups: Seq<(G, Seq<TestCase<T>>)>, k: int) -> Seq<TestCase<T>> {
    if k < groups.len() {
        groups[k].1
    } else {
        seq![]
    }
}

/// What has been added to a group is found there again, behind the tests that the group had.
pub proof fn added_tests_are_found<G: PartialEq, T>(
    same: spec_fn(G, G) -> bool,
    groups: Seq<(G, Seq<TestCase<T>>)>,
    group: G,
    k: int,
    cases: Seq<TestCase<T>>,
    found: int,
)
    requires
        compared_by(same),
        stands_at(groups, group, k),
        stands_at(insert(groups, group, k, cases), group, found),
    ensures
        found == k,
        found < insert(groups, group, k, cases).len(),
        cases_at(insert(groups, group, k, cases), found) == cases_at(groups, k) + cases,
{
    let after = insert(groups, group, k, cases);
    assert(forall|j: int| 0 <= j < k ==> (#[trigger] after[j]).0 == groups[j].0);
    if found < k {
        assert(keys_answer(after[found].0, group, true));
        assert(keys_answer(groups[found].0, group, false));
    }
    if found > k {
        assert(keys_answer(after[k].0, group, false));
        if k < groups.len() {
            assert(keys_answer(groups[k].0, group, true));
        } else {
            assert(same(group, group));
        }
    }
    assert(cases_at(after, found) =~= cases_at(groups, k) + cases);
}

/// Adding tests to one group leaves every other group alone.
pub proof fn other_groups_are_untouched<G: PartialEq, T>(
    same: spec_fn(G, G) -> bool,
    groups: Seq<(G, Seq<TestCase<T>>)>,
    group: G,
    k: int,
    cases: Seq<TestCase<T>>,
    other: G,
    there: int,
    found: int,
)
    requires
        compared_by(same),
        !same(group, other),
        stands_at(groups, group, k),
        stands_at(groups, other, there),
        stands_at(insert(groups, group, k, cases), other, found),
    ensures
        there < groups.len() <==> found < insert(groups, group, k, cases).len(),
        cases_at(insert(groups, group, k, cases), found) == cases_at(groups, there),
{
    let after = insert(groups, group, k, cases);
    assert(forall|j: int| 0 <= j < groups.len() ==> (#[trigger] after[j]).0 == groups[j].0);
    if k < groups.len() {
        assert(keys_answer(groups[k].0, group, true));
        assert(same(groups[k].0, group));
        if same(groups[k].0, other) {
            assert(same(group, groups[k].0));
            assert(same(group, other));
        }
    }
    if there < groups.len() {
        assert(keys_answer(groups[there].0, other, true));
        assert(same(groups[there].0, other));
        if found < there {
            assert(keys_answer(after[found].0, other, true));
            assert(keys_answer(groups[found].0, other, false));
        }
        if found > there {
            assert(keys_answer(after[there].0, other, false));
        }
        assert(found == there && there != k);
    } else {
        if found < after.len() {
            assert(keys_answer(after[found].0, other, true));
            assert(same(after[found].0, other));
            if found < groups.len() {
                assert(keys_answer(groups[found].0, other, false));
            } else {
                assert(after[found].0 == group);
            }
        }
    }
}

/// Adding tests one after the other is the same as adding them together.
pub proof fn adding_in_steps_is_adding_at_once<G: PartialEq, T>(
    same: spec_fn(G, G) -> bool,
    groups: Seq<(G, Seq<TestCase<T>>)>,
    group: G,
    k: int,
    first: Seq<TestCase<T>>,
    then_at: int,
    second: Seq<TestCase<T>>,
)
    requires
        compared_by(same),
        stands_at(groups, group, k),
        stands_at(insert(groups, group, k, first), group, then_at),
    ensures
        insert(insert(groups, group, k, first), group, then_at, second) == insert(
            groups,
            group,
            k,
            first + second,
        ),
{
    added_tests_are_found(same, groups, group, k, first, then_at);
    let stepwise = insert(insert(groups, group, k, first), group, then_at, second);
    let at_once = insert(groups, group, k, first + second);
    if k < groups.len() {
        assert((groups[k].1 + first) + second =~= groups[k].1 + (first + second));
    }
    assert(stepwise =~= at_once);
}

/// Position `k` is that of the first group whose key is the same as `group`, or the end if there is
/// none.
pub open spec fn first_same<G, T>(
    same: spec_fn(G, G) -> bool,
    groups: Seq<(G, Seq<TestCase<T>>)>,
    group: G,
    k: int,
) -> bool {
    &&& 0 <= k <= groups.len()
    &&& forall|j: int| 0 <= j < k ==> !same((#[trigger] groups[j]).0, group)
    &&& k < groups.len() ==> same(groups[k].0, group)
}

/// A group stands where its key is first.
pub(crate) proof fn lemma_stands_where_first<G: PartialEq, T>(
    same: spec_fn(G, G) -> bool,
    groups: Seq<(G, Seq<TestCase<T>>)>,
    group: G,
    k: int,
)
    requires
        compared_by(same),
        stands_at(groups, group, k),
    ensures
        first_same(same, groups, group, k),
{
    assert forall|j: int| 0 <= j < k implies !same((#[trigger] groups[j]).0, group) by {
        assert(keys_answer(groups[j].0, group, false));
    }
    if k < groups.len() {
        assert(keys_answer(groups[k].0, group, true));
    }
}

/// There is a position where a key is first.
pub(crate) proof fn lemma_some_position_is_first<G, T>(
    same: spec_fn(G, G) -> bool,
    groups: Seq<(G, Seq<TestCase<T>>)>,
    group: G,
) -> (k: int)
    ensures
        first_same(same, groups, group, k),
    decreases groups.len(),
{
    if groups.len() == 0 {
        0
    } else {
        let before = groups.drop_last();
        let k = lemma_some_position_is_first(same, before, group);
        assert forall|j: int| 0 <= j < k implies !same((#[trigger] groups[j]).0, group) by {
            assert(groups[j] == before[j]);
        }
        if k < before.len() || same(groups.last().0, group) {
            k
        } else {
            k + 1
        }
    }
}

/// Keys that are the same find the same group, wherever it stands.
pub proof fn same_keys_find_the_same_group<G: PartialEq, T>(
    same: spec_fn(G, G) -> bool,
    groups: Seq<(G, Seq<TestCase<T>>)>,
    group: G,
    k: int,
    other: G,
    m: int,
)
    requires
        compared_by(same),
        same(group, other),
        stands_at(groups, group, k),
        stands_at(groups, other, m),
    ensures
        k == m,
{
    lemma_stands_where_first(same, groups, group, k);
    lemma_stands_where_first(same, groups, other, m);
    assert(same(other, group));
    if k < m {
        assert(same(groups[k].0, group));
        assert(same(groups[k].0, other));
    }
    if m < k {
        assert(same(groups[m].0, other));
        assert(same(groups[m].0, group));
    }
}

/// There is only one outcome of adding tests to a group.
proof fn lemma_adding_has_one_outcome<G: PartialEq, T>(
    same: spec_fn(G, G) -> bool,
    groups: Seq<(G, Seq<TestCase<T>>)>,
    group: G,
    cases: Seq<TestCase<T>>,
    after: Seq<(G, Seq<TestCase<T>>)>,
    other: Seq<(G, Seq<TestCase<T>>)>,
)
    requires
        compared_by(same),
        added(groups, group, cases, after),
        added(groups, group, cases, other),
    ensures
        after == other,
{
    let k = choose|k: int| #[trigger]
        stands_at(groups, group, k) && after == insert(groups, group, k, cases);
    let m = choose|m: int| #[trigger]
        stands_at(groups, group, m) && other == insert(groups, group, m, cases);
    assert(same(group, group));
    same_keys_find_the_same_group(same, groups, group, k, group, m);
}

/// Adding tests to a group one by one, which leads through `steps`, is the same as adding all of them
/// together.
pub proof fn adding_one_by_one_is_adding_together<G: PartialEq, T>(
    same: spec_fn(G, G) -> bool,
    group: G,
    cases: Seq<TestCase<T>>,
    steps: Seq<Seq<(G, Seq<TestCase<T>>)>>,
    after: Seq<(G, Seq<TestCase<T>>)>,
)
    requires
        compared_by(same),
        cases.len() > 0,
        steps.len() == cases.len() + 1,
        forall|i: int|
            0 <= i < cases.len() ==> added(steps[i], group, seq![#[trigger] cases[i]], steps[i + 1]),
        added(steps.first(), group, cases, after),
    ensures
        steps.last() == after,
    decreases cases.len(),
{
    let groups = steps.first();
    let n = cases.len() - 1;
    assert(added(steps[n], group, seq![cases[n]], steps[n + 1]));
    if n == 0 {
        assert(cases =~= seq![cases[0]]);
        lemma_adding_has_one_outcome(same, groups, group, cases, steps.last(), after);
    } else {
        let earlier = cases.drop_last();
        let k = choose|k: int| #[trigger]
            stands_at(groups, group, k) && after == insert(groups, group, k, cases);
        let mid = insert(groups, group, k, earlier);
        assert(added(groups, group, earlier, mid));
        assert forall|i: int| 0 <= i < earlier.len() implies added(
            steps.drop_last()[i],
            group,
            seq![#[trigger] earlier[i]],
            steps.drop_last()[i + 1],
        ) by {
            assert(earlier[i] == cases[i]);
        }
        adding_one_by_one_is_adding_together(same, group, earlier, steps.drop_last(), mid);
        assert(steps[n] == mid);
        let m = choose|m: int| #[trigger]
            stands_at(mid, group, m) && steps[n + 1] == insert(mid, group, m, seq![cases[n]]);
        adding_in_steps_is_adding_at_once(same, groups, group, k, earlier, m, seq![cases[n]]);
        assert(earlier + seq![cases[n]] =~= cases);
    }
}

/// Adding an empty list of tests makes sure that the group is there, and adds nothing to it.
pub proof fn adding_nothing_makes_a_group<G: PartialEq, T>(
    same: spec_fn(G, G) -> bool,
    groups: Seq<(G, Seq<TestCase<T>>)>,
    group: G,
    there: int,
    after: Seq<(G, Seq<TestCase<T>>)>,
    found: int,
)
    requires
        compared_by(same),
        added(groups, group, seq![], after),
        stands_at(groups, group, there),
        stands_at(after, group, found),
    ensures
        found < after.len(),
        cases_at(after, found) == cases_at(groups, there),
{
    let k = choose|k: int| #[trigger]
        stands_at(groups, group, k) && after == insert(groups, group, k, seq![]);
    assert(same(group, group));
    same_keys_find_the_same_group(same, groups, group, k, group, there);
    added_tests_are_found(same, groups, group, k, seq![], found);
    assert(cases_at(groups, k) + seq![] =~= cases_at(groups, k));
}

/// Adding several groups together is the same as adding them in turn: there is only one way for it to
/// go.
pub proof fn adding_groups_has_one_outcome<G: PartialEq, T>(
    same: spec_fn(G, G) -> bool,
    list: Seq<(G, Seq<TestCase<T>>)>,
    steps: Seq<Seq<(G, Seq<TestCase<T>>)>>,
    other_steps: Seq<Seq<(G, Seq<TestCase<T>>)>>,
)
    requires
        compared_by(same),
        added_in_turn(list, steps),
        added_in_turn(list, other_steps),
        steps.first() == other_steps.first(),
    ensures
        steps == other_steps,
    decreases list.len(),
{
    if list.len() > 0 {
        let n = list.len() - 1;
        lemma_earlier_groups(list, steps);
        lemma_earlier_groups(list, other_steps);
        adding_groups_has_one_outcome(
            same,
            list.drop_last(),
            steps.drop_last(),
            other_steps.drop_last(),
        );
        assert(steps[n] == steps.drop_last()[n] && other_steps[n] == other_steps.drop_last()[n]);
        assert(list[n] == list.last());
        lemma_adding_has_one_outcome(
            same,
            steps[n],
            list[n].0,
            list[n].1,
            steps[n + 1],
            other_steps[n + 1],
        );
        assert(steps =~= steps.drop_last().push(steps[n + 1]));
        assert(other_steps =~= other_steps.drop_last().push(other_steps[n + 1]));
    } else {
        assert(steps =~= other_steps);
    }
}

/// All groups but the last were added in turn, too.
pub(crate) proof fn lemma_earlier_groups<G: PartialEq, T>(
    list: Seq<(G, Seq<TestCase<T>>)>,
    steps: Seq<Seq<(G, Seq<TestCase<T>>)>>,
)
    requires
        list.len() > 0,
        added_in_turn(list, steps),
    ensures
        added_in_turn(list.drop_last(), steps.drop_last()),
{
    let earlier = list.drop_last();
    assert forall|i: int| 0 <= i < earlier.len() implies added(
        steps.drop_last()[i],
        (#[trigger] earlier[i]).0,
        earlier[i].1,
        steps.drop_last()[i + 1],
    ) by {
        assert(earlier[i] == list[i]);
    }
}

/// Keys are compared with `==`, the key of the group on the left, and with nothing else.
pub proof fn keys_are_compared_with_equality<G: PartialEq>(a: G, b: G, r: bool)
    ensures
        keys_answer(a, b, r) <==> call_ensures(<G as PartialEq>::eq, (&a, &b), r),
{
}

} // verus!
