//! Choosing which tests of a group are run.
use vstd::prelude::*;

use crate::cases::TestCase;

verus! {

/// Something that can be asked whether a test is to be run.
pub trait TestFilter<T> {
    /// The filter may be asked about this test.
    spec fn may_ask(&self, case: TestCase<T>) -> bool;

    /// The filter may give this answer.  A filter may depend on anything, so that it need not give
    /// the same answer every time.
    spec fn may_answer(&self, case: TestCase<T>, answer: bool) -> bool;

    /// Asks whether a test is to be run.
    fn lets_through(&self, case: &TestCase<T>) -> (answer: bool)
        requires
            self.may_ask(*case),
        ensures
            self.may_answer(*case, answer),
    ;
}

/// No filter: every test is run.
#[derive(Clone, Copy, Debug)]
pub struct Unfiltered;

impl<T> TestFilter<T> for Unfiltered {
    open spec fn may_ask(&self, case: TestCase<T>) -> bool {
        true
    }

    open spec fn may_answer(&self, case: TestCase<T>, answer: bool) -> bool {
        answer
    }

    fn lets_through(&self, case: &TestCase<T>) -> (answer: bool) {
        true
    }
}

/// A function that returns `true` for the tests that are to be run.
#[derive(Debug)]
pub struct FilteredBy<P> {
    /// The function.
    pub predicate: P,
}

impl<T, P: Fn(&TestCase<T>) -> bool> TestFilter<T> for FilteredBy<P> {
    open spec fn may_ask(&self, case: TestCase<T>) -> bool {
        call_requires(self.predicate, (&case,))
    }

    open spec fn may_answer(&self, case: TestCase<T>, answer: bool) -> bool {
        call_ensures(self.predicate, (&case,), answer)
    }

    fn lets_through(&self, case: &TestCase<T>) -> (answer: bool) {
        (self.predicate)(case)
    }
}

/// `keep` are the answers of a filter that was asked about each of the tests.
pub open spec fn answers<T, F: TestFilter<T>>(
    filter: F,
    cases: Seq<TestCase<T>>,
    keep: Seq<bool>,
) -> bool {
    &&& keep.len() == cases.len()
    &&& forall|i: int| 0 <= i < cases.len() ==> filter.may_answer(cases[i], #[trigger] keep[i])
}

/// The positions of the tests that are to be run, in order.
pub open spec fn chosen(keep: Seq<bool>) -> Seq<int> {
    Seq::new(keep.len(), |i: int| i).filter(|i: int| keep[i])
}

/// What is chosen when one more answer is known.
pub(crate) proof fn lemma_one_more_answer(keep: Seq<bool>, answer: bool)
    ensures
        chosen(keep.push(answer)) == if answer {
            chosen(keep).push(keep.len() as int)
        } else {
            chosen(keep)
        },
{
    reveal(Seq::filter);
    let more = keep.push(answer);
    let n = keep.len();
    let all = Seq::new(n, |i: int| i);
    let all_more = Seq::new(more.len(), |i: int| i);
    assert(all_more.drop_last() =~= all);
    assert(all_more.last() == n);
    lemma_filter_agrees(all, |i: int| keep[i], |i: int| more[i]);
}

/// Two conditions that agree on all items of a sequence choose the same items.
proof fn lemma_filter_agrees(s: Seq<int>, p: spec_fn(int) -> bool, q: spec_fn(int) -> bool)
    requires
        forall|i: int| 0 <= i < s.len() ==> p(#[trigger] s[i]) == q(s[i]),
    ensures
        s.filter(p) == s.filter(q),
    decreases s.len(),
{
    reveal(Seq::filter);
    if s.len() > 0 {
        assert(p(s[s.len() - 1]) == q(s[s.len() - 1]));
        assert forall|i: int| 0 <= i < s.drop_last().len() implies p(#[trigger] s.drop_last()[i])
            == q(s.drop_last()[i]) by {
            assert(s.drop_last()[i] == s[i]);
        }
        lemma_filter_agrees(s.drop_last(), p, q);
    }
}

/// Exactly the tests that the filter lets through are chosen, each of them once, and in the order in
/// which they were added.
pub proof fn filtering_chooses_exactly(keep: Seq<bool>)
    ensures
        forall|i: int| #[trigger] chosen(keep).contains(i) <==> 0 <= i < keep.len() && keep[i],
        forall|j: int, k: int|
            0 <= j < k < chosen(keep).len() ==> (#[trigger] chosen(keep)[j]) < (
            #[trigger] chosen(keep)[k]),
    decreases keep.len(),
{
    reveal(Seq::filter);
    if keep.len() > 0 {
        let fewer = keep.drop_last();
        let n = fewer.len() as int;
        filtering_chooses_exactly(fewer);
        lemma_one_more_answer(fewer, keep.last());
        assert(fewer.push(keep.last()) =~= keep);
        let before = chosen(fewer);
        let after = chosen(keep);
        assert forall|i: int| #[trigger] after.contains(i) <==> 0 <= i < keep.len() && keep[i] by {
            assert(before.contains(i) <==> 0 <= i < n && fewer[i]);
            if before.contains(i) {
                let j = choose|j: int| 0 <= j < before.len() && before[j] == i;
                assert(after[j] == i);
            }
            if after.contains(i) {
                let j = choose|j: int| 0 <= j < after.len() && after[j] == i;
                assert(j < before.len() ==> before[j] == i);
            }
            if i == n && keep[i] {
                assert(after[before.len() as int] == i);
            }
        }
        assert forall|j: int, k: int| 0 <= j < k < after.len() implies (#[trigger] after[j]) < (
        #[trigger] after[k]) by {
            assert(before.contains(before[j]));
            assert(j < before.len() ==> after[j] == before[j]);
            assert(k < before.len() ==> after[k] == before[k]);
        }
    }
}

/// Without a filter, all tests are chosen.
pub proof fn everything_is_chosen_without_a_filter<T>(cases: Seq<TestCase<T>>, keep: Seq<bool>)
    requires
        answers(Unfiltered, cases, keep),
    ensures
        chosen(keep) == Seq::new(cases.len(), |i: int| i),
{
    assert forall|i: int| 0 <= i < keep.len() implies keep[i] by {
        assert(Unfiltered.may_answer(cases[i], keep[i]));
    }
    lemma_everything_is_chosen(keep);
}

proof fn lemma_everything_is_chosen(keep: Seq<bool>)
    requires
        forall|i: int| 0 <= i < keep.len() ==> keep[i],
    ensures
        chosen(keep) == Seq::new(keep.len(), |i: int| i),
    decreases keep.len(),
{
    reveal(Seq::filter);
    if keep.len() > 0 {
        let fewer = keep.drop_last();
        lemma_everything_is_chosen(fewer);
        lemma_one_more_answer(fewer, keep.last());
        assert(fewer.push(keep.last()) =~= keep);
        assert(chosen(keep) =~= Seq::new(keep.len(), |i: int| i));
    } else {
        assert(chosen(keep) =~= Seq::new(keep.len(), |i: int| i));
    }
}

/// Without a filter every test is let through, and a function is asked as it is.
pub proof fn filters_answer_for_themselves<T, P: Fn(&TestCase<T>) -> bool>(
    case: TestCase<T>,
    filter: FilteredBy<P>,
    unfiltered: bool,
    filtered: bool,
)
    requires
        call_ensures(<Unfiltered as TestFilter<T>>::lets_through, (&Unfiltered, &case), unfiltered),
        call_ensures(<FilteredBy<P> as TestFilter<T>>::lets_through, (&filter, &case), filtered),
    ensures
        unfiltered,
        call_ensures(filter.predicate, (&case,), filtered),
{
}

} // verus!
