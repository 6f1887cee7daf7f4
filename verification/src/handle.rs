//! Tests that are being run, and the collection of their results.
use std::marker::PhantomData;
use std::path::PathBuf;

use vstd::prelude::*;

use crate::cases::{OutputValidator, TestCase};
use crate::error::SpawnTestError;
use crate::filter::Unfiltered;
use crate::process::{CommandOutcome, CommandPlan};
use crate::result::{CompileResult, TestResult, TestResultState};

verus! {

/// One test that has to be run.
pub struct TestJob<T> {
    /// The index of the test in its group.
    pub index: usize,
    /// The test.
    pub case: TestCase<T>,
    /// Whether white space around the output of the program is ignored.
    pub trim_output: bool,
    /// How the program is run, unless the command is invalid.
    pub plan: Option<CommandPlan>,
}

/// Whether what a program printed is what was expected; `None` if it printed no text.
pub open spec fn accepted<T>(case: TestCase<T>, trim_output: bool, text: Option<Seq<char>>) -> Option<
    bool,
> {
    match text {
        Some(text) => Some(case.output.accepts(OutputValidator::relevant(trim_output, text))),
        None => None,
    }
}

/// A test passes exactly if the program ended in time and with exit status 0, and what it printed is
/// text that fulfils the expectation.
pub proof fn passing_means_printing_what_was_expected<T>(
    case: TestCase<T>,
    trim_output: bool,
    timed_out: bool,
    status: i32,
    text: Option<Seq<char>>,
)
    ensures
        TestResultState::verdict(timed_out, status, accepted(case, trim_output, text)) is Pass <==> {
            &&& !timed_out
            &&& status == 0
            &&& text is Some
            &&& case.output.accepts(OutputValidator::relevant(trim_output, text->0))
        },
{
}

/// If output is trimmed, white space around it does not count.
pub proof fn trimmed_output_may_be_padded<T>(
    case: TestCase<T>,
    before: Seq<char>,
    text: Seq<char>,
    after: Seq<char>,
)
    requires
        forall|i: int| 0 <= i < before.len() ==> crate::text::white_space(before[i]),
        forall|i: int| 0 <= i < after.len() ==> crate::text::white_space(after[i]),
    ensures
        accepted(case, true, Some(before + text + after)) == accepted(case, true, Some(text)),
{
    crate::text::surrounding_white_space_is_ignored(before, text, after);
}

impl<T> TestJob<T> {
    /// How the program is run.
    pub fn command(&self) -> (r: Result<&CommandPlan, SpawnTestError>)
        ensures
            match self.plan {
                Some(plan) => r matches Ok(p) && *p == plan,
                None => r matches Err(SpawnTestError::InvalidCommand),
            },
    {
        match &self.plan {
            Some(plan) => Ok(plan),
            None => Err(SpawnTestError::InvalidCommand),
        }
    }

    /// Judges the test by what came of running the program.
    pub fn finish(self, outcome: CommandOutcome) -> (r: Result<TestResult<T>, SpawnTestError>)
        ensures
            match outcome {
                CommandOutcome::SpawnFailed(error) => r matches Err(SpawnTestError::SpawnFail(e))
                    && e == error,
                CommandOutcome::FeedFailed(error) => r matches Err(
                    SpawnTestError::WriteStdinFail(e),
                ) && e == error,
                CommandOutcome::WaitFailed(error) => r matches Err(SpawnTestError::WaitFail(e))
                    && e == error,
                CommandOutcome::Finished { output, timed_out, time_taken } => r == Ok::<
                    TestResult<T>,
                    SpawnTestError,
                >(
                    TestResult {
                        index: self.index,
                        data: Some(self.case.data),
                        output,
                        state: TestResultState::verdict(
                            timed_out,
                            output.status,
                            accepted(self.case, self.trim_output, output.stdout.text()),
                        ),
                        time_taken,
                    },
                ),
            },
    {
        match outcome {
            CommandOutcome::SpawnFailed(error) => Err(SpawnTestError::SpawnFail(error)),
            CommandOutcome::FeedFailed(error) => Err(SpawnTestError::WriteStdinFail(error)),
            CommandOutcome::WaitFailed(error) => Err(SpawnTestError::WaitFail(error)),
            CommandOutcome::Finished { output, timed_out, time_taken } => {
                let TestJob { index, case, trim_output, plan } = self;
                let TestCase { input, output: expected_output, data } = case;
                let accepted: Option<bool> = match output.stdout.as_str() {
                    Some(stdout) => {
                        let validator = OutputValidator { trim_output, expected_output };
                        Some(validator.is_valid(stdout))
                    },
                    None => None,
                };
                let state = TestResultState::judge(timed_out, output.status, accepted);
                Ok(TestResult { index, data: Some(data), output, state, time_taken })
            },
        }
    }
}

/// A handle to a set of running tests.  Tests can either be waited on one-at-a-time (using
/// [`TestHandle::wait_next`]), or in bulk (using [`TestHandle::wait_all`]).
pub struct TestHandle<T> {
    test_count: usize,
    tests_left: usize,
    compile_result: Option<CompileResult>,
    cwd: PathBuf,
    results: PhantomData<T>,
}

/// What a [`TestHandle`] knows.
pub struct HandleView {
    /// The number of tests.
    pub test_count: usize,
    /// The number of tests whose results have not been collected.
    pub tests_left: usize,
    /// The result of the compilation step.
    pub compile_result: Option<CompileResult>,
    /// The directory in which the tests are run.
    pub cwd: PathBuf,
}

impl<T> View for TestHandle<T> {
    type V = HandleView;

    closed spec fn view(&self) -> HandleView {
        HandleView {
            test_count: self.test_count,
            tests_left: self.tests_left,
            compile_result: self.compile_result,
            cwd: self.cwd,
        }
    }
}

/// What came of waiting for any of the running tasks: `None` if there was none left.
pub type Joined<T> = Option<Result<Result<TestResult<T>, SpawnTestError>, tokio::task::JoinError>>;

/// What waiting for the next test gives.
pub open spec fn next_result<T>(joined: Joined<T>) -> Result<Option<TestResult<T>>, SpawnTestError> {
    match joined {
        Some(Err(error)) => Err(SpawnTestError::JoinError(error)),
        Some(Ok(Ok(result))) => Ok(Some(result)),
        Some(Ok(Err(error))) => Err(error),
        None => Ok(None),
    }
}

/// The handle after it has heard of a task that ended.
pub open spec fn after_joining<T>(handle: HandleView, joined: Joined<T>) -> HandleView {
    if joined is Some {
        HandleView { tests_left: (handle.tests_left - 1) as usize, ..handle }
    } else {
        handle
    }
}

impl<T> TestHandle<T> {
    #[verifier::type_invariant]
    spec fn consistent(self) -> bool {
        self.tests_left <= self.test_count
    }

    pub(crate) fn new(test_count: usize, compile_result: Option<CompileResult>, cwd: PathBuf) -> (r:
        TestHandle<T>)
        ensures
            r@ == (HandleView { test_count, tests_left: test_count, compile_result, cwd }),
    {
        TestHandle { test_count, tests_left: test_count, compile_result, cwd, results: PhantomData }
    }

    /// Get the quantity of tests that are still running or haven't been collected using
    /// [`TestHandle::wait_next`].
    pub fn tests_left(&self) -> (r: usize)
        ensures
            r == self@.tests_left,
            r <= self@.test_count,
    {
        proof {
            use_type_invariant(self);
        }
        self.tests_left
    }

    /// Get the total quantity of test cases that this test handle keeps track of.
    pub fn test_count(&self) -> (r: usize)
        ensures
            r == self@.test_count,
    {
        self.test_count
    }

    /// Get the result of the compilation step.  This returns `None` if the tests did not need a
    /// compile step.
    pub fn compile_result(&self) -> (r: Option<&CompileResult>)
        ensures
            r is Some <==> self@.compile_result is Some,
            r matches Some(result) ==> Some(*result) == self@.compile_result,
    {
        self.compile_result.as_ref()
    }

    /// Get the directory in which the tests are being run.
    pub fn cwd(&self) -> (r: &PathBuf)
        ensures
            *r == self@.cwd,
    {
        &self.cwd
    }

    /// Reads what came of waiting for the next test to finish.  The test results are _not_
    /// ordered, but the index may be received from [`TestResult::index`].
    ///
    /// There was nothing to wait for exactly if no tests were left.
    pub fn wait_next(&mut self, joined: Joined<T>) -> (r: Result<
        Option<TestResult<T>>,
        SpawnTestError,
    >)
        requires
            joined is None <==> old(self)@.tests_left == 0,
        ensures
            r == next_result(joined),
            (r matches Ok(None)) <==> old(self)@.tests_left == 0,
            final(self)@ == after_joining(old(self)@, joined),
            old(self)@.tests_left > 0 ==> final(self)@.tests_left == old(self)@.tests_left - 1,
    {
        proof {
            use_type_invariant(&*self);
        }
        match joined {
            Some(Err(error)) => {
                self.tests_left = self.tests_left - 1;
                Err(SpawnTestError::JoinError(error))
            },
            Some(Ok(result)) => {
                self.tests_left = self.tests_left - 1;
                match result {
                    Ok(result) => Ok(Some(result)),
                    Err(error) => Err(error),
                }
            },
            None => Ok(None),
        }
    }

    /// Starts waiting for all tests to complete.
    pub fn wait_all(&self) -> (r: WaitAll<T>)
        ensures
            r@ == Seq::<TestResult<T>>::empty(),
    {
        WaitAll { results: Vec::new() }
    }
}

/// `handles` are the states of a handle, before the first of the calls of [`TestHandle::wait_next`]
/// that read `joins` and after each of them.
pub open spec fn waits_in_turn<T>(joins: Seq<Joined<T>>, handles: Seq<HandleView>) -> bool {
    &&& handles.len() == joins.len() + 1
    &&& forall|i: int|
        0 <= i < joins.len() ==> {
            &&& (#[trigger] joins[i]) is None <==> handles[i].tests_left == 0
            &&& handles[i + 1] == after_joining(handles[i], joins[i])
        }
}

/// As many tests as are left take as many calls, whether they end well or not: these calls, and no
/// others, give something other than `Ok(None)`.  Each of them leaves one test less, and nothing else
/// about the handle ever changes.
pub proof fn every_test_takes_one_call<T>(joins: Seq<Joined<T>>, handles: Seq<HandleView>, i: int)
    requires
        waits_in_turn(joins, handles),
        0 <= i <= joins.len(),
    ensures
        handles[i] == (HandleView {
            tests_left: (if i <= handles[0].tests_left {
                handles[0].tests_left - i
            } else {
                0
            }) as usize,
            ..handles[0]
        }),
        i < joins.len() ==> (next_result(joins[i]) == Ok::<Option<TestResult<T>>, SpawnTestError>(None)
            <==> i >= handles[0].tests_left),
    decreases i,
{
    if i > 0 {
        every_test_takes_one_call(joins, handles, i - 1);
        assert(handles[i - 1 + 1] == after_joining(handles[i - 1], joins[i - 1]));
    }
}

/// No test reports twice.  Call `i` reads what became of the job at position `who[i]`, and every job
/// is joined once; then no two results have the same index.
pub proof fn no_index_is_reported_twice<G, T: Clone, F>(
    environment: crate::compile::EnvironmentView<G, T, F>,
    keep: Seq<bool>,
    jobs: Seq<TestJob<T>>,
    joins: Seq<Joined<T>>,
    who: Seq<int>,
    i: int,
    j: int,
)
    requires
        crate::compile::jobs_for(environment, keep, jobs),
        who.len() == joins.len(),
        who.no_duplicates(),
        forall|k: int|
            0 <= k < who.len() ==> 0 <= #[trigger] who[k] < jobs.len() && (joins[k] matches Some(
                Ok(Ok(result)),
            ) ==> result.index == jobs[who[k]].index),
        0 <= i < j < joins.len(),
        next_result(joins[i]) is Ok,
        next_result(joins[i])->Ok_0 is Some,
        next_result(joins[j]) is Ok,
        next_result(joins[j])->Ok_0 is Some,
    ensures
        next_result(joins[i])->Ok_0->0.index != next_result(joins[j])->Ok_0->0.index,
{
    crate::filter::filtering_chooses_exactly(keep);
    let chosen = crate::filter::chosen(keep);
    assert(who[i] != who[j]);
    assert(crate::compile::job_for(environment, chosen[who[i]], jobs[who[i]]));
    assert(crate::compile::job_for(environment, chosen[who[j]], jobs[who[j]]));
    assert(who[i] < who[j] ==> chosen[who[i]] < chosen[who[j]]);
    assert(who[j] < who[i] ==> chosen[who[j]] < chosen[who[i]]);
}

/// The results stand in the order in which the tests were inserted in the context.
pub open spec fn ordered<T>(results: Seq<TestResult<T>>) -> bool {
    forall|i: int, j: int|
        0 <= i <= j < results.len() ==> (#[trigger] results[i]).index <= (#[trigger] results[j]).index
}

/// The results collected so far while waiting for all tests to complete.
pub struct WaitAll<T> {
    results: Vec<TestResult<T>>,
}

impl<T> View for WaitAll<T> {
    type V = Seq<TestResult<T>>;

    closed spec fn view(&self) -> Seq<TestResult<T>> {
        self.results@
    }
}

/// What has to be done next while waiting for all tests to complete.
pub enum WaitAllStep<T> {
    /// Wait for another test.
    More(WaitAll<T>),
    /// All tests have completed.
    Done(Vec<TestResult<T>>),
    /// Give up.
    Failed(SpawnTestError),
}

/// `after` are the results `before` and one more, in order.
pub open spec fn collects<T>(
    before: Seq<TestResult<T>>,
    result: TestResult<T>,
    after: Seq<TestResult<T>>,
) -> bool {
    &&& ordered(after)
    &&& exists|at: int| 0 <= at <= before.len() && after == #[trigger] before.insert(at, result)
}

/// `steps` are the results collected so far, after each of the `arrivals`.
pub open spec fn collects_in_turn<T>(
    arrivals: Seq<TestResult<T>>,
    steps: Seq<Seq<TestResult<T>>>,
) -> bool {
    &&& steps.len() == arrivals.len() + 1
    &&& steps.first() == Seq::<TestResult<T>>::empty()
    &&& forall|i: int|
        0 <= i < arrivals.len() ==> collects(steps[i], #[trigger] arrivals[i], steps[i + 1])
}

/// The indices of some results.
pub open spec fn indices<T>(results: Seq<TestResult<T>>) -> Seq<int> {
    results.map_values(|result: TestResult<T>| result.index as int)
}

/// Collecting loses no result, and makes none up; and the results are in order.
pub proof fn every_result_is_collected_once<T>(
    arrivals: Seq<TestResult<T>>,
    steps: Seq<Seq<TestResult<T>>>,
)
    requires
        collects_in_turn(arrivals, steps),
    ensures
        steps.last().to_multiset() == arrivals.to_multiset(),
        ordered(steps.last()),
    decreases arrivals.len(),
{
    broadcast use vstd::multiset::group_multiset_axioms;

    if arrivals.len() > 0 {
        let n = arrivals.len() - 1;
        let earlier = arrivals.drop_last();
        assert forall|i: int| 0 <= i < earlier.len() implies collects(
            steps.drop_last()[i],
            #[trigger] earlier[i],
            steps.drop_last()[i + 1],
        ) by {
            assert(earlier[i] == arrivals[i]);
        }
        every_result_is_collected_once(earlier, steps.drop_last());
        assert(collects(steps[n], arrivals[n], steps[n + 1]));
        let before = steps[n];
        let at = choose|at: int|
            0 <= at <= before.len() && steps[n + 1] == #[trigger] before.insert(at, arrivals[n]);
        vstd::seq_lib::to_multiset_insert(before, at, arrivals[n]);
        vstd::seq_lib::to_multiset_build(earlier, arrivals[n]);
        assert(earlier.push(arrivals[n]) =~= arrivals);
    } else {
        assert(steps.last() =~= arrivals);
    }
}

/// Two sequences in ascending order with the same items are the same.
proof fn lemma_ascending_is_unique(a: Seq<int>, b: Seq<int>)
    requires
        forall|i: int, j: int| 0 <= i <= j < a.len() ==> (#[trigger] a[i]) <= (#[trigger] a[j]),
        forall|i: int, j: int| 0 <= i <= j < b.len() ==> (#[trigger] b[i]) <= (#[trigger] b[j]),
        a.to_multiset() == b.to_multiset(),
    ensures
        a == b,
    decreases a.len(),
{
    broadcast use vstd::multiset::group_multiset_axioms;

    vstd::seq_lib::to_multiset_len(a);
    vstd::seq_lib::to_multiset_len(b);
    if a.len() > 0 {
        let x = a.last();
        let y = b.last();
        vstd::seq_lib::to_multiset_contains(a, x);
        vstd::seq_lib::to_multiset_contains(b, x);
        vstd::seq_lib::to_multiset_contains(a, y);
        vstd::seq_lib::to_multiset_contains(b, y);
        assert(a[a.len() - 1] == x && b[b.len() - 1] == y);
        assert(a.contains(x) && b.contains(y));
        let i = choose|i: int| 0 <= i < b.len() && b[i] == x;
        let j = choose|j: int| 0 <= j < a.len() && a[j] == y;
        assert(b[i] <= b[b.len() - 1]);
        assert(a[j] <= a[a.len() - 1]);
        assert(x == y);
        vstd::seq_lib::to_multiset_remove(a, a.len() - 1);
        vstd::seq_lib::to_multiset_remove(b, b.len() - 1);
        assert(a.remove(a.len() - 1) =~= a.drop_last());
        assert(b.remove(b.len() - 1) =~= b.drop_last());
        lemma_ascending_is_unique(a.drop_last(), b.drop_last());
        assert(a =~= a.drop_last().push(x));
        assert(b =~= b.drop_last().push(y));
    } else {
        assert(a =~= b);
    }
}

/// The indices of the same results are the same, in whatever order.
proof fn lemma_indices_follow_results<T>(a: Seq<TestResult<T>>, b: Seq<TestResult<T>>)
    requires
        a.to_multiset() == b.to_multiset(),
    ensures
        indices(a).to_multiset() == indices(b).to_multiset(),
    decreases a.len(),
{
    broadcast use vstd::multiset::group_multiset_axioms;

    vstd::seq_lib::to_multiset_len(a);
    vstd::seq_lib::to_multiset_len(b);
    if a.len() > 0 {
        let n = a.len() - 1;
        vstd::seq_lib::to_multiset_contains(a, a[n]);
        vstd::seq_lib::to_multiset_contains(b, a[n]);
        assert(a.contains(a[n]));
        let j = choose|j: int| 0 <= j < b.len() && b[j] == a[n];
        vstd::seq_lib::to_multiset_remove(a, n);
        vstd::seq_lib::to_multiset_remove(b, j);
        lemma_indices_follow_results(a.remove(n), b.remove(j));
        assert(indices(a.remove(n)) =~= indices(a).remove(n));
        assert(indices(b.remove(j)) =~= indices(b).remove(j));
        vstd::seq_lib::to_multiset_remove(indices(a), n);
        vstd::seq_lib::to_multiset_remove(indices(b), j);
        vstd::seq_lib::to_multiset_contains(indices(a), indices(a)[n]);
        vstd::seq_lib::to_multiset_contains(indices(b), indices(b)[j]);
        assert(indices(a).contains(indices(a)[n]) && indices(b).contains(indices(b)[j]));
        let x = a[n].index as int;
        assert(indices(a).to_multiset() =~= indices(a).to_multiset().remove(x).insert(x));
        assert(indices(b).to_multiset() =~= indices(b).to_multiset().remove(x).insert(x));
    } else {
        assert(indices(a) =~= indices(b));
    }
}

/// When every chosen test has reported, in whatever order, the results are those of the chosen
/// tests, one for each, in the order in which the tests were added.
pub proof fn results_stand_in_the_order_of_the_tests<T>(
    keep: Seq<bool>,
    arrivals: Seq<TestResult<T>>,
    steps: Seq<Seq<TestResult<T>>>,
)
    requires
        collects_in_turn(arrivals, steps),
        indices(arrivals).to_multiset() == crate::filter::chosen(keep).to_multiset(),
    ensures
        indices(steps.last()) == crate::filter::chosen(keep),
{
    let results = steps.last();
    every_result_is_collected_once(arrivals, steps);
    lemma_indices_follow_results(results, arrivals);
    crate::filter::filtering_chooses_exactly(keep);
    assert forall|i: int, j: int| 0 <= i <= j < indices(results).len() implies (
    #[trigger] indices(results)[i]) <= (#[trigger] indices(results)[j]) by {
        assert(results[i].index <= results[j].index);
    }
    lemma_ascending_is_unique(indices(results), crate::filter::chosen(keep));
}

/// Without a filter, there is one result for each test, and each stands at the position of its test.
pub proof fn unfiltered_results_stand_at_their_index<T>(
    cases: Seq<TestCase<T>>,
    keep: Seq<bool>,
    arrivals: Seq<TestResult<T>>,
    steps: Seq<Seq<TestResult<T>>>,
)
    requires
        crate::filter::answers(Unfiltered, cases, keep),
        collects_in_turn(arrivals, steps),
        indices(arrivals).to_multiset() == crate::filter::chosen(keep).to_multiset(),
    ensures
        steps.last().len() == cases.len(),
        forall|i: int| 0 <= i < cases.len() ==> (#[trigger] steps.last()[i]).index == i,
{
    let results = steps.last();
    results_stand_in_the_order_of_the_tests(keep, arrivals, steps);
    crate::filter::everything_is_chosen_without_a_filter(cases, keep);
    assert(indices(results).len() == results.len());
    assert forall|i: int| 0 <= i < cases.len() implies (#[trigger] results[i]).index == i by {
        assert(indices(results)[i] == results[i].index);
    }
}

/// Two orderly collections of the same results are the same.
proof fn lemma_order_is_unique<T>(a: Seq<TestResult<T>>, b: Seq<TestResult<T>>)
    requires
        ordered(a),
        ordered(b),
        a.to_multiset() == b.to_multiset(),
        indices(b).no_duplicates(),
    ensures
        a == b,
{
    lemma_indices_follow_results(a, b);
    assert forall|i: int, j: int| 0 <= i <= j < indices(a).len() implies (#[trigger] indices(a)[i])
        <= (#[trigger] indices(a)[j]) by {
        assert(a[i].index <= a[j].index);
    }
    assert forall|i: int, j: int| 0 <= i <= j < indices(b).len() implies (#[trigger] indices(b)[i])
        <= (#[trigger] indices(b)[j]) by {
        assert(b[i].index <= b[j].index);
    }
    lemma_ascending_is_unique(indices(a), indices(b));
    assert(indices(a).len() == indices(b).len());
    assert forall|i: int| 0 <= i < a.len() implies a[i] == b[i] by {
        vstd::seq_lib::to_multiset_contains(a, a[i]);
        vstd::seq_lib::to_multiset_contains(b, a[i]);
        assert(a.contains(a[i]));
        let j = choose|j: int| 0 <= j < b.len() && b[j] == a[i];
        assert(indices(b)[j] == indices(a)[i]);
        assert(indices(b)[i] == indices(a)[i]);
    }
    assert(a =~= b);
}

/// The order in which tests finish makes no difference to the results.
pub proof fn results_do_not_depend_on_the_order_of_arrival<T>(
    arrivals: Seq<TestResult<T>>,
    steps: Seq<Seq<TestResult<T>>>,
    other_arrivals: Seq<TestResult<T>>,
    other_steps: Seq<Seq<TestResult<T>>>,
)
    requires
        collects_in_turn(arrivals, steps),
        collects_in_turn(other_arrivals, other_steps),
        arrivals.to_multiset() == other_arrivals.to_multiset(),
        indices(arrivals).no_duplicates(),
    ensures
        steps.last() == other_steps.last(),
{
    let b = other_steps.last();
    every_result_is_collected_once(arrivals, steps);
    every_result_is_collected_once(other_arrivals, other_steps);
    lemma_indices_follow_results(b, arrivals);
    indices(arrivals).lemma_multiset_has_no_duplicates();
    indices(b).lemma_multiset_has_no_duplicates_conv();
    lemma_order_is_unique(steps.last(), b);
}

/// When all jobs of a run have finished, in whatever order, the results are those of the jobs, in the
/// order of the jobs.
pub proof fn results_are_those_of_the_jobs<G, T: Clone, F>(
    environment: crate::compile::EnvironmentView<G, T, F>,
    keep: Seq<bool>,
    jobs: Seq<TestJob<T>>,
    results: Seq<TestResult<T>>,
    arrivals: Seq<TestResult<T>>,
    steps: Seq<Seq<TestResult<T>>>,
)
    requires
        crate::compile::jobs_for(environment, keep, jobs),
        results.len() == jobs.len(),
        forall|k: int| 0 <= k < jobs.len() ==> (#[trigger] results[k]).index == jobs[k].index,
        arrivals.to_multiset() == results.to_multiset(),
        collects_in_turn(arrivals, steps),
    ensures
        steps.last() == results,
{
    let chosen = crate::filter::chosen(keep);
    crate::filter::filtering_chooses_exactly(keep);
    every_result_is_collected_once(arrivals, steps);
    assert forall|k: int| 0 <= k < results.len() implies (#[trigger] results[k]).index == chosen[k] by {
        assert(crate::compile::job_for(environment, chosen[k], jobs[k]));
    }
    assert(ordered(results)) by {
        assert forall|i: int, j: int| 0 <= i <= j < results.len() implies (
        #[trigger] results[i]).index <= (#[trigger] results[j]).index by {
            assert(i < j ==> chosen[i] < chosen[j]);
        }
    }
    assert forall|i: int, j: int| 0 <= i < indices(results).len() && 0 <= j < indices(results).len()
        && i != j implies indices(results)[i] != indices(results)[j] by {
        assert(results[i].index == chosen[i] && results[j].index == chosen[j]);
    }
    lemma_order_is_unique(steps.last(), results);
}

impl<T> WaitAll<T> {
    #[verifier::type_invariant]
    spec fn consistent(self) -> bool {
        ordered(self.results@)
    }

    /// Reads what came of waiting for another test; there was nothing to wait for exactly if no tests
    /// were left.  The first error ends the waiting.  When no
    /// tests are left, the result is a vector of all results, which _is ordered_ based on the order
    /// in which the tests were inserted in the context.
    pub fn next(self, handle: &mut TestHandle<T>, joined: Joined<T>) -> (r: WaitAllStep<T>)
        requires
            joined is None <==> old(handle)@.tests_left == 0,
        ensures
            final(handle)@ == after_joining(old(handle)@, joined),
            match next_result(joined) {
                Err(error) => r matches WaitAllStep::Failed(e) && e == error,
                Ok(Some(result)) => r matches WaitAllStep::More(more) && collects(
                    self@,
                    result,
                    more@,
                ),
                Ok(None) => r matches WaitAllStep::Done(results) && results@ == self@ && ordered(
                    results@,
                ),
            },
    {
        proof {
            use_type_invariant(&self);
        }
        match handle.wait_next(joined) {
            Err(error) => WaitAllStep::Failed(error),
            Ok(None) => WaitAllStep::Done(self.results),
            Ok(Some(result)) => {
                let mut results = self.results;
                let mut at: usize = results.len();
                while at > 0 && results[at - 1].index > result.index
                    invariant
                        at <= results@.len(),
                        ordered(results@),
                        forall|i: int|
                            at <= i < results@.len() ==> (#[trigger] results@[i]).index
                                > result.index,
                    decreases at,
                {
                    at = at - 1;
                }
                let ghost before = results@;
                results.insert(at, result);
                proof {
                    assert forall|i: int, j: int| 0 <= i <= j < results@.len() implies (
                    #[trigger] results@[i]).index <= (#[trigger] results@[j]).index by {
                        let from = |k: int|
                            if k < at {
                                k
                            } else {
                                k - 1
                            };
                        assert(i != at ==> results@[i] == before[from(i)]);
                        assert(j != at ==> results@[j] == before[from(j)]);
                        if at > 0 {
                            assert(before[at - 1].index <= result.index);
                        }
                    }
                    assert(results@ == before.insert(at as int, result));
                }
                WaitAllStep::More(WaitAll { results })
            },
        }
    }
}

/// A job is run by its command, or is invalid if it has none.
pub proof fn jobs_are_run_by_their_command<T>(
    job: TestJob<T>,
    r: Result<&CommandPlan, SpawnTestError>,
)
    requires
        call_ensures(TestJob::<T>::command, (&job,), r),
    ensures
        job.plan matches Some(plan) ==> (r matches Ok(p) && *p == plan),
        job.plan is None ==> (r matches Err(SpawnTestError::InvalidCommand)),
{
}

/// A job that could not be run to its end gives the error that says why.
pub proof fn jobs_fail_for_their_own_reason<T>(
    job: TestJob<T>,
    outcome: CommandOutcome,
    r: Result<TestResult<T>, SpawnTestError>,
)
    requires
        call_ensures(TestJob::<T>::finish, (job, outcome), r),
    ensures
        outcome is Finished <==> r is Ok,
        outcome matches CommandOutcome::SpawnFailed(error) ==> (r matches Err(
            SpawnTestError::SpawnFail(e),
        ) && e == error),
        outcome matches CommandOutcome::FeedFailed(error) ==> (r matches Err(
            SpawnTestError::WriteStdinFail(e),
        ) && e == error),
        outcome matches CommandOutcome::WaitFailed(error) ==> (r matches Err(
            SpawnTestError::WaitFail(e),
        ) && e == error),
{
}

/// A job that was run to its end gives the index and the data of its test, and what the program did.
/// The test has timed out if and only if the program was out of time; it has failed if and only if the
/// program was not, and ended with a status other than 0; and of the others, it passes if and only if
/// the program printed text that is the expected string, or that the expected expression matches,
/// after trimming if the job trims and as it is if it does not.
pub proof fn jobs_are_judged_by_what_was_printed<T>(
    job: TestJob<T>,
    output: crate::output::Output,
    timed_out: bool,
    time_taken: std::time::Duration,
    r: Result<TestResult<T>, SpawnTestError>,
)
    requires
        call_ensures(
            TestJob::<T>::finish,
            (job, CommandOutcome::Finished { output, timed_out, time_taken }),
            r,
        ),
    ensures
        ({
            let printed = vstd::utf8::decode_utf8(output.stdout@);
            let counted = if job.trim_output {
                crate::text::trimmed(printed)
            } else {
                printed
            };
            let as_expected = vstd::utf8::valid_utf8(output.stdout@) && match job.case.output {
                crate::cases::ExpectedOutput::String(s) => counted == s@,
                crate::cases::ExpectedOutput::Regex(re) => crate::outside::regex_matches(re, counted),
            };
            &&& r matches Ok(result)
            &&& result.index == job.index
            &&& result.data == Some(job.case.data)
            &&& result.output == output
            &&& result.time_taken == time_taken
            &&& result.state == TestResultState::TimedOut <==> timed_out
            &&& result.state == TestResultState::RuntimeFail <==> !timed_out && output.status != 0
            &&& result.state == TestResultState::Pass <==> !timed_out && output.status == 0
                && as_expected
            &&& result.state == TestResultState::IncorrectOutput <==> !timed_out && output.status == 0
                && !as_expected
        }),
{
}

/// What a handle says is what it knows, and no more tests are left than there are.
pub proof fn handles_say_what_they_know<T>(
    handle: TestHandle<T>,
    tests_left: usize,
    test_count: usize,
    compile_result: Option<&CompileResult>,
    cwd: &PathBuf,
)
    requires
        call_ensures(TestHandle::<T>::tests_left, (&handle,), tests_left),
        call_ensures(TestHandle::<T>::test_count, (&handle,), test_count),
        call_ensures(TestHandle::<T>::compile_result, (&handle,), compile_result),
        call_ensures(TestHandle::<T>::cwd, (&handle,), cwd),
    ensures
        tests_left == handle@.tests_left,
        test_count == handle@.test_count,
        tests_left <= test_count,
        compile_result is None <==> handle@.compile_result is None,
        compile_result matches Some(result) ==> handle@.compile_result == Some(*result),
        *cwd == handle@.cwd,
{
}

/// Waiting for the next test gives what became of it: its result, its error, or the error of its task;
/// and `Ok(None)` exactly if no tests were left.  One test less is left afterwards, and nothing else
/// about the handle changes.
pub proof fn waiting_gives_what_became_of_a_test<T>()
    ensures
        forall|
            handle: &mut TestHandle<T>,
            joined: Joined<T>,
            r: Result<Option<TestResult<T>>, SpawnTestError>,
        | #[trigger]
            call_ensures(TestHandle::<T>::wait_next, (handle, joined), r) ==> {
                &&& joined matches Some(Ok(Ok(result))) ==> (r matches Ok(Some(given)) && given
                    == result)
                &&& joined matches Some(Ok(Err(error))) ==> (r matches Err(given) && given == error)
                &&& joined matches Some(Err(error)) ==> (r matches Err(SpawnTestError::JoinError(
                    given,
                )) && given == error)
                &&& joined is None ==> (r matches Ok(None))
                &&& (r matches Ok(None)) <==> (*handle)@.tests_left == 0
                &&& (*handle)@.tests_left > 0 ==> (*final(handle))@.tests_left
                    == (*handle)@.tests_left - 1
                &&& (*handle)@.tests_left == 0 ==> (*final(handle))@.tests_left == 0
                &&& (*final(handle))@.test_count == (*handle)@.test_count
                &&& (*final(handle))@.compile_result == (*handle)@.compile_result
                &&& (*final(handle))@.cwd == (*handle)@.cwd
            },
{
}

/// Waiting for all tests starts with no result, puts each result that comes among those that are
/// there, so that their indices ascend, ends with the first error, and hands out all of them, as they
/// stand, when there is nothing more to wait for.
pub proof fn waiting_for_all_keeps_every_result_in_order<T>(handle: TestHandle<T>, start: WaitAll<T>)
    requires
        call_ensures(TestHandle::<T>::wait_all, (&handle,), start),
    ensures
        start@.len() == 0,
        forall|
            waiting: WaitAll<T>,
            handle: &mut TestHandle<T>,
            joined: Joined<T>,
            step: WaitAllStep<T>,
        | #[trigger]
            call_ensures(WaitAll::<T>::next, (waiting, handle, joined), step) ==> {
                &&& joined matches Some(Ok(Err(error))) ==> step == WaitAllStep::<T>::Failed(error)
                &&& joined matches Some(Err(error)) ==> step == WaitAllStep::<T>::Failed(
                    SpawnTestError::JoinError(error),
                )
                &&& joined is None ==> (step matches WaitAllStep::Done(results) && results@
                    == waiting@)
                &&& joined matches Some(Ok(Ok(result))) ==> {
                    &&& step matches WaitAllStep::More(more)
                    &&& more@.len() == waiting@.len() + 1
                    &&& more@.to_multiset() == waiting@.to_multiset().insert(result)
                    &&& forall|i: int, j: int|
                        0 <= i <= j < more@.len() ==> (#[trigger] more@[i]).index <= (
                        #[trigger] more@[j]).index
                }
                &&& step matches WaitAllStep::Done(results) ==> forall|i: int, j: int|
                    0 <= i <= j < results@.len() ==> (#[trigger] results@[i]).index <= (
                    #[trigger] results@[j]).index
                &&& joined is Some && (*handle)@.tests_left > 0 ==> (*final(handle))@.tests_left
                    == (*handle)@.tests_left - 1
                &&& (*final(handle))@.test_count == (*handle)@.test_count
            },
{
    assert forall|
        waiting: WaitAll<T>,
        handle: &mut TestHandle<T>,
        joined: Joined<T>,
        step: WaitAllStep<T>,
    |
        #[trigger] call_ensures(WaitAll::<T>::next, (waiting, handle, joined), step) && (
        joined matches Some(Ok(Ok(_)))) implies (step matches WaitAllStep::More(more) && more@.len()
        == waiting@.len() + 1 && more@.to_multiset() == waiting@.to_multiset().insert(
        joined->0->Ok_0->Ok_0,
    )) by {
        let result = joined->0->Ok_0->Ok_0;
        let more = step->More_0;
        assert(collects(waiting@, result, more@));
        let at = choose|at: int|
            0 <= at <= waiting@.len() && more@ == #[trigger] waiting@.insert(at, result);
        vstd::seq_lib::to_multiset_insert(waiting@, at, result);
    }
}

} // verus!
