//! What holds of a suite as a whole, from its configuration to the verdicts on its tests.
use std::path::PathBuf;
use std::sync::Arc;
use std::time::Duration;

use vstd::prelude::*;

use crate::cases::{ExpectedOutput, TestCase};
use crate::compile::{
    AwaitCommand, AwaitDirectory, AwaitFile, CompileStep, CompiledTestRunner, PendingFile,
};
use crate::context::builder::{MissingRunCmd, MissingTests, SetRunCmd, SetTests};
use crate::context::{TestContext, TestContextBuilder};
use crate::error::{CompileError, SpawnTestError};
use crate::filter::{FilteredBy, TestFilter, Unfiltered};
use crate::handle::{TestHandle, TestJob};
use crate::output::Output;
use crate::process::CommandOutcome;
use crate::result::{TestResult, TestResultState};
use crate::runner::TestRunner;

verus! {

/// Of the files that are written for a runner, the one that is written when `i` have been written: the
/// files of the context come first.
pub open spec fn file_at<'a, G, T, R, F>(
    runner: crate::runner::RunnerView<'a, G, T, R, F>,
    i: int,
) -> PendingFile<'a, R> {
    if i < runner.context.files@.len() {
        PendingFile::Context(i as usize)
    } else {
        PendingFile::Runner(runner.files[i - runner.context.files@.len()])
    }
}

/// `steps` are the first steps of compiling for a runner, in the directory `cwd`, if every file could
/// be written.
pub open spec fn leads_through<'a, G: Eq, T, R, F: TestFilter<T>>(
    runner: TestRunner<'a, G, T, R, F>,
    cwd: PathBuf,
    steps: Seq<CompileStep<'a, G, T, R, F>>,
) -> bool {
    &&& steps.len() > 0
    &&& match runner@.cwd {
        Some(chosen) => chosen == cwd && call_ensures(
            TestRunner::<'a, G, T, R, F>::compile,
            (runner,),
            steps[0],
        ),
        None => exists|awaiting: AwaitDirectory<'a, G, T, R, F>|
            {
                &&& call_ensures(
                    TestRunner::<'a, G, T, R, F>::compile,
                    (runner,),
                    CompileStep::MakeTempDir(awaiting),
                )
                &&& #[trigger] call_ensures(
                    AwaitDirectory::<'a, G, T, R, F>::made,
                    (awaiting, Ok(cwd)),
                    steps[0],
                )
            },
    }
    &&& forall|i: int|
        #![trigger steps[i]]
        0 <= i < steps.len() - 1 ==> (steps[i] matches CompileStep::WriteFile(awaiting, _)
            && call_ensures(
            AwaitFile::<'a, G, T, R, F>::written,
            (awaiting, Ok(())),
            steps[i + 1],
        ))
}

/// Compiling writes every file, those of the context before those of the run, each of them once and in
/// order, and does nothing else before.  Then the compiler is run, if there is one, with what was
/// configured for compiling; and whatever comes of it, the tests are run with the configuration, the
/// group and the filter of the runner, in the directory in which the files are.
pub proof fn suites_are_compiled_as_configured<'a, G: Eq, T, R, F: TestFilter<T>>(
    runner: TestRunner<'a, G, T, R, F>,
    cwd: PathBuf,
    steps: Seq<CompileStep<'a, G, T, R, F>>,
)
    requires
        leads_through(runner, cwd, steps),
    ensures
        ({
            let n = (runner@.context.files@.len() + runner@.files.len()) as int;
            &&& steps.len() <= n + 1
            &&& forall|i: int|
                0 <= i < n && i < steps.len() ==> {
                    &&& #[trigger] steps[i] matches CompileStep::WriteFile(awaiting, file)
                    &&& file == file_at(runner@, i)
                    &&& awaiting.environment().cwd == cwd
                    &&& awaiting.environment().context == runner@.context
                    &&& awaiting.upcoming().len() == n - 1 - i
                }
            &&& steps.len() == n + 1 ==> match steps[n] {
                CompileStep::RunCommand(awaiting, plan) => {
                    &&& runner@.context.command.for_compile() matches Some(argv)
                    &&& argv@.len() > 0
                    &&& plan.invocation.program == argv@[0]
                    &&& plan.invocation.args@ == argv@.skip(1)
                    &&& plan.cwd == cwd
                    &&& plan.rules is None <==> runner@.context.rules.for_compile() is None
                    &&& plan.max_memory == runner@.context.max_memory.for_compile()
                    &&& plan.max_file_size == runner@.context.max_file_size.for_compile()
                    &&& plan.max_threads == runner@.context.max_threads.for_compile()
                    &&& plan.timeout == runner@.context.timeout.for_compile()
                    &&& awaiting@.context == runner@.context
                    &&& awaiting@.group == runner@.group
                    &&& awaiting@.filter == runner@.filter
                    &&& awaiting@.cwd == cwd
                    &&& awaiting@.run_rules is None <==> runner@.context.rules.for_run() is None
                },
                CompileStep::Finished(Ok(compiled)) => {
                    &&& runner@.context.command.for_compile() is None
                    &&& compiled.result() is None
                    &&& compiled.environment().context == runner@.context
                    &&& compiled.environment().group == runner@.group
                    &&& compiled.environment().filter == runner@.filter
                    &&& compiled.environment().cwd == cwd
                    &&& compiled.environment().run_rules is None
                        <==> runner@.context.rules.for_run() is None
                },
                CompileStep::Finished(Err(CompileError::InvalidCommand)) => {
                    runner@.context.command.for_compile() matches Some(argv) && argv@.len() == 0
                },
                _ => false,
            }
        }),
{
    let n = (runner@.context.files@.len() + runner@.files.len()) as int;
    let made = choose|awaiting: AwaitDirectory<'a, G, T, R, F>|
        {
            &&& call_ensures(
                TestRunner::<'a, G, T, R, F>::compile,
                (runner,),
                CompileStep::MakeTempDir(awaiting),
            )
            &&& #[trigger] call_ensures(
                AwaitDirectory::<'a, G, T, R, F>::made,
                (awaiting, Ok(cwd)),
                steps[0],
            )
        };
    if runner@.cwd is None {
        crate::compile::directories_are_made_only_if_none_was_chosen(
            runner,
            CompileStep::MakeTempDir(made),
        );
    }
    let environment = crate::compile::environments_are_those_of_their_runner(
        runner@,
        runner,
        made,
        cwd,
        steps[0],
    );
    if n > 0 {
        lemma_files_are_written_in_turn(runner, environment, steps, 0);
        if steps.len() > n {
            assert(steps[n - 1] is WriteFile);
            let last = steps[n - 1]->WriteFile_0;
            crate::compile::files_are_handed_out_in_order(last, steps[n]);
            crate::compile::compilers_run_as_configured(last, steps[n]);
        }
    } else {
        crate::compile::compilers_run_as_configured_without_files(
            runner@,
            runner,
            made,
            cwd,
            steps[0],
        );
    }
    if steps.len() > n + 1 {
        assert(steps[n] is WriteFile);
    }
    if steps.len() == n + 1 {
        if let CompileStep::RunCommand(_, plan) = steps[n] {
            assert(plan.invocation.args@ =~= runner@.context.command.for_compile()->0@.skip(1));
        }
    }
}

/// Once one file has been handed out, the others follow in order.
proof fn lemma_files_are_written_in_turn<'a, G: Eq, T, R, F: TestFilter<T>>(
    runner: TestRunner<'a, G, T, R, F>,
    environment: crate::compile::EnvironmentView<G, T, F>,
    steps: Seq<CompileStep<'a, G, T, R, F>>,
    from: int,
)
    requires
        0 <= from < steps.len(),
        from < runner@.context.files@.len() + runner@.files.len(),
        forall|i: int|
            #![trigger steps[i]]
            0 <= i < steps.len() - 1 ==> (steps[i] matches CompileStep::WriteFile(awaiting, _)
                && call_ensures(
                AwaitFile::<'a, G, T, R, F>::written,
                (awaiting, Ok(())),
                steps[i + 1],
            )),
        steps[from] matches CompileStep::WriteFile(awaiting, file) && {
            &&& file == file_at(runner@, from)
            &&& awaiting.environment() == environment
            &&& awaiting.upcoming().len() == runner@.context.files@.len() + runner@.files.len() - 1
                - from
            &&& forall|j: int|
                0 <= j < awaiting.upcoming().len() ==> #[trigger] awaiting.upcoming()[j] == file_at(
                    runner@,
                    from + 1 + j,
                )
        },
    ensures
        forall|i: int|
            from <= i < runner@.context.files@.len() + runner@.files.len() && i < steps.len() ==> {
                &&& #[trigger] steps[i] matches CompileStep::WriteFile(awaiting, file)
                &&& file == file_at(runner@, i)
                &&& awaiting.environment() == environment
                &&& awaiting.upcoming().len() == runner@.context.files@.len() + runner@.files.len()
                    - 1 - i
            },
    decreases steps.len() - from,
{
    let n = (runner@.context.files@.len() + runner@.files.len()) as int;
    if from + 1 < steps.len() && from + 1 < n {
        let awaiting = steps[from]->WriteFile_0;
        crate::compile::files_are_handed_out_in_order(awaiting, steps[from + 1]);
        let next = steps[from + 1]->WriteFile_0;
        assert forall|j: int| 0 <= j < next.upcoming().len() implies #[trigger] next.upcoming()[j]
            == file_at(runner@, from + 2 + j) by {
            assert(next.upcoming()[j] == awaiting.upcoming()[j + 1]);
        }
        lemma_files_are_written_in_turn(runner, environment, steps, from + 1);
    }
}

/// What is configured is what is run: from the builder to the command of the compiler and to those of
/// the tests, every limit and every timeout is the one that was set for that stage, and there are
/// rules exactly for the stages that have some.  So whatever was never set for a stage is absent from
/// its commands.
pub proof fn limits_reach_the_commands<'a, G: Eq, T: Clone, R, F: TestFilter<T>>(
    b: TestContextBuilder<G, T, SetTests, SetRunCmd>,
    context: Arc<TestContext<G, T>>,
    runner: TestRunner<'a, G, T, R, F>,
    cwd: PathBuf,
    steps: Seq<CompileStep<'a, G, T, R, F>>,
    outcome: CommandOutcome,
    compiled: CompiledTestRunner<G, T, F>,
    r: (TestHandle<T>, Vec<TestJob<T>>),
    k: int,
)
    requires
        call_ensures(TestContextBuilder::<G, T, SetTests, SetRunCmd>::build, (b,), *context),
        runner@.context == context@,
        leads_through(runner, cwd, steps),
        match steps.last() {
            CompileStep::RunCommand(awaiting, _) => call_ensures(
                AwaitCommand::<G, T, F>::ran::<'a, R>,
                (awaiting, outcome),
                CompileStep::Finished(Ok(compiled)),
            ),
            CompileStep::Finished(Ok(at_once)) => at_once == compiled,
            _ => false,
        },
        call_ensures(CompiledTestRunner::<G, T, F>::run, (compiled,), r),
        0 <= k < r.1@.len(),
    ensures
        steps.last() matches CompileStep::RunCommand(_, plan) ==> {
            &&& plan.max_memory == b@.max_memory.for_compile()
            &&& plan.max_file_size == b@.max_file_size.for_compile()
            &&& plan.max_threads == b@.max_threads.for_compile()
            &&& plan.timeout == b@.timeout.for_compile()
            &&& plan.rules is None <==> b@.rules.for_compile() is None
        },
        r.1@[k].plan matches Some(plan) ==> {
            &&& plan.max_memory == b@.max_memory.for_run()
            &&& plan.max_file_size == b@.max_file_size.for_run()
            &&& plan.max_threads == b@.max_threads.for_run()
            &&& plan.timeout == b@.timeout.for_run()
            &&& plan.rules is None <==> b@.rules.for_run() is None
        },
{
    suites_are_compiled_as_configured(runner, cwd, steps);
    if let CompileStep::RunCommand(awaiting, _) = steps.last() {
        crate::compile::compiling_ends_well_only_if_the_compiler_did::<G, T, R, F>(
            awaiting,
            outcome,
            CompileStep::Finished(Ok(compiled)),
        );
    }
    crate::compile::every_chosen_test_is_run_as_configured(compiled, r);
}

/// A suite for which nothing but its commands and a test was configured has no rules, no limit and no
/// timeout for either stage, and its commands are run without any.
pub proof fn nothing_is_limited_unless_it_was_asked_for<
    'a,
    G: Eq,
    T: Clone,
    R,
    C: Into<String>,
    S: Into<String>,
    I: Into<String>,
    O: Into<ExpectedOutput>,
>(
    b: TestContextBuilder<G, T>,
    compile_command: Vec<C>,
    with_compile: TestContextBuilder<G, T>,
    run_command: Vec<S>,
    with_run: TestContextBuilder<G, T, MissingTests, SetRunCmd>,
    group: G,
    input: I,
    output: O,
    data: T,
    with_test: TestContextBuilder<G, T, SetTests, SetRunCmd>,
    context: Arc<TestContext<G, T>>,
    wanted: G,
    runner: TestRunner<'a, G, T, R>,
    cwd: PathBuf,
    steps: Seq<CompileStep<'a, G, T, R, Unfiltered>>,
    outcome: CommandOutcome,
    compiled: CompiledTestRunner<G, T, Unfiltered>,
    r: (TestHandle<T>, Vec<TestJob<T>>),
    k: int,
)
    requires
        call_ensures(TestContext::<G, T>::builder, (), b),
        call_ensures(
            TestContextBuilder::<G, T, MissingTests, MissingRunCmd>::compile_command::<C>,
            (b, compile_command),
            with_compile,
        ),
        call_ensures(
            TestContextBuilder::<G, T, MissingTests, MissingRunCmd>::run_command::<S>,
            (with_compile, run_command),
            with_run,
        ),
        call_ensures(
            TestContextBuilder::<G, T, MissingTests, SetRunCmd>::test::<I, O>,
            (with_run, group, input, output, data),
            with_test,
        ),
        call_ensures(
            TestContextBuilder::<G, T, SetTests, SetRunCmd>::build,
            (with_test,),
            *context,
        ),
        call_ensures(TestContext::<G, T>::test_runner::<R>, (context, &wanted), Some(runner)),
        leads_through(runner, cwd, steps),
        steps.last() matches CompileStep::RunCommand(awaiting, _) && call_ensures(
            AwaitCommand::<G, T, Unfiltered>::ran::<'a, R>,
            (awaiting, outcome),
            CompileStep::Finished(Ok(compiled)),
        ),
        call_ensures(CompiledTestRunner::<G, T, Unfiltered>::run, (compiled,), r),
        0 <= k < r.1@.len(),
    ensures
        context@.timeout.for_compile() is None && context@.timeout.for_run() is None,
        context@.rules.for_compile() is None && context@.rules.for_run() is None,
        context@.max_memory.for_compile() is None && context@.max_memory.for_run() is None,
        context@.max_file_size.for_compile() is None && context@.max_file_size.for_run() is None,
        context@.max_threads.for_compile() is None && context@.max_threads.for_run() is None,
        steps.last()->RunCommand_1.timeout is None,
        steps.last()->RunCommand_1.rules is None,
        steps.last()->RunCommand_1.max_memory is None,
        steps.last()->RunCommand_1.max_file_size is None,
        steps.last()->RunCommand_1.max_threads is None,
        r.1@[k].plan matches Some(plan) ==> {
            &&& plan.timeout is None
            &&& plan.rules is None
            &&& plan.max_memory is None
            &&& plan.max_file_size is None
            &&& plan.max_threads is None
        },
{
    crate::context::builder::builders_start_with_nothing(b);
    limits_reach_the_commands(with_test, context, runner, cwd, steps, outcome, compiled, r, k);
}

/// The tests of a suite are judged alike: whichever test a job is for, it passes if and only if the
/// program ended in time with exit status 0, and what it printed is text that is the expected string,
/// or that the expected expression matches.  If the suite trims, that is asked of the text without the
/// white space around it, and if it does not, of the text as it is.
pub proof fn every_test_is_judged_alike<G: Eq, T: Clone, F: TestFilter<T>>(
    compiled: CompiledTestRunner<G, T, F>,
    r: (TestHandle<T>, Vec<TestJob<T>>),
    k: int,
    output: Output,
    timed_out: bool,
    time_taken: Duration,
    result: Result<TestResult<T>, SpawnTestError>,
)
    requires
        call_ensures(CompiledTestRunner::<G, T, F>::run, (compiled,), r),
        0 <= k < r.1@.len(),
        call_ensures(
            TestJob::<T>::finish,
            (r.1@[k], CommandOutcome::Finished { output, timed_out, time_taken }),
            result,
        ),
    ensures
        ({
            let context = compiled.environment().context;
            let cases = context.groups@[compiled.environment().group as int].cases@;
            let printed = vstd::utf8::decode_utf8(output.stdout@);
            let text = if context.trim_output {
                crate::text::trimmed(printed)
            } else {
                printed
            };
            &&& result matches Ok(result)
            &&& result.index < cases.len()
            &&& result.output == output
            &&& result.time_taken == time_taken
            &&& result.data matches Some(data) && cloned(cases[result.index as int].data, data)
            &&& result.state == TestResultState::TimedOut <==> timed_out
            &&& result.state == TestResultState::RuntimeFail <==> !timed_out && output.status != 0
            &&& result.state == TestResultState::Pass <==> {
                &&& !timed_out
                &&& output.status == 0
                &&& vstd::utf8::valid_utf8(output.stdout@)
                &&& match cases[result.index as int].output {
                    ExpectedOutput::String(s) => text == s@,
                    ExpectedOutput::Regex(re) => crate::outside::regex_matches(re, text),
                }
            }
        }),
{
    crate::compile::every_chosen_test_is_run_as_configured(compiled, r);
    crate::handle::jobs_are_judged_by_what_was_printed(
        r.1@[k],
        output,
        timed_out,
        time_taken,
        result,
    );
}

/// Of a test whose program ended in time with exit status 0 and printed some text, only the text, the
/// expectation and whether the suite trims decide: it passes if the expected string is what counts of
/// the text, and its output is incorrect if not, whichever test it is.
pub proof fn tests_that_expect_text_pass_exactly_with_it<G: Eq, T: Clone, F: TestFilter<T>>(
    compiled: CompiledTestRunner<G, T, F>,
    r: (TestHandle<T>, Vec<TestJob<T>>),
    k: int,
    expected: String,
    text: Seq<char>,
    output: Output,
    time_taken: Duration,
    result: Result<TestResult<T>, SpawnTestError>,
)
    requires
        call_ensures(CompiledTestRunner::<G, T, F>::run, (compiled,), r),
        0 <= k < r.1@.len(),
        r.1@[k].case.output == ExpectedOutput::String(expected),
        output.status == 0,
        output.stdout@ == vstd::utf8::encode_utf8(text),
        call_ensures(
            TestJob::<T>::finish,
            (r.1@[k], CommandOutcome::Finished { output, timed_out: false, time_taken }),
            result,
        ),
    ensures
        result matches Ok(result) && result.index == r.1@[k].index && result.state == (if (
        compiled.environment().context.trim_output && crate::text::trimmed(text) == expected@) || (
        !compiled.environment().context.trim_output && text == expected@) {
            TestResultState::Pass
        } else {
            TestResultState::IncorrectOutput
        }),
{
    vstd::utf8::encode_utf8_valid_utf8(text);
    vstd::utf8::encode_utf8_decode_utf8(text);
    crate::compile::every_chosen_test_is_run_as_configured(compiled, r);
    crate::handle::jobs_are_judged_by_what_was_printed(
        r.1@[k],
        output,
        false,
        time_taken,
        result,
    );
}

/// Without a filter there is one job for every test, in order.
pub proof fn every_test_is_run_without_a_filter<G: Eq, T: Clone>(
    compiled: CompiledTestRunner<G, T, Unfiltered>,
    r: (TestHandle<T>, Vec<TestJob<T>>),
)
    requires
        call_ensures(CompiledTestRunner::<G, T, Unfiltered>::run, (compiled,), r),
    ensures
        ({
            let cases = compiled.environment().context.groups@[compiled.environment().group as int].cases@;
            &&& r.1@.len() == cases.len()
            &&& r.0@.test_count == cases.len()
            &&& forall|i: int| 0 <= i < cases.len() ==> (#[trigger] r.1@[i]).index == i
        }),
{
    let cases = compiled.environment().context.groups@[compiled.environment().group as int].cases@;
    let keep = crate::compile::every_chosen_test_is_run_as_configured(compiled, r);
    lemma_ascending_positions(r.1@, 0);
    assert forall|i: int| 0 <= i < cases.len() implies keep[i] by {
        assert(compiled.environment().filter.may_answer(cases[i], keep[i]));
    }
    assert forall|i: int| 0 <= i < cases.len() implies i < r.1@.len() && (#[trigger] r.1@[i]).index
        == i by {
        lemma_all_positions(r.1@, keep, cases.len() as int, i);
    }
    if r.1@.len() > cases.len() {
        assert(r.1@[cases.len() as int].index < cases.len());
    }
    if cases.len() > 0 {
        assert(r.1@[cases.len() - 1].index == cases.len() - 1);
    }
}

/// Where indices ascend, none is smaller than its position.
proof fn lemma_ascending_positions<T>(jobs: Seq<TestJob<T>>, from: int)
    requires
        0 <= from <= jobs.len(),
        forall|j: int, k: int|
            0 <= j < k < jobs.len() ==> (#[trigger] jobs[j]).index < (#[trigger] jobs[k]).index,
        from > 0 ==> jobs[from - 1].index >= from - 1,
    ensures
        forall|j: int| from <= j < jobs.len() ==> (#[trigger] jobs[j]).index >= j,
    decreases jobs.len() - from,
{
    if from < jobs.len() {
        if from > 0 {
            assert(jobs[from - 1].index < jobs[from].index);
        }
        lemma_ascending_positions(jobs, from + 1);
    }
}

/// Where indices ascend and every index below `n` is there, each stands at its own position.
proof fn lemma_all_positions<T>(jobs: Seq<TestJob<T>>, keep: Seq<bool>, n: int, i: int)
    requires
        0 <= i < n,
        forall|j: int, k: int|
            0 <= j < k < jobs.len() ==> (#[trigger] jobs[j]).index < (#[trigger] jobs[k]).index,
        forall|j: int| 0 <= j < jobs.len() ==> (#[trigger] jobs[j]).index >= j,
        forall|i: int| 0 <= i < n ==> #[trigger] keep[i],
        forall|i: int|
            0 <= i < n && #[trigger] keep[i] ==> exists|k: int|
                0 <= k < jobs.len() && (#[trigger] jobs[k]).index == i,
    ensures
        i < jobs.len(),
        jobs[i].index == i,
    decreases i,
{
    assert(keep[i]);
    let k = choose|k: int| 0 <= k < jobs.len() && (#[trigger] jobs[k]).index == i;
    if k < i {
        lemma_all_positions(jobs, keep, n, k);
    }
}

/// With a filter, a test is run only if the filter said so, and is left out only if the filter said
/// so.
pub proof fn filters_decide_which_tests_are_run<
    G: Eq,
    T: Clone,
    P: Fn(&TestCase<T>) -> bool,
>(
    compiled: CompiledTestRunner<G, T, FilteredBy<P>>,
    r: (TestHandle<T>, Vec<TestJob<T>>),
    i: int,
)
    requires
        call_ensures(CompiledTestRunner::<G, T, FilteredBy<P>>::run, (compiled,), r),
        0 <= i < compiled.environment().context.groups@[compiled.environment().group as int].cases@.len(),
    ensures
        ({
            let case =
                compiled.environment().context.groups@[compiled.environment().group as int].cases@[i];
            let is_run = exists|k: int| 0 <= k < r.1@.len() && (#[trigger] r.1@[k]).index == i;
            call_ensures(compiled.environment().filter.predicate, (&case,), is_run)
        }),
{
    let cases = compiled.environment().context.groups@[compiled.environment().group as int].cases@;
    let keep = crate::compile::every_chosen_test_is_run_as_configured(compiled, r);
    let is_run = exists|k: int| 0 <= k < r.1@.len() && (#[trigger] r.1@[k]).index == i;
    assert(keep[i] ==> is_run);
    if is_run {
        let k = choose|k: int| 0 <= k < r.1@.len() && (#[trigger] r.1@[k]).index == i;
        assert(keep[r.1@[k].index as int]);
    }
    assert(compiled.environment().filter.may_answer(cases[i], keep[i]));
}

} // verus!
