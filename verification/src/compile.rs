//! Setting up the environment of a test and compiling the program in it.
//!
//! Compiling alternates between deciding what to do and doing it.  The decisions are made here: each
//! of them is a [`CompileStep`], which says what has to be done next and whom to tell when it is
//! done.
use std::path::PathBuf;
use std::sync::Arc;

use vstd::prelude::*;

use crate::cases::TestCase;
use crate::context::{ContextSettings, TestContext};
use crate::error::{CompileError, CreateFilesError};
use crate::file::{BorrowedFileConfig, FileConfig};
use crate::filter::TestFilter;
use crate::handle::{TestHandle, TestJob};
use crate::outside::path_join;
use crate::process::{
    command_from_argv, ChildExit, ChildWatch, CommandOutcome, CommandPlan, Stream, WatchStep,
};
use crate::result::{CompileResult, CompileResultState};
use crate::runner::{create_rules, TestRunner};

verus! {

/// Where and how the tests of a group are compiled and run.
#[derive(Debug)]
pub struct Environment<G: Eq, T, F: TestFilter<T>> {
    context: Arc<TestContext<G, T>>,
    group: usize,
    filter: F,
    collect_output: bool,
    cwd: PathBuf,
    compile_rules: Option<Arc<leucite::Rules>>,
    run_rules: Option<Arc<leucite::Rules>>,
}

/// What an [`Environment`] consists of.
pub struct EnvironmentView<G, T, F> {
    /// The configuration of the suite.
    pub context: ContextSettings<G, T>,
    /// The position of the group whose tests are run.
    pub group: usize,
    /// What is asked which tests are to be run.
    pub filter: F,
    /// Whether the output of the compiler is collected.
    pub collect_output: bool,
    /// The directory.
    pub cwd: PathBuf,
    /// What the compiler may do.
    pub compile_rules: Option<Arc<leucite::Rules>>,
    /// What the program under test may do.
    pub run_rules: Option<Arc<leucite::Rules>>,
}

impl<G, T, F> EnvironmentView<G, T, F> {
    /// The tests of the group, with those that are filtered out.
    pub open spec fn cases(self) -> Seq<TestCase<T>> {
        self.context.groups@[self.group as int].cases@
    }
}

impl<G: Eq, T, F: TestFilter<T>> View for Environment<G, T, F> {
    type V = EnvironmentView<G, T, F>;

    closed spec fn view(&self) -> EnvironmentView<G, T, F> {
        EnvironmentView {
            context: self.context@,
            group: self.group,
            filter: self.filter,
            collect_output: self.collect_output,
            cwd: self.cwd,
            compile_rules: self.compile_rules,
            run_rules: self.run_rules,
        }
    }
}

/// A file that has to be written.
pub enum PendingFile<'a, R> {
    /// The file of the context at this position.
    Context(usize),
    /// A file of this run.
    Runner(BorrowedFileConfig<'a, R>),
}

/// The files that are still to be written when those of the context are written up to `next`:
/// the rest of those of the context, and then those of the run.
pub open spec fn upcoming_files<'a, R>(
    next: int,
    context_files: int,
    files: Seq<BorrowedFileConfig<'a, R>>,
) -> Seq<PendingFile<'a, R>> {
    Seq::new((context_files - next) as nat, |i: int| PendingFile::Context((next + i) as usize))
        + files.map_values(|file: BorrowedFileConfig<'a, R>| PendingFile::Runner(file))
}

/// What has to be done next to compile a program.
pub enum CompileStep<'a, G: Eq, T, R, F: TestFilter<T>> {
    /// Make a temporary directory, then tell [`AwaitDirectory::made`].
    MakeTempDir(AwaitDirectory<'a, G, T, R, F>),
    /// Write a file, then tell [`AwaitFile::written`].
    WriteFile(AwaitFile<'a, G, T, R, F>, PendingFile<'a, R>),
    /// Run the compiler, then tell [`AwaitCommand::ran`].
    RunCommand(AwaitCommand<G, T, F>, CommandPlan),
    /// There is nothing more to do.
    Finished(Result<CompiledTestRunner<G, T, F>, CompileError>),
}

/// `environment` is what a runner sets up in the directory `cwd`.
pub open spec fn environment_of<'a, G, T, R, F>(
    runner: crate::runner::RunnerView<'a, G, T, R, F>,
    cwd: PathBuf,
    environment: EnvironmentView<G, T, F>,
) -> bool {
    &&& environment.context == runner.context
    &&& environment.group == runner.group
    &&& environment.filter == runner.filter
    &&& environment.collect_output == runner.collect_output
    &&& environment.cwd == cwd
    &&& crate::runner::applies(runner.context.rules.for_compile(), cwd, environment.compile_rules)
    &&& crate::runner::applies(runner.context.rules.for_run(), cwd, environment.run_rules)
    &&& runner.context.rules is Equal ==> environment.compile_rules == environment.run_rules
}

/// `step` is how compiling starts: with a temporary directory, unless a directory was chosen.
pub open spec fn begins<'a, G: Eq, T, R, F: TestFilter<T>>(
    runner: crate::runner::RunnerView<'a, G, T, R, F>,
    step: CompileStep<'a, G, T, R, F>,
) -> bool {
    match runner.cwd {
        Some(cwd) => set_up_in(runner, cwd, step),
        None => step matches CompileStep::MakeTempDir(awaiting) && awaiting@ == runner,
    }
}

/// `step` is how compiling goes on once there is a directory: with the files of the context, and
/// then the files of the run.
pub open spec fn set_up_in<'a, G: Eq, T, R, F: TestFilter<T>>(
    runner: crate::runner::RunnerView<'a, G, T, R, F>,
    cwd: PathBuf,
    step: CompileStep<'a, G, T, R, F>,
) -> bool {
    exists|environment: EnvironmentView<G, T, F>|
        {
            &&& #[trigger] environment_of(runner, cwd, environment)
            &&& goes_on(
                environment,
                upcoming_files(0, runner.context.files@.len() as int, runner.files),
                step,
            )
        }
}

/// The place where a file goes: its destination, seen from the directory of the test.
pub open spec fn place_of<'a, G, T, R, F>(
    environment: EnvironmentView<G, T, F>,
    file: PendingFile<'a, R>,
) -> PathBuf {
    let dest = match file {
        PendingFile::Context(i) => environment.context.files@[i as int].dest@,
        PendingFile::Runner(file) => file.dest@,
    };
    crate::outside::joined_path(environment.cwd, dest)
}

/// `step` is how compiling goes on when `upcoming` are the files still to be written: with the
/// first of them, or with the compiler if there is none.
pub open spec fn goes_on<'a, G: Eq, T, R, F: TestFilter<T>>(
    environment: EnvironmentView<G, T, F>,
    upcoming: Seq<PendingFile<'a, R>>,
    step: CompileStep<'a, G, T, R, F>,
) -> bool {
    if upcoming.len() > 0 {
        &&& step matches CompileStep::WriteFile(awaiting, file)
        &&& file == upcoming.first()
        &&& awaiting.environment() == environment
        &&& awaiting.upcoming() == upcoming.drop_first()
        &&& awaiting.place() == place_of(environment, file)
    } else {
        compiles(environment, step)
    }
}

/// `step` is how compiling goes on once all files are written.
pub open spec fn compiles<'a, G: Eq, T, R, F: TestFilter<T>>(
    environment: EnvironmentView<G, T, F>,
    step: CompileStep<'a, G, T, R, F>,
) -> bool {
    match environment.context.command.for_compile() {
        None => {
            &&& step matches CompileStep::Finished(Ok(compiled))
            &&& compiled.environment() == environment
            &&& compiled.result() is None
        },
        Some(argv) => if argv@.len() == 0 {
            step matches CompileStep::Finished(Err(CompileError::InvalidCommand))
        } else {
            &&& step matches CompileStep::RunCommand(awaiting, plan)
            &&& awaiting@ == environment
            &&& plans_compile(environment, argv@, plan)
        },
    }
}

/// `plan` is how the compiler is run.
pub open spec fn plans_compile<G, T, F>(
    environment: EnvironmentView<G, T, F>,
    argv: Seq<String>,
    plan: CommandPlan,
) -> bool {
    let output = if environment.collect_output {
        Stream::Piped
    } else {
        Stream::Null
    };
    &&& crate::process::invokes(argv, plan.invocation)
    &&& plan.cwd == environment.cwd
    &&& plan.stdin == Stream::Inherit
    &&& plan.stdout == output
    &&& plan.stderr == output
    &&& plan.rules == environment.compile_rules
    &&& plan.max_memory == environment.context.max_memory.for_compile()
    &&& plan.max_file_size == environment.context.max_file_size.for_compile()
    &&& plan.max_threads == environment.context.max_threads.for_compile()
    &&& plan.timeout == environment.context.timeout.for_compile()
}

/// `plan` is how the program under test is run.
pub open spec fn plans_run<G, T, F>(
    environment: EnvironmentView<G, T, F>,
    argv: Seq<String>,
    plan: CommandPlan,
) -> bool {
    &&& crate::process::invokes(argv, plan.invocation)
    &&& plan.cwd == environment.cwd
    &&& plan.stdin == Stream::Piped
    &&& plan.stdout == Stream::Piped
    &&& plan.stderr == Stream::Piped
    &&& plan.rules == environment.run_rules
    &&& plan.max_memory == environment.context.max_memory.for_run()
    &&& plan.max_file_size == environment.context.max_file_size.for_run()
    &&& plan.max_threads == environment.context.max_threads.for_run()
    &&& plan.timeout == environment.context.timeout.for_run()
}

/// `step` is how compiling ends when this came of running the compiler.
pub open spec fn ends<'a, G: Eq, T, R, F: TestFilter<T>>(
    environment: EnvironmentView<G, T, F>,
    outcome: CommandOutcome,
    step: CompileStep<'a, G, T, R, F>,
) -> bool {
    match outcome {
        CommandOutcome::SpawnFailed(error) => {
            step matches CompileStep::Finished(Err(CompileError::SpawnFail(e))) && e == error
        },
        CommandOutcome::FeedFailed(error) | CommandOutcome::WaitFailed(error) => {
            step matches CompileStep::Finished(Err(CompileError::WaitFail(e))) && e == error
        },
        CommandOutcome::Finished { output, timed_out, time_taken } => {
            let result = CompileResult {
                output,
                state: CompileResultState::verdict(timed_out, output.status),
                time_taken,
            };
            if result.state is Success {
                &&& step matches CompileStep::Finished(Ok(compiled))
                &&& compiled.environment() == environment
                &&& compiled.result() == Some(result)
            } else {
                step matches CompileStep::Finished(Err(CompileError::CompileFail(r))) && r == result
            }
        },
    }
}

/// All files are written, in order, before anything is compiled.
pub proof fn every_file_is_written_before_compiling<'a, G: Eq, T, R, F: TestFilter<T>>(
    environment: EnvironmentView<G, T, F>,
    upcoming: Seq<PendingFile<'a, R>>,
    steps: Seq<CompileStep<'a, G, T, R, F>>,
)
    requires
        steps.len() > upcoming.len(),
        goes_on(environment, upcoming, steps[0]),
        forall|i: int|
            0 <= i < upcoming.len() ==> (#[trigger] steps[i] matches CompileStep::WriteFile(awaiting, _)
                ==> goes_on(awaiting.environment(), awaiting.upcoming(), steps[i + 1])),
    ensures
        forall|i: int|
            0 <= i < upcoming.len() ==> (#[trigger] steps[i] matches CompileStep::WriteFile(_, file)
                && file == upcoming[i]),
        compiles(environment, steps[upcoming.len() as int]),
    decreases upcoming.len(),
{
    if upcoming.len() > 0 {
        let rest = steps.drop_first();
        let files = upcoming.drop_first();
        assert(steps[0] is WriteFile);
        assert(rest[0] == steps[1]);
        assert forall|i: int| 0 <= i < files.len() implies (
        #[trigger] rest[i] matches CompileStep::WriteFile(awaiting, _) ==> goes_on(
            awaiting.environment(),
            awaiting.upcoming(),
            rest[i + 1],
        )) by {
            assert(rest[i] == steps[i + 1] && rest[i + 1] == steps[(i + 1) + 1]);
        }
        every_file_is_written_before_compiling(environment, files, rest);
        assert forall|i: int| 0 <= i < upcoming.len() implies (
        #[trigger] steps[i] matches CompileStep::WriteFile(_, file) && file == upcoming[i]) by {
            if i > 0 {
                assert(steps[i] == rest[i - 1]);
                assert(upcoming[i] == files[i - 1]);
            }
        }
    }
}

/// The files of the context come first, and then the files of the run.
pub proof fn files_of_the_context_come_first<'a, R>(
    context_files: int,
    files: Seq<BorrowedFileConfig<'a, R>>,
    i: int,
)
    requires
        0 <= context_files <= usize::MAX,
        0 <= i < context_files + files.len(),
    ensures
        upcoming_files(0, context_files, files).len() == context_files + files.len(),
        upcoming_files(0, context_files, files)[i] == (if i < context_files {
            PendingFile::Context(i as usize)
        } else {
            PendingFile::Runner(files[i - context_files])
        }),
{
}

/// Without a compile command nothing is compiled, whatever else is configured for compiling.
pub proof fn no_compile_command_means_no_compile_step<'a, G: Eq, T, R, F: TestFilter<T>>(
    environment: EnvironmentView<G, T, F>,
    step: CompileStep<'a, G, T, R, F>,
)
    requires
        environment.context.command.for_compile() is None,
        compiles(environment, step),
    ensures
        step matches CompileStep::Finished(Ok(compiled)) && compiled.result() is None
            && compiled.environment() == environment,
{
}

/// If the output of the compiler is not collected, it is empty; the exit status is there all the
/// same.
pub proof fn uncollected_output_is_empty<G, T, F>(
    environment: EnvironmentView<G, T, F>,
    argv: Seq<String>,
    plan: CommandPlan,
    exit: ChildExit,
    step: WatchStep,
)
    requires
        !environment.collect_output,
        plans_compile(environment, argv, plan),
        (ChildWatch {
            fed: true,
            stdout: Some(None),
            stderr: Some(None),
            exit: Some(exit),
        }).leads_to(step),
    ensures
        plan.stdout is Null,
        plan.stderr is Null,
        step matches WatchStep::Done(output, _) && output.stdout@.len() == 0 && output.stderr@.len()
            == 0 && output.status == exit.status,
{
}

/// A copy of a setting that can be copied.
fn copied<C: Copy>(setting: Option<&C>) -> (r: Option<C>)
    ensures
        r is Some <==> setting is Some,
        setting matches Some(value) ==> r == Some(*value),
{
    match setting {
        Some(value) => Some(*value),
        None => None,
    }
}

/// Another handle to the rules, if there are any.
fn share(rules: &Option<Arc<leucite::Rules>>) -> (r: Option<Arc<leucite::Rules>>)
    ensures
        r == *rules,
{
    match rules {
        Some(rules) => Some(Arc::clone(rules)),
        None => None,
    }
}

impl<G: Eq, T, F: TestFilter<T>> Environment<G, T, F> {
    #[verifier::type_invariant]
    spec fn consistent(self) -> bool {
        &&& self.group < self.context@.groups@.len()
        &&& forall|i: int|
            0 <= i < self.context@.groups@[self.group as int].cases@.len() ==> self.filter.may_ask(
                #[trigger] self.context@.groups@[self.group as int].cases@[i],
            )
    }

    /// Sets up an environment in a directory.
    pub(crate) fn new(
        context: Arc<TestContext<G, T>>,
        group: usize,
        filter: F,
        collect_output: bool,
        cwd: PathBuf,
    ) -> (r: Environment<G, T, F>)
        requires
            group < context@.groups@.len(),
            forall|i: int|
                0 <= i < context@.groups@[group as int].cases@.len() ==> filter.may_ask(
                    #[trigger] context@.groups@[group as int].cases@[i],
                ),
        ensures
            r@.context == context@,
            r@.group == group,
            r@.filter == filter,
            r@.collect_output == collect_output,
            r@.cwd == cwd,
            crate::runner::applies(context@.rules.for_compile(), cwd, r@.compile_rules),
            crate::runner::applies(context@.rules.for_run(), cwd, r@.run_rules),
            context@.rules is Equal ==> r@.compile_rules == r@.run_rules,
    {
        let (compile_rules, run_rules) = create_rules(&context.settings().rules, &cwd);
        Environment { context, group, filter, collect_output, cwd, compile_rules, run_rules }
    }

    /// Goes on with the first file.
    pub(crate) fn set_up<'a, R>(self, files: Vec<BorrowedFileConfig<'a, R>>) -> (r: CompileStep<
        'a,
        G,
        T,
        R,
        F,
    >)
        ensures
            goes_on(self@, upcoming_files(0, self@.context.files@.len() as int, files@), r),
    {
        self.next_file(0, files)
    }

    /// Goes on with the next file, or with the compiler if there is none.
    fn next_file<'a, R>(self, next: usize, files: Vec<BorrowedFileConfig<'a, R>>) -> (r: CompileStep<
        'a,
        G,
        T,
        R,
        F,
    >)
        requires
            next <= self@.context.files@.len(),
        ensures
            goes_on(
                self@,
                upcoming_files(next as int, self@.context.files@.len() as int, files@),
                r,
            ),
    {
        let context_files: usize = self.context.settings().files.len();
        let ghost upcoming = upcoming_files(next as int, context_files as int, files@);
        let mut files = files;
        if next < context_files {
            let dest = self.context.settings().files[next].dest();
            let target = path_join(&self.cwd, dest.as_path());
            let awaiting = AwaitFile { environment: self, next: next + 1, files, target };
            assert(awaiting.upcoming() =~= upcoming.drop_first());
            CompileStep::WriteFile(awaiting, PendingFile::Context(next))
        } else if files.len() > 0 {
            let file = files.remove(0);
            let target = path_join(&self.cwd, file.dest().as_path());
            let awaiting = AwaitFile { environment: self, next, files, target };
            assert(awaiting.upcoming() =~= upcoming.drop_first());
            CompileStep::WriteFile(awaiting, PendingFile::Runner(file))
        } else {
            assert(upcoming.len() == 0);
            self.compile_impl()
        }
    }

    /// Goes on with the compiler, if there is one.
    fn compile_impl<'a, R>(self) -> (r: CompileStep<'a, G, T, R, F>)
        ensures
            compiles(self@, r),
    {
        let settings = self.context.settings();
        let invocation = match settings.command.compile() {
            // There is no compile command, and thus no compile step needed.
            None => {
                return CompileStep::Finished(
                    Ok(CompiledTestRunner { environment: self, compile_result: None }),
                );
            },
            Some(argv) => match command_from_argv(argv) {
                None => {
                    return CompileStep::Finished(Err(CompileError::InvalidCommand));
                },
                Some(invocation) => invocation,
            },
        };
        let output = if self.collect_output {
            Stream::Piped
        } else {
            Stream::Null
        };
        let plan = CommandPlan {
            invocation,
            cwd: self.cwd.clone(),
            stdin: Stream::Inherit,
            stdout: output,
            stderr: output,
            rules: share(&self.compile_rules),
            max_memory: copied(settings.max_memory.compile()),
            max_file_size: copied(settings.max_file_size.compile()),
            max_threads: copied(settings.max_threads.compile()),
            timeout: copied(settings.timeout.compile()),
        };
        CompileStep::RunCommand(AwaitCommand { environment: self }, plan)
    }

    /// How the program under test is run, unless the command is invalid.
    fn run_plan(&self) -> (r: Option<CommandPlan>)
        ensures
            self@.context.command.for_run() is Some,
            r is None <==> self@.context.command.for_run()->0@.len() == 0,
            r matches Some(plan) ==> plans_run(
                self@,
                self@.context.command.for_run()->0@,
                plan,
            ),
    {
        let settings = self.context.settings();
        let invocation = match settings.command.run() {
            None => {
                return None;
            },
            Some(argv) => match command_from_argv(argv) {
                None => {
                    return None;
                },
                Some(invocation) => invocation,
            },
        };
        Some(
            CommandPlan {
                invocation,
                cwd: self.cwd.clone(),
                stdin: Stream::Piped,
                stdout: Stream::Piped,
                stderr: Stream::Piped,
                rules: share(&self.run_rules),
                max_memory: copied(settings.max_memory.run()),
                max_file_size: copied(settings.max_file_size.run()),
                max_threads: copied(settings.max_threads.run()),
                timeout: copied(settings.timeout.run()),
            },
        )
    }
}

/// Compiling waits for a temporary directory.
pub struct AwaitDirectory<'a, G: Eq, T, R, F: TestFilter<T>> {
    runner: TestRunner<'a, G, T, R, F>,
}

impl<'a, G: Eq, T, R, F: TestFilter<T>> View for AwaitDirectory<'a, G, T, R, F> {
    type V = crate::runner::RunnerView<'a, G, T, R, F>;

    closed spec fn view(&self) -> crate::runner::RunnerView<'a, G, T, R, F> {
        self.runner@
    }
}

impl<'a, G: Eq, T, R, F: TestFilter<T>> AwaitDirectory<'a, G, T, R, F> {
    pub(crate) fn new(runner: TestRunner<'a, G, T, R, F>) -> (r: Self)
        ensures
            r@ == runner@,
    {
        AwaitDirectory { runner }
    }

    /// Goes on with compiling in the directory that was made.
    pub fn made(self, made: Result<PathBuf, std::io::Error>) -> (r: CompileStep<'a, G, T, R, F>)
        ensures
            match made {
                Ok(cwd) => set_up_in(self@, cwd, r),
                Err(error) => r matches CompileStep::Finished(Err(CompileError::MktempFail(e)))
                    && e == error,
            },
    {
        match made {
            Ok(cwd) => self.runner.compile_in(cwd),
            Err(error) => CompileStep::Finished(Err(CompileError::MktempFail(error))),
        }
    }
}

/// Compiling waits for a file to be written.
pub struct AwaitFile<'a, G: Eq, T, R, F: TestFilter<T>> {
    environment: Environment<G, T, F>,
    /// The position of the next file of the context.
    next: usize,
    /// The files of the run that have not been handed out.
    files: Vec<BorrowedFileConfig<'a, R>>,
    /// Where the file goes that is being written.
    target: PathBuf,
}

impl<'a, G: Eq, T, R, F: TestFilter<T>> AwaitFile<'a, G, T, R, F> {
    /// The environment that is being set up.
    pub closed spec fn environment(self) -> EnvironmentView<G, T, F> {
        self.environment@
    }

    /// Where the file goes.
    pub closed spec fn place(self) -> PathBuf {
        self.target
    }

    /// The files that are still to be written after this one, in order.
    pub closed spec fn upcoming(self) -> Seq<PendingFile<'a, R>> {
        upcoming_files(self.next as int, self.environment@.context.files@.len() as int, self.files@)
    }

    #[verifier::type_invariant]
    spec fn consistent(self) -> bool {
        self.next <= self.environment@.context.files@.len()
    }

    /// Where the file goes.
    pub fn target(&self) -> (r: &PathBuf)
        ensures
            *r == self.place(),
    {
        &self.target
    }

    /// The files of the context.
    pub fn context_files(&self) -> (r: &Vec<FileConfig>)
        ensures
            *r == self.environment().context.files,
    {
        &self.environment.context.settings().files
    }

    /// Goes on after the file has been written.
    pub fn written(self, written: Result<(), std::io::Error>) -> (r: CompileStep<'a, G, T, R, F>)
        ensures
            match written {
                Ok(_) => goes_on(self.environment(), self.upcoming(), r),
                Err(error) => r matches CompileStep::Finished(
                    Err(CompileError::CreateFilesError(e)),
                ) && e == (CreateFilesError {
                    path: self.place(),
                    error,
                }),
            },
    {
        proof {
            use_type_invariant(&self);
        }
        match written {
            Ok(_) => self.environment.next_file(self.next, self.files),
            Err(error) => {
                let error = CreateFilesError { path: self.target, error };
                CompileStep::Finished(Err(CompileError::from(error)))
            },
        }
    }
}

/// Compiling waits for the compiler.
pub struct AwaitCommand<G: Eq, T, F: TestFilter<T>> {
    environment: Environment<G, T, F>,
}

impl<G: Eq, T, F: TestFilter<T>> View for AwaitCommand<G, T, F> {
    type V = EnvironmentView<G, T, F>;

    closed spec fn view(&self) -> EnvironmentView<G, T, F> {
        self.environment@
    }
}

impl<G: Eq, T, F: TestFilter<T>> AwaitCommand<G, T, F> {
    /// Reads what came of running the compiler.
    pub fn ran<'a, R>(self, outcome: CommandOutcome) -> (r: CompileStep<'a, G, T, R, F>)
        ensures
            ends(self@, outcome, r),
    {
        match outcome {
            CommandOutcome::SpawnFailed(error) => {
                CompileStep::Finished(Err(CompileError::SpawnFail(error)))
            },
            // A compiler has no input, so nothing is ever written to it.
            CommandOutcome::FeedFailed(error) | CommandOutcome::WaitFailed(error) => {
                CompileStep::Finished(Err(CompileError::WaitFail(error)))
            },
            CommandOutcome::Finished { output, timed_out, time_taken } => {
                let state = CompileResultState::judge(timed_out, &output);
                let result = CompileResult { output, state, time_taken };
                match state {
                    CompileResultState::Success => CompileStep::Finished(
                        Ok(
                            CompiledTestRunner {
                                environment: self.environment,
                                compile_result: Some(result),
                            },
                        ),
                    ),
                    _ => CompileStep::Finished(Err(CompileError::CompileFail(result))),
                }
            },
        }
    }
}

/// A test runner that has been compiled already.  The tests are now able to be run.
#[must_use]
#[derive(Debug)]
pub struct CompiledTestRunner<G: Eq, T, F: TestFilter<T>> {
    environment: Environment<G, T, F>,
    compile_result: Option<CompileResult>,
}

impl<G: Eq, T, F: TestFilter<T>> CompiledTestRunner<G, T, F> {
    /// The environment in which the tests are run.
    pub closed spec fn environment(self) -> EnvironmentView<G, T, F> {
        self.environment@
    }

    /// The result of the compilation step.
    pub closed spec fn result(self) -> Option<CompileResult> {
        self.compile_result
    }

    /// Get the result of the compilation step.  This is also available from
    /// [`TestHandle::compile_result`].
    pub fn compile_result(&self) -> (r: Option<&CompileResult>)
        ensures
            r is Some <==> self.result() is Some,
            r matches Some(result) ==> Some(*result) == self.result(),
    {
        self.compile_result.as_ref()
    }
}

/// `job` is what has to be done for the test at position `i`.
pub open spec fn job_for<G, T: Clone, F>(environment: EnvironmentView<G, T, F>, i: int, job: TestJob<T>) -> bool {
    &&& job.index == i
    &&& environment.cases()[i].copied_to(job.case)
    &&& job.trim_output == environment.context.trim_output
    &&& job.plan is None <==> environment.context.command.for_run()->0@.len() == 0
    &&& job.plan matches Some(plan) ==> plans_run(
        environment,
        environment.context.command.for_run()->0@,
        plan,
    )
}

/// `jobs` is what has to be done when `keep` is what the filter answered: one job for each test that
/// it lets through, in order.
pub open spec fn jobs_for<G, T: Clone, F>(
    environment: EnvironmentView<G, T, F>,
    keep: Seq<bool>,
    jobs: Seq<TestJob<T>>,
) -> bool {
    &&& jobs.len() == crate::filter::chosen(keep).len()
    &&& forall|k: int|
        0 <= k < jobs.len() ==> job_for(
            environment,
            crate::filter::chosen(keep)[k],
            #[trigger] jobs[k],
        )
}

impl<G: Eq, T: Clone, F: TestFilter<T>> CompiledTestRunner<G, T, F> {
    /// What has to be done for each test that the filter lets through, in order.  The filter is asked
    /// here, about one test after the other.
    fn spawn_tests(&self) -> (jobs: Vec<TestJob<T>>)
        ensures
            self.environment().context.command.for_run() is Some,
            exists|keep: Seq<bool>|
                {
                    &&& #[trigger] crate::filter::answers(
                        self.environment().filter,
                        self.environment().cases(),
                        keep,
                    )
                    &&& jobs_for(self.environment(), keep, jobs@)
                },
    {
        let environment = &self.environment;
        proof {
            use_type_invariant(environment);
        }
        let ghost view = environment@;
        let ghost mut keep: Seq<bool> = seq![];
        let settings = environment.context.settings();
        let cases = &settings.groups[environment.group].cases;
        let mut jobs: Vec<TestJob<T>> = Vec::new();
        let mut i: usize = 0;
        proof {
            reveal(Seq::filter);
            assert(crate::filter::chosen(keep) =~= seq![]);
        }
        while i < cases.len()
            invariant
                i <= cases.len(),
                view == environment@,
                *settings == view.context,
                cases@ == view.cases(),
                forall|j: int| 0 <= j < cases@.len() ==> view.filter.may_ask(#[trigger] cases@[j]),
                keep.len() == i,
                forall|j: int| 0 <= j < i ==> view.filter.may_answer(cases@[j], #[trigger] keep[j]),
                jobs_for(view, keep, jobs@),
            decreases cases.len() - i,
        {
            let run = environment.filter.lets_through(&cases[i]);
            proof {
                crate::filter::lemma_one_more_answer(keep, run);
                keep = keep.push(run);
            }
            if run {
                let job = TestJob {
                    index: i,
                    case: cases[i].clone(),
                    trim_output: settings.trim_output,
                    plan: environment.run_plan(),
                };
                jobs.push(job);
            }
            i = i + 1;
        }
        assert(crate::filter::answers(view.filter, view.cases(), keep));
        jobs
    }

    /// Start all of the tests and returns a handle which can wait on test completion.  The result
    /// is the handle, and what has to be done for each test; see [`TestHandle`] and [`TestJob`].
    pub fn run(self) -> (r: (TestHandle<T>, Vec<TestJob<T>>))
        ensures
            self.environment().context.command.for_run() is Some,
            exists|keep: Seq<bool>|
                {
                    &&& #[trigger] crate::filter::answers(
                        self.environment().filter,
                        self.environment().cases(),
                        keep,
                    )
                    &&& jobs_for(self.environment(), keep, r.1@)
                },
            r.0@ == (crate::handle::HandleView {
                test_count: r.1@.len() as usize,
                tests_left: r.1@.len() as usize,
                compile_result: self.result(),
                cwd: self.environment().cwd,
            }),
    {
        let jobs = self.spawn_tests();
        let handle = TestHandle::new(jobs.len(), self.compile_result, self.environment.cwd);
        (handle, jobs)
    }
}

/// The first thing to do for a run is to make a directory, exactly if none was chosen.
pub proof fn directories_are_made_only_if_none_was_chosen<'a, G: Eq, T, R, F: TestFilter<T>>(
    runner: TestRunner<'a, G, T, R, F>,
    step: CompileStep<'a, G, T, R, F>,
)
    requires
        call_ensures(TestRunner::<'a, G, T, R, F>::compile, (runner,), step),
    ensures
        runner@.cwd is None <==> step is MakeTempDir,
        step matches CompileStep::MakeTempDir(awaiting) ==> awaiting@ == runner@,
{
}

/// A directory that cannot be made ends everything.
pub proof fn runs_need_a_directory<'a, G: Eq, T, R, F: TestFilter<T>>(
    awaiting: AwaitDirectory<'a, G, T, R, F>,
    error: std::io::Error,
    step: CompileStep<'a, G, T, R, F>,
)
    requires
        call_ensures(AwaitDirectory::<'a, G, T, R, F>::made, (awaiting, Err(error)), step),
    ensures
        step matches CompileStep::Finished(Err(CompileError::MktempFail(e))) && e == error,
{
}

/// What is done in a directory, once there is one: first the files of the context are written, one by
/// one, then those of the run, and then the program is compiled.  Everything is done for the group of
/// the runner, in that directory, with the rules of each stage opened for it.
pub proof fn environments_are_those_of_their_runner<'a, G: Eq, T, R, F: TestFilter<T>>(
    runner: crate::runner::RunnerView<'a, G, T, R, F>,
    started: TestRunner<'a, G, T, R, F>,
    awaiting: AwaitDirectory<'a, G, T, R, F>,
    cwd: PathBuf,
    step: CompileStep<'a, G, T, R, F>,
) -> (environment: EnvironmentView<G, T, F>)
    requires
        ({
            &&& started@ == runner
            &&& runner.cwd == Some(cwd)
            &&& call_ensures(TestRunner::<'a, G, T, R, F>::compile, (started,), step)
        }) || ({
            &&& awaiting@ == runner
            &&& call_ensures(AwaitDirectory::<'a, G, T, R, F>::made, (awaiting, Ok(cwd)), step)
        }),
    ensures
        environment.context == runner.context,
        environment.group == runner.group,
        environment.filter == runner.filter,
        environment.collect_output == runner.collect_output,
        environment.cwd == cwd,
        environment.compile_rules is Some <==> runner.context.rules.for_compile() is Some,
        environment.compile_rules matches Some(rules) ==> crate::outside::rules_read_write(*rules)
            == crate::outside::rules_read_write(runner.context.rules.for_compile()->0).push(cwd)
            && crate::outside::rules_read_only(*rules) == crate::outside::rules_read_only(
            runner.context.rules.for_compile()->0,
        ) && crate::outside::rules_write_only(*rules) == crate::outside::rules_write_only(
            runner.context.rules.for_compile()->0,
        ) && crate::outside::rules_bind_ports(*rules) == crate::outside::rules_bind_ports(
            runner.context.rules.for_compile()->0,
        ) && crate::outside::rules_connect_ports(*rules) == crate::outside::rules_connect_ports(
            runner.context.rules.for_compile()->0,
        ),
        runner.context.rules is Equal ==> environment.compile_rules == environment.run_rules,
        environment.run_rules is Some <==> runner.context.rules.for_run() is Some,
        environment.run_rules matches Some(rules) ==> crate::outside::rules_read_write(*rules)
            == crate::outside::rules_read_write(runner.context.rules.for_run()->0).push(cwd)
            && crate::outside::rules_read_only(*rules) == crate::outside::rules_read_only(
            runner.context.rules.for_run()->0,
        ) && crate::outside::rules_write_only(*rules) == crate::outside::rules_write_only(
            runner.context.rules.for_run()->0,
        ) && crate::outside::rules_bind_ports(*rules) == crate::outside::rules_bind_ports(
            runner.context.rules.for_run()->0,
        ) && crate::outside::rules_connect_ports(*rules) == crate::outside::rules_connect_ports(
            runner.context.rules.for_run()->0,
        ),
        runner.context.files@.len() + runner.files.len() > 0 ==> {
            &&& step matches CompileStep::WriteFile(next, file)
            &&& next.environment() == environment
            &&& runner.context.files@.len() > 0 ==> file == PendingFile::<'a, R>::Context(0)
            &&& runner.context.files@.len() == 0 ==> file == PendingFile::Runner(runner.files[0])
            &&& next.upcoming().len() == runner.context.files@.len() + runner.files.len() - 1
            &&& forall|i: int|
                0 <= i < next.upcoming().len() ==> #[trigger] next.upcoming()[i] == (if i + 1
                    < runner.context.files@.len() {
                    PendingFile::Context((i + 1) as usize)
                } else {
                    PendingFile::Runner(runner.files[i + 1 - runner.context.files@.len()])
                })
        },
        runner.context.files@.len() + runner.files.len() == 0 ==> match step {
            CompileStep::RunCommand(awaiting, _) => awaiting@ == environment,
            CompileStep::Finished(Ok(compiled)) => compiled.environment() == environment,
            CompileStep::Finished(Err(CompileError::InvalidCommand)) => true,
            _ => false,
        },
{
    let environment = choose|environment: EnvironmentView<G, T, F>|
        {
            &&& #[trigger] environment_of(runner, cwd, environment)
            &&& goes_on(
                environment,
                upcoming_files(0, runner.context.files@.len() as int, runner.files),
                step,
            )
        };
    let upcoming = upcoming_files(0, runner.context.files@.len() as int, runner.files);
    assert(upcoming.len() == runner.context.files@.len() + runner.files.len());
    if upcoming.len() > 0 {
        let next = step->WriteFile_0;
        assert(next.upcoming() == upcoming.drop_first());
        assert forall|i: int| 0 <= i < next.upcoming().len() implies #[trigger] next.upcoming()[i]
            == (if i + 1 < runner.context.files@.len() {
            PendingFile::Context((i + 1) as usize)
        } else {
            PendingFile::Runner(runner.files[i + 1 - runner.context.files@.len()])
        }) by {
            assert(next.upcoming()[i] == upcoming[i + 1]);
        }
    }
    environment
}

/// After a file has been written, the next one is handed out, until there is none.
pub proof fn files_are_handed_out_in_order<'a, G: Eq, T, R, F: TestFilter<T>>(
    awaiting: AwaitFile<'a, G, T, R, F>,
    step: CompileStep<'a, G, T, R, F>,
)
    requires
        call_ensures(AwaitFile::<'a, G, T, R, F>::written, (awaiting, Ok(())), step),
    ensures
        awaiting.upcoming().len() > 0 ==> {
            &&& step matches CompileStep::WriteFile(next, file)
            &&& file == awaiting.upcoming()[0]
            &&& next.environment() == awaiting.environment()
            &&& next.upcoming() == awaiting.upcoming().drop_first()
        },
        awaiting.upcoming().len() == 0 ==> match step {
            CompileStep::RunCommand(next, _) => next@ == awaiting.environment(),
            CompileStep::Finished(Ok(compiled)) => compiled.environment() == awaiting.environment(),
            CompileStep::Finished(Err(CompileError::InvalidCommand)) => true,
            _ => false,
        },
{
}

/// A file goes to its destination in the directory of the test, and it is this place that the error
/// names if the file cannot be written.
pub proof fn files_go_to_their_destination<'a, G: Eq, T, R, F: TestFilter<T>>(
    started: TestRunner<'a, G, T, R, F>,
    made: AwaitDirectory<'a, G, T, R, F>,
    cwd: PathBuf,
    earlier: AwaitFile<'a, G, T, R, F>,
    step: CompileStep<'a, G, T, R, F>,
    target: &PathBuf,
    error: std::io::Error,
    failed: CompileStep<'a, G, T, R, F>,
)
    requires
        call_ensures(TestRunner::<'a, G, T, R, F>::compile, (started,), step) || call_ensures(
            AwaitDirectory::<'a, G, T, R, F>::made,
            (made, Ok(cwd)),
            step,
        ) || call_ensures(AwaitFile::<'a, G, T, R, F>::written, (earlier, Ok(())), step),
        step is WriteFile,
        call_ensures(AwaitFile::<'a, G, T, R, F>::target, (&step->WriteFile_0,), target),
        call_ensures(
            AwaitFile::<'a, G, T, R, F>::written,
            (step->WriteFile_0, Err(error)),
            failed,
        ),
    ensures
        step->WriteFile_1 matches PendingFile::Context(i) ==> *target == crate::outside::joined_path(
            step->WriteFile_0.environment().cwd,
            step->WriteFile_0.environment().context.files@[i as int].dest@,
        ),
        step->WriteFile_1 matches PendingFile::Runner(file) ==> *target
            == crate::outside::joined_path(step->WriteFile_0.environment().cwd, file.dest@),
        failed matches CompileStep::Finished(Err(CompileError::CreateFilesError(e))) && e.path
            == *target && e.error == error,
{
    if call_ensures(AwaitFile::<'a, G, T, R, F>::written, (earlier, Ok(())), step) {
        assert(goes_on(earlier.environment(), earlier.upcoming(), step));
    }
}

/// The files of the context are there to be written.
pub proof fn files_of_the_context_are_there<'a, G: Eq, T, R, F: TestFilter<T>>(
    awaiting: AwaitFile<'a, G, T, R, F>,
    files: &Vec<FileConfig>,
)
    requires
        call_ensures(AwaitFile::<'a, G, T, R, F>::context_files, (&awaiting,), files),
    ensures
        files@ == awaiting.environment().context.files@,
{
}

/// Once all files are written, nothing is compiled if there is no compile command, an empty compile
/// command is an error, and any other is run: the program is its first item and the arguments are the
/// others, in the directory of the test, with exactly the rules, limits and timeout that were set for
/// compiling.  Nothing that was never set is made up.
pub proof fn compilers_run_as_configured<'a, G: Eq, T, R, F: TestFilter<T>>(
    awaiting: AwaitFile<'a, G, T, R, F>,
    step: CompileStep<'a, G, T, R, F>,
)
    requires
        call_ensures(AwaitFile::<'a, G, T, R, F>::written, (awaiting, Ok(())), step),
        awaiting.upcoming().len() == 0,
    ensures
        awaiting.environment().context.command.for_compile() is None ==> (
        step matches CompileStep::Finished(Ok(compiled)) && compiled.result() is None),
        awaiting.environment().context.command.for_compile() matches Some(argv) ==> (argv@.len() == 0
            ==> step matches CompileStep::Finished(Err(CompileError::InvalidCommand))),
        awaiting.environment().context.command.for_compile() matches Some(argv) ==> (argv@.len() > 0
            ==> {
            &&& step matches CompileStep::RunCommand(_, plan)
            &&& plan.invocation.program == argv@[0]
            &&& plan.invocation.args@.len() == argv@.len() - 1
            &&& forall|i: int|
                0 <= i < plan.invocation.args@.len() ==> plan.invocation.args@[i] == argv@[i + 1]
            &&& plan.cwd == awaiting.environment().cwd
            &&& plan.stdin == Stream::Inherit
            &&& awaiting.environment().collect_output ==> plan.stdout == Stream::Piped
                && plan.stderr == Stream::Piped
            &&& !awaiting.environment().collect_output ==> plan.stdout == Stream::Null
                && plan.stderr == Stream::Null
            &&& plan.rules == awaiting.environment().compile_rules
            &&& plan.max_memory == awaiting.environment().context.max_memory.for_compile()
            &&& plan.max_file_size == awaiting.environment().context.max_file_size.for_compile()
            &&& plan.max_threads == awaiting.environment().context.max_threads.for_compile()
            &&& plan.timeout == awaiting.environment().context.timeout.for_compile()
        }),
{
}

/// The same if there are no files to be written.
pub proof fn compilers_run_as_configured_without_files<'a, G: Eq, T, R, F: TestFilter<T>>(
    runner: crate::runner::RunnerView<'a, G, T, R, F>,
    started: TestRunner<'a, G, T, R, F>,
    awaiting: AwaitDirectory<'a, G, T, R, F>,
    cwd: PathBuf,
    step: CompileStep<'a, G, T, R, F>,
)
    requires
        ({
            &&& started@ == runner
            &&& runner.cwd == Some(cwd)
            &&& call_ensures(TestRunner::<'a, G, T, R, F>::compile, (started,), step)
        }) || ({
            &&& awaiting@ == runner
            &&& call_ensures(AwaitDirectory::<'a, G, T, R, F>::made, (awaiting, Ok(cwd)), step)
        }),
        runner.context.files@.len() + runner.files.len() == 0,
    ensures
        runner.context.command.for_compile() is None ==> (step matches CompileStep::Finished(
            Ok(compiled),
        ) && compiled.result() is None),
        runner.context.command.for_compile() matches Some(argv) ==> (argv@.len() == 0
            ==> step matches CompileStep::Finished(Err(CompileError::InvalidCommand))),
        runner.context.command.for_compile() matches Some(argv) ==> (argv@.len() > 0 ==> {
            &&& step matches CompileStep::RunCommand(next, plan)
            &&& plan.invocation.program == argv@[0]
            &&& plan.invocation.args@.len() == argv@.len() - 1
            &&& forall|i: int|
                0 <= i < plan.invocation.args@.len() ==> plan.invocation.args@[i] == argv@[i + 1]
            &&& plan.cwd == cwd
            &&& plan.stdin == Stream::Inherit
            &&& runner.collect_output ==> plan.stdout == Stream::Piped && plan.stderr
                == Stream::Piped
            &&& !runner.collect_output ==> plan.stdout == Stream::Null && plan.stderr
                == Stream::Null
            &&& plan.rules == next@.compile_rules
            &&& plan.max_memory == runner.context.max_memory.for_compile()
            &&& plan.max_file_size == runner.context.max_file_size.for_compile()
            &&& plan.max_threads == runner.context.max_threads.for_compile()
            &&& plan.timeout == runner.context.timeout.for_compile()
        }),
{
    assert(upcoming_files(0, 0, runner.files).len() == 0);
}

/// Compiling ends well exactly if the compiler ended in time with exit status 0; what it printed, its
/// status and the time that it took are kept.  In every other case there is an error that says what
/// happened, and nothing is run.
pub proof fn compiling_ends_well_only_if_the_compiler_did<'a, G: Eq, T, R, F: TestFilter<T>>(
    awaiting: AwaitCommand<G, T, F>,
    outcome: CommandOutcome,
    step: CompileStep<'a, G, T, R, F>,
)
    requires
        call_ensures(AwaitCommand::<G, T, F>::ran::<'a, R>, (awaiting, outcome), step),
    ensures
        step is Finished,
        (step matches CompileStep::Finished(Ok(_))) <==> (outcome matches CommandOutcome::Finished {
            output,
            timed_out,
            time_taken,
        } && !timed_out && output.status == 0),
        step matches CompileStep::Finished(Ok(compiled)) ==> {
            &&& compiled.environment() == awaiting@
            &&& compiled.result() matches Some(result)
            &&& result.output == outcome->output
            &&& result.time_taken == outcome->time_taken
            &&& result.state == CompileResultState::Success
        },
        outcome matches CommandOutcome::Finished { output, timed_out, time_taken } ==> (timed_out
            || output.status != 0 ==> {
            &&& step matches CompileStep::Finished(Err(CompileError::CompileFail(result)))
            &&& result.output == output
            &&& result.time_taken == time_taken
            &&& timed_out ==> result.state == CompileResultState::TimedOut
            &&& !timed_out ==> result.state == CompileResultState::RuntimeFail
        }),
        outcome matches CommandOutcome::SpawnFailed(error) ==> (step matches CompileStep::Finished(
            Err(CompileError::SpawnFail(e)),
        ) && e == error),
        outcome matches CommandOutcome::WaitFailed(error) ==> (step matches CompileStep::Finished(
            Err(CompileError::WaitFail(e)),
        ) && e == error),
        outcome matches CommandOutcome::FeedFailed(error) ==> (step matches CompileStep::Finished(
            Err(CompileError::WaitFail(e)),
        ) && e == error),
{
}

/// Running a compiled suite gives one job for each test that the filter lets through, in the order in
/// which the tests were added.  A job has the index, the input and the expectation of its test and a
/// clone of its data.  It trims exactly if the suite says so.  Its program is the first item of the run
/// command and its arguments are the others, in the directory of the test, with exactly the rules,
/// limits and timeout that were set for running.  The handle counts the jobs.
pub proof fn every_chosen_test_is_run_as_configured<G: Eq, T: Clone, F: TestFilter<T>>(
    compiled: CompiledTestRunner<G, T, F>,
    r: (TestHandle<T>, Vec<TestJob<T>>),
) -> (keep: Seq<bool>)
    requires
        call_ensures(CompiledTestRunner::<G, T, F>::run, (compiled,), r),
    ensures
        ({
            let environment = compiled.environment();
            let cases = environment.context.groups@[environment.group as int].cases@;
            let argv = environment.context.command.for_run()->0@;
            &&& environment.context.command.for_run() is Some
            &&& keep.len() == cases.len()
            &&& forall|i: int|
                0 <= i < cases.len() ==> environment.filter.may_answer(cases[i], #[trigger] keep[i])
            &&& forall|i: int|
                0 <= i < cases.len() && #[trigger] keep[i] ==> exists|k: int|
                    0 <= k < r.1@.len() && (#[trigger] r.1@[k]).index == i
            &&& forall|j: int, k: int|
                0 <= j < k < r.1@.len() ==> (#[trigger] r.1@[j]).index < (#[trigger] r.1@[k]).index
            &&& forall|k: int|
                0 <= k < r.1@.len() ==> {
                    let job = #[trigger] r.1@[k];
                    &&& job.index < cases.len()
                    &&& keep[job.index as int]
                    &&& job.case.input == cases[job.index as int].input
                    &&& job.case.output == cases[job.index as int].output
                    &&& cloned(cases[job.index as int].data, job.case.data)
                    &&& job.trim_output == environment.context.trim_output
                    &&& job.plan is None <==> argv.len() == 0
                    &&& job.plan matches Some(plan) ==> {
                        &&& plan.invocation.program == argv[0]
                        &&& plan.invocation.args@.len() == argv.len() - 1
                        &&& forall|i: int|
                            0 <= i < plan.invocation.args@.len() ==> plan.invocation.args@[i]
                                == argv[i + 1]
                        &&& plan.cwd == environment.cwd
                        &&& plan.stdin == Stream::Piped
                        &&& plan.stdout == Stream::Piped
                        &&& plan.stderr == Stream::Piped
                        &&& plan.rules == environment.run_rules
                        &&& plan.max_memory == environment.context.max_memory.for_run()
                        &&& plan.max_file_size == environment.context.max_file_size.for_run()
                        &&& plan.max_threads == environment.context.max_threads.for_run()
                        &&& plan.timeout == environment.context.timeout.for_run()
                    }
                }
            &&& r.0@.test_count == r.1@.len()
            &&& r.0@.tests_left == r.1@.len()
            &&& r.0@.compile_result == compiled.result()
            &&& r.0@.cwd == environment.cwd
        }),
{
    let environment = compiled.environment();
    let cases = environment.cases();
    let jobs = r.1@;
    let keep = choose|keep: Seq<bool>|
        {
            &&& #[trigger] crate::filter::answers(environment.filter, cases, keep)
            &&& jobs_for(environment, keep, jobs)
        };
    let chosen = crate::filter::chosen(keep);
    crate::filter::filtering_chooses_exactly(keep);
    assert forall|k: int| 0 <= k < jobs.len() implies (#[trigger] jobs[k]).index == chosen[k]
        && job_for(environment, chosen[k], jobs[k]) by {}
    assert forall|i: int| 0 <= i < cases.len() && #[trigger] keep[i] implies exists|k: int|
        0 <= k < jobs.len() && (#[trigger] jobs[k]).index == i by {
        assert(chosen.contains(i));
        let k = choose|k: int| 0 <= k < chosen.len() && chosen[k] == i;
        assert(jobs[k].index == i);
    }
    assert forall|j: int, k: int| 0 <= j < k < jobs.len() implies (#[trigger] jobs[j]).index < (
    #[trigger] jobs[k]).index by {
        assert(chosen[j] < chosen[k]);
    }
    assert forall|k: int| 0 <= k < jobs.len() implies {
        &&& (#[trigger] jobs[k]).index < cases.len()
        &&& keep[jobs[k].index as int]
    } by {
        assert(chosen.contains(chosen[k]));
    }
    assert(jobs.len() == r.1.len());
    keep
}

/// The result of the compile step is kept.
pub proof fn compile_results_are_kept<G: Eq, T, F: TestFilter<T>>(
    compiled: CompiledTestRunner<G, T, F>,
    r: Option<&CompileResult>,
)
    requires
        call_ensures(CompiledTestRunner::<G, T, F>::compile_result, (&compiled,), r),
    ensures
        r is None <==> compiled.result() is None,
        r matches Some(result) ==> compiled.result() == Some(*result),
{
}

} // verus!
