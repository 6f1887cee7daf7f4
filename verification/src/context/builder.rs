//! Building a [`TestContext`] step by step.
use std::marker::PhantomData;
use std::time::Duration;

use vstd::prelude::*;

use super::groups::{add_cases, TestGroup};
use super::{ContextSettings, StageConfig, TestContext};
use crate::cases::{ExpectedOutput, TestCase};
use crate::convert::into_all;
use crate::file::{Destination, FileConfig, FileContent};

verus! {

/// A type that says whether some part of a context has been given to its builder.
pub trait BuilderState {
    /// Whether it has been given.
    spec fn is_set() -> bool;
}

/// No tests have been added.
#[non_exhaustive]
#[derive(Debug)]
pub struct MissingTests;

/// Tests have been added.
#[non_exhaustive]
#[derive(Debug)]
pub struct SetTests;

/// There is no run command.
#[non_exhaustive]
#[derive(Debug)]
pub struct MissingRunCmd;

/// There is a run command.
#[non_exhaustive]
#[derive(Debug)]
pub struct SetRunCmd;

impl BuilderState for MissingTests {
    open spec fn is_set() -> bool {
        false
    }
}

impl BuilderState for SetTests {
    open spec fn is_set() -> bool {
        true
    }
}

impl BuilderState for MissingRunCmd {
    open spec fn is_set() -> bool {
        false
    }
}

impl BuilderState for SetRunCmd {
    open spec fn is_set() -> bool {
        true
    }
}

/// A builder that will create a [`TestContext`].  This builder uses a type-state pattern to ensure
/// that the required fields are all present.
///
/// The fields `timeout`, `rules`, `max_memory`, `max_file_size`, and `max_threads` can be set for
/// runtime, compile-time, or both.  These methods have a pattern of `run_<field>` for runtime
/// only, `compile_<field>` for compile-time only, or `<field>` for both runtime and compile-time.
#[must_use]
#[derive(Debug)]
pub struct TestContextBuilder<
    G: Eq,
    T,
    Tests: BuilderState = MissingTests,
    RunCmd: BuilderState = MissingRunCmd,
> {
    settings: ContextSettings<G, T>,
    state: PhantomData<(Tests, RunCmd)>,
}

impl<G: Eq, T, Tests: BuilderState, RunCmd: BuilderState> View for TestContextBuilder<
    G,
    T,
    Tests,
    RunCmd,
> {
    type V = ContextSettings<G, T>;

    closed spec fn view(&self) -> ContextSettings<G, T> {
        self.settings
    }
}

/// The settings of a context for which nothing has been configured.
pub open spec fn unconfigured<G, T>(settings: ContextSettings<G, T>) -> bool {
    &&& !settings.trim_output
    &&& settings.files@.len() == 0
    &&& settings.groups@.len() == 0
    &&& settings.command is Unset
    &&& settings.timeout is Unset
    &&& settings.rules is Unset
    &&& settings.max_memory is Unset
    &&& settings.max_file_size is Unset
    &&& settings.max_threads is Unset
}

/// `list` is what is listed in `groups`: the same keys, each with what its tests are converted to.
pub open spec fn lists<G, C: Into<TestCase<T>>, T>(
    groups: Seq<(G, Vec<C>)>,
    list: Seq<(G, Seq<TestCase<T>>)>,
) -> bool {
    &&& list.len() == groups.len()
    &&& forall|i: int|
        0 <= i < list.len() ==> (#[trigger] list[i]).0 == groups[i].0 && crate::convert::each_into(
            groups[i].1@,
            list[i].1,
        )
}

impl<G: Eq, T> TestContextBuilder<G, T, MissingTests, MissingRunCmd> {
    /// Construction of this type should only be done with [`TestContext::builder`].
    pub(crate) fn new() -> (r: TestContextBuilder<G, T, MissingTests, MissingRunCmd>)
        ensures
            unconfigured(r@),
    {
        TestContextBuilder {
            settings: ContextSettings {
                trim_output: false,
                files: Vec::new(),
                groups: Vec::new(),
                command: StageConfig::Unset,
                timeout: StageConfig::Unset,
                rules: StageConfig::Unset,
                max_memory: StageConfig::Unset,
                max_file_size: StageConfig::Unset,
                max_threads: StageConfig::Unset,
            },
            state: PhantomData,
        }
    }
}

impl<G: Eq, T, Tests: BuilderState, RunCmd: BuilderState> TestContextBuilder<G, T, Tests, RunCmd> {
    #[verifier::type_invariant]
    spec fn consistent(self) -> bool {
        &&& RunCmd::is_set() ==> self.settings.command.for_run() is Some
        &&& !Tests::is_set() ==> self.settings.groups@.len() == 0
        &&& super::groups::distinct(super::groups::contents(self.settings.groups@))
    }

    /// Changes the state that the builder claims to be in.
    fn transform<C: BuilderState, D: BuilderState>(settings: ContextSettings<G, T>) -> (r:
        TestContextBuilder<G, T, C, D>)
        requires
            D::is_set() ==> settings.command.for_run() is Some,
            !C::is_set() ==> settings.groups@.len() == 0,
            super::groups::distinct(super::groups::contents(settings.groups@)),
        ensures
            r@ == settings,
    {
        TestContextBuilder { settings, state: PhantomData }
    }

    /// Set whether the tests should trim the output of the program before testing.
    ///
    /// Default = `false`
    pub fn trim_output(self, trim_output: bool) -> (r: Self)
        ensures
            r@ == (ContextSettings { trim_output, ..self@ }),
    {
        proof {
            use_type_invariant(&self);
        }
        let mut settings = self.settings;
        settings.trim_output = trim_output;
        Self::transform(settings)
    }

    /// Set the command used for compilation of the test.  If this function is not called, then
    /// _no_ compilation step will be performed, even if the other compile settings are used.
    ///
    /// The command must have at least one item to be valid.  If it does not, compiling the test
    /// will end with an error.
    pub fn compile_command<S: Into<String>>(self, compile_command: Vec<S>) -> (r: Self)
        ensures
            exists|argv: Vec<String>| #[trigger]
                crate::convert::each_into(compile_command@, argv@) && r@ == (ContextSettings {
                    command: self@.command.replace_compile(argv),
                    ..self@
                }),
    {
        proof {
            use_type_invariant(&self);
        }
        let mut settings = self.settings;
        settings.command.with_compile(into_all(compile_command));
        Self::transform(settings)
    }

    /// Add a file to be inserted into the runtime environment of the test.  This is added before
    /// compilation, so it works well for libraries or input/output manipulation.
    ///
    /// If `source` is a path, the file will only be copied when a test is compiled, meaning
    /// that if the file changes or is removed, then the output may differ between two
    /// instances of the test runner from a single context.
    ///
    /// `destination` is a path relative to the directory used for the test environment.  If it is
    /// an absolute path, then it will be made relative to the test environment, i.e.,
    /// `/foo/bar` -> `<test-env>/foo/bar`.
    pub fn file<S: Into<FileContent>, D: Into<Destination>>(self, source: S, destination: D) -> (r:
        Self)
        ensures
            r@ == (ContextSettings { files: r@.files, ..self@ }),
            r@.files@.len() == self@.files@.len() + 1,
            r@.files@.drop_last() == self@.files@,
            call_ensures(<S as Into<FileContent>>::into, (source,), r@.files@.last().src),
            call_ensures(<D as Into<Destination>>::into, (destination,), r@.files@.last().dest),
    {
        proof {
            use_type_invariant(&self);
        }
        let mut settings = self.settings;
        settings.files.push(FileConfig::new(source, destination));
        assert(settings.files@.drop_last() =~= self@.files@);
        Self::transform(settings)
    }

    /// Add multiple files to be inserted into the runtime environment of the test.  These files
    /// are added before compilation, so it works well for libraries or input/output manipulation.
    ///
    /// See [`TestContextBuilder::file`] for the source and the destination of a file.
    pub fn files<F: Into<FileConfig>>(self, files: Vec<F>) -> (r: Self)
        ensures
            r@ == (ContextSettings { files: r@.files, ..self@ }),
            exists|new: Seq<FileConfig>| #[trigger]
                crate::convert::each_into(files@, new) && r@.files@ == self@.files@ + new,
    {
        proof {
            use_type_invariant(&self);
        }
        let mut settings = self.settings;
        let mut files: Vec<FileConfig> = into_all(files);
        settings.files.append(&mut files);
        Self::transform(settings)
    }

    /// Set the rules for execution when running the program.
    pub fn run_rules(self, rules: leucite::Rules) -> (r: Self)
        ensures
            r@ == (ContextSettings { rules: self@.rules.replace_run(rules), ..self@ }),
    {
        proof {
            use_type_invariant(&self);
        }
        let mut settings = self.settings;
        settings.rules.with_run(rules);
        Self::transform(settings)
    }

    /// Set the rules for execution when compiling the program.
    pub fn compile_rules(self, rules: leucite::Rules) -> (r: Self)
        ensures
            r@ == (ContextSettings { rules: self@.rules.replace_compile(rules), ..self@ }),
    {
        proof {
            use_type_invariant(&self);
        }
        let mut settings = self.settings;
        settings.rules.with_compile(rules);
        Self::transform(settings)
    }

    /// Set the rules for execution of _both_ running and compiling the program.
    pub fn rules(self, rules: leucite::Rules) -> (r: Self)
        ensures
            r@ == (ContextSettings { rules: StageConfig::Equal(rules), ..self@ }),
    {
        proof {
            use_type_invariant(&self);
        }
        let mut settings = self.settings;
        settings.rules.with_both(rules);
        Self::transform(settings)
    }

    /// Set the maximum memory usage when running the program.
    pub fn run_max_memory(self, max_memory: leucite::MemorySize) -> (r: Self)
        ensures
            r@ == (ContextSettings { max_memory: self@.max_memory.replace_run(max_memory), ..self@ }),
    {
        proof {
            use_type_invariant(&self);
        }
        let mut settings = self.settings;
        settings.max_memory.with_run(max_memory);
        Self::transform(settings)
    }

    /// Set the maximum memory usage when compiling the program.
    pub fn compile_max_memory(self, max_memory: leucite::MemorySize) -> (r: Self)
        ensures
            r@ == (ContextSettings { max_memory: self@.max_memory.replace_compile(max_memory), ..self@ }),
    {
        proof {
            use_type_invariant(&self);
        }
        let mut settings = self.settings;
        settings.max_memory.with_compile(max_memory);
        Self::transform(settings)
    }

    /// Set the maximum memory usage of _both_ running and compiling the program.
    pub fn max_memory(self, max_memory: leucite::MemorySize) -> (r: Self)
        ensures
            r@ == (ContextSettings { max_memory: StageConfig::Equal(max_memory), ..self@ }),
    {
        proof {
            use_type_invariant(&self);
        }
        let mut settings = self.settings;
        settings.max_memory.with_both(max_memory);
        Self::transform(settings)
    }

    /// Set the maximum file size when running the program.
    pub fn run_max_file_size(self, max_file_size: leucite::MemorySize) -> (r: Self)
        ensures
            r@ == (ContextSettings { max_file_size: self@.max_file_size.replace_run(max_file_size), ..self@ }),
    {
        proof {
            use_type_invariant(&self);
        }
        let mut settings = self.settings;
        settings.max_file_size.with_run(max_file_size);
        Self::transform(settings)
    }

    /// Set the maximum file size when compiling the program.
    pub fn compile_max_file_size(self, max_file_size: leucite::MemorySize) -> (r: Self)
        ensures
            r@ == (ContextSettings { max_file_size: self@.max_file_size.replace_compile(max_file_size), ..self@ }),
    {
        proof {
            use_type_invariant(&self);
        }
        let mut settings = self.settings;
        settings.max_file_size.with_compile(max_file_size);
        Self::transform(settings)
    }

    /// Set the maximum file size of _both_ running and compiling the program.
    pub fn max_file_size(self, max_file_size: leucite::MemorySize) -> (r: Self)
        ensures
            r@ == (ContextSettings { max_file_size: StageConfig::Equal(max_file_size), ..self@ }),
    {
        proof {
            use_type_invariant(&self);
        }
        let mut settings = self.settings;
        settings.max_file_size.with_both(max_file_size);
        Self::transform(settings)
    }

    /// Set the max thread count when running the program.
    pub fn run_max_threads(self, max_threads: u64) -> (r: Self)
        ensures
            r@ == (ContextSettings { max_threads: self@.max_threads.replace_run(max_threads), ..self@ }),
    {
        proof {
            use_type_invariant(&self);
        }
        let mut settings = self.settings;
        settings.max_threads.with_run(max_threads);
        Self::transform(settings)
    }

    /// Set the max thread count when compiling the program.
    pub fn compile_max_threads(self, max_threads: u64) -> (r: Self)
        ensures
            r@ == (ContextSettings { max_threads: self@.max_threads.replace_compile(max_threads), ..self@ }),
    {
        proof {
            use_type_invariant(&self);
        }
        let mut settings = self.settings;
        settings.max_threads.with_compile(max_threads);
        Self::transform(settings)
    }

    /// Set the max thread count of _both_ running and compiling the program.
    pub fn max_threads(self, max_threads: u64) -> (r: Self)
        ensures
            r@ == (ContextSettings { max_threads: StageConfig::Equal(max_threads), ..self@ }),
    {
        proof {
            use_type_invariant(&self);
        }
        let mut settings = self.settings;
        settings.max_threads.with_both(max_threads);
        Self::transform(settings)
    }

    /// Set the timeout when running the program.
    pub fn run_timeout(self, timeout: Duration) -> (r: Self)
        ensures
            r@ == (ContextSettings { timeout: self@.timeout.replace_run(timeout), ..self@ }),
    {
        proof {
            use_type_invariant(&self);
        }
        let mut settings = self.settings;
        settings.timeout.with_run(timeout);
        Self::transform(settings)
    }

    /// Set the timeout when compiling the program.
    pub fn compile_timeout(self, timeout: Duration) -> (r: Self)
        ensures
            r@ == (ContextSettings { timeout: self@.timeout.replace_compile(timeout), ..self@ }),
    {
        proof {
            use_type_invariant(&self);
        }
        let mut settings = self.settings;
        settings.timeout.with_compile(timeout);
        Self::transform(settings)
    }

    /// Set the timeout of _both_ running and compiling the program.
    pub fn timeout(self, timeout: Duration) -> (r: Self)
        ensures
            r@ == (ContextSettings { timeout: StageConfig::Equal(timeout), ..self@ }),
    {
        proof {
            use_type_invariant(&self);
        }
        let mut settings = self.settings;
        settings.timeout.with_both(timeout);
        Self::transform(settings)
    }

    /// Add a single test to this context in a group.
    ///
    /// The `data` argument is for any data that you wish to associate with this test (on top of
    /// its index, which is associated by default).  This is useful for adding additional
    /// information such as visibility to the test.
    ///
    /// The `group` argument is used to associate tests with each other.  When creating a test
    /// runner, one uses the `group` to select just the tests that they wish to run.
    pub fn test<I: Into<String>, O: Into<ExpectedOutput>>(
        self,
        group: G,
        input: I,
        output: O,
        data: T,
    ) -> (r: TestContextBuilder<G, T, SetTests, RunCmd>)
        ensures
            r@ == (ContextSettings { groups: r@.groups, ..self@ }),
            r@.groups@.len() > 0,
            exists|case: TestCase<T>|
                {
                    &&& #[trigger] super::groups::added(
                        super::groups::contents(self@.groups@),
                        group,
                        seq![case],
                        super::groups::contents(r@.groups@),
                    )
                    &&& call_ensures(<I as Into<String>>::into, (input,), case.input)
                    &&& call_ensures(<O as Into<ExpectedOutput>>::into, (output,), case.output)
                    &&& case.data == data
                },
    {
        proof {
            use_type_invariant(&self);
        }
        let mut settings = self.settings;
        let mut cases: Vec<TestCase<T>> = Vec::new();
        cases.push(TestCase::new(input, output, data));
        let ghost case = cases@[0];
        assert(cases@ =~= seq![case]);
        add_cases(&mut settings.groups, group, cases);
        TestContextBuilder::<G, T, Tests, RunCmd>::transform(settings)
    }

    /// Add a series of tests to this context.
    ///
    /// See [`TestContextBuilder::test`] for additional information.
    pub fn tests<C: Into<TestCase<T>>>(self, group: G, tests: Vec<C>) -> (r: TestContextBuilder<
        G,
        T,
        SetTests,
        RunCmd,
    >)
        ensures
            r@ == (ContextSettings { groups: r@.groups, ..self@ }),
            r@.groups@.len() > 0,
            exists|cases: Seq<TestCase<T>>| #[trigger]
                crate::convert::each_into(tests@, cases) && super::groups::added(
                    super::groups::contents(self@.groups@),
                    group,
                    cases,
                    super::groups::contents(r@.groups@),
                ),
    {
        proof {
            use_type_invariant(&self);
        }
        let mut settings = self.settings;
        let cases: Vec<TestCase<T>> = into_all(tests);
        add_cases(&mut settings.groups, group, cases);
        TestContextBuilder::<G, T, Tests, RunCmd>::transform(settings)
    }

    /// Add several test groups to this context, one after the other.
    ///
    /// See [`TestContextBuilder::tests`] for additional information.
    pub fn test_groups<C: Into<TestCase<T>>>(self, test_groups: Vec<(G, Vec<C>)>) -> (r:
        TestContextBuilder<G, T, SetTests, RunCmd>)
        ensures
            r@ == (ContextSettings { groups: r@.groups, ..self@ }),
            self@.groups@.len() > 0 || test_groups@.len() > 0 ==> r@.groups@.len() > 0,
            exists|
                list: Seq<(G, Seq<TestCase<T>>)>,
                steps: Seq<Seq<(G, Seq<TestCase<T>>)>>,
            |
                {
                    &&& lists(test_groups@, list)
                    &&& #[trigger] super::groups::added_in_turn(list, steps)
                    &&& steps.first() == super::groups::contents(self@.groups@)
                    &&& steps.last() == super::groups::contents(r@.groups@)
                },
    {
        proof {
            use_type_invariant(&self);
        }
        let mut settings = self.settings;
        let ghost given = test_groups@;
        let ghost mut list: Seq<(G, Seq<TestCase<T>>)> = seq![];
        let ghost mut steps: Seq<Seq<(G, Seq<TestCase<T>>)>> = seq![
            super::groups::contents(settings.groups@),
        ];
        for item in iter: test_groups
            invariant
                iter.seq() == given,
                lists(given.take(iter.index()), list),
                settings == (ContextSettings { groups: settings.groups, ..self@ }),
                super::groups::added_in_turn(list, steps),
                steps.first() == super::groups::contents(self@.groups@),
                steps.last() == super::groups::contents(settings.groups@),
                super::groups::distinct(super::groups::contents(settings.groups@)),
                self@.groups@.len() > 0 || iter.index() > 0 ==> settings.groups@.len() > 0,
        {
            let (group, tests) = item;
            let cases: Vec<TestCase<T>> = into_all(tests);
            let ghost before = steps;
            let ghost listed = list;
            let ghost added = cases@;
            add_cases(&mut settings.groups, group, cases);
            proof {
                let n = listed.len() as int;
                list = listed.push((group, added));
                steps = before.push(super::groups::contents(settings.groups@));
                assert forall|i: int| 0 <= i < list.len() implies super::groups::added(
                    steps[i],
                    (#[trigger] list[i]).0,
                    list[i].1,
                    steps[i + 1],
                ) by {
                    if i < n {
                        assert(list[i] == listed[i]);
                        assert(steps[i] == before[i] && steps[i + 1] == before[i + 1]);
                    }
                }
                assert forall|i: int| 0 <= i < list.len() implies (#[trigger] list[i]).0
                    == given.take(n + 1)[i].0 && crate::convert::each_into(
                    given.take(n + 1)[i].1@,
                    list[i].1,
                ) by {
                    if i < n {
                        assert(list[i] == listed[i]);
                        assert(given.take(n)[i] == given.take(n + 1)[i]);
                    }
                }
            }
        }
        assert(given.take(given.len() as int) =~= given);
        TestContextBuilder::<G, T, Tests, RunCmd>::transform(settings)
    }
}

impl<G: Eq, T, Tests: BuilderState> TestContextBuilder<G, T, Tests, MissingRunCmd> {
    /// Set the command to run the tests.
    ///
    /// The command must have at least one item to be valid.  If it does not, every test will end
    /// with an error.
    pub fn run_command<S: Into<String>>(self, command: Vec<S>) -> (r: TestContextBuilder<
        G,
        T,
        Tests,
        SetRunCmd,
    >)
        ensures
            exists|argv: Vec<String>| #[trigger]
                crate::convert::each_into(command@, argv@) && r@ == (ContextSettings {
                    command: self@.command.replace_run(argv),
                    ..self@
                }),
    {
        proof {
            use_type_invariant(&self);
        }
        let mut settings = self.settings;
        settings.command.with_run(into_all(command));
        TestContextBuilder::<G, T, Tests, MissingRunCmd>::transform(settings)
    }
}

impl<G: Eq, T> TestContextBuilder<G, T, SetTests, SetRunCmd> {
    /// Tells whether there is a group, which is not so if the only thing ever added was an empty list
    /// of groups.
    pub fn has_groups(&self) -> (r: bool)
        ensures
            r == (self@.groups@.len() > 0),
    {
        self.settings.groups.len() > 0
    }

    /// Finish building this test context.  There has to be a group; see
    /// [`TestContextBuilder::has_groups`].
    pub fn build(self) -> (r: TestContext<G, T>)
        requires
            self@.groups@.len() > 0,
        ensures
            r@ == self@,
    {
        proof {
            use_type_invariant(&self);
        }
        TestContext::new(self.settings)
    }
}

/// A builder that has just been made has no tests and no files, does not trim, and has no command, no
/// rules, no limit and no timeout for either stage.
pub proof fn builders_start_with_nothing<G: Eq, T>(b: TestContextBuilder<G, T>)
    requires
        call_ensures(TestContext::<G, T>::builder, (), b),
    ensures
        !b@.trim_output,
        b@.files@.len() == 0,
        b@.groups@.len() == 0,
        b@.command.for_compile() is None && b@.command.for_run() is None,
        b@.timeout.for_compile() is None && b@.timeout.for_run() is None,
        b@.rules.for_compile() is None && b@.rules.for_run() is None,
        b@.max_memory.for_compile() is None && b@.max_memory.for_run() is None,
        b@.max_file_size.for_compile() is None && b@.max_file_size.for_run() is None,
        b@.max_threads.for_compile() is None && b@.max_threads.for_run() is None,
{
}

/// The rules of a stage are those that were set for it, and setting them changes nothing else.
pub proof fn rules_are_set_for_their_stage<G: Eq, T, A: BuilderState, B: BuilderState>(
    b: TestContextBuilder<G, T, A, B>,
    rules: leucite::Rules,
    r: TestContextBuilder<G, T, A, B>,
)
    ensures
        call_ensures(TestContextBuilder::<G, T, A, B>::run_rules, (b, rules), r) ==> {
            &&& r@.rules.for_run() == Some(rules)
            &&& r@.rules.for_compile() == b@.rules.for_compile()
            &&& r@ == (ContextSettings { rules: r@.rules, ..b@ })
        },
        call_ensures(TestContextBuilder::<G, T, A, B>::compile_rules, (b, rules), r) ==> {
            &&& r@.rules.for_compile() == Some(rules)
            &&& r@.rules.for_run() == b@.rules.for_run()
            &&& r@ == (ContextSettings { rules: r@.rules, ..b@ })
        },
        call_ensures(TestContextBuilder::<G, T, A, B>::rules, (b, rules), r) ==> {
            &&& r@.rules.for_compile() == Some(rules)
            &&& r@.rules.for_run() == Some(rules)
            &&& r@ == (ContextSettings { rules: r@.rules, ..b@ })
        },
{
}

/// The memory limit of a stage is the one that was set for it, and setting it changes nothing else.
pub proof fn memory_limits_are_set_for_their_stage<G: Eq, T, A: BuilderState, B: BuilderState>(
    b: TestContextBuilder<G, T, A, B>,
    limit: leucite::MemorySize,
    r: TestContextBuilder<G, T, A, B>,
)
    ensures
        call_ensures(TestContextBuilder::<G, T, A, B>::run_max_memory, (b, limit), r) ==> {
            &&& r@.max_memory.for_run() == Some(limit)
            &&& r@.max_memory.for_compile() == b@.max_memory.for_compile()
            &&& r@ == (ContextSettings { max_memory: r@.max_memory, ..b@ })
        },
        call_ensures(TestContextBuilder::<G, T, A, B>::compile_max_memory, (b, limit), r) ==> {
            &&& r@.max_memory.for_compile() == Some(limit)
            &&& r@.max_memory.for_run() == b@.max_memory.for_run()
            &&& r@ == (ContextSettings { max_memory: r@.max_memory, ..b@ })
        },
        call_ensures(TestContextBuilder::<G, T, A, B>::max_memory, (b, limit), r) ==> {
            &&& r@.max_memory.for_compile() == Some(limit)
            &&& r@.max_memory.for_run() == Some(limit)
            &&& r@ == (ContextSettings { max_memory: r@.max_memory, ..b@ })
        },
{
}

/// The file size limit of a stage is the one that was set for it, and setting it changes nothing else.
pub proof fn file_size_limits_are_set_for_their_stage<G: Eq, T, A: BuilderState, B: BuilderState>(
    b: TestContextBuilder<G, T, A, B>,
    limit: leucite::MemorySize,
    r: TestContextBuilder<G, T, A, B>,
)
    ensures
        call_ensures(TestContextBuilder::<G, T, A, B>::run_max_file_size, (b, limit), r) ==> {
            &&& r@.max_file_size.for_run() == Some(limit)
            &&& r@.max_file_size.for_compile() == b@.max_file_size.for_compile()
            &&& r@ == (ContextSettings { max_file_size: r@.max_file_size, ..b@ })
        },
        call_ensures(TestContextBuilder::<G, T, A, B>::compile_max_file_size, (b, limit), r) ==> {
            &&& r@.max_file_size.for_compile() == Some(limit)
            &&& r@.max_file_size.for_run() == b@.max_file_size.for_run()
            &&& r@ == (ContextSettings { max_file_size: r@.max_file_size, ..b@ })
        },
        call_ensures(TestContextBuilder::<G, T, A, B>::max_file_size, (b, limit), r) ==> {
            &&& r@.max_file_size.for_compile() == Some(limit)
            &&& r@.max_file_size.for_run() == Some(limit)
            &&& r@ == (ContextSettings { max_file_size: r@.max_file_size, ..b@ })
        },
{
}

/// The thread limit of a stage is the one that was set for it, and setting it changes nothing else.
pub proof fn thread_limits_are_set_for_their_stage<G: Eq, T, A: BuilderState, B: BuilderState>(
    b: TestContextBuilder<G, T, A, B>,
    limit: u64,
    r: TestContextBuilder<G, T, A, B>,
)
    ensures
        call_ensures(TestContextBuilder::<G, T, A, B>::run_max_threads, (b, limit), r) ==> {
            &&& r@.max_threads.for_run() == Some(limit)
            &&& r@.max_threads.for_compile() == b@.max_threads.for_compile()
            &&& r@ == (ContextSettings { max_threads: r@.max_threads, ..b@ })
        },
        call_ensures(TestContextBuilder::<G, T, A, B>::compile_max_threads, (b, limit), r) ==> {
            &&& r@.max_threads.for_compile() == Some(limit)
            &&& r@.max_threads.for_run() == b@.max_threads.for_run()
            &&& r@ == (ContextSettings { max_threads: r@.max_threads, ..b@ })
        },
        call_ensures(TestContextBuilder::<G, T, A, B>::max_threads, (b, limit), r) ==> {
            &&& r@.max_threads.for_compile() == Some(limit)
            &&& r@.max_threads.for_run() == Some(limit)
            &&& r@ == (ContextSettings { max_threads: r@.max_threads, ..b@ })
        },
{
}

/// The timeout of a stage is the one that was set for it, and setting it changes nothing else.
pub proof fn timeouts_are_set_for_their_stage<G: Eq, T, A: BuilderState, B: BuilderState>(
    b: TestContextBuilder<G, T, A, B>,
    timeout: Duration,
    r: TestContextBuilder<G, T, A, B>,
)
    ensures
        call_ensures(TestContextBuilder::<G, T, A, B>::run_timeout, (b, timeout), r) ==> {
            &&& r@.timeout.for_run() == Some(timeout)
            &&& r@.timeout.for_compile() == b@.timeout.for_compile()
            &&& r@ == (ContextSettings { timeout: r@.timeout, ..b@ })
        },
        call_ensures(TestContextBuilder::<G, T, A, B>::compile_timeout, (b, timeout), r) ==> {
            &&& r@.timeout.for_compile() == Some(timeout)
            &&& r@.timeout.for_run() == b@.timeout.for_run()
            &&& r@ == (ContextSettings { timeout: r@.timeout, ..b@ })
        },
        call_ensures(TestContextBuilder::<G, T, A, B>::timeout, (b, timeout), r) ==> {
            &&& r@.timeout.for_compile() == Some(timeout)
            &&& r@.timeout.for_run() == Some(timeout)
            &&& r@ == (ContextSettings { timeout: r@.timeout, ..b@ })
        },
{
}

/// Whether output is trimmed is as it was last set, and setting it changes nothing else.
pub proof fn trimming_is_as_it_was_set<G: Eq, T, A: BuilderState, B: BuilderState>(
    b: TestContextBuilder<G, T, A, B>,
    trim_output: bool,
    r: TestContextBuilder<G, T, A, B>,
)
    requires
        call_ensures(TestContextBuilder::<G, T, A, B>::trim_output, (b, trim_output), r),
    ensures
        r@.trim_output <==> trim_output,
        r@ == (ContextSettings { trim_output: r@.trim_output, ..b@ }),
{
}

/// The compile command is what was given, item by item; the run command and everything else stay.
pub proof fn compile_commands_are_kept<G: Eq, T, A: BuilderState, B: BuilderState, S: Into<String>>(
    b: TestContextBuilder<G, T, A, B>,
    command: Vec<S>,
    r: TestContextBuilder<G, T, A, B>,
)
    requires
        call_ensures(TestContextBuilder::<G, T, A, B>::compile_command::<S>, (b, command), r),
    ensures
        r@.command.for_compile() is Some,
        r@.command.for_compile()->0@.len() == command@.len(),
        forall|i: int|
            0 <= i < command@.len() ==> call_ensures(
                <S as Into<String>>::into,
                (command@[i],),
                #[trigger] r@.command.for_compile()->0@[i],
            ),
        r@.command.for_run() == b@.command.for_run(),
        r@ == (ContextSettings { command: r@.command, ..b@ }),
{
}

/// The run command is what was given, item by item; the compile command and everything else stay.
pub proof fn run_commands_are_kept<G: Eq, T, A: BuilderState, S: Into<String>>(
    b: TestContextBuilder<G, T, A, MissingRunCmd>,
    command: Vec<S>,
    r: TestContextBuilder<G, T, A, SetRunCmd>,
)
    requires
        call_ensures(
            TestContextBuilder::<G, T, A, MissingRunCmd>::run_command::<S>,
            (b, command),
            r,
        ),
    ensures
        r@.command.for_run() is Some,
        r@.command.for_run()->0@.len() == command@.len(),
        forall|i: int|
            0 <= i < command@.len() ==> call_ensures(
                <S as Into<String>>::into,
                (command@[i],),
                #[trigger] r@.command.for_run()->0@[i],
            ),
        r@.command.for_compile() == b@.command.for_compile(),
        r@ == (ContextSettings { command: r@.command, ..b@ }),
{
}

/// A file goes behind those that are there, which stay as they are, and so does everything else.
pub proof fn files_go_to_the_end<
    G: Eq,
    T,
    A: BuilderState,
    B: BuilderState,
    S: Into<FileContent>,
    D: Into<Destination>,
>(
    b: TestContextBuilder<G, T, A, B>,
    source: S,
    destination: D,
    r: TestContextBuilder<G, T, A, B>,
)
    requires
        call_ensures(
            TestContextBuilder::<G, T, A, B>::file::<S, D>,
            (b, source, destination),
            r,
        ),
    ensures
        r@.files@.len() == b@.files@.len() + 1,
        forall|i: int| 0 <= i < b@.files@.len() ==> r@.files@[i] == b@.files@[i],
        call_ensures(
            <S as Into<FileContent>>::into,
            (source,),
            r@.files@[b@.files@.len() as int].src,
        ),
        call_ensures(
            <D as Into<Destination>>::into,
            (destination,),
            r@.files@[b@.files@.len() as int].dest,
        ),
        r@ == (ContextSettings { files: r@.files, ..b@ }),
{
    assert forall|i: int| 0 <= i < b@.files@.len() implies r@.files@[i] == b@.files@[i] by {
        assert(r@.files@.drop_last()[i] == r@.files@[i]);
    }
}

/// Several files go behind those that are there, in the order in which they are given.
pub proof fn lists_of_files_go_to_the_end<
    G: Eq,
    T,
    A: BuilderState,
    B: BuilderState,
    F: Into<FileConfig>,
>(b: TestContextBuilder<G, T, A, B>, files: Vec<F>, r: TestContextBuilder<G, T, A, B>)
    requires
        call_ensures(TestContextBuilder::<G, T, A, B>::files::<F>, (b, files), r),
    ensures
        r@.files@.len() == b@.files@.len() + files@.len(),
        forall|i: int| 0 <= i < b@.files@.len() ==> r@.files@[i] == b@.files@[i],
        forall|i: int|
            0 <= i < files@.len() ==> call_ensures(
                <F as Into<FileConfig>>::into,
                (#[trigger] files@[i],),
                r@.files@[b@.files@.len() + i],
            ),
        r@ == (ContextSettings { files: r@.files, ..b@ }),
{
    let new = choose|new: Seq<FileConfig>| #[trigger]
        crate::convert::each_into(files@, new) && r@.files@ == b@.files@ + new;
    assert forall|i: int| 0 <= i < files@.len() implies call_ensures(
        <F as Into<FileConfig>>::into,
        (#[trigger] files@[i],),
        r@.files@[b@.files@.len() + i],
    ) by {
        assert(r@.files@[b@.files@.len() + i] == new[i]);
    }
}

/// What one addition to a group amounts to: the tests go behind those of the first group with the same
/// key, or into a new group at the end if there is none, and no other group is touched.
proof fn lemma_one_addition<G: Eq, T>(
    same: spec_fn(G, G) -> bool,
    before: Seq<TestGroup<G, T>>,
    group: G,
    cases: Seq<TestCase<T>>,
    after: Seq<TestGroup<G, T>>,
) -> (k: int)
    requires
        super::groups::compared_by(same),
        super::groups::added(
            super::groups::contents(before),
            group,
            cases,
            super::groups::contents(after),
        ),
    ensures
        0 <= k < after.len(),
        same(after[k].group, group),
        k < before.len() ==> {
            &&& after.len() == before.len()
            &&& after[k].group == before[k].group
            &&& after[k].cases@ == before[k].cases@ + cases
        },
        k >= before.len() ==> {
            &&& k == before.len()
            &&& after.len() == before.len() + 1
            &&& after[k].group == group
            &&& after[k].cases@ == cases
            &&& forall|j: int| 0 <= j < before.len() ==> !same((#[trigger] before[j]).group, group)
        },
        forall|j: int|
            0 <= j < before.len() && j != k ==> (#[trigger] after[j]).group == before[j].group
                && after[j].cases@ == before[j].cases@,
{
    let old_groups = super::groups::contents(before);
    let new_groups = super::groups::contents(after);
    let k = choose|k: int| #[trigger]
        super::groups::stands_at(old_groups, group, k) && new_groups == super::groups::insert(
            old_groups,
            group,
            k,
            cases,
        );
    super::groups::lemma_stands_where_first(same, old_groups, group, k);
    super::groups::lemma_shape_of_insert(old_groups, group, k, cases);
    assert(old_groups.len() == before.len() && new_groups.len() == after.len());
    assert forall|j: int| 0 <= j < after.len() implies new_groups[j] == (
        (#[trigger] after[j]).group,
        after[j].cases@,
    ) by {}
    assert forall|j: int| 0 <= j < before.len() implies old_groups[j] == (
        (#[trigger] before[j]).group,
        before[j].cases@,
    ) by {}
    assert(new_groups[k] == (after[k].group, after[k].cases@));
    if k < before.len() {
        assert(old_groups[k] == (before[k].group, before[k].cases@));
        assert(same(old_groups[k].0, group));
    } else {
        assert(same(group, group));
        assert(after[k].cases@ =~= cases);
        assert forall|j: int| 0 <= j < before.len() implies !same(
            (#[trigger] before[j]).group,
            group,
        ) by {
            assert(!same(old_groups[j].0, group));
        }
    }
    assert forall|j: int| 0 <= j < before.len() && j != k implies (#[trigger] after[j]).group
        == before[j].group && after[j].cases@ == before[j].cases@ by {
        assert(new_groups[j].0 == old_groups[j].0 && new_groups[j].1 == old_groups[j].1);
        assert(old_groups[j] == (before[j].group, before[j].cases@));
    }
    k
}

/// A test goes behind the tests of the group with the same key, or into a new group behind the others
/// if there is none.  Everything else stays as it is.
pub proof fn a_test_goes_to_the_end_of_its_group<
    G: Eq,
    T,
    A: BuilderState,
    B: BuilderState,
    I: Into<String>,
    O: Into<ExpectedOutput>,
>(
    same: spec_fn(G, G) -> bool,
    b: TestContextBuilder<G, T, A, B>,
    group: G,
    input: I,
    output: O,
    data: T,
    r: TestContextBuilder<G, T, SetTests, B>,
) -> (k: int)
    requires
        super::groups::compared_by(same),
        call_ensures(
            TestContextBuilder::<G, T, A, B>::test::<I, O>,
            (b, group, input, output, data),
            r,
        ),
    ensures
        0 <= k < r@.groups@.len(),
        same(r@.groups@[k].group, group),
        k < b@.groups@.len() ==> {
            &&& r@.groups@.len() == b@.groups@.len()
            &&& r@.groups@[k].group == b@.groups@[k].group
            &&& r@.groups@[k].cases@.len() == b@.groups@[k].cases@.len() + 1
            &&& r@.groups@[k].cases@.drop_last() == b@.groups@[k].cases@
        },
        k >= b@.groups@.len() ==> {
            &&& r@.groups@.len() == b@.groups@.len() + 1
            &&& r@.groups@[k].group == group
            &&& r@.groups@[k].cases@.len() == 1
            &&& forall|j: int|
                0 <= j < b@.groups@.len() ==> !same((#[trigger] b@.groups@[j]).group, group)
        },
        call_ensures(<I as Into<String>>::into, (input,), r@.groups@[k].cases@.last().input),
        call_ensures(
            <O as Into<ExpectedOutput>>::into,
            (output,),
            r@.groups@[k].cases@.last().output,
        ),
        r@.groups@[k].cases@.last().data == data,
        forall|j: int|
            0 <= j < b@.groups@.len() && j != k ==> (#[trigger] r@.groups@[j]).group
                == b@.groups@[j].group && r@.groups@[j].cases@ == b@.groups@[j].cases@,
        r@ == (ContextSettings { groups: r@.groups, ..b@ }),
{
    let case = choose|case: TestCase<T>|
        {
            &&& #[trigger] super::groups::added(
                super::groups::contents(b@.groups@),
                group,
                seq![case],
                super::groups::contents(r@.groups@),
            )
            &&& call_ensures(<I as Into<String>>::into, (input,), case.input)
            &&& call_ensures(<O as Into<ExpectedOutput>>::into, (output,), case.output)
            &&& case.data == data
        };
    let k = lemma_one_addition(same, b@.groups@, group, seq![case], r@.groups@);
    assert(r@.groups@[k].cases@.last() == case);
    if k < b@.groups@.len() {
        assert(r@.groups@[k].cases@.drop_last() =~= b@.groups@[k].cases@);
    }
    k
}

/// Several tests go behind the tests of the group with the same key, in the order in which they are
/// given, or into a new group if there is none.  Everything else stays as it is.
pub proof fn tests_go_to_the_end_of_their_group<
    G: Eq,
    T,
    A: BuilderState,
    B: BuilderState,
    C: Into<TestCase<T>>,
>(
    same: spec_fn(G, G) -> bool,
    b: TestContextBuilder<G, T, A, B>,
    group: G,
    tests: Vec<C>,
    r: TestContextBuilder<G, T, SetTests, B>,
) -> (k: int)
    requires
        super::groups::compared_by(same),
        call_ensures(TestContextBuilder::<G, T, A, B>::tests::<C>, (b, group, tests), r),
    ensures
        0 <= k < r@.groups@.len(),
        same(r@.groups@[k].group, group),
        k < b@.groups@.len() ==> {
            &&& r@.groups@.len() == b@.groups@.len()
            &&& r@.groups@[k].group == b@.groups@[k].group
            &&& r@.groups@[k].cases@.len() == b@.groups@[k].cases@.len() + tests@.len()
            &&& r@.groups@[k].cases@.take(b@.groups@[k].cases@.len() as int)
                == b@.groups@[k].cases@
        },
        k >= b@.groups@.len() ==> {
            &&& r@.groups@.len() == b@.groups@.len() + 1
            &&& r@.groups@[k].group == group
            &&& r@.groups@[k].cases@.len() == tests@.len()
            &&& forall|j: int|
                0 <= j < b@.groups@.len() ==> !same((#[trigger] b@.groups@[j]).group, group)
        },
        forall|i: int|
            0 <= i < tests@.len() ==> call_ensures(
                <C as Into<TestCase<T>>>::into,
                (#[trigger] tests@[i],),
                r@.groups@[k].cases@[r@.groups@[k].cases@.len() - tests@.len() + i],
            ),
        forall|j: int|
            0 <= j < b@.groups@.len() && j != k ==> (#[trigger] r@.groups@[j]).group
                == b@.groups@[j].group && r@.groups@[j].cases@ == b@.groups@[j].cases@,
        r@ == (ContextSettings { groups: r@.groups, ..b@ }),
{
    let cases = choose|cases: Seq<TestCase<T>>| #[trigger]
        crate::convert::each_into(tests@, cases) && super::groups::added(
            super::groups::contents(b@.groups@),
            group,
            cases,
            super::groups::contents(r@.groups@),
        );
    let k = lemma_one_addition(same, b@.groups@, group, cases, r@.groups@);
    if k < b@.groups@.len() {
        assert(r@.groups@[k].cases@.take(b@.groups@[k].cases@.len() as int)
            =~= b@.groups@[k].cases@);
    }
    assert forall|i: int| 0 <= i < tests@.len() implies call_ensures(
        <C as Into<TestCase<T>>>::into,
        (#[trigger] tests@[i],),
        r@.groups@[k].cases@[r@.groups@[k].cases@.len() - tests@.len() + i],
    ) by {
        assert(r@.groups@[k].cases@[r@.groups@[k].cases@.len() - tests@.len() + i] == cases[i]);
    }
    k
}

/// Adding several groups gives every group the tests that are listed for it, in the order of the list
/// and behind the tests that it had.  A group is there afterwards exactly if it was there before or is
/// listed.
pub proof fn groups_get_the_tests_that_are_listed_for_them<
    G: Eq,
    T,
    A: BuilderState,
    B: BuilderState,
    C: Into<TestCase<T>>,
>(
    same: spec_fn(G, G) -> bool,
    b: TestContextBuilder<G, T, A, B>,
    test_groups: Vec<(G, Vec<C>)>,
    r: TestContextBuilder<G, T, SetTests, B>,
    group: G,
    there: int,
    found: int,
) -> (list: Seq<(G, Seq<TestCase<T>>)>)
    requires
        super::groups::compared_by(same),
        call_ensures(TestContextBuilder::<G, T, A, B>::test_groups::<C>, (b, test_groups), r),
        super::groups::first_same(same, super::groups::contents(b@.groups@), group, there),
        super::groups::first_same(same, super::groups::contents(r@.groups@), group, found),
    ensures
        list.len() == test_groups@.len(),
        forall|i: int|
            0 <= i < list.len() ==> (#[trigger] list[i]).0 == test_groups@[i].0 && list[i].1.len()
                == test_groups@[i].1@.len(),
        forall|i: int, j: int|
            0 <= i < list.len() && 0 <= j < list[i].1.len() ==> call_ensures(
                <C as Into<TestCase<T>>>::into,
                (test_groups@[i].1@[j],),
                #[trigger] list[i].1[j],
            ),
        found < r@.groups@.len() <==> there < b@.groups@.len() || super::history::mentions(
            same,
            list,
            group,
        ),
        super::groups::cases_at(super::groups::contents(r@.groups@), found)
            == super::groups::cases_at(super::groups::contents(b@.groups@), there)
            + super::history::gathered(same, list, group),
        r@ == (ContextSettings { groups: r@.groups, ..b@ }),
{
    let (list, steps) = choose|
        list: Seq<(G, Seq<TestCase<T>>)>,
        steps: Seq<Seq<(G, Seq<TestCase<T>>)>>,
    |
        {
            &&& lists(test_groups@, list)
            &&& #[trigger] super::groups::added_in_turn(list, steps)
            &&& steps.first() == super::groups::contents(b@.groups@)
            &&& steps.last() == super::groups::contents(r@.groups@)
        };
    super::history::lemma_groups_gain_what_is_added(same, list, steps, group, there, found);
    assert forall|i: int, j: int| 0 <= i < list.len() && 0 <= j < list[i].1.len() implies call_ensures(
        <C as Into<TestCase<T>>>::into,
        (test_groups@[i].1@[j],),
        #[trigger] list[i].1[j],
    ) by {
        assert(crate::convert::each_into(test_groups@[i].1@, list[i].1));
    }
    list
}

/// A context is what was built.
pub proof fn contexts_are_what_was_built<G: Eq, T>(
    b: TestContextBuilder<G, T, SetTests, SetRunCmd>,
    context: TestContext<G, T>,
    settings: &ContextSettings<G, T>,
)
    requires
        call_ensures(TestContextBuilder::<G, T, SetTests, SetRunCmd>::build, (b,), context),
        call_ensures(TestContext::<G, T>::settings, (&context,), settings),
    ensures
        context@ == b@,
        *settings == b@,
        settings.command.for_run() is Some,
        settings.groups@.len() > 0,
{
}

/// A context can be built exactly if there is a group.
pub proof fn contexts_need_a_group<G: Eq, T>(
    b: TestContextBuilder<G, T, SetTests, SetRunCmd>,
    has_groups: bool,
)
    requires
        call_ensures(TestContextBuilder::<G, T, SetTests, SetRunCmd>::has_groups, (&b,), has_groups),
    ensures
        has_groups <==> b@.groups@.len() > 0,
        has_groups ==> call_requires(
            TestContextBuilder::<G, T, SetTests, SetRunCmd>::build,
            (b,),
        ),
{
}

} // verus!
