//! One run of a test suite, from its configuration to its results.
use std::path::PathBuf;
use std::sync::Arc;

use vstd::prelude::*;

use crate::cases::TestCase;
use crate::compile::{AwaitDirectory, CompileStep, Environment};
use crate::context::{ContextSettings, StageConfig, TestContext};
use crate::convert::into_all;
use crate::file::{BorrowedFileConfig, BorrowedFileContent, Destination};
use crate::filter::{FilteredBy, TestFilter, Unfiltered};
use crate::outside::rules_add_read_write;

pub use crate::compile::CompiledTestRunner;
pub use crate::handle::{TestHandle, TestJob};
pub use crate::result::{CompileResult, CompileResultState, TestResult, TestResultState};

verus! {

/// A suite of tests that are about to be run.  This can be created from the
/// [`TestContext::test_runner`] function and will inherit the configuration from the context.
#[must_use]
#[derive(Debug)]
pub struct TestRunner<'a, G: Eq, T, R = (), F: TestFilter<T> = Unfiltered> {
    context: Arc<TestContext<G, T>>,
    /// The position of the group whose tests are run.
    group: usize,
    files: Vec<BorrowedFileConfig<'a, R>>,
    filter: F,
    cwd: Option<PathBuf>,
    collect_output: bool,
}

/// What a [`TestRunner`] is going to do.
pub struct RunnerView<'a, G, T, R, F = Unfiltered> {
    /// The configuration of the suite.
    pub context: ContextSettings<G, T>,
    /// The position of the group whose tests are run.
    pub group: usize,
    /// The files of this run.
    pub files: Seq<BorrowedFileConfig<'a, R>>,
    /// What is asked which tests are to be run.
    pub filter: F,
    /// The directory, if one was chosen.
    pub cwd: Option<PathBuf>,
    /// Whether the output of the compiler is collected.
    pub collect_output: bool,
}

impl<'a, G, T, R, F> RunnerView<'a, G, T, R, F> {
    /// The tests of the group, with those that are filtered out.
    pub open spec fn cases(self) -> Seq<TestCase<T>> {
        self.context.groups@[self.group as int].cases@
    }
}

impl<'a, G, T, R> RunnerView<'a, G, T, R> {
    /// A run of a group without any configuration of its own.
    pub open spec fn fresh(context: ContextSettings<G, T>, group: usize) -> RunnerView<'a, G, T, R> {
        RunnerView {
            context,
            group,
            files: seq![],
            filter: Unfiltered,
            cwd: None,
            collect_output: true,
        }
    }
}

impl<'a, G: Eq, T, R, F: TestFilter<T>> View for TestRunner<'a, G, T, R, F> {
    type V = RunnerView<'a, G, T, R, F>;

    closed spec fn view(&self) -> RunnerView<'a, G, T, R, F> {
        RunnerView {
            context: self.context@,
            group: self.group,
            files: self.files@,
            filter: self.filter,
            cwd: self.cwd,
            collect_output: self.collect_output,
        }
    }
}

/// `opened` is `rules`, and may read and write `cwd` besides.
pub open spec fn opens(rules: leucite::Rules, cwd: PathBuf, opened: leucite::Rules) -> bool {
    &&& crate::outside::rules_read_write(opened) == crate::outside::rules_read_write(rules).push(cwd)
    &&& crate::outside::rules_read_only(opened) == crate::outside::rules_read_only(rules)
    &&& crate::outside::rules_write_only(opened) == crate::outside::rules_write_only(rules)
    &&& crate::outside::rules_bind_ports(opened) == crate::outside::rules_bind_ports(rules)
    &&& crate::outside::rules_connect_ports(opened) == crate::outside::rules_connect_ports(rules)
}

/// `applied` are the rules that a stage gets: its own, opened for the directory of the test, or
/// none if it has none.
pub open spec fn applies(
    rules: Option<leucite::Rules>,
    cwd: PathBuf,
    applied: Option<Arc<leucite::Rules>>,
) -> bool {
    match rules {
        Some(rules) => applied matches Some(applied) && opens(rules, cwd, *applied),
        None => applied is None,
    }
}

/// Opens rules for the directory of the test.
fn open_rules(rules: &leucite::Rules, cwd: &PathBuf) -> (r: Arc<leucite::Rules>)
    ensures
        opens(*rules, *cwd, *r),
{
    Arc::new(rules_add_read_write(rules.clone(), cwd))
}

/// The rules for compiling and for running in the directory `cwd`.
pub fn create_rules(rules: &StageConfig<leucite::Rules>, cwd: &PathBuf) -> (r: (
    Option<Arc<leucite::Rules>>,
    Option<Arc<leucite::Rules>>,
))
    ensures
        applies(rules.for_compile(), *cwd, r.0),
        applies(rules.for_run(), *cwd, r.1),
        rules is Equal ==> r.0 == r.1,
{
    match rules {
        StageConfig::Unset => (None, None),
        StageConfig::Compile(rules) => (Some(open_rules(rules, cwd)), None),
        StageConfig::Run(rules) => (None, Some(open_rules(rules, cwd))),
        StageConfig::Equal(rules) => {
            // One instance of the rules is enough for both stages.
            let rules = open_rules(rules, cwd);
            (Some(Arc::clone(&rules)), Some(rules))
        },
        StageConfig::Different { compile, run } => {
            (Some(open_rules(compile, cwd)), Some(open_rules(run, cwd)))
        },
    }
}

/// Whatever its rules are, a stage may read and write in the directory of the test, and it may do
/// everything there that its rules allow.
pub proof fn the_directory_is_always_open(
    rules: Option<leucite::Rules>,
    cwd: PathBuf,
    applied: Option<Arc<leucite::Rules>>,
)
    requires
        applies(rules, cwd, applied),
    ensures
        applied is Some <==> rules is Some,
        applied matches Some(applied) ==> {
            &&& crate::outside::rules_read_write(*applied).contains(cwd)
            &&& forall|path: PathBuf|
                crate::outside::rules_read_write(rules->0).contains(path)
                    ==> #[trigger] crate::outside::rules_read_write(*applied).contains(path)
        },
{
    if applied is Some {
        let before = crate::outside::rules_read_write(rules->0);
        let after = before.push(cwd);
        assert(after[before.len() as int] == cwd);
        assert forall|path: PathBuf| before.contains(path) implies #[trigger] after.contains(path) by {
            let i = choose|i: int| 0 <= i < before.len() && before[i] == path;
            assert(after[i] == path);
        }
    }
}

/// A runner has the tests of its group, in the order in which they were added.
pub proof fn a_runner_has_the_tests_of_its_group<'a, G, T, R>(
    context: ContextSettings<G, T>,
    group: usize,
)
    requires
        group < context.groups@.len(),
    ensures
        RunnerView::<'a, G, T, R>::fresh(context, group).cases() == crate::context::groups::cases_at(
            crate::context::groups::contents(context.groups@),
            group as int,
        ),
{
}

/// For a suite made by adding the tests of `list`, there is a runner exactly for the groups to which
/// something was added, and it has exactly the tests that were, in the order in which they were
/// added.
pub proof fn a_runner_has_what_was_added_to_its_group<'a, G: PartialEq, T, R>(
    same: spec_fn(G, G) -> bool,
    list: Seq<(G, Seq<TestCase<T>>)>,
    steps: Seq<Seq<(G, Seq<TestCase<T>>)>>,
    context: ContextSettings<G, T>,
    group: G,
    k: int,
)
    requires
        crate::context::groups::compared_by(same),
        crate::context::groups::added_in_turn(list, steps),
        steps.first().len() == 0,
        crate::context::groups::contents(context.groups@) == steps.last(),
        crate::context::groups::stands_at(
            crate::context::groups::contents(context.groups@),
            group,
            k,
        ),
    ensures
        k < context.groups@.len() <==> crate::context::history::mentions(same, list, group),
        k < context.groups@.len() ==> RunnerView::<'a, G, T, R>::fresh(context, k as usize).cases()
            == crate::context::history::gathered(same, list, group),
{
    crate::context::history::groups_hold_what_was_added(same, list, steps, group, k);
    if k < context.groups@.len() {
        assert(k < context.groups.len());
        a_runner_has_the_tests_of_its_group::<G, T, R>(context, k as usize);
    }
}

impl<'a, G: Eq, T, R> TestRunner<'a, G, T, R> {
    pub(crate) fn new(context: Arc<TestContext<G, T>>, group: usize) -> (r: Self)
        requires
            group < context@.groups@.len(),
        ensures
            r@ == RunnerView::<'a, G, T, R>::fresh(context@, group),
    {
        TestRunner {
            context,
            group,
            files: Vec::new(),
            filter: Unfiltered,
            cwd: None,
            collect_output: true,
        }
    }
}

impl<'a, G: Eq, T, R, F: TestFilter<T>> TestRunner<'a, G, T, R, F> {
    #[verifier::type_invariant]
    spec fn consistent(self) -> bool {
        &&& self.group < self.context@.groups@.len()
        &&& forall|i: int|
            0 <= i < self.context@.groups@[self.group as int].cases@.len() ==> self.filter.may_ask(
                #[trigger] self.context@.groups@[self.group as int].cases@[i],
            )
    }

    /// The tests of the group, with those that are filtered out.
    pub fn test_cases(&self) -> (r: &Vec<TestCase<T>>)
        ensures
            r@ == self@.cases(),
    {
        proof {
            use_type_invariant(self);
        }
        &self.context.settings().groups[self.group].cases
    }

    /// The files of this run.
    pub fn own_files(&self) -> (r: &Vec<BorrowedFileConfig<'a, R>>)
        ensures
            r@ == self@.files,
    {
        &self.files
    }

    /// Add a file to be inserted into the runtime environment of the test.  This is added before
    /// compilation, so it works well for libraries or input/output manipulation.
    ///
    /// If `source` is a path, the file will only be copied when a test is compiled, meaning
    /// that if the file changes or is removed, then the output may differ between two
    /// instances of the test runner from a single context.
    ///
    /// `dest` is a path relative to the directory used for the test environment.  If it is an
    /// absolute path, then it will be made relative to the test environment, i.e.,
    /// `/foo/bar` -> `<test-env>/foo/bar`.
    pub fn file<S: Into<BorrowedFileContent<'a, R>>, D: Into<Destination>>(
        self,
        source: S,
        dest: D,
    ) -> (r: Self)
        ensures
            r@ == (RunnerView { files: r@.files, ..self@ }),
            r@.files.len() == self@.files.len() + 1,
            r@.files.drop_last() == self@.files,
            call_ensures(
                <S as Into<BorrowedFileContent<'a, R>>>::into,
                (source,),
                r@.files.last().src,
            ),
            call_ensures(<D as Into<Destination>>::into, (dest,), r@.files.last().dest),
    {
        proof {
            use_type_invariant(&self);
        }
        let mut files = self.files;
        files.push(BorrowedFileConfig::new(source, dest));
        assert(files@.drop_last() =~= self@.files);
        TestRunner {
            context: self.context,
            group: self.group,
            files,
            filter: self.filter,
            cwd: self.cwd,
            collect_output: self.collect_output,
        }
    }

    /// Add multiple files to be inserted into the runtime environment of the test.  These files
    /// are added before compilation, so it works well for libraries or input/output manipulation.
    ///
    /// See [`TestRunner::file`] for the source and the destination of a file.
    pub fn files<C: Into<BorrowedFileConfig<'a, R>>>(self, files: Vec<C>) -> (r: Self)
        ensures
            exists|new: Seq<BorrowedFileConfig<'a, R>>| #[trigger]
                crate::convert::each_into(files@, new) && r@ == (RunnerView {
                    files: self@.files + new,
                    ..self@
                }),
    {
        proof {
            use_type_invariant(&self);
        }
        let mut all = self.files;
        let mut files: Vec<BorrowedFileConfig<'a, R>> = into_all(files);
        all.append(&mut files);
        TestRunner {
            context: self.context,
            group: self.group,
            files: all,
            filter: self.filter,
            cwd: self.cwd,
            collect_output: self.collect_output,
        }
    }

    /// Add a filter to run only a subset of the test cases.  Any case which returns `true` from
    /// this filter will be run.  The filter is asked when the tests are started; it takes the place
    /// of an earlier filter.
    pub fn filter_tests<P: Fn(&TestCase<T>) -> bool>(self, filter: P) -> (r: TestRunner<
        'a,
        G,
        T,
        R,
        FilteredBy<P>,
    >)
        requires
            forall|i: int|
                0 <= i < self@.cases().len() ==> call_requires(
                    filter,
                    (&#[trigger] self@.cases()[i],),
                ),
        ensures
            r@ == (RunnerView {
                context: self@.context,
                group: self@.group,
                files: self@.files,
                filter: FilteredBy { predicate: filter },
                cwd: self@.cwd,
                collect_output: self@.collect_output,
            }),
            forall|case: TestCase<T>, answer: bool| #[trigger]
                r@.filter.may_answer(case, answer) <==> call_ensures(filter, (&case,), answer),
    {
        proof {
            use_type_invariant(&self);
        }
        let filter = FilteredBy { predicate: filter };
        assert forall|i: int|
            0 <= i < self.context@.groups@[self.group as int].cases@.len() implies filter.may_ask(
            #[trigger] self.context@.groups@[self.group as int].cases@[i],
        ) by {
            assert(call_requires(filter.predicate, (&self@.cases()[i],)));
        }
        TestRunner {
            context: self.context,
            group: self.group,
            files: self.files,
            filter,
            cwd: self.cwd,
            collect_output: self.collect_output,
        }
    }

    /// Set the current working directory in which the compile and run commands are executed.  If
    /// not specified, a temporary directory is used.
    pub fn cwd(self, cwd: PathBuf) -> (r: Self)
        ensures
            r@ == (RunnerView { cwd: Some(cwd), ..self@ }),
    {
        proof {
            use_type_invariant(&self);
        }
        TestRunner {
            context: self.context,
            group: self.group,
            files: self.files,
            filter: self.filter,
            cwd: Some(cwd),
            collect_output: self.collect_output,
        }
    }

    /// Whether the test runner should collect the output of the compiler.  If this is set to
    /// `false`, the `stdout` and `stderr` fields in [`CompileResult`] will both be empty.  This
    /// does not affect the `exit_status`.
    ///
    /// Default = `true`
    pub fn collect_output(self, collect_output: bool) -> (r: Self)
        ensures
            r@ == (RunnerView { collect_output, ..self@ }),
    {
        proof {
            use_type_invariant(&self);
        }
        TestRunner {
            context: self.context,
            group: self.group,
            files: self.files,
            filter: self.filter,
            cwd: self.cwd,
            collect_output,
        }
    }

    /// Create the environment for the test and compile the solution: find a directory, write all
    /// files, and run the compile command.  The result is the first thing that has to be done.
    ///
    /// If this runner does not have a compile step, all of the steps listed above, except for the
    /// compilation, will still be completed.
    pub fn compile(self) -> (r: CompileStep<'a, G, T, R, F>)
        ensures
            crate::compile::begins(self@, r),
    {
        proof {
            use_type_invariant(&self);
        }
        let ghost before = self@;
        let TestRunner { context, group, files, filter, cwd, collect_output } = self;
        match cwd {
            Some(cwd) => {
                let environment = Environment::new(context, group, filter, collect_output, cwd);
                assert(crate::compile::environment_of(before, cwd, environment@));
                environment.set_up(files)
            },
            None => CompileStep::MakeTempDir(
                AwaitDirectory::new(
                    TestRunner { context, group, files, filter, cwd: None, collect_output },
                ),
            ),
        }
    }

    /// Goes on with compiling in the directory `cwd`.
    pub(crate) fn compile_in(self, cwd: PathBuf) -> (r: CompileStep<'a, G, T, R, F>)
        ensures
            crate::compile::set_up_in(self@, cwd, r),
    {
        proof {
            use_type_invariant(&self);
        }
        let environment = Environment::new(
            self.context,
            self.group,
            self.filter,
            self.collect_output,
            cwd,
        );
        assert(crate::compile::environment_of(self@, cwd, environment@));
        environment.set_up(self.files)
    }
}

/// Each stage gets its own rules, in full, and may read and write in the directory of the test besides;
/// a stage without rules gets none; and stages that share their rules share what they get.
pub proof fn stages_get_their_own_rules(
    rules: StageConfig<leucite::Rules>,
    cwd: PathBuf,
    r: (Option<Arc<leucite::Rules>>, Option<Arc<leucite::Rules>>),
)
    requires
        call_ensures(create_rules, (&rules, &cwd), r),
    ensures
        r.0 is Some <==> rules.for_compile() is Some,
        r.0 matches Some(given) ==> {
            let own = rules.for_compile()->0;
            &&& crate::outside::rules_read_write(*given) == crate::outside::rules_read_write(own).push(
                cwd,
            )
            &&& crate::outside::rules_read_only(*given) == crate::outside::rules_read_only(own)
            &&& crate::outside::rules_write_only(*given) == crate::outside::rules_write_only(own)
            &&& crate::outside::rules_bind_ports(*given) == crate::outside::rules_bind_ports(own)
            &&& crate::outside::rules_connect_ports(*given)
                == crate::outside::rules_connect_ports(own)
        },
        r.1 is Some <==> rules.for_run() is Some,
        r.1 matches Some(given) ==> {
            let own = rules.for_run()->0;
            &&& crate::outside::rules_read_write(*given) == crate::outside::rules_read_write(own).push(
                cwd,
            )
            &&& crate::outside::rules_read_only(*given) == crate::outside::rules_read_only(own)
            &&& crate::outside::rules_write_only(*given) == crate::outside::rules_write_only(own)
            &&& crate::outside::rules_bind_ports(*given) == crate::outside::rules_bind_ports(own)
            &&& crate::outside::rules_connect_ports(*given)
                == crate::outside::rules_connect_ports(own)
        },
        rules is Equal ==> r.0 == r.1,
{
}

/// Configuring one thing about a runner leaves everything else about it as it was.
pub proof fn runners_are_configured_one_thing_at_a_time<'a, G: Eq, T, R, F: TestFilter<T>>(
    runner: TestRunner<'a, G, T, R, F>,
    cwd: PathBuf,
    collect_output: bool,
    r: TestRunner<'a, G, T, R, F>,
)
    ensures
        call_ensures(TestRunner::<'a, G, T, R, F>::cwd, (runner, cwd), r) ==> {
            &&& r@.cwd == Some(cwd)
            &&& r@.context == runner@.context
            &&& r@.group == runner@.group
            &&& r@.files == runner@.files
            &&& r@.filter == runner@.filter
            &&& r@.collect_output == runner@.collect_output
        },
        call_ensures(
            TestRunner::<'a, G, T, R, F>::collect_output,
            (runner, collect_output),
            r,
        ) ==> {
            &&& r@.collect_output == collect_output
            &&& r@.context == runner@.context
            &&& r@.group == runner@.group
            &&& r@.files == runner@.files
            &&& r@.filter == runner@.filter
            &&& r@.cwd == runner@.cwd
        },
{
}

/// A filter takes the place of the one before, and leaves everything else about the runner as it was.
pub proof fn filters_replace_each_other<
    'a,
    G: Eq,
    T,
    R,
    F: TestFilter<T>,
    P: Fn(&TestCase<T>) -> bool,
>(
    runner: TestRunner<'a, G, T, R, F>,
    predicate: P,
    r: TestRunner<'a, G, T, R, FilteredBy<P>>,
)
    requires
        call_ensures(
            TestRunner::<'a, G, T, R, F>::filter_tests::<P>,
            (runner, predicate),
            r,
        ),
    ensures
        r@.filter.predicate == predicate,
        r@.context == runner@.context,
        r@.group == runner@.group,
        r@.files == runner@.files,
        r@.cwd == runner@.cwd,
        r@.collect_output == runner@.collect_output,
{
}

/// A file of a run goes behind those that are there, and everything else about the runner stays.
pub proof fn files_of_a_run_go_to_the_end<
    'a,
    G: Eq,
    T,
    R,
    F: TestFilter<T>,
    S: Into<BorrowedFileContent<'a, R>>,
    D: Into<Destination>,
>(
    runner: TestRunner<'a, G, T, R, F>,
    source: S,
    dest: D,
    r: TestRunner<'a, G, T, R, F>,
)
    requires
        call_ensures(
            TestRunner::<'a, G, T, R, F>::file::<S, D>,
            (runner, source, dest),
            r,
        ),
    ensures
        r@.files.len() == runner@.files.len() + 1,
        forall|i: int| 0 <= i < runner@.files.len() ==> r@.files[i] == runner@.files[i],
        call_ensures(
            <S as Into<BorrowedFileContent<'a, R>>>::into,
            (source,),
            r@.files[runner@.files.len() as int].src,
        ),
        call_ensures(
            <D as Into<Destination>>::into,
            (dest,),
            r@.files[runner@.files.len() as int].dest,
        ),
        r@.context == runner@.context,
        r@.group == runner@.group,
        r@.filter == runner@.filter,
        r@.cwd == runner@.cwd,
        r@.collect_output == runner@.collect_output,
{
    assert forall|i: int| 0 <= i < runner@.files.len() implies r@.files[i] == runner@.files[i] by {
        assert(r@.files.drop_last()[i] == r@.files[i]);
    }
}

/// Several files of a run go behind those that are there, in order, and everything else stays.
pub proof fn lists_of_files_of_a_run_go_to_the_end<
    'a,
    G: Eq,
    T,
    R,
    F: TestFilter<T>,
    C: Into<BorrowedFileConfig<'a, R>>,
>(runner: TestRunner<'a, G, T, R, F>, files: Vec<C>, r: TestRunner<'a, G, T, R, F>)
    requires
        call_ensures(TestRunner::<'a, G, T, R, F>::files::<C>, (runner, files), r),
    ensures
        r@.files.len() == runner@.files.len() + files@.len(),
        forall|i: int| 0 <= i < runner@.files.len() ==> r@.files[i] == runner@.files[i],
        forall|i: int|
            0 <= i < files@.len() ==> call_ensures(
                <C as Into<BorrowedFileConfig<'a, R>>>::into,
                (#[trigger] files@[i],),
                r@.files[runner@.files.len() + i],
            ),
        r@.context == runner@.context,
        r@.group == runner@.group,
        r@.filter == runner@.filter,
        r@.cwd == runner@.cwd,
        r@.collect_output == runner@.collect_output,
{
    let new = choose|new: Seq<BorrowedFileConfig<'a, R>>| #[trigger]
        crate::convert::each_into(files@, new) && r@ == (RunnerView {
            files: runner@.files + new,
            ..runner@
        });
    assert forall|i: int| 0 <= i < files@.len() implies call_ensures(
        <C as Into<BorrowedFileConfig<'a, R>>>::into,
        (#[trigger] files@[i],),
        r@.files[runner@.files.len() + i],
    ) by {
        assert(r@.files[runner@.files.len() + i] == new[i]);
    }
}

/// The tests of a runner are those of its group.
pub proof fn runners_show_the_tests_of_their_group<'a, G: Eq, T, R, F: TestFilter<T>>(
    runner: TestRunner<'a, G, T, R, F>,
    cases: &Vec<TestCase<T>>,
    files: &Vec<BorrowedFileConfig<'a, R>>,
)
    requires
        call_ensures(TestRunner::<'a, G, T, R, F>::test_cases, (&runner,), cases),
        call_ensures(TestRunner::<'a, G, T, R, F>::own_files, (&runner,), files),
    ensures
        cases@ == runner@.context.groups@[runner@.group as int].cases@,
        files@ == runner@.files,
{
}

} // verus!
