//! The configuration of a test suite.
use std::sync::Arc;
use std::time::Duration;

use vstd::prelude::*;

use crate::file::FileConfig;
use crate::runner::TestRunner;

pub mod builder;
pub mod groups;
pub mod history;
pub mod stage;

pub use builder::TestContextBuilder;
pub use groups::TestGroup;
pub use stage::StageConfig;

use groups::find_group;

verus! {

/// Everything that a context knows about the test suite.
#[derive(Debug)]
pub struct ContextSettings<G, T> {
    /// Whether white space around the output of a program is ignored.
    pub trim_output: bool,
    /// The files that are put into every test environment.
    pub files: Vec<FileConfig>,
    /// The tests, by group.
    pub groups: Vec<TestGroup<G, T>>,
    /// The commands, each with its arguments.
    pub command: StageConfig<Vec<String>>,
    /// How long the commands may take.
    pub timeout: StageConfig<Duration>,
    /// What the commands may do.
    pub rules: StageConfig<leucite::Rules>,
    /// How much memory the commands may use.
    pub max_memory: StageConfig<leucite::MemorySize>,
    /// How large the files may be that the commands create.
    pub max_file_size: StageConfig<leucite::MemorySize>,
    /// How many threads the commands may start.
    pub max_threads: StageConfig<u64>,
}

/// Context around a test suite.  This contains information about how a test suite is supposed to
/// be run.
///
/// The idea is that this can be placed into an [`Arc`] within the application state and runners
/// can be created from any thread using [`TestContext::test_runner`].
///
/// Construct one using [`TestContext::builder`].
#[derive(Debug)]
pub struct TestContext<G: Eq, T> {
    settings: ContextSettings<G, T>,
}

impl<G: Eq, T> View for TestContext<G, T> {
    type V = ContextSettings<G, T>;

    closed spec fn view(&self) -> ContextSettings<G, T> {
        self.settings
    }
}

/// What holds of the settings of every context: there is a run command, there is at least one
/// group, and no two groups have the same key.
pub open spec fn complete<G: Eq, T>(settings: ContextSettings<G, T>) -> bool {
    &&& settings.command.for_run() is Some
    &&& settings.groups@.len() > 0
    &&& groups::distinct(groups::contents(settings.groups@))
}

impl<G: Eq, T> TestContext<G, T> {
    #[verifier::type_invariant]
    spec fn consistent(self) -> bool {
        complete(self.settings)
    }

    pub(crate) fn new(settings: ContextSettings<G, T>) -> (r: TestContext<G, T>)
        requires
            complete(settings),
        ensures
            r@ == settings,
    {
        TestContext { settings }
    }

    /// Construct a builder for [`TestContext`], see [`TestContextBuilder`] for more details.
    pub fn builder() -> (r: TestContextBuilder<G, T>)
        ensures
            builder::unconfigured(r@),
    {
        TestContextBuilder::new()
    }

    /// Everything that has been configured.
    pub fn settings(&self) -> (r: &ContextSettings<G, T>)
        ensures
            *r == self@,
            complete(*r),
    {
        proof {
            use_type_invariant(self);
        }
        &self.settings
    }

    /// Create a [`TestRunner`] from this context.  See [`TestRunner`] for more details.
    pub fn test_runner<'a, R>(self: Arc<Self>, group: &G) -> (r: Option<TestRunner<'a, G, T, R>>)
        ensures
            exists|k: int|
                {
                    &&& #[trigger] groups::stands_at(groups::contents(self@.groups@), *group, k)
                    &&& r is Some <==> k < self@.groups@.len()
                    &&& r matches Some(runner) ==> runner@ == crate::runner::RunnerView::<
                        'a,
                        G,
                        T,
                        R,
                    >::fresh(self@, k as usize)
                },
    {
        let k: usize = find_group(&self.settings.groups, group);
        if k < self.settings.groups.len() {
            Some(TestRunner::new(self, k))
        } else {
            None
        }
    }
}

impl<T> TestContext<(), T> {
    /// Create a [`TestRunner`] from this context if the group is `()`.  This does not need to
    /// return `Option` like [`TestContext::test_runner`], as it is guaranteed by the builder that
    /// there is an entry.
    pub fn default_test_runner<'a, R>(self: Arc<Self>) -> (r: TestRunner<'a, (), T, R>)
        ensures
            r@ == crate::runner::RunnerView::<'a, (), T, R>::fresh(self@, 0),
            self@.groups@.len() == 1,
    {
        let settings = self.settings();
        proof {
            let keys = groups::contents(settings.groups@);
            if keys.len() > 1 {
                assert(groups::keys_answer(keys[0].0, keys[1].0, false));
            }
        }
        TestRunner::new(self, 0)
    }
}

/// There is a runner exactly for the groups that a context has.  It runs the tests of that group, all
/// of them, in a temporary directory, without files of its own, and collects the output of the
/// compiler.
pub proof fn runners_run_the_group_that_was_asked_for<'a, G: Eq, T, R>(
    same: spec_fn(G, G) -> bool,
    context: Arc<TestContext<G, T>>,
    group: G,
    r: Option<TestRunner<'a, G, T, R>>,
)
    requires
        groups::compared_by(same),
        call_ensures(TestContext::<G, T>::test_runner::<R>, (context, &group), r),
    ensures
        r is Some <==> exists|j: int|
            0 <= j < context@.groups@.len() && same((#[trigger] context@.groups@[j]).group, group),
        r matches Some(runner) ==> {
            &&& runner@.context == context@
            &&& runner@.group < context@.groups@.len()
            &&& same(context@.groups@[runner@.group as int].group, group)
            &&& runner@.files.len() == 0
            &&& runner@.cwd is None
            &&& runner@.collect_output
        },
{
    let keys = groups::contents(context@.groups@);
    let k = choose|k: int|
        {
            &&& #[trigger] groups::stands_at(keys, group, k)
            &&& r is Some <==> k < context@.groups@.len()
            &&& r matches Some(runner) ==> runner@ == crate::runner::RunnerView::<
                'a,
                G,
                T,
                R,
            >::fresh(context@, k as usize)
        };
    groups::lemma_stands_where_first(same, keys, group, k);
    assert(keys.len() == context@.groups@.len());
    assert forall|j: int| 0 <= j < keys.len() implies (#[trigger] context@.groups@[j]).group
        == keys[j].0 by {}
    if k < context@.groups@.len() {
        assert(k < context@.groups.len());
        assert(context@.groups@[k].group == keys[k].0);
        assert(same(context@.groups@[k].group, group));
    } else if exists|j: int|
        0 <= j < context@.groups@.len() && same((#[trigger] context@.groups@[j]).group, group) {
        let j = choose|j: int|
            0 <= j < context@.groups@.len() && same((#[trigger] context@.groups@[j]).group, group);
        assert(context@.groups@[j].group == keys[j].0);
        assert(!same(keys[j].0, group));
    }
}

/// The default runner runs the only group that there is.
pub proof fn default_runners_run_the_only_group<'a, T, R>(
    context: Arc<TestContext<(), T>>,
    r: TestRunner<'a, (), T, R>,
)
    requires
        call_ensures(TestContext::<(), T>::default_test_runner::<'a, R>, (context,), r),
    ensures
        context@.groups@.len() == 1,
        r@.context == context@,
        r@.group == 0,
        r@.files.len() == 0,
        r@.cwd is None,
        r@.collect_output,
{
}

} // verus!
