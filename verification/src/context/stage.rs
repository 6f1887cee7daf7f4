//! Settings that may differ between compiling a program and running it.
use vstd::prelude::*;

verus! {

/// A setting for the compile stage, the run stage, both, or neither.
#[derive(Copy, Debug, Eq, PartialEq)]
pub enum StageConfig<T> {
    /// The setting is not there.
    Unset,
    /// The setting is there for compiling only.
    Compile(T),
    /// The setting is there for running only.
    Run(T),
    /// The setting is the same for compiling and for running.
    Equal(T),
    /// Compiling and running each have a setting of their own.
    Different { compile: T, run: T },
}

impl<T> Default for StageConfig<T> {
    fn default() -> (r: StageConfig<T>)
        ensures
            r == StageConfig::<T>::Unset,
    {
        StageConfig::Unset
    }
}

impl<T: Clone> Clone for StageConfig<T> {
    fn clone(&self) -> (r: StageConfig<T>)
        ensures
            match (*self, r) {
                (StageConfig::Unset, StageConfig::Unset) => true,
                (StageConfig::Compile(a), StageConfig::Compile(b)) => cloned(a, b),
                (StageConfig::Run(a), StageConfig::Run(b)) => cloned(a, b),
                (StageConfig::Equal(a), StageConfig::Equal(b)) => cloned(a, b),
                (
                    StageConfig::Different { compile: c, run: d },
                    StageConfig::Different { compile, run },
                ) => cloned(c, compile) && cloned(d, run),
                _ => false,
            },
    {
        match self {
            StageConfig::Unset => StageConfig::Unset,
            StageConfig::Compile(c) => StageConfig::Compile(c.clone()),
            StageConfig::Run(r) => StageConfig::Run(r.clone()),
            StageConfig::Equal(t) => StageConfig::Equal(t.clone()),
            StageConfig::Different { compile, run } => {
                StageConfig::Different { compile: compile.clone(), run: run.clone() }
            },
        }
    }
}

impl<T> StageConfig<T> {
    /// The setting for compiling.
    pub open spec fn for_compile(self) -> Option<T> {
        match self {
            StageConfig::Unset | StageConfig::Run(_) => None,
            StageConfig::Compile(c) | StageConfig::Equal(c) => Some(c),
            StageConfig::Different { compile, run: _ } => Some(compile),
        }
    }

    /// The setting for running.
    pub open spec fn for_run(self) -> Option<T> {
        match self {
            StageConfig::Unset | StageConfig::Compile(_) => None,
            StageConfig::Run(r) | StageConfig::Equal(r) => Some(r),
            StageConfig::Different { compile: _, run } => Some(run),
        }
    }

    /// The configuration after the setting for compiling has been replaced.
    pub open spec fn replace_compile(self, compile: T) -> StageConfig<T> {
        match self.for_run() {
            None => StageConfig::Compile(compile),
            Some(run) => StageConfig::Different { compile, run },
        }
    }

    /// The configuration after the setting for running has been replaced.
    pub open spec fn replace_run(self, run: T) -> StageConfig<T> {
        match self.for_compile() {
            None => StageConfig::Run(run),
            Some(compile) => StageConfig::Different { compile, run },
        }
    }

    /// The configurations of another type that convert each setting of `self` on its own.
    pub open spec fn converts_to<U: From<T>>(self, other: StageConfig<U>) -> bool {
        match (self, other) {
            (StageConfig::Unset, StageConfig::Unset) => true,
            (StageConfig::Compile(a), StageConfig::Compile(b)) => call_ensures(U::from, (a,), b),
            (StageConfig::Run(a), StageConfig::Run(b)) => call_ensures(U::from, (a,), b),
            (StageConfig::Equal(a), StageConfig::Equal(b)) => call_ensures(U::from, (a,), b),
            (
                StageConfig::Different { compile: c, run: r },
                StageConfig::Different { compile, run },
            ) => call_ensures(U::from, (c,), compile) && call_ensures(U::from, (r,), run),
            _ => false,
        }
    }

    /// Convert the settings to another type.
    pub fn into<U>(self) -> (r: StageConfig<U>) where U: From<T>
        ensures
            self.converts_to(r),
    {
        match self {
            StageConfig::Unset => StageConfig::Unset,
            StageConfig::Compile(c) => StageConfig::Compile(U::from(c)),
            StageConfig::Run(r) => StageConfig::Run(U::from(r)),
            StageConfig::Equal(t) => StageConfig::Equal(U::from(t)),
            StageConfig::Different { compile, run } => {
                StageConfig::Different { compile: U::from(compile), run: U::from(run) }
            },
        }
    }

    /// Replace the setting for compiling.
    pub fn with_compile(&mut self, compile: T) -> (r: &mut StageConfig<T>)
        ensures
            *r == old(self).replace_compile(compile),
            *final(self) == *final(r),
    {
        let mut before: StageConfig<T> = StageConfig::Unset;
        std::mem::swap(self, &mut before);
        *self = match before {
            StageConfig::Unset => StageConfig::Compile(compile),
            StageConfig::Compile(_) => StageConfig::Compile(compile),
            StageConfig::Run(run) => StageConfig::Different { compile, run },
            StageConfig::Equal(run) => StageConfig::Different { compile, run },
            StageConfig::Different { compile: _, run } => StageConfig::Different { compile, run },
        };
        self
    }

    /// Replace the setting for running.
    pub fn with_run(&mut self, run: T) -> (r: &mut StageConfig<T>)
        ensures
            *r == old(self).replace_run(run),
            *final(self) == *final(r),
    {
        let mut before: StageConfig<T> = StageConfig::Unset;
        std::mem::swap(self, &mut before);
        *self = match before {
            StageConfig::Unset => StageConfig::Run(run),
            StageConfig::Compile(compile) => StageConfig::Different { compile, run },
            StageConfig::Run(_) => StageConfig::Run(run),
            StageConfig::Equal(compile) => StageConfig::Different { compile, run },
            StageConfig::Different { compile, run: _ } => StageConfig::Different { compile, run },
        };
        self
    }

    /// Replace both settings.
    pub fn with_both(&mut self, both: T) -> (r: &mut StageConfig<T>)
        ensures
            *r == StageConfig::Equal(both),
            *final(self) == *final(r),
    {
        *self = StageConfig::Equal(both);
        self
    }

    /// Get the setting for compiling.
    pub fn compile(&self) -> (r: Option<&T>)
        ensures
            r is Some <==> self.for_compile() is Some,
            r matches Some(c) ==> Some(*c) == self.for_compile(),
    {
        match self {
            StageConfig::Unset => None,
            StageConfig::Compile(c) => Some(c),
            StageConfig::Run(_) => None,
            StageConfig::Equal(c) => Some(c),
            StageConfig::Different { compile, run: _ } => Some(compile),
        }
    }

    /// Get the setting for running.
    pub fn run(&self) -> (r: Option<&T>)
        ensures
            r is Some <==> self.for_run() is Some,
            r matches Some(c) ==> Some(*c) == self.for_run(),
    {
        match self {
            StageConfig::Unset => None,
            StageConfig::Compile(_) => None,
            StageConfig::Run(r) => Some(r),
            StageConfig::Equal(r) => Some(r),
            StageConfig::Different { compile: _, run } => Some(run),
        }
    }
}

/// The two stages do not get in each other's way: a setting made for one stage is the one that the
/// stage has from then on, and the other stage keeps what it had.
pub proof fn stages_are_independent<T>(config: StageConfig<T>, value: T)
    ensures
        config.replace_compile(value).for_compile() == Some(value),
        config.replace_compile(value).for_run() == config.for_run(),
        config.replace_run(value).for_run() == Some(value),
        config.replace_run(value).for_compile() == config.for_compile(),
        StageConfig::Equal(value).for_compile() == Some(value),
        StageConfig::Equal(value).for_run() == Some(value),
{
}

/// It does not matter in which order the two stages get their settings.
pub proof fn stages_can_be_set_in_any_order<T>(config: StageConfig<T>, compile: T, run: T)
    ensures
        config.replace_compile(compile).replace_run(run) == config.replace_run(run).replace_compile(
            compile,
        ),
        config.replace_compile(compile).replace_run(run) == (StageConfig::Different {
            compile,
            run,
        }),
{
}

/// Only the last setting made for a stage counts.
pub proof fn last_setting_wins<T>(config: StageConfig<T>, first: T, second: T)
    ensures
        config.replace_compile(first).replace_compile(second) == config.replace_compile(second),
        config.replace_run(first).replace_run(second) == config.replace_run(second),
{
}

/// What is read for a stage is what the setting holds for it, and nothing is made up for a stage that
/// has no setting.
pub proof fn each_stage_reads_its_own_setting<T>(
    config: StageConfig<T>,
    compile: Option<&T>,
    run: Option<&T>,
)
    requires
        call_ensures(StageConfig::<T>::compile, (&config,), compile),
        call_ensures(StageConfig::<T>::run, (&config,), run),
    ensures
        config is Unset ==> compile is None && run is None,
        config matches StageConfig::Compile(value) ==> compile == Some(&value) && run is None,
        config matches StageConfig::Run(value) ==> compile is None && run == Some(&value),
        config matches StageConfig::Equal(value) ==> compile == Some(&value) && run == Some(&value),
        config matches StageConfig::Different { compile: c, run: r } ==> compile == Some(&c) && run
            == Some(&r),
        compile is Some <==> config.for_compile() is Some,
        compile matches Some(value) ==> config.for_compile() == Some(*value),
        run is Some <==> config.for_run() is Some,
        run matches Some(value) ==> config.for_run() == Some(*value),
{
}

/// Setting a stage replaces what that stage reads, and only that; setting both makes both read the
/// same.
pub proof fn setting_a_stage_replaces_what_it_reads<T>()
    ensures
        forall|config: &mut StageConfig<T>, value: T, r: &mut StageConfig<T>| #[trigger]
            call_ensures(StageConfig::<T>::with_compile, (config, value), r) ==> {
                &&& (*r).for_compile() == Some(value)
                &&& (*r).for_run() == (*config).for_run()
                &&& *final(config) == *final(r)
            },
        forall|config: &mut StageConfig<T>, value: T, r: &mut StageConfig<T>| #[trigger]
            call_ensures(StageConfig::<T>::with_run, (config, value), r) ==> {
                &&& (*r).for_run() == Some(value)
                &&& (*r).for_compile() == (*config).for_compile()
                &&& *final(config) == *final(r)
            },
        forall|config: &mut StageConfig<T>, value: T, r: &mut StageConfig<T>| #[trigger]
            call_ensures(StageConfig::<T>::with_both, (config, value), r) ==> {
                &&& *r == StageConfig::Equal(value)
                &&& *final(config) == *final(r)
            },
{
}

/// Converting a setting converts what each stage reads, on its own, and keeps which stages have a
/// setting and whether they share it.
pub proof fn converting_keeps_the_stages<T, U: From<T>>(config: StageConfig<T>, r: StageConfig<U>)
    requires
        call_ensures(StageConfig::<T>::into::<U>, (config,), r),
    ensures
        config.for_compile() is Some <==> r.for_compile() is Some,
        config.for_run() is Some <==> r.for_run() is Some,
        config is Equal <==> r is Equal,
        config.for_compile() matches Some(value) ==> call_ensures(
            U::from,
            (value,),
            r.for_compile()->0,
        ),
        config.for_run() matches Some(value) ==> call_ensures(U::from, (value,), r.for_run()->0),
{
}

/// Nothing is set by default.
pub proof fn nothing_is_set_by_default<T>(r: StageConfig<T>)
    requires
        call_ensures(<StageConfig<T> as Default>::default, (), r),
    ensures
        r.for_compile() is None,
        r.for_run() is None,
{
}

/// A copy of a setting has clones of what each stage reads, and nothing where nothing was set.
pub proof fn copies_of_settings_are_the_same<T: Clone>(
    config: StageConfig<T>,
    copy: StageConfig<T>,
    compile: Option<&T>,
    run: Option<&T>,
    compile_copy: Option<&T>,
    run_copy: Option<&T>,
)
    requires
        call_ensures(<StageConfig<T> as Clone>::clone, (&config,), copy),
        call_ensures(StageConfig::<T>::compile, (&config,), compile),
        call_ensures(StageConfig::<T>::run, (&config,), run),
        call_ensures(StageConfig::<T>::compile, (&copy,), compile_copy),
        call_ensures(StageConfig::<T>::run, (&copy,), run_copy),
    ensures
        compile_copy is Some <==> compile is Some,
        compile matches Some(value) ==> cloned(*value, *compile_copy->0),
        run_copy is Some <==> run is Some,
        run matches Some(value) ==> cloned(*value, *run_copy->0),
{
}

} // verus!
