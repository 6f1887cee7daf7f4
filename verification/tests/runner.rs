use std::io::{Error, ErrorKind};
use std::path::PathBuf;
use std::sync::atomic::{AtomicI32, Ordering};
use std::sync::Arc;
use std::time::Duration;

use erudite::cases::{ExpectedOutput, TestCase};
use erudite::compile::{CompileStep, PendingFile};
use erudite::context::StageConfig;
use erudite::error::CompileError;
use erudite::filter::{TestFilter, Unfiltered};
use erudite::process::{CommandOutcome, CommandPlan, Stream};
use erudite::runner::{create_rules, CompileResultState, CompiledTestRunner, TestRunner};
use erudite::{BorrowedFileContent, MemorySize, Output, Rules, TestContext};

fn argv(items: &[&str]) -> Vec<String> {
    items.iter().map(|item| item.to_string()).collect()
}

fn failure(text: &str) -> Error {
    Error::new(ErrorKind::Other, text.to_string())
}

fn finished(stdout: &str, status: i32, timed_out: bool) -> CommandOutcome {
    CommandOutcome::Finished {
        output: Output::new(stdout.to_string(), String::new(), status),
        timed_out,
        time_taken: Duration::from_millis(5),
    }
}

/// Puts a runner into a directory that takes all files, up to the compile command.
fn set_up<'a, G: Eq, T, R, F: TestFilter<T>>(
    runner: TestRunner<'a, G, T, R, F>,
) -> CompileStep<'a, G, T, R, F> {
    let mut step = runner.compile();
    loop {
        step = match step {
            CompileStep::MakeTempDir(awaiting) => awaiting.made(Ok(PathBuf::from("/tmp/env"))),
            CompileStep::WriteFile(awaiting, _) => awaiting.written(Ok(())),
            step => return step,
        };
    }
}

/// Compiles with a compiler that does nothing, and does so successfully.
fn compiled<G: Eq, T, R, F: TestFilter<T>>(
    runner: TestRunner<'_, G, T, R, F>,
) -> CompiledTestRunner<G, T, F> {
    let step = match set_up(runner) {
        CompileStep::RunCommand(awaiting, _) => awaiting.ran(finished("", 0, false)),
        step => step,
    };
    match step {
        CompileStep::Finished(Ok(compiled)) => compiled,
        _ => panic!("not compiled"),
    }
}

fn compile_plan<G: Eq, T>(runner: TestRunner<'_, G, T>) -> CommandPlan {
    match set_up(runner) {
        CompileStep::RunCommand(_, plan) => plan,
        _ => panic!("nothing to compile"),
    }
}

/// What came of compiling when this came of running the compiler.
fn compile_with(outcome: CommandOutcome) -> Result<CompiledTestRunner<(), (), Unfiltered>, CompileError> {
    let ctx = TestContext::builder()
        .compile_command(argv(&["compiler"]))
        .run_command(argv(&["echo", "world"]))
        .test((), "hello", "world", ())
        .build();
    match set_up(Arc::new(ctx).default_test_runner::<()>()) {
        CompileStep::RunCommand(awaiting, _) => match awaiting.ran::<()>(outcome) {
            CompileStep::Finished(result) => result,
            _ => panic!("not finished"),
        },
        _ => panic!("nothing to compile"),
    }
}

/// What the cases say, in a form that can be compared.
fn describe<T: Clone>(cases: &[TestCase<T>]) -> Vec<(&str, &str, T)> {
    cases
        .iter()
        .map(|case| {
            let output = match case.output() {
                ExpectedOutput::String(s) => s.as_str(),
                ExpectedOutput::Regex(re) => re.as_str(),
            };
            (case.input(), output, case.data().clone())
        })
        .collect()
}

#[test]
fn runner_absolute_file_destination() {
    let ctx = TestContext::builder()
        .run_command(argv(&["echo", "foo"]))
        .test(0, "hello", "world", ())
        .build();
    let ctx = Arc::new(ctx);
    let runner = ctx
        .test_runner::<()>(&0)
        .unwrap()
        .file(&b"hi"[..], "/bar.txt");
    assert_eq!(runner.own_files()[0].dest().as_path(), &PathBuf::from("bar.txt"));
}

#[test]
fn runner_absolute_files_destination() {
    let ctx = TestContext::builder()
        .run_command(argv(&["echo", "foo"]))
        .test(1, "hello", "world", ())
        .build();
    let ctx = Arc::new(ctx);
    let runner = ctx.test_runner::<()>(&1).unwrap().files(vec![
        (&b"hello"[..], "/bar.txt"),
        (&b"world"[..], "/foo/bar.rs"),
    ]);
    assert_eq!(runner.own_files()[0].dest().as_path(), &PathBuf::from("bar.txt"));
    assert_eq!(runner.own_files()[1].dest().as_path(), &PathBuf::from("foo/bar.rs"));
}

#[test]
fn test_groups_equal() {
    let ctx = TestContext::builder()
        .run_command(argv(&["echo", "foo"]))
        .test(0, "foo", "bar", ())
        .test(0, "bar", "baz", ())
        .test(0, "baz", "qux", ())
        .test(1, "1", "2", ())
        .test(1, "2", "3", ())
        .test(1, "3", "4", ())
        .build();
    let ctx = Arc::new(ctx);
    let runner1 = Arc::clone(&ctx).test_runner::<()>(&0).unwrap();
    let runner2 = Arc::clone(&ctx).test_runner::<()>(&0).unwrap();
    assert_eq!(describe(runner1.test_cases()), describe(runner2.test_cases()));
    assert_eq!(
        describe(runner1.test_cases()),
        vec![("foo", "bar", ()), ("bar", "baz", ()), ("baz", "qux", ())]
    );
}

#[test]
fn test_groups_different() {
    let ctx = TestContext::builder()
        .run_command(argv(&["echo", "foo"]))
        .test(0, "foo", "bar", ())
        .test(0, "bar", "baz", ())
        .test(0, "baz", "qux", ())
        .test(1, "1", "2", ())
        .test(1, "2", "3", ())
        .test(1, "3", "4", ())
        .build();

    let ctx = Arc::new(ctx);
    let runner0 = Arc::clone(&ctx).test_runner::<()>(&0).unwrap();
    let runner1 = Arc::clone(&ctx).test_runner::<()>(&1).unwrap();
    assert_ne!(describe(runner0.test_cases()), describe(runner1.test_cases()));
    assert_eq!(
        describe(runner1.test_cases()),
        vec![("1", "2", ()), ("2", "3", ()), ("3", "4", ())]
    );
}

#[test]
fn groups_are_told_apart_by_everything_in_them() {
    let ctx = TestContext::builder()
        .run_command(vec!["echo", "foo"])
        .test(0, "in", "out", 1)
        .test(1, "in", "other", 1)
        .test(2, "in", "out", 2)
        .test(0, "more", "out", 3)
        .build();
    let ctx = Arc::new(ctx);
    let runner = |group: i32| Arc::clone(&ctx).test_runner::<()>(&group).unwrap();
    assert_eq!(describe(runner(0).test_cases()), vec![("in", "out", 1), ("more", "out", 3)]);
    assert_eq!(describe(runner(1).test_cases()), vec![("in", "other", 1)]);
    assert_eq!(describe(runner(2).test_cases()), vec![("in", "out", 2)]);
}

#[test]
fn runners_can_be_printed() {
    let ctx = TestContext::builder()
        .run_command(vec!["./main"])
        .test((), "hello", "olleh", ())
        .build();
    let ctx = Arc::new(ctx);
    let runner = Arc::clone(&ctx).default_test_runner::<()>().cwd(PathBuf::from("/work"));
    assert!(format!("{:?}", runner).contains("/work"));
    let all: fn(&TestCase<()>) -> bool = |_| true;
    let runner = runner.filter_tests(all);
    assert!(format!("{:?}", runner).contains("/work"));
    let compiled = compiled(runner);
    assert!(format!("{:?}", compiled).contains("/work"));
}

#[test]
fn unknown_groups_have_no_runner() {
    let ctx = TestContext::builder()
        .run_command(argv(&["echo", "foo"]))
        .test("group", "foo", "bar", ())
        .build();
    assert!(Arc::new(ctx).test_runner::<()>(&"other").is_none());
}

#[test]
fn runner_test_tests_equivalent() {
    let ctx = TestContext::builder()
        .run_command(argv(&["echo", "foo"]))
        .test(0, "hello", "world", ())
        .build();
    let ctx = Arc::new(ctx);

    let runner1 = Arc::clone(&ctx).test_runner::<()>(&0).unwrap().files(vec![
        (&b"hello"[..], "/bar.txt"),
        (&b"world"[..], "/foo/bar.rs"),
    ]);

    let runner2 = Arc::clone(&ctx)
        .test_runner::<()>(&0)
        .unwrap()
        .file(&b"hello"[..], "/bar.txt")
        .file(&b"world"[..], "/foo/bar.rs");

    assert_eq!(runner1.own_files(), runner2.own_files());
    assert_eq!(runner1.own_files().len(), 2);
}

#[test]
fn runner_with_filter() {
    let ctx = TestContext::builder()
        .run_command(argv(&["echo", "world"]))
        .test(0, "hello", "world", true)
        .test(0, "hello", "world", true)
        .test(0, "hello", "world", true)
        .test(0, "hello", "world", false)
        .test(0, "hello", "world", false)
        .test(0, "hello", "world", false)
        .build();
    let ctx = Arc::new(ctx);

    let runner = Arc::clone(&ctx)
        .test_runner::<()>(&0)
        .unwrap()
        .filter_tests(|t| *t.data());
    let (handle, jobs) = compiled(runner).run();

    assert_eq!(handle.test_count(), 3);
    assert_eq!(jobs.len(), 3);
}

#[test]
fn runner_without_filter() {
    let ctx = TestContext::builder()
        .run_command(argv(&["echo", "world"]))
        .test(0, "hello", "world", true)
        .test(0, "hello", "world", true)
        .test(0, "hello", "world", true)
        .test(0, "hello", "world", false)
        .test(0, "hello", "world", false)
        .test(0, "hello", "world", false)
        .build();
    let ctx = Arc::new(ctx);

    let runner = Arc::clone(&ctx).test_runner::<()>(&0).unwrap();
    let (handle, jobs) = compiled(runner).run();

    assert_eq!(handle.test_count(), 6);
    let indices: Vec<usize> = jobs.iter().map(|job| job.index).collect();
    assert_eq!(indices, vec![0, 1, 2, 3, 4, 5]);
}

#[test]
fn filtered_tests_keep_their_index() {
    let ctx = TestContext::builder()
        .run_command(argv(&["echo", "world"]))
        .test(0, "a", "world", 1)
        .test(0, "b", "world", 2)
        .test(0, "c", "world", 3)
        .test(0, "d", "world", 4)
        .build();
    let runner = Arc::new(ctx)
        .test_runner::<()>(&0)
        .unwrap()
        .filter_tests(|_| false)
        .filter_tests(|t| *t.data() % 2 == 0);
    let (_, jobs) = compiled(runner).run();
    let jobs: Vec<(usize, &str)> = jobs.iter().map(|job| (job.index, job.case.input())).collect();
    assert_eq!(jobs, vec![(1, "b"), (3, "d")]);
}

#[test]
fn filters_are_asked_when_the_tests_are_started() {
    let ctx = TestContext::builder()
        .run_command(vec!["echo", "world"])
        .test(0, "a", "world", 1)
        .test(0, "b", "world", 2)
        .test(0, "c", "world", 3)
        .build();
    let least = AtomicI32::new(3);
    let asked = AtomicI32::new(0);
    let runner = Arc::new(ctx)
        .test_runner::<()>(&0)
        .unwrap()
        .filter_tests(|t| {
            asked.fetch_add(1, Ordering::SeqCst);
            *t.data() >= least.load(Ordering::SeqCst)
        });
    let compiled = compiled(runner);
    assert_eq!(asked.load(Ordering::SeqCst), 0);

    least.store(2, Ordering::SeqCst);
    let (_, jobs) = compiled.run();
    assert_eq!(asked.load(Ordering::SeqCst), 3);
    let indices: Vec<usize> = jobs.iter().map(|job| job.index).collect();
    assert_eq!(indices, vec![1, 2]);
}

#[test]
fn replaced_filters_are_never_asked() {
    let ctx = TestContext::builder()
        .run_command(vec!["echo", "world"])
        .test(0, "a", "world", 1)
        .build();
    let runner = Arc::new(ctx)
        .test_runner::<()>(&0)
        .unwrap()
        .filter_tests(|_| panic!("asked"))
        .filter_tests(|_| true);
    let (handle, _) = compiled(runner).run();
    assert_eq!(handle.test_count(), 1);
}

#[test]
fn filters_are_not_asked_if_nothing_is_run() {
    let ctx = TestContext::builder()
        .compile_command(vec!["compiler"])
        .run_command(vec!["echo", "world"])
        .test(0, "a", "world", 1)
        .build();
    let runner = Arc::new(ctx)
        .test_runner::<()>(&0)
        .unwrap()
        .filter_tests(|_| panic!("asked"));
    match set_up(runner) {
        CompileStep::RunCommand(awaiting, _) => assert!(matches!(
            awaiting.ran::<()>(finished("", 1, false)),
            CompileStep::Finished(Err(CompileError::CompileFail(_)))
        )),
        _ => panic!("nothing to compile"),
    }
}

#[test]
fn files_are_written_in_order() {
    let ctx = TestContext::builder()
        .run_command(argv(&["echo", "world"]))
        .test((), "hello", "world", ())
        .file(&b"some content"[..], "foo.txt")
        .file(PathBuf::from("library"), "/lib")
        .build();
    let reader = BorrowedFileContent::reader("from a reader");
    let mut step = Arc::new(ctx)
        .default_test_runner()
        .file(&b"solution"[..], "solution.rs")
        .file(reader, "last.txt")
        .cwd(PathBuf::from("/work"))
        .compile();

    let mut written: Vec<String> = Vec::new();
    loop {
        step = match step {
            CompileStep::WriteFile(awaiting, file) => {
                let dest = match &file {
                    PendingFile::Context(i) => awaiting.context_files()[*i].dest(),
                    PendingFile::Runner(file) => file.dest(),
                };
                assert_eq!(awaiting.target(), &PathBuf::from("/work").join(dest.as_path()));
                written.push(awaiting.target().to_str().unwrap().to_string());
                if let PendingFile::Runner(file) = file {
                    if let BorrowedFileContent::Reader(text) = file.src {
                        assert_eq!(text, "from a reader");
                    }
                }
                awaiting.written(Ok(()))
            }
            CompileStep::Finished(result) => {
                assert!(result.unwrap().compile_result().is_none());
                break;
            }
            _ => panic!("nothing else to do"),
        };
    }
    assert_eq!(written, vec!["/work/foo.txt", "/work/lib", "/work/solution.rs", "/work/last.txt"]);
}

#[test]
fn without_a_directory_a_temporary_one_is_made() {
    let ctx = TestContext::builder()
        .run_command(argv(&["echo", "world"]))
        .test((), "hello", "world", ())
        .build();
    let ctx = Arc::new(ctx);
    match Arc::clone(&ctx).default_test_runner::<()>().compile() {
        CompileStep::MakeTempDir(awaiting) => match awaiting.made(Err(failure("disk full"))) {
            CompileStep::Finished(Err(CompileError::MktempFail(error))) => {
                assert_eq!(error.to_string(), "disk full")
            }
            _ => panic!("no error"),
        },
        _ => panic!("no directory asked for"),
    }
    match ctx.default_test_runner::<()>().compile() {
        CompileStep::MakeTempDir(awaiting) => match awaiting.made(Ok(PathBuf::from("/tmp/xyz"))) {
            CompileStep::Finished(Ok(compiled)) => {
                let (handle, jobs) = compiled.run();
                assert_eq!(handle.cwd(), &PathBuf::from("/tmp/xyz"));
                assert_eq!(jobs[0].command().unwrap().cwd, PathBuf::from("/tmp/xyz"));
            }
            _ => panic!("not compiled"),
        },
        _ => panic!("no directory asked for"),
    }
}

#[test]
fn files_that_cannot_be_written_end_everything() {
    let ctx = TestContext::builder()
        .compile_command(argv(&["compiler"]))
        .run_command(argv(&["echo", "world"]))
        .test((), "hello", "world", ())
        .file(&b"some content"[..], "foo.txt")
        .file(&b"more content"[..], "bar.txt")
        .build();
    let runner = Arc::new(ctx).default_test_runner::<()>().cwd(PathBuf::from("/work"));
    let CompileStep::WriteFile(awaiting, _) = runner.compile() else {
        panic!("no file to write")
    };
    match awaiting.written(Err(failure("no such directory"))) {
        CompileStep::Finished(Err(CompileError::CreateFilesError(error))) => {
            assert_eq!(error.path, PathBuf::from("/work/foo.txt"));
            assert_eq!(error.error.to_string(), "no such directory");
        }
        _ => panic!("no error"),
    }
}

#[test]
fn an_empty_compile_command_is_invalid() {
    let ctx = TestContext::builder()
        .compile_command(Vec::<String>::new())
        .run_command(argv(&["echo", "world"]))
        .test((), "hello", "world", ())
        .build();
    assert!(matches!(
        set_up(Arc::new(ctx).default_test_runner::<()>()),
        CompileStep::Finished(Err(CompileError::InvalidCommand))
    ));
}

#[test]
fn compile_settings_alone_compile_nothing() {
    let ctx = TestContext::builder()
        .run_command(argv(&["echo", "world"]))
        .compile_timeout(Duration::from_secs(1))
        .compile_rules(Rules::new())
        .compile_max_threads(1)
        .test((), "hello", "world", ())
        .build();
    assert!(matches!(
        set_up(Arc::new(ctx).default_test_runner::<()>()),
        CompileStep::Finished(Ok(compiled)) if compiled.compile_result().is_none()
    ));
}

#[test]
fn each_stage_has_its_own_limits() {
    let ctx = TestContext::builder()
        .compile_command(argv(&["rustc", "-o", "main", "main.rs"]))
        .run_command(argv(&["./main", "--fast"]))
        .compile_max_memory(MemorySize::from_mib(1))
        .run_max_memory(MemorySize::from_mib(2))
        .compile_max_file_size(MemorySize::from_mib(3))
        .run_max_file_size(MemorySize::from_mib(4))
        .compile_max_threads(5)
        .run_max_threads(6)
        .compile_timeout(Duration::from_secs(7))
        .run_timeout(Duration::from_secs(8))
        .test((), "hello", "world", ())
        .build();
    let ctx = Arc::new(ctx);
    let runner = || Arc::clone(&ctx).default_test_runner::<()>().cwd(PathBuf::from("/work"));

    let plan = compile_plan(runner());
    assert_eq!(plan.invocation.program, "rustc");
    assert_eq!(plan.invocation.args, argv(&["-o", "main", "main.rs"]));
    assert_eq!(plan.cwd, PathBuf::from("/work"));
    assert_eq!(plan.stdin, Stream::Inherit);
    assert_eq!(plan.stdout, Stream::Piped);
    assert_eq!(plan.stderr, Stream::Piped);
    assert_eq!(plan.rules, None);
    assert_eq!(plan.max_memory, Some(MemorySize::from_mib(1)));
    assert_eq!(plan.max_file_size, Some(MemorySize::from_mib(3)));
    assert_eq!(plan.max_threads, Some(5));
    assert_eq!(plan.timeout, Some(Duration::from_secs(7)));

    let (_, jobs) = compiled(runner()).run();
    let plan = jobs[0].command().unwrap();
    assert_eq!(plan.invocation.program, "./main");
    assert_eq!(plan.invocation.args, argv(&["--fast"]));
    assert_eq!(plan.cwd, PathBuf::from("/work"));
    assert_eq!(plan.stdin, Stream::Piped);
    assert_eq!(plan.stdout, Stream::Piped);
    assert_eq!(plan.stderr, Stream::Piped);
    assert_eq!(plan.max_memory, Some(MemorySize::from_mib(2)));
    assert_eq!(plan.max_file_size, Some(MemorySize::from_mib(4)));
    assert_eq!(plan.max_threads, Some(6));
    assert_eq!(plan.timeout, Some(Duration::from_secs(8)));
}

#[test]
fn output_that_is_not_collected_leads_nowhere() {
    let ctx = TestContext::builder()
        .compile_command(argv(&["echo", "hello"]))
        .run_command(argv(&["echo", "world"]))
        .test((), "hello", "world", ())
        .build();
    let plan = compile_plan(Arc::new(ctx).default_test_runner().collect_output(false));
    assert_eq!(plan.stdin, Stream::Inherit);
    assert_eq!(plan.stdout, Stream::Null);
    assert_eq!(plan.stderr, Stream::Null);
}

#[test]
fn rules_open_the_directory() {
    let cwd = PathBuf::from("/work");
    let a = Rules::new().add_read_only("/usr").add_read_write("/tmp");
    let b = Rules::new().add_connect_port(80);
    let open = |rules: &Rules| Some(Arc::new(rules.clone().add_read_write("/work")));

    assert_eq!(create_rules(&StageConfig::Unset, &cwd), (None, None));
    assert_eq!(create_rules(&StageConfig::Compile(a.clone()), &cwd), (open(&a), None));
    assert_eq!(create_rules(&StageConfig::Run(a.clone()), &cwd), (None, open(&a)));
    assert_eq!(create_rules(&StageConfig::Equal(a.clone()), &cwd), (open(&a), open(&a)));
    let different = StageConfig::Different { compile: a.clone(), run: b.clone() };
    assert_eq!(create_rules(&different, &cwd), (open(&a), open(&b)));
    let equal = create_rules(&StageConfig::Equal(a.clone()), &cwd);
    assert!(Arc::ptr_eq(&equal.0.unwrap(), &equal.1.unwrap()));
    assert_ne!(open(&a), Some(Arc::new(a)));
}

#[test]
fn each_stage_has_its_own_rules() {
    let ctx = TestContext::builder()
        .compile_command(argv(&["echo", "/bin/cat"]))
        .run_command(argv(&["cat", "/bin/cat"]))
        .test((), "hello", "world", ())
        .compile_rules(Rules::new().add_read_only("/usr").add_read_only("/bin"))
        .run_rules(Rules::new())
        .build();
    let ctx = Arc::new(ctx);
    let runner = || Arc::clone(&ctx).default_test_runner::<()>().cwd(PathBuf::from("/work"));
    let compile = Rules::new()
        .add_read_only("/usr")
        .add_read_only("/bin")
        .add_read_write("/work");
    let run = Rules::new().add_read_write("/work");
    assert_eq!(compile_plan(runner()).rules, Some(Arc::new(compile)));
    let (_, jobs) = compiled(runner()).run();
    assert_eq!(jobs[0].command().unwrap().rules, Some(Arc::new(run)));
}

#[test]
fn successful_compilers_leave_their_output() {
    let compiled = compile_with(finished("hello\n", 0, false)).unwrap();
    let result = compiled.compile_result().unwrap();
    assert_eq!(result.output(), &Output::new("hello\n".to_string(), "".to_string(), 0));
    assert_eq!(result.stdout().as_str(), Some("hello\n"));
    assert!(result.stderr().is_empty());
    assert_eq!(result.exit_status(), 0);
    assert_eq!(result.state(), CompileResultState::Success);
    assert_eq!(result.time_taken(), Duration::from_millis(5));
    assert_eq!(&result.clone(), result);

    let (handle, _) = compiled.run();
    let result = handle.compile_result().unwrap();
    assert_eq!(result.stdout().as_str(), Some("hello\n"));
}

#[test]
fn failing_compilers_are_errors() {
    match compile_with(finished("syntax error", 1, false)) {
        Err(CompileError::CompileFail(result)) => {
            assert_eq!(result.state(), CompileResultState::RuntimeFail);
            assert_eq!(result.stdout().as_str(), Some("syntax error"));
            assert_eq!(result.exit_status(), 1);
        }
        _ => panic!("compiled"),
    }
    match compile_with(finished("", 0, true)) {
        Err(CompileError::CompileFail(result)) => {
            assert_eq!(result.state(), CompileResultState::TimedOut)
        }
        _ => panic!("compiled"),
    }
    assert!(matches!(
        compile_with(CommandOutcome::SpawnFailed(failure("no compiler"))),
        Err(CompileError::SpawnFail(error)) if error.to_string() == "no compiler"
    ));
    assert!(matches!(
        compile_with(CommandOutcome::WaitFailed(failure("lost it"))),
        Err(CompileError::WaitFail(error)) if error.to_string() == "lost it"
    ));
    assert!(matches!(
        compile_with(CommandOutcome::FeedFailed(failure("lost it"))),
        Err(CompileError::WaitFail(error)) if error.to_string() == "lost it"
    ));
}
