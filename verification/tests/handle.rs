use std::io::{Error, ErrorKind};
use std::path::PathBuf;
use std::sync::Arc;
use std::time::Duration;

use erudite::compile::CompileStep;
use erudite::error::SpawnTestError;
use erudite::handle::{TestHandle, TestJob, WaitAllStep};
use erudite::process::{
    ChildPart, ChildWatch, CommandOutcome, StdinStep, StdinWrite, WriteOutcome,
};
use erudite::runner::{TestResult, TestResultState};
use erudite::{Bytes, Output, TestContext};
use regex::Regex;

fn argv(items: &[&str]) -> Vec<String> {
    items.iter().map(|item| item.to_string()).collect()
}

fn failure(text: &str) -> Error {
    Error::new(ErrorKind::Other, text.to_string())
}

fn finished(stdout: &[u8], status: i32, timed_out: bool) -> CommandOutcome {
    CommandOutcome::Finished {
        output: Output::new(stdout.to_vec(), vec![], status),
        timed_out,
        time_taken: Duration::from_millis(5),
    }
}

fn run<G: Eq, T: Clone>(ctx: TestContext<G, T>, group: G, filter: fn(&T) -> bool) -> (TestHandle<T>, Vec<TestJob<T>>) {
    let runner = Arc::new(ctx)
        .test_runner::<()>(&group)
        .unwrap()
        .cwd(PathBuf::from("/work"))
        .filter_tests(|case| filter(case.data()));
    match runner.compile() {
        CompileStep::Finished(Ok(compiled)) => compiled.run(),
        _ => panic!("not compiled"),
    }
}

/// A suite of five tests whose data are their indices.
fn five(filter: fn(&usize) -> bool) -> (TestHandle<usize>, Vec<TestJob<usize>>) {
    let ctx = TestContext::builder()
        .run_command(argv(&["echo", "world"]))
        .test("g", "a", "world", 0)
        .test("g", "b", "world", 1)
        .test("g", "c", "world", 2)
        .test("g", "d", "world", 3)
        .test("g", "e", "world", 4)
        .build();
    run(ctx, "g", filter)
}

fn wait_for_all<T>(handle: &mut TestHandle<T>, arrivals: Vec<Result<TestResult<T>, SpawnTestError>>) -> Result<Vec<TestResult<T>>, SpawnTestError> {
    let mut waiting = handle.wait_all();
    for arrival in arrivals {
        waiting = match waiting.next(handle, Some(Ok(arrival))) {
            WaitAllStep::More(waiting) => waiting,
            WaitAllStep::Failed(error) => return Err(error),
            WaitAllStep::Done(_) => panic!("done too early"),
        };
    }
    match waiting.next(handle, None) {
        WaitAllStep::Done(results) => Ok(results),
        _ => panic!("not done"),
    }
}

fn state(expected: Regex, trim: bool, outcome: CommandOutcome) -> TestResultState {
    let ctx = TestContext::builder()
        .run_command(argv(&["prog"]))
        .test(0, "in", expected, ())
        .trim_output(trim)
        .build();
    let (_, mut jobs) = run(ctx, 0, |_| true);
    jobs.remove(0).finish(outcome).unwrap().state()
}

fn state_of(expected: &str, trim: bool, outcome: CommandOutcome) -> TestResultState {
    let ctx = TestContext::builder()
        .run_command(argv(&["prog"]))
        .test(0, "in", expected, ())
        .trim_output(trim)
        .build();
    let (_, mut jobs) = run(ctx, 0, |_| true);
    jobs.remove(0).finish(outcome).unwrap().state()
}

#[test]
fn test_result_getters() {
    let mut result = TestResult {
        index: 42,
        data: Some(String::from("this is not copy")),
        output: Output::new("stdout".to_string(), "stderr".to_string(), 69),
        state: TestResultState::Pass,
        time_taken: Duration::from_secs(2),
    };

    assert_eq!(result.clone(), result);
    assert_eq!(result.data(), Some(&"this is not copy".to_string()));
    assert_eq!(result.data(), Some(&"this is not copy".to_string()));
    assert_eq!(result.take_data(), Some("this is not copy".to_string()));
    assert_eq!(result.take_data(), None);
    assert_eq!(result.data(), None);

    assert_eq!(result.index(), 42);
    assert_eq!(
        result.output(),
        &Output::new("stdout".to_string(), "stderr".to_string(), 69)
    );
    assert_eq!(result.stdout(), &Bytes::from("stdout".to_string()));
    assert_eq!(result.stderr(), &Bytes::from("stderr".to_string()));
    assert_eq!(result.exit_status(), 69);
    assert_eq!(result.state(), TestResultState::Pass);
    assert_eq!(result.time_taken(), Duration::from_secs(2));
}

#[test]
fn test_handle_getters() {
    let ctx = TestContext::builder()
        .run_command(argv(&["echo", "world"]))
        .test((), "hello", "world", ())
        .test((), "hello", "world", ())
        .test((), "hello", "world", ())
        .test((), "hello", "world", ())
        .test((), "hello", "world", ())
        .test((), "hello", "world", ())
        .build();
    let (mut handle, mut jobs) = run(ctx, (), |_| true);
    assert_eq!(handle.tests_left(), 6);
    assert_eq!(handle.test_count(), 6);
    assert_eq!(handle.compile_result(), None);
    let result = jobs.remove(0).finish(finished(b"world\n", 0, false));
    let _result = handle.wait_next(Some(Ok(result))).unwrap().unwrap();
    assert_eq!(handle.tests_left(), 5);
    assert_eq!(handle.test_count(), 6);
    assert_eq!(handle.compile_result(), None);
    assert_eq!(handle.cwd(), &PathBuf::from("/work"));

    let ctx = TestContext::builder()
        .compile_command(argv(&["echo", "world"]))
        .run_command(argv(&["echo", "world"]))
        .test((), "", "world", ())
        .build();
    let runner = Arc::new(ctx).default_test_runner::<()>().cwd(PathBuf::from("/work"));
    let CompileStep::RunCommand(awaiting, _) = runner.compile() else {
        panic!("nothing to compile")
    };
    let CompileStep::Finished(Ok(compiled)) = awaiting.ran::<()>(finished(b"world\n", 0, false))
    else {
        panic!("not compiled")
    };
    let (handle, _) = compiled.run();
    assert!(handle.compile_result().is_some());
}

#[test]
fn every_test_is_one_call() {
    let (mut handle, jobs) = five(|i| *i != 1);
    let mut indices: Vec<usize> = Vec::new();
    for (calls, job) in jobs.into_iter().rev().enumerate() {
        assert_eq!(handle.tests_left(), 4 - calls);
        let joined = if job.index == 2 {
            Err(SpawnTestError::InvalidCommand)
        } else {
            job.finish(finished(b"world", 0, false))
        };
        match handle.wait_next(Some(Ok(joined))) {
            Ok(result) => indices.push(result.unwrap().index()),
            Err(error) => assert!(matches!(error, SpawnTestError::InvalidCommand)),
        }
        assert_eq!(handle.test_count(), 4);
    }
    assert_eq!(indices, vec![4, 3, 0]);
    assert_eq!(handle.tests_left(), 0);
    assert!(matches!(handle.wait_next(None), Ok(None)));
    assert!(matches!(handle.wait_next(None), Ok(None)));
}

#[test]
fn results_carry_their_test() {
    let (_, mut jobs) = five(|_| true);
    let result = jobs.remove(3).finish(finished(b"world", 0, false)).unwrap();
    assert_eq!(result.index(), 3);
    assert_eq!(result.data(), Some(&3));
    assert_eq!(result.state(), TestResultState::Pass);
    assert_eq!(result.stdout().as_str(), Some("world"));
    assert_eq!(result.time_taken(), Duration::from_millis(5));
}

#[test]
fn verdicts() {
    assert_eq!(state_of("foo bar", false, finished(b"foo bar", 0, false)), TestResultState::Pass);
    assert_eq!(state_of("foo", false, finished(b"foo\n", 0, false)), TestResultState::IncorrectOutput);
    assert_eq!(state_of("foo", true, finished(b" foo\n", 0, false)), TestResultState::Pass);
    assert_eq!(state_of("foo", false, finished(b"foo", 1, false)), TestResultState::RuntimeFail);
    assert_eq!(state_of("foo", false, finished(b"foo", -1, false)), TestResultState::RuntimeFail);
    assert_eq!(state_of("foo", false, finished(b"foo", 0, true)), TestResultState::TimedOut);
    assert_eq!(state_of("foo", false, finished(b"foo", 1, true)), TestResultState::TimedOut);
    assert_eq!(
        state_of("", false, finished(&[0xf0, 0x28, 0x8c, 0x28], 0, false)),
        TestResultState::IncorrectOutput
    );
    let digits = || Regex::new(r"^\d+$").unwrap();
    assert_eq!(state(digits(), false, finished(b"123", 0, false)), TestResultState::Pass);
    assert_eq!(state(digits(), false, finished(b"123\n", 0, false)), TestResultState::IncorrectOutput);
    assert_eq!(state(digits(), true, finished(b"123\n", 0, false)), TestResultState::Pass);
}

#[test]
fn tests_that_cannot_be_run() {
    let (_, mut jobs) = five(|_| true);
    assert!(matches!(
        jobs.remove(0).finish(CommandOutcome::SpawnFailed(failure("no such program"))),
        Err(SpawnTestError::SpawnFail(error)) if error.to_string() == "no such program"
    ));
    assert!(matches!(
        jobs.remove(0).finish(CommandOutcome::FeedFailed(failure("no space"))),
        Err(SpawnTestError::WriteStdinFail(error)) if error.to_string() == "no space"
    ));
    assert!(matches!(
        jobs.remove(0).finish(CommandOutcome::WaitFailed(failure("lost it"))),
        Err(SpawnTestError::WaitFail(error)) if error.to_string() == "lost it"
    ));
}

#[test]
fn input_that_cannot_be_written_is_reported_as_such() {
    let (_, mut jobs) = five(|_| true);
    let outcome = WriteOutcome::of(Err(failure("no space")));
    let StdinStep::Fail(error) = StdinWrite::Input.wrote(outcome) else {
        panic!("written")
    };
    let step = ChildWatch::new().note(ChildPart::Stdin(Err(error)));
    let outcome = step.outcome(Duration::from_millis(5)).unwrap();
    assert!(matches!(
        jobs.remove(0).finish(outcome),
        Err(SpawnTestError::WriteStdinFail(error)) if error.to_string() == "no space"
    ));

    let step = ChildWatch::new().note(ChildPart::Stdout(Err(failure("unreadable"))));
    let outcome = step.outcome(Duration::from_millis(5)).unwrap();
    assert!(matches!(
        jobs.remove(0).finish(outcome),
        Err(SpawnTestError::WaitFail(error)) if error.to_string() == "unreadable"
    ));
}

#[test]
fn an_empty_run_command_is_invalid() {
    let ctx = TestContext::builder()
        .run_command(Vec::<String>::new())
        .test(0, "in", "out", ())
        .build();
    let (mut handle, jobs) = run(ctx, 0, |_| true);
    let error = jobs[0].command().unwrap_err();
    assert!(matches!(error, SpawnTestError::InvalidCommand));
    assert!(matches!(
        handle.wait_next(Some(Ok(Err(error)))),
        Err(SpawnTestError::InvalidCommand)
    ));
    assert_eq!(handle.tests_left(), 0);
    assert!(matches!(handle.wait_next(None), Ok(None)));
}

#[test]
fn tasks_that_do_not_end_are_errors() {
    let runtime = tokio::runtime::Builder::new_current_thread().build().unwrap();
    let cancelled = runtime.block_on(async {
        let task = tokio::spawn(std::future::pending::<()>());
        task.abort();
        task.await.unwrap_err()
    });
    let (mut handle, _) = five(|_| true);
    match handle.wait_next(Some(Err(cancelled))) {
        Err(SpawnTestError::JoinError(error)) => assert!(error.is_cancelled()),
        _ => panic!("no error"),
    }
    assert_eq!(handle.tests_left(), 4);
}

#[test]
fn results_are_ordered() {
    let orders = [[0, 1, 2, 3, 4], [4, 3, 2, 1, 0], [2, 4, 0, 3, 1]];
    for order in orders {
        let (mut handle, jobs) = five(|_| true);
        let mut results: Vec<Option<Result<TestResult<usize>, SpawnTestError>>> = jobs
            .into_iter()
            .map(|job| Some(job.finish(finished(b"world", 0, false))))
            .collect();
        let arrivals = order.iter().map(|&i: &usize| results[i].take().unwrap()).collect();
        let results = wait_for_all(&mut handle, arrivals).unwrap();
        let indices: Vec<usize> = results.iter().map(|result| result.index()).collect();
        assert_eq!(indices, vec![0, 1, 2, 3, 4]);
        let data: Vec<usize> = results.iter().map(|result| *result.data().unwrap()).collect();
        assert_eq!(data, vec![0, 1, 2, 3, 4]);
        assert_eq!(handle.tests_left(), 0);
        assert_eq!(handle.test_count(), 5);
    }
}

#[test]
fn filtered_results_are_ordered() {
    let (mut handle, jobs) = five(|i| *i % 2 == 0);
    let mut arrivals: Vec<_> = jobs
        .into_iter()
        .map(|job| job.finish(finished(b"world", 0, false)))
        .collect();
    arrivals.reverse();
    let results = wait_for_all(&mut handle, arrivals).unwrap();
    let indices: Vec<usize> = results.iter().map(|result| result.index()).collect();
    assert_eq!(indices, vec![0, 2, 4]);
}

#[test]
fn results_collected_before_are_left_out() {
    let (mut handle, jobs) = five(|_| true);
    let mut arrivals: Vec<_> = jobs
        .into_iter()
        .map(|job| job.finish(finished(b"world", 0, false)))
        .collect();
    arrivals.reverse();
    let first = handle.wait_next(Some(Ok(arrivals.remove(1)))).unwrap().unwrap();
    assert_eq!(first.index(), 3);
    let results = wait_for_all(&mut handle, arrivals).unwrap();
    let indices: Vec<usize> = results.iter().map(|result| result.index()).collect();
    assert_eq!(indices, vec![0, 1, 2, 4]);
}

#[test]
fn the_first_error_ends_the_waiting() {
    let (mut handle, mut jobs) = five(|_| true);
    let good = jobs.remove(0).finish(finished(b"world", 0, false));
    let bad = jobs.remove(0).finish(CommandOutcome::WaitFailed(failure("lost it")));
    assert!(matches!(
        wait_for_all(&mut handle, vec![good, bad]),
        Err(SpawnTestError::WaitFail(error)) if error.to_string() == "lost it"
    ));
    assert_eq!(handle.tests_left(), 3);
}
