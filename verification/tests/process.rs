use std::io::{Error, ErrorKind};
use std::time::Duration;

use erudite::process::{
    after_kill, after_wait, collect, command_from_argv, feed, ChildExit, ChildPart, ChildWatch,
    CommandOutcome, StdinStep, StdinWrite, WaitOutcome, WaitStep, WatchStep, WriteOutcome,
};
use erudite::Output;

fn failure(text: &str) -> Error {
    Error::new(ErrorKind::Other, text.to_string())
}

fn watch_all(parts: Vec<ChildPart>) -> WatchStep {
    let mut step = WatchStep::Wait(ChildWatch::new());
    for part in parts {
        step = match step {
            WatchStep::Wait(watch) => watch.note(part),
            other => panic!("ended too early: {:?}", other),
        };
    }
    step
}

fn exit(timed_out: bool, status: i32) -> ChildPart {
    ChildPart::Exit(Ok(ChildExit { timed_out, status }))
}

fn stdout(text: &str) -> ChildPart {
    ChildPart::Stdout(Ok(Some(text.as_bytes().to_vec())))
}

fn stderr(text: &str) -> ChildPart {
    ChildPart::Stderr(Ok(Some(text.as_bytes().to_vec())))
}

#[test]
fn the_first_item_is_the_program() {
    let argv = vec!["rustc".to_string(), "-o".to_string(), "main".to_string()];
    let invocation = command_from_argv(&argv).unwrap();
    assert_eq!(invocation.program, "rustc");
    assert_eq!(invocation.args, vec!["-o".to_string(), "main".to_string()]);

    let invocation = command_from_argv(&vec!["true".to_string()]).unwrap();
    assert_eq!(invocation.program, "true");
    assert!(invocation.args.is_empty());
}

#[test]
fn no_item_is_no_command() {
    assert_eq!(command_from_argv(&vec![]), None);
}

#[test]
fn input_ends_with_a_line_feed() {
    let StdinStep::Write(write, bytes) = feed(Some("h\u{e4}llo")) else {
        panic!("nothing to write")
    };
    assert_eq!(write, StdinWrite::Input);
    assert_eq!(bytes, "h\u{e4}llo".as_bytes());
    let StdinStep::Write(write, bytes) = write.wrote(WriteOutcome::Done) else {
        panic!("no line feed")
    };
    assert_eq!(write, StdinWrite::LineFeed);
    assert_eq!(bytes, b"\n");
    assert!(matches!(write.wrote(WriteOutcome::Done), StdinStep::Close));
}

#[test]
fn empty_input_gets_a_line_feed_too() {
    let StdinStep::Write(write, bytes) = feed(Some("")) else {
        panic!("nothing to write")
    };
    assert!(bytes.is_empty());
    assert!(matches!(
        write.wrote(WriteOutcome::Done),
        StdinStep::Write(StdinWrite::LineFeed, bytes) if bytes == b"\n"
    ));
}

#[test]
fn without_input_nothing_is_written() {
    assert!(matches!(feed(None), StdinStep::Close));
}

#[test]
fn programs_need_not_read_their_input() {
    assert!(matches!(
        StdinWrite::Input.wrote(WriteOutcome::BrokenPipe),
        StdinStep::Close
    ));
    assert!(matches!(
        StdinWrite::LineFeed.wrote(WriteOutcome::BrokenPipe),
        StdinStep::Close
    ));
}

#[test]
fn how_writes_end() {
    assert!(matches!(WriteOutcome::of(Ok(())), WriteOutcome::Done));
    assert!(matches!(
        WriteOutcome::of(Err(Error::from(ErrorKind::BrokenPipe))),
        WriteOutcome::BrokenPipe
    ));
    assert!(matches!(
        WriteOutcome::of(Err(failure("disk on fire"))),
        WriteOutcome::Failed(error) if error.to_string() == "disk on fire"
    ));
    assert!(matches!(
        WriteOutcome::of(Err(Error::from(ErrorKind::ConnectionReset))),
        WriteOutcome::Failed(_)
    ));
}

#[test]
fn other_write_errors_count() {
    for write in [StdinWrite::Input, StdinWrite::LineFeed] {
        match write.wrote(WriteOutcome::Failed(failure("disk on fire"))) {
            StdinStep::Fail(error) => assert_eq!(error.to_string(), "disk on fire"),
            other => panic!("{:?}", other),
        }
    }
}

#[test]
fn how_programs_end() {
    assert!(matches!(
        after_wait(WaitOutcome::Exited(Some(3))),
        WaitStep::Done(ChildExit { timed_out: false, status: 3 })
    ));
    assert!(matches!(
        after_wait(WaitOutcome::Exited(None)),
        WaitStep::Done(ChildExit { timed_out: false, status: 1 })
    ));
    assert!(matches!(after_wait(WaitOutcome::Elapsed), WaitStep::Kill));
    assert!(matches!(
        after_wait(WaitOutcome::Failed(failure("gone"))),
        WaitStep::Fail(error) if error.to_string() == "gone"
    ));
}

#[test]
fn killed_programs_have_timed_out() {
    assert_eq!(
        after_kill(Ok(())).unwrap(),
        ChildExit { timed_out: true, status: 0 }
    );
    assert_eq!(after_kill(Err(failure("gone"))).unwrap_err().to_string(), "gone");
}

#[test]
fn collecting_output() {
    let end = ChildExit { timed_out: false, status: 7 };
    let (output, timed_out) = collect(Some(b"out".to_vec()), Some(b"err".to_vec()), end);
    assert_eq!(output, Output::new(b"out".to_vec(), b"err".to_vec(), 7));
    assert!(!timed_out);

    let end = ChildExit { timed_out: true, status: 0 };
    let (output, timed_out) = collect(None, None, end);
    assert!(output.stdout.is_empty());
    assert!(output.stderr.is_empty());
    assert_eq!(output.status, 0);
    assert!(timed_out);
}

#[test]
fn all_parts_are_waited_for() {
    let fed = || ChildPart::Stdin(Ok(()));
    let orders = [
        vec![fed(), stdout("o"), stderr("e"), exit(false, 4)],
        vec![exit(false, 4), stderr("e"), stdout("o"), fed()],
        vec![stdout("o"), exit(false, 4), fed(), stderr("e")],
    ];
    for parts in orders {
        match watch_all(parts) {
            WatchStep::Done(output, timed_out) => {
                assert_eq!(output, Output::new(b"o".to_vec(), b"e".to_vec(), 4));
                assert!(!timed_out);
            }
            other => panic!("{:?}", other),
        }
    }
    assert!(matches!(
        watch_all(vec![fed(), stdout("o"), exit(false, 4)]),
        WatchStep::Wait(_)
    ));
}

#[test]
fn output_counts_even_after_a_timeout() {
    let parts = vec![
        exit(true, 0),
        stdout("half an ans"),
        ChildPart::Stdin(Ok(())),
        stderr("wait"),
    ];
    match watch_all(parts) {
        WatchStep::Done(output, timed_out) => {
            assert_eq!(output.stdout.as_str(), Some("half an ans"));
            assert_eq!(output.stderr.as_str(), Some("wait"));
            assert!(timed_out);
        }
        other => panic!("{:?}", other),
    }
}

#[test]
fn how_running_a_program_ends() {
    let time = Duration::from_millis(5);
    assert!(matches!(WatchStep::Wait(ChildWatch::new()).outcome(time), Err(_)));
    assert!(matches!(
        WatchStep::FeedFail(failure("a")).outcome(time),
        Ok(CommandOutcome::FeedFailed(error)) if error.to_string() == "a"
    ));
    assert!(matches!(
        WatchStep::Fail(failure("b")).outcome(time),
        Ok(CommandOutcome::WaitFailed(error)) if error.to_string() == "b"
    ));
    match WatchStep::Done(Output::new(b"o".to_vec(), b"e".to_vec(), 3), true).outcome(time) {
        Ok(CommandOutcome::Finished { output, timed_out, time_taken }) => {
            assert_eq!(output, Output::new(b"o".to_vec(), b"e".to_vec(), 3));
            assert!(timed_out);
            assert_eq!(time_taken, time);
        }
        other => panic!("{:?}", other),
    }
}

#[test]
fn the_first_failure_ends_everything() {
    match ChildWatch::new().note(ChildPart::Stdin(Err(failure("unwritable")))) {
        WatchStep::FeedFail(error) => assert_eq!(error.to_string(), "unwritable"),
        other => panic!("{:?}", other),
    }
    let failures = [
        ChildPart::Stdout(Err(failure("broken"))),
        ChildPart::Stderr(Err(failure("broken"))),
        ChildPart::Exit(Err(failure("broken"))),
    ];
    for part in failures {
        match ChildWatch::new().note(part) {
            WatchStep::Fail(error) => assert_eq!(error.to_string(), "broken"),
            other => panic!("{:?}", other),
        }
    }
}
