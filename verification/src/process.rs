//! Running one program: what is started, what it is fed, and how its end is read.
use std::sync::Arc;
use std::time::Duration;

use vstd::prelude::*;

use crate::outside::broken_pipe;
use crate::output::Output;

verus! {

/// A program and its arguments.
#[derive(Debug, PartialEq, Eq)]
pub struct Invocation {
    /// The program.
    pub program: String,
    /// The arguments.
    pub args: Vec<String>,
}

/// `invocation` is what `argv` asks for: its first item is the program, the others are the
/// arguments.
pub open spec fn invokes(argv: Seq<String>, invocation: Invocation) -> bool {
    &&& argv.len() > 0
    &&& invocation.program == argv.first()
    &&& invocation.args@ == argv.drop_first()
}

/// Parse a command from argv.  `argv[0]` is the program, `argv[1..]` is the args.
/// Returns `None` if the command is not valid.
pub fn command_from_argv(argv: &Vec<String>) -> (r: Option<Invocation>)
    ensures
        r is None <==> argv@.len() == 0,
        r matches Some(invocation) ==> invokes(argv@, invocation),
{
    if argv.len() == 0 {
        return None;
    }
    let mut args: Vec<String> = Vec::new();
    let mut i: usize = 1;
    while i < argv.len()
        invariant
            1 <= i <= argv.len(),
            args@ =~= argv@.subrange(1, i as int),
        decreases argv.len() - i,
    {
        args.push(argv[i].clone());
        i = i + 1;
    }
    assert(args@ =~= argv@.drop_first());
    Some(Invocation { program: argv[0].clone(), args })
}

/// What becomes of one of the standard streams of a program.
#[derive(Clone, Copy, PartialEq, Eq, Debug, Structural)]
pub enum Stream {
    /// The program shares the stream with whoever starts it.
    Inherit,
    /// The stream is connected to whoever starts the program.
    Piped,
    /// The stream leads nowhere.
    Null,
}

/// Everything that there is to know to run a program.
#[derive(Debug)]
pub struct CommandPlan {
    /// What is started.
    pub invocation: Invocation,
    /// The directory in which it is started.
    pub cwd: std::path::PathBuf,
    /// The standard input.
    pub stdin: Stream,
    /// The standard output.
    pub stdout: Stream,
    /// The standard error.
    pub stderr: Stream,
    /// What the program may do; everything, if there are no rules.
    pub rules: Option<Arc<leucite::Rules>>,
    /// How much memory the program may use.
    pub max_memory: Option<leucite::MemorySize>,
    /// How large the files may be that the program creates.
    pub max_file_size: Option<leucite::MemorySize>,
    /// How many threads the program may start.
    pub max_threads: Option<u64>,
    /// How long the program may take.
    pub timeout: Option<Duration>,
}

/// The outcome of running a program.
#[derive(Debug)]
pub enum CommandOutcome {
    /// It could not be started.
    SpawnFailed(std::io::Error),
    /// Its input could not be written.
    FeedFailed(std::io::Error),
    /// Reading from it or waiting for it failed.
    WaitFailed(std::io::Error),
    /// It ended, on its own or because its time was up.
    Finished { output: Output, timed_out: bool, time_taken: Duration },
}

/// The line feed that ends the input of every program.
pub const LINE_FEED: u8 = 10;

/// What came of writing to the standard input of a program.
#[derive(Debug)]
pub enum WriteOutcome {
    /// Everything has been written.
    Done,
    /// The program does not read any more.
    BrokenPipe,
    /// Writing failed for another reason.
    Failed(std::io::Error),
}

impl WriteOutcome {
    /// Reads what came of a write.
    pub fn of(written: Result<(), std::io::Error>) -> (r: WriteOutcome)
        ensures
            r == match written {
                Ok(_) => WriteOutcome::Done,
                Err(error) => if crate::outside::is_broken_pipe(error) {
                    WriteOutcome::BrokenPipe
                } else {
                    WriteOutcome::Failed(error)
                },
            },
    {
        match written {
            Ok(_) => WriteOutcome::Done,
            Err(error) => {
                if broken_pipe(&error) {
                    WriteOutcome::BrokenPipe
                } else {
                    WriteOutcome::Failed(error)
                }
            },
        }
    }
}

/// What is being written to the standard input of a program.
#[derive(Clone, Copy, PartialEq, Eq, Debug, Structural)]
pub enum StdinWrite {
    /// The input.
    Input,
    /// The line feed behind the input, without which some languages do not take an empty input.
    LineFeed,
}

/// What has to be done next about the standard input of a program.
#[derive(Debug)]
pub enum StdinStep {
    /// Write the bytes, then ask [`StdinWrite::wrote`].
    Write(StdinWrite, Vec<u8>),
    /// There is nothing more to write: close the standard input.
    Close,
    /// Give up.
    Fail(std::io::Error),
}

/// `step` is how feeding a program starts.
pub open spec fn feeds(input: Option<Seq<char>>, step: StdinStep) -> bool {
    match input {
        Some(text) => {
            step matches StdinStep::Write(write, bytes) && write is Input && bytes@
                == vstd::utf8::encode_utf8(text)
        },
        None => step is Close,
    }
}

/// `step` is how feeding a program goes on after a write.
pub open spec fn feeds_on(write: StdinWrite, outcome: WriteOutcome, step: StdinStep) -> bool {
    match outcome {
        WriteOutcome::Done => match write {
            StdinWrite::Input => {
                step matches StdinStep::Write(next, bytes) && next is LineFeed && bytes@ == seq![
                    LINE_FEED,
                ]
            },
            StdinWrite::LineFeed => step is Close,
        },
        WriteOutcome::BrokenPipe => step is Close,
        WriteOutcome::Failed(error) => step == StdinStep::Fail(error),
    }
}

/// Starts feeding a program.  A program without input is not fed at all.
pub fn feed(input: Option<&str>) -> (r: StdinStep)
    ensures
        input matches Some(text) ==> feeds(Some(text@), r),
        input is None ==> feeds(None, r),
{
    match input {
        Some(text) => StdinStep::Write(StdinWrite::Input, text.as_bytes_vec()),
        None => StdinStep::Close,
    }
}

impl StdinWrite {
    /// Goes on feeding a program after a write.  It is no error if the program does not want to
    /// read everything.
    pub fn wrote(self, outcome: WriteOutcome) -> (r: StdinStep)
        ensures
            feeds_on(self, outcome, r),
    {
        match outcome {
            WriteOutcome::Done => match self {
                StdinWrite::Input => {
                    let mut bytes: Vec<u8> = Vec::new();
                    bytes.push(LINE_FEED);
                    assert(bytes@ =~= seq![LINE_FEED]);
                    StdinStep::Write(StdinWrite::LineFeed, bytes)
                },
                StdinWrite::LineFeed => StdinStep::Close,
            },
            WriteOutcome::BrokenPipe => StdinStep::Close,
            WriteOutcome::Failed(error) => StdinStep::Fail(error),
        }
    }
}

/// A program that reads everything gets its input and a line feed, and nothing else.
pub proof fn programs_are_fed_input_and_line_feed(
    text: Seq<char>,
    first: StdinStep,
    second: StdinStep,
    third: StdinStep,
)
    requires
        feeds(Some(text), first),
        feeds_on(first->Write_0, WriteOutcome::Done, second),
        feeds_on(second->Write_0, WriteOutcome::Done, third),
    ensures
        first is Write,
        second is Write,
        third is Close,
        first->Write_1@ + second->Write_1@ == vstd::utf8::encode_utf8(text).push(LINE_FEED),
{
    assert(first->Write_1@ + second->Write_1@ =~= vstd::utf8::encode_utf8(text).push(LINE_FEED));
}

/// How a program ended.
#[derive(Clone, Copy, PartialEq, Eq, Debug, Structural)]
pub struct ChildExit {
    /// Whether its time was up.
    pub timed_out: bool,
    /// Its exit status.
    pub status: i32,
}

/// What came of waiting for a program.
#[derive(Debug)]
pub enum WaitOutcome {
    /// It exited, with an exit code unless a signal ended it.
    Exited(Option<i32>),
    /// It cannot be waited for.
    Failed(std::io::Error),
    /// Its time is up and it is still running.
    Elapsed,
}

/// What has to be done next about the end of a program.
#[derive(Debug)]
pub enum WaitStep {
    /// It has ended.
    Done(ChildExit),
    /// Kill it, then ask [`after_kill`].
    Kill,
    /// Give up.
    Fail(std::io::Error),
}

/// Reads the end of a program.  A program that a signal ended has the exit status 1.
pub fn after_wait(outcome: WaitOutcome) -> (r: WaitStep)
    ensures
        r == match outcome {
            WaitOutcome::Exited(Some(code)) => WaitStep::Done(
                ChildExit { timed_out: false, status: code },
            ),
            WaitOutcome::Exited(None) => WaitStep::Done(ChildExit { timed_out: false, status: 1 }),
            WaitOutcome::Failed(error) => WaitStep::Fail(error),
            WaitOutcome::Elapsed => WaitStep::Kill,
        },
{
    match outcome {
        WaitOutcome::Exited(code) => {
            WaitStep::Done(ChildExit { timed_out: false, status: code.unwrap_or(1) })
        },
        WaitOutcome::Failed(error) => WaitStep::Fail(error),
        WaitOutcome::Elapsed => WaitStep::Kill,
    }
}

/// Reads the end of a program that had to be killed.
pub fn after_kill(killed: Result<(), std::io::Error>) -> (r: Result<ChildExit, std::io::Error>)
    ensures
        r == match killed {
            Ok(_) => Ok(ChildExit { timed_out: true, status: 0 }),
            Err(error) => Err(error),
        },
{
    match killed {
        Ok(_) => Ok(ChildExit { timed_out: true, status: 0 }),
        Err(error) => Err(error),
    }
}

/// The bytes of a stream, or none if the stream was not piped.
pub open spec fn collected(stream: Option<Vec<u8>>) -> Seq<u8> {
    match stream {
        Some(bytes) => bytes@,
        None => seq![],
    }
}

/// Puts together what a program printed and how it ended.  What it printed counts even if its time
/// was up.  The result is the output, and whether the time was up.
pub fn collect(stdout: Option<Vec<u8>>, stderr: Option<Vec<u8>>, exit: ChildExit) -> (r: (
    Output,
    bool,
))
    ensures
        r.0.stdout@ == collected(stdout),
        r.0.stderr@ == collected(stderr),
        r.0.status == exit.status,
        r.1 == exit.timed_out,
{
    let stdout: Vec<u8> = match stdout {
        Some(bytes) => bytes,
        None => Vec::new(),
    };
    let stderr: Vec<u8> = match stderr {
        Some(bytes) => bytes,
        None => Vec::new(),
    };
    (Output::new(stdout, stderr, exit.status), exit.timed_out)
}

/// One of the four things that have to come to their end before a program is done with.
#[derive(Debug)]
pub enum ChildPart {
    /// Its standard input has been closed, or feeding it failed.
    Stdin(Result<(), std::io::Error>),
    /// Its standard output has been read to the end; `None` if it was not piped.
    Stdout(Result<Option<Vec<u8>>, std::io::Error>),
    /// Its standard error has been read to the end; `None` if it was not piped.
    Stderr(Result<Option<Vec<u8>>, std::io::Error>),
    /// It has ended.
    Exit(Result<ChildExit, std::io::Error>),
}

impl ChildPart {
    /// What went wrong, if something did.
    pub open spec fn failure(self) -> Option<std::io::Error> {
        match self {
            ChildPart::Stdin(Err(error)) => Some(error),
            ChildPart::Stdout(Err(error)) => Some(error),
            ChildPart::Stderr(Err(error)) => Some(error),
            ChildPart::Exit(Err(error)) => Some(error),
            _ => None,
        }
    }
}

/// The parts of a program that have come to their end so far.
#[derive(Debug)]
pub struct ChildWatch {
    /// Whether the standard input has been closed.
    pub fed: bool,
    /// The standard output, once it has been read.
    pub stdout: Option<Option<Vec<u8>>>,
    /// The standard error, once it has been read.
    pub stderr: Option<Option<Vec<u8>>>,
    /// How the program ended, once it has.
    pub exit: Option<ChildExit>,
}

/// What has to be done next about a program that is running.
#[derive(Debug)]
pub enum WatchStep {
    /// Wait for another part to come to its end.
    Wait(ChildWatch),
    /// The program is done with: its output, and whether its time was up.
    Done(Output, bool),
    /// Give up, without waiting for the other parts: the input could not be written.
    FeedFail(std::io::Error),
    /// Give up, without waiting for the other parts.
    Fail(std::io::Error),
}

impl WatchStep {
    /// What came of running the program, or what is known so far if there is more to wait for.
    /// `time_taken` is how long the program has been running.
    pub fn outcome(self, time_taken: Duration) -> (r: Result<CommandOutcome, ChildWatch>)
        ensures
            r == match self {
                WatchStep::Wait(watch) => Err(watch),
                WatchStep::Done(output, timed_out) => Ok(
                    CommandOutcome::Finished { output, timed_out, time_taken },
                ),
                WatchStep::FeedFail(error) => Ok(CommandOutcome::FeedFailed(error)),
                WatchStep::Fail(error) => Ok(CommandOutcome::WaitFailed(error)),
            },
    {
        match self {
            WatchStep::Wait(watch) => Err(watch),
            WatchStep::Done(output, timed_out) => {
                Ok(CommandOutcome::Finished { output, timed_out, time_taken })
            },
            WatchStep::FeedFail(error) => Ok(CommandOutcome::FeedFailed(error)),
            WatchStep::Fail(error) => Ok(CommandOutcome::WaitFailed(error)),
        }
    }
}

impl ChildWatch {
    /// No part has come to its end.
    pub open spec fn nothing() -> ChildWatch {
        ChildWatch { fed: false, stdout: None, stderr: None, exit: None }
    }

    /// What is known after a part has come to its end without failing.
    pub open spec fn and(self, part: ChildPart) -> ChildWatch {
        match part {
            ChildPart::Stdin(Ok(_)) => ChildWatch { fed: true, ..self },
            ChildPart::Stdout(Ok(bytes)) => ChildWatch { stdout: Some(bytes), ..self },
            ChildPart::Stderr(Ok(bytes)) => ChildWatch { stderr: Some(bytes), ..self },
            ChildPart::Exit(Ok(exit)) => ChildWatch { exit: Some(exit), ..self },
            _ => self,
        }
    }

    /// All parts have come to their end.
    pub open spec fn complete(self) -> bool {
        self.fed && self.stdout is Some && self.stderr is Some && self.exit is Some
    }

    /// `step` is what has to be done when this is what is known.
    pub open spec fn leads_to(self, step: WatchStep) -> bool {
        if self.complete() {
            &&& step matches WatchStep::Done(output, timed_out)
            &&& output.stdout@ == collected(self.stdout->0)
            &&& output.stderr@ == collected(self.stderr->0)
            &&& output.status == self.exit->0.status
            &&& timed_out == self.exit->0.timed_out
        } else {
            step == WatchStep::Wait(self)
        }
    }

    /// Starts watching a program.
    pub fn new() -> (r: ChildWatch)
        ensures
            r == ChildWatch::nothing(),
    {
        ChildWatch { fed: false, stdout: None, stderr: None, exit: None }
    }

    /// Takes note that a part has come to its end.  The first failure ends everything, and a failure
    /// to write the input is told apart from the others; otherwise
    /// the program is done with as soon as all four parts are.
    pub fn note(self, part: ChildPart) -> (r: WatchStep)
        ensures
            part matches ChildPart::Stdin(Err(error)) ==> r == WatchStep::FeedFail(error),
            !(part is Stdin) ==> (part.failure() matches Some(error) ==> r == WatchStep::Fail(error)),
            part.failure() is None ==> self.and(part).leads_to(r),
    {
        let mut watch = self;
        match part {
            ChildPart::Stdin(Ok(_)) => {
                watch.fed = true;
            },
            ChildPart::Stdout(Ok(bytes)) => {
                watch.stdout = Some(bytes);
            },
            ChildPart::Stderr(Ok(bytes)) => {
                watch.stderr = Some(bytes);
            },
            ChildPart::Exit(Ok(exit)) => {
                watch.exit = Some(exit);
            },
            ChildPart::Stdin(Err(error)) => {
                return WatchStep::FeedFail(error);
            },
            ChildPart::Stdout(Err(error)) => {
                return WatchStep::Fail(error);
            },
            ChildPart::Stderr(Err(error)) => {
                return WatchStep::Fail(error);
            },
            ChildPart::Exit(Err(error)) => {
                return WatchStep::Fail(error);
            },
        }
        match watch {
            ChildWatch { fed: true, stdout: Some(stdout), stderr: Some(stderr), exit: Some(exit) } => {
                let (output, timed_out) = collect(stdout, stderr, exit);
                WatchStep::Done(output, timed_out)
            },
            watch => WatchStep::Wait(watch),
        }
    }
}

/// The two parts are parts of different kinds.
pub open spec fn different_parts(a: ChildPart, b: ChildPart) -> bool {
    match a {
        ChildPart::Stdin(_) => !(b is Stdin),
        ChildPart::Stdout(_) => !(b is Stdout),
        ChildPart::Stderr(_) => !(b is Stderr),
        ChildPart::Exit(_) => !(b is Exit),
    }
}

/// It does not matter in which order the parts come to their end.
pub proof fn parts_may_end_in_any_order(watch: ChildWatch, a: ChildPart, b: ChildPart)
    requires
        different_parts(a, b),
    ensures
        watch.and(a).and(b) == watch.and(b).and(a),
{
}

/// The output and the way to end are what the part says of them.
pub open spec fn agrees(part: ChildPart, output: Output, timed_out: bool) -> bool {
    match part {
        ChildPart::Stdin(_) => true,
        ChildPart::Stdout(Ok(Some(bytes))) => output.stdout@ == bytes@,
        ChildPart::Stdout(Ok(None)) => output.stdout@.len() == 0,
        ChildPart::Stderr(Ok(Some(bytes))) => output.stderr@ == bytes@,
        ChildPart::Stderr(Ok(None)) => output.stderr@.len() == 0,
        ChildPart::Exit(Ok(exit)) => output.status == exit.status && timed_out == exit.timed_out,
        _ => false,
    }
}

/// A program is done with when its four parts are, in whatever order, and not before.  Whatever it
/// printed is collected, even if its time was up.
pub proof fn all_parts_are_collected(
    a: ChildPart,
    b: ChildPart,
    c: ChildPart,
    d: ChildPart,
    earlier: WatchStep,
    step: WatchStep,
)
    requires
        a.failure() is None && b.failure() is None && c.failure() is None && d.failure() is None,
        different_parts(a, b) && different_parts(a, c) && different_parts(a, d),
        different_parts(b, c) && different_parts(b, d) && different_parts(c, d),
        ChildWatch::nothing().and(a).and(b).and(c).leads_to(earlier),
        ChildWatch::nothing().and(a).and(b).and(c).and(d).leads_to(step),
    ensures
        earlier is Wait,
        step matches WatchStep::Done(output, timed_out) && agrees(a, output, timed_out) && agrees(
            b,
            output,
            timed_out,
        ) && agrees(c, output, timed_out) && agrees(d, output, timed_out),
{
}

/// A program is done with when its four parts are, in whatever order, and not before.  Its output is
/// then exactly what was read from it, byte for byte, even if its time was up; a stream that was not
/// piped gives nothing.
pub proof fn every_part_is_collected_as_it_came(
    parts: Seq<ChildPart>,
    start: ChildWatch,
    one: WatchStep,
    two: WatchStep,
    three: WatchStep,
    four: WatchStep,
)
    requires
        parts.len() == 4,
        forall|i: int|
            0 <= i < 4 ==> match #[trigger] parts[i] {
                ChildPart::Stdin(r) => r is Ok,
                ChildPart::Stdout(r) => r is Ok,
                ChildPart::Stderr(r) => r is Ok,
                ChildPart::Exit(r) => r is Ok,
            },
        forall|i: int, j: int|
            #![trigger parts[i], parts[j]]
            0 <= i < j < 4 ==> {
                &&& parts[i] is Stdin ==> !(parts[j] is Stdin)
                &&& parts[i] is Stdout ==> !(parts[j] is Stdout)
                &&& parts[i] is Stderr ==> !(parts[j] is Stderr)
                &&& parts[i] is Exit ==> !(parts[j] is Exit)
            },
        call_ensures(ChildWatch::new, (), start),
        call_ensures(ChildWatch::note, (start, parts[0]), one),
        call_ensures(ChildWatch::note, (one->Wait_0, parts[1]), two),
        call_ensures(ChildWatch::note, (two->Wait_0, parts[2]), three),
        call_ensures(ChildWatch::note, (three->Wait_0, parts[3]), four),
    ensures
        one is Wait && two is Wait && three is Wait && four is Done,
        forall|i: int|
            0 <= i < 4 ==> match #[trigger] parts[i] {
                ChildPart::Stdin(_) => true,
                ChildPart::Stdout(Ok(Some(bytes))) => four->Done_0.stdout@ == bytes@,
                ChildPart::Stdout(Ok(None)) => four->Done_0.stdout@.len() == 0,
                ChildPart::Stderr(Ok(Some(bytes))) => four->Done_0.stderr@ == bytes@,
                ChildPart::Stderr(Ok(None)) => four->Done_0.stderr@.len() == 0,
                ChildPart::Exit(Ok(exit)) => four->Done_0.status == exit.status && four->Done_1
                    == exit.timed_out,
                _ => false,
            },
{
    let (a, b, c, d) = (parts[0], parts[1], parts[2], parts[3]);
    assert(different_parts(a, b) && different_parts(a, c) && different_parts(a, d));
    assert(different_parts(b, c) && different_parts(b, d) && different_parts(c, d));
    assert(a.failure() is None && b.failure() is None);
    assert(c.failure() is None && d.failure() is None);
    assert(one is Wait);
    assert(two is Wait);
    assert(three is Wait);
    assert(four is Done);
}

/// The first part that fails ends everything at once, with its own error, whatever else is known; and
/// a failure to write the input is told apart from the others.
pub proof fn failures_end_everything(watch: ChildWatch, error: std::io::Error, step: WatchStep)
    ensures
        call_ensures(ChildWatch::note, (watch, ChildPart::Stdin(Err(error))), step) ==> step
            == WatchStep::FeedFail(error),
        call_ensures(ChildWatch::note, (watch, ChildPart::Stdout(Err(error))), step) ==> step
            == WatchStep::Fail(error),
        call_ensures(ChildWatch::note, (watch, ChildPart::Stderr(Err(error))), step) ==> step
            == WatchStep::Fail(error),
        call_ensures(ChildWatch::note, (watch, ChildPart::Exit(Err(error))), step) ==> step
            == WatchStep::Fail(error),
{
}

/// What is put together from two streams and an end is exactly these: every byte that was read, each
/// stream in its place, and nothing for a stream that was not piped.
pub proof fn nothing_is_lost_in_collecting(
    stdout: Option<Vec<u8>>,
    stderr: Option<Vec<u8>>,
    exit: ChildExit,
    r: (Output, bool),
)
    requires
        call_ensures(collect, (stdout, stderr, exit), r),
    ensures
        stdout matches Some(bytes) ==> r.0.stdout@.len() == bytes@.len() && forall|i: int|
            0 <= i < bytes@.len() ==> r.0.stdout@[i] == bytes@[i],
        stdout is None ==> r.0.stdout@.len() == 0,
        stderr matches Some(bytes) ==> r.0.stderr@.len() == bytes@.len() && forall|i: int|
            0 <= i < bytes@.len() ==> r.0.stderr@[i] == bytes@[i],
        stderr is None ==> r.0.stderr@.len() == 0,
        r.0.status == exit.status,
        r.1 <==> exit.timed_out,
{
}

/// The program is the first item of the command, and its arguments are all the others, in order.  Only
/// a command without items is invalid.
pub proof fn commands_are_taken_as_given(argv: Vec<String>, r: Option<Invocation>)
    requires
        call_ensures(command_from_argv, (&argv,), r),
    ensures
        r is None <==> argv@.len() == 0,
        r matches Some(invocation) ==> {
            &&& invocation.program == argv@[0]
            &&& invocation.args@.len() == argv@.len() - 1
            &&& forall|i: int| 0 <= i < invocation.args@.len() ==> invocation.args@[i] == argv@[i + 1]
        },
{
}

/// A program that has input and reads all of it is fed the bytes of the text, then one line feed, and
/// then nothing more.
pub proof fn feeding_goes_to_the_end(
    text: &str,
    first: StdinStep,
    second: StdinStep,
    third: StdinStep,
)
    requires
        call_ensures(feed, (Some(text),), first),
        call_ensures(StdinWrite::wrote, (first->Write_0, WriteOutcome::Done), second),
        call_ensures(StdinWrite::wrote, (second->Write_0, WriteOutcome::Done), third),
    ensures
        first is Write,
        first->Write_1@ == vstd::utf8::encode_utf8(text@),
        second is Write,
        second->Write_1@ == seq![10u8],
        third is Close,
{
}

/// A program without input is fed nothing.
pub proof fn without_input_there_is_nothing_to_write(step: StdinStep)
    requires
        call_ensures(feed, (None,), step),
    ensures
        step is Close,
{
}

/// It is no error if a program stops reading, at whatever point; every other failure to write is one.
pub proof fn only_a_broken_pipe_is_forgiven(
    write: StdinWrite,
    error: std::io::Error,
    outcome: WriteOutcome,
    step: StdinStep,
)
    requires
        call_ensures(WriteOutcome::of, (Err(error),), outcome),
        call_ensures(StdinWrite::wrote, (write, outcome), step),
    ensures
        crate::outside::is_broken_pipe(error) ==> step is Close,
        !crate::outside::is_broken_pipe(error) ==> step == StdinStep::Fail(error),
{
}

/// A write that succeeded is taken for one.
pub proof fn successful_writes_are_done(outcome: WriteOutcome)
    requires
        call_ensures(WriteOutcome::of, (Ok(()),), outcome),
    ensures
        outcome is Done,
{
}

/// The end of a program is read as it was: its exit code is its status, and its status is 1 if there
/// is no code; it has not timed out.  Only a program that is out of time is killed.
pub proof fn ends_are_read_as_they_were(outcome: WaitOutcome, step: WaitStep)
    requires
        call_ensures(after_wait, (outcome,), step),
    ensures
        outcome matches WaitOutcome::Exited(Some(code)) ==> (step matches WaitStep::Done(exit)
            && exit.status == code && !exit.timed_out),
        outcome matches WaitOutcome::Exited(None) ==> (step matches WaitStep::Done(exit)
            && exit.status == 1 && !exit.timed_out),
        outcome matches WaitOutcome::Failed(error) ==> step == WaitStep::Fail(error),
        outcome is Elapsed <==> step is Kill,
{
}

/// A program that was killed has timed out, with status 0; failing to kill it is an error.
pub proof fn killed_programs_have_timed_out(
    killed: Result<(), std::io::Error>,
    r: Result<ChildExit, std::io::Error>,
)
    requires
        call_ensures(after_kill, (killed,), r),
    ensures
        killed is Ok ==> (r matches Ok(exit) && exit.timed_out && exit.status == 0),
        killed matches Err(error) ==> r == Err::<ChildExit, std::io::Error>(error),
{
}

/// What came of running a program is what became of its parts.
pub proof fn outcomes_are_what_became_of_the_parts(
    step: WatchStep,
    time_taken: Duration,
    r: Result<CommandOutcome, ChildWatch>,
)
    requires
        call_ensures(WatchStep::outcome, (step, time_taken), r),
    ensures
        step is Wait <==> r is Err,
        step matches WatchStep::Wait(watch) ==> r->Err_0 == watch,
        step matches WatchStep::Done(output, timed_out) ==> r->Ok_0 == (CommandOutcome::Finished {
            output,
            timed_out,
            time_taken,
        }),
        step matches WatchStep::FeedFail(error) ==> r->Ok_0 == CommandOutcome::FeedFailed(error),
        step matches WatchStep::Fail(error) ==> r->Ok_0 == CommandOutcome::WaitFailed(error),
{
}

/// Taking note of a part that has come to its end changes what is known of that part, and of no other;
/// and the program is done with if and only if something is then known of all four.
pub proof fn other_parts_are_left_alone(watch: ChildWatch, part: ChildPart, step: WatchStep)
    requires
        call_ensures(ChildWatch::note, (watch, part), step),
        match part {
            ChildPart::Stdin(r) => r is Ok,
            ChildPart::Stdout(r) => r is Ok,
            ChildPart::Stderr(r) => r is Ok,
            ChildPart::Exit(r) => r is Ok,
        },
    ensures
        ({
            let fed = watch.fed || part is Stdin;
            let stdout = if part is Stdout {
                Some(part->Stdout_0->Ok_0)
            } else {
                watch.stdout
            };
            let stderr = if part is Stderr {
                Some(part->Stderr_0->Ok_0)
            } else {
                watch.stderr
            };
            let exit = if part is Exit {
                Some(part->Exit_0->Ok_0)
            } else {
                watch.exit
            };
            if fed && stdout is Some && stderr is Some && exit is Some {
                &&& step is Done
                &&& stdout->0 matches Some(bytes) ==> step->Done_0.stdout@ == bytes@
                &&& stdout->0 is None ==> step->Done_0.stdout@.len() == 0
                &&& stderr->0 matches Some(bytes) ==> step->Done_0.stderr@ == bytes@
                &&& stderr->0 is None ==> step->Done_0.stderr@.len() == 0
                &&& step->Done_0.status == exit->0.status
                &&& step->Done_1 == exit->0.timed_out
            } else {
                &&& step matches WatchStep::Wait(known)
                &&& known.fed == fed
                &&& known.stdout == stdout
                &&& known.stderr == stderr
                &&& known.exit == exit
            }
        }),
{
}

} // verus!
