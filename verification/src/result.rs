//! The results of compiling a program and of running its tests.
use std::time::Duration;

use vstd::prelude::*;

use crate::output::{Bytes, Output};

verus! {

/// The state of a test result.
#[derive(Clone, Copy, PartialEq, Eq, Debug, Hash, Structural)]
pub enum TestResultState {
    /// This test has passed without issue.
    Pass,
    /// This test failed while running (exit status != 0).
    RuntimeFail,
    /// This test timed out.
    TimedOut,
    /// This test printed the incorrect output.
    IncorrectOutput,
}

impl TestResultState {
    /// The verdict on a test: a timeout outweighs everything, a bad exit status outweighs what was
    /// printed, and to pass, a program must have printed text that was accepted.
    pub open spec fn verdict(timed_out: bool, status: i32, accepted: Option<bool>) -> TestResultState {
        if timed_out {
            TestResultState::TimedOut
        } else if status != 0 {
            TestResultState::RuntimeFail
        } else if accepted == Some(true) {
            TestResultState::Pass
        } else {
            TestResultState::IncorrectOutput
        }
    }

    /// Judges a test by whether it timed out, its exit status, and whether its output was accepted
    /// (`None` if the output was no text).
    pub fn judge(timed_out: bool, status: i32, accepted: Option<bool>) -> (r: TestResultState)
        ensures
            r == TestResultState::verdict(timed_out, status, accepted),
    {
        if timed_out {
            TestResultState::TimedOut
        } else if status != 0 {
            TestResultState::RuntimeFail
        } else {
            match accepted {
                Some(true) => TestResultState::Pass,
                _ => TestResultState::IncorrectOutput,
            }
        }
    }
}

/// A test passes exactly if it ended in time, with exit status 0, and printed text that was
/// accepted.
pub proof fn passing_takes_everything(timed_out: bool, status: i32, accepted: Option<bool>)
    ensures
        TestResultState::verdict(timed_out, status, accepted) is Pass <==> !timed_out && status == 0
            && accepted == Some(true),
{
}

/// The result from running the test.  This also contains the data associated with the test and the
/// index of the test when added to the context.
#[derive(PartialEq, Eq, Debug, Hash)]
pub struct TestResult<T> {
    /// The index of the test in its group.
    pub index: usize,
    /// The data of the test, until it is taken using [`TestResult::take_data`].
    pub data: Option<T>,
    /// What the program printed, and its exit status.
    pub output: Output,
    /// The verdict.
    pub state: TestResultState,
    /// How long the program ran.
    pub time_taken: Duration,
}

impl<T> TestResult<T> {
    /// The index of the test as added in the context.
    pub fn index(&self) -> (r: usize)
        ensures
            r == self.index,
    {
        self.index
    }

    /// Take the data associated with this test.  After the first call, will always return
    /// [`None`].
    pub fn take_data(&mut self) -> (r: Option<T>)
        ensures
            r == old(self).data,
            *final(self) == (TestResult { data: None, ..*old(self) }),
    {
        self.data.take()
    }

    /// Get the data associated with this test.  Returns `None` if the data has been taken via
    /// [`TestResult::take_data`].
    pub fn data(&self) -> (r: Option<&T>)
        ensures
            r is Some <==> self.data is Some,
            r matches Some(data) ==> Some(*data) == self.data,
    {
        self.data.as_ref()
    }

    /// Get the time taken by this test case.
    pub fn time_taken(&self) -> (r: Duration)
        ensures
            r == self.time_taken,
    {
        self.time_taken
    }

    /// Get the state of this test result.
    pub fn state(&self) -> (r: TestResultState)
        ensures
            r == self.state,
    {
        self.state
    }

    /// Get the output (stdout/stderr/exit status) of this test.
    pub fn output(&self) -> (r: &Output)
        ensures
            *r == self.output,
    {
        &self.output
    }

    /// Get the standard output of this test.
    pub fn stdout(&self) -> (r: &Bytes)
        ensures
            *r == self.output.stdout,
    {
        &self.output.stdout
    }

    /// Get the standard error of this test.
    pub fn stderr(&self) -> (r: &Bytes)
        ensures
            *r == self.output.stderr,
    {
        &self.output.stderr
    }

    /// Get the exit status of this test.
    pub fn exit_status(&self) -> (r: i32)
        ensures
            r == self.output.status,
    {
        self.output.status
    }
}

impl<T: Clone> Clone for TestResult<T> {
    fn clone(&self) -> (r: TestResult<T>)
        ensures
            r.index == self.index,
            cloned(self.data, r.data),
            cloned(self.output, r.output),
            r.state == self.state,
            r.time_taken == self.time_taken,
    {
        TestResult {
            index: self.index,
            data: self.data.clone(),
            output: self.output.clone(),
            state: self.state,
            time_taken: self.time_taken,
        }
    }
}

/// The state of the result of the compilation step.
#[derive(Clone, Copy, PartialEq, Eq, Debug, Structural)]
pub enum CompileResultState {
    /// The compiler exited successfully (exit status == 0).
    Success,
    /// The compiler exited unsuccessfully (exit status != 0).
    RuntimeFail,
    /// The compiler timed out while running.
    TimedOut,
}

impl CompileResultState {
    /// The verdict on a compile step.
    pub open spec fn verdict(timed_out: bool, status: i32) -> CompileResultState {
        if timed_out {
            CompileResultState::TimedOut
        } else if status == 0 {
            CompileResultState::Success
        } else {
            CompileResultState::RuntimeFail
        }
    }

    /// Judges a compile step by whether it timed out and by what it left behind.
    pub fn judge(timed_out: bool, output: &Output) -> (r: CompileResultState)
        ensures
            r == CompileResultState::verdict(timed_out, output.status),
    {
        if timed_out {
            CompileResultState::TimedOut
        } else if output.success() {
            CompileResultState::Success
        } else {
            CompileResultState::RuntimeFail
        }
    }
}

/// The result from running the compile step.
#[derive(Debug, PartialEq, Eq)]
pub struct CompileResult {
    /// What the compiler printed, and its exit status.
    pub output: Output,
    /// The verdict.
    pub state: CompileResultState,
    /// How long the compiler ran.
    pub time_taken: Duration,
}

impl Clone for CompileResult {
    fn clone(&self) -> (r: CompileResult)
        ensures
            cloned(self.output, r.output),
            r.state == self.state,
            r.time_taken == self.time_taken,
    {
        CompileResult {
            output: self.output.clone(),
            state: self.state,
            time_taken: self.time_taken,
        }
    }
}

impl CompileResult {
    /// Get the time taken by the compile step.
    pub fn time_taken(&self) -> (r: Duration)
        ensures
            r == self.time_taken,
    {
        self.time_taken
    }

    /// Get the state of the compile step.
    pub fn state(&self) -> (r: CompileResultState)
        ensures
            r == self.state,
    {
        self.state
    }

    /// Get the output (stdout/stderr/exit status).
    pub fn output(&self) -> (r: &Output)
        ensures
            *r == self.output,
    {
        &self.output
    }

    /// Get the standard output.
    pub fn stdout(&self) -> (r: &Bytes)
        ensures
            *r == self.output.stdout,
    {
        &self.output.stdout
    }

    /// Get the standard error.
    pub fn stderr(&self) -> (r: &Bytes)
        ensures
            *r == self.output.stderr,
    {
        &self.output.stderr
    }

    /// Get the exit status.
    pub fn exit_status(&self) -> (r: i32)
        ensures
            r == self.output.status,
    {
        self.output.status
    }
}

/// The verdict on a test, by what happened: a test that ran out of time has timed out, whatever else
/// it did; one that ended in time with a status other than 0 has failed; and of the others, exactly
/// those pass whose output was accepted.
pub proof fn every_test_gets_the_verdict_it_earned(
    timed_out: bool,
    status: i32,
    accepted: Option<bool>,
    state: TestResultState,
)
    requires
        call_ensures(TestResultState::judge, (timed_out, status, accepted), state),
    ensures
        state == TestResultState::TimedOut <==> timed_out,
        state == TestResultState::RuntimeFail <==> !timed_out && status != 0,
        state == TestResultState::Pass <==> !timed_out && status == 0 && accepted == Some(true),
        state == TestResultState::IncorrectOutput <==> !timed_out && status == 0 && accepted != Some(
            true,
        ),
{
}

/// The verdict on a compile step, by what happened: it succeeded exactly if it ended in time with
/// status 0, it timed out exactly if its time was up, and it failed in all other cases.
pub proof fn every_compile_step_gets_the_verdict_it_earned(
    timed_out: bool,
    output: Output,
    state: CompileResultState,
)
    requires
        call_ensures(CompileResultState::judge, (timed_out, &output), state),
    ensures
        state == CompileResultState::Success <==> !timed_out && output.status == 0,
        state == CompileResultState::RuntimeFail <==> !timed_out && output.status != 0,
        state == CompileResultState::TimedOut <==> timed_out,
{
}

/// The same of the verdict as such.
pub proof fn compiling_succeeds_only_with_status_zero(timed_out: bool, status: i32)
    ensures
        CompileResultState::verdict(timed_out, status) == CompileResultState::Success <==> !timed_out
            && status == 0,
        CompileResultState::verdict(timed_out, status) == CompileResultState::RuntimeFail
            <==> !timed_out && status != 0,
        CompileResultState::verdict(timed_out, status) == CompileResultState::TimedOut <==> timed_out,
{
}

/// The same of the verdict on a test as such.
pub proof fn each_verdict_has_its_reason(timed_out: bool, status: i32, accepted: Option<bool>)
    ensures
        TestResultState::verdict(timed_out, status, accepted) == TestResultState::TimedOut <==> timed_out,
        TestResultState::verdict(timed_out, status, accepted) == TestResultState::RuntimeFail
            <==> !timed_out && status != 0,
        TestResultState::verdict(timed_out, status, accepted) == TestResultState::IncorrectOutput
            <==> !timed_out && status == 0 && accepted != Some(true),
{
}

/// What is read from a test result is what stands in it.
pub proof fn test_results_are_read_as_they_are<T>(
    result: TestResult<T>,
    index: usize,
    data: Option<&T>,
    time_taken: Duration,
    state: TestResultState,
    output: &Output,
    stdout: &Bytes,
    stderr: &Bytes,
    exit_status: i32,
)
    requires
        call_ensures(TestResult::<T>::index, (&result,), index),
        call_ensures(TestResult::<T>::data, (&result,), data),
        call_ensures(TestResult::<T>::time_taken, (&result,), time_taken),
        call_ensures(TestResult::<T>::state, (&result,), state),
        call_ensures(TestResult::<T>::output, (&result,), output),
        call_ensures(TestResult::<T>::stdout, (&result,), stdout),
        call_ensures(TestResult::<T>::stderr, (&result,), stderr),
        call_ensures(TestResult::<T>::exit_status, (&result,), exit_status),
    ensures
        result.index == index,
        result.state == state,
        result.time_taken == time_taken,
        result.output == *output,
        output.stdout == *stdout,
        output.stderr == *stderr,
        output.status == exit_status,
        data is None <==> result.data is None,
        data matches Some(data) ==> result.data == Some(*data),
{
}

/// The data of a test can be taken once: the first call gives it, and afterwards there is none, while
/// everything else stays.
pub proof fn data_can_be_taken_once<T>()
    ensures
        forall|result: &mut TestResult<T>, taken: Option<T>| #[trigger]
            call_ensures(TestResult::<T>::take_data, (result,), taken) ==> {
                &&& taken == (*result).data
                &&& (*final(result)).data is None
                &&& (*final(result)).index == (*result).index
                &&& (*final(result)).output == (*result).output
                &&& (*final(result)).state == (*result).state
                &&& (*final(result)).time_taken == (*result).time_taken
            },
{
}

/// What is read from a compile result is what stands in it.
pub proof fn compile_results_are_read_as_they_are(
    result: CompileResult,
    time_taken: Duration,
    state: CompileResultState,
    output: &Output,
    stdout: &Bytes,
    stderr: &Bytes,
    exit_status: i32,
)
    requires
        call_ensures(CompileResult::time_taken, (&result,), time_taken),
        call_ensures(CompileResult::state, (&result,), state),
        call_ensures(CompileResult::output, (&result,), output),
        call_ensures(CompileResult::stdout, (&result,), stdout),
        call_ensures(CompileResult::stderr, (&result,), stderr),
        call_ensures(CompileResult::exit_status, (&result,), exit_status),
    ensures
        result.time_taken == time_taken,
        result.state == state,
        result.output == *output,
        output.stdout == *stdout,
        output.stderr == *stderr,
        output.status == exit_status,
{
}

/// Copies of results are the same as what they are copies of, with a clone of the data.
pub proof fn copies_of_results_are_the_same<T: Clone>(
    test: TestResult<T>,
    test_copy: TestResult<T>,
    compile: CompileResult,
    compile_copy: CompileResult,
)
    requires
        call_ensures(<TestResult<T> as Clone>::clone, (&test,), test_copy),
        call_ensures(<CompileResult as Clone>::clone, (&compile,), compile_copy),
    ensures
        test_copy.index == test.index,
        test_copy.state == test.state,
        test_copy.time_taken == test.time_taken,
        test_copy.output.stdout@ == test.output.stdout@,
        test_copy.output.stderr@ == test.output.stderr@,
        test_copy.output.status == test.output.status,
        cloned(test.data, test_copy.data),
        compile_copy.state == compile.state,
        compile_copy.time_taken == compile.time_taken,
        compile_copy.output.stdout@ == compile.output.stdout@,
        compile_copy.output.stderr@ == compile.output.stderr@,
        compile_copy.output.status == compile.output.status,
{
}

} // verus!
