//! Errors that may arise while using erudite.
use vstd::prelude::*;

use crate::result::CompileResult;

verus! {

/// An error that might occur while compiling the program.
#[derive(Debug)]
pub enum CompileError {
    /// Failed to spawn compile command.
    SpawnFail(std::io::Error),
    /// Failed to wait on compile command.
    WaitFail(std::io::Error),
    /// Invalid compile command specified.
    InvalidCommand,
    /// Failed to create necessary files.
    CreateFilesError(CreateFilesError),
    /// Failed to create compile/run directory.
    MktempFail(std::io::Error),
    /// Failed to compile solution (either timeout or nonzero exit code).
    CompileFail(CompileResult),
}

/// There was an error trying to create a file while running a test suite.
#[derive(Debug)]
pub struct CreateFilesError {
    /// The path to the file trying to be created.
    pub path: std::path::PathBuf,
    /// What went wrong.
    pub error: std::io::Error,
}

impl vstd::std_specs::convert::FromSpecImpl<CreateFilesError> for CompileError {
    open spec fn obeys_from_spec() -> bool {
        true
    }

    open spec fn from_spec(error: CreateFilesError) -> CompileError {
        CompileError::CreateFilesError(error)
    }
}

impl From<CreateFilesError> for CompileError {
    fn from(error: CreateFilesError) -> (r: CompileError) {
        CompileError::CreateFilesError(error)
    }
}

/// There was an error spawning, writing to, or reading from a test.
#[derive(Debug)]
pub enum SpawnTestError {
    /// Failed to join thread.
    JoinError(tokio::task::JoinError),
    /// Invalid run command specified.
    InvalidCommand,
    /// Failed to spawn run command.
    SpawnFail(std::io::Error),
    /// Failed to write to stdin of test program.
    WriteStdinFail(std::io::Error),
    /// Failed to wait on run command.
    WaitFail(std::io::Error),
}

/// An error of creating a file is an error of compiling, and says the same.
pub proof fn errors_of_files_are_errors_of_compiling(error: CreateFilesError, r: CompileError)
    requires
        call_ensures(<CompileError as From<CreateFilesError>>::from, (error,), r),
    ensures
        r matches CompileError::CreateFilesError(e) && e.path == error.path && e.error == error.error,
{
}

} // verus!
