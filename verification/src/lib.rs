//! Erudite runs suites of tests: every test starts one program, feeds it some input, and judges
//! what the program prints.
//!
//! This crate is the verified core.  It holds the configuration of a suite, decides what has to be
//! done next while a suite is being compiled and run, and judges the outcome.  It never touches the
//! operating system: whoever drives it performs the requests that it hands out and reports back.

pub mod cases;
pub mod compile;
pub mod context;
pub mod convert;
pub mod error;
pub mod file;
pub mod filter;
pub mod handle;
pub mod outside;
pub mod output;
pub mod process;
pub mod result;
pub mod runner;
pub mod suite;
pub mod text;

pub use context::TestContext;
pub use file::{BorrowedFileConfig, BorrowedFileContent, FileConfig, FileContent};
pub use leucite::{MemorySize, Rules};
pub use output::{Bytes, Output};
