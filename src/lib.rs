//! Runs the `git` executable with caller-chosen arguments and describes how
//! each run ended.
//!
//! The library holds what can be decided without touching the operating
//! system: the argument list of a run, the splitting of a phrase into words,
//! and the outcome built from what the operating system reports about the
//! finished child process.

pub mod git;
pub mod outcome;
pub mod words;

pub use git::Git;
pub use outcome::{
    captured_outcome, captured_outcome_of_text, resolve_code, streamed_outcome, Failure, IsFailure,
    Success,
};
pub use words::split_words_of;
