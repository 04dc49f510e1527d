//! How a run of the external program ended, built from what the operating
//! system reports about the finished child process.
//!
//! A run ends in one of two variants, `Ok(Success)` or `Err(Failure)`, chosen
//! by the success flag that the operating system reports, not by the numeric
//! exit code. A run whose output was streamed to the caller's terminal
//! carries no text; a captured run carries the decoded text of its streams.
use vstd::prelude::*;
use vstd::utf8::{decode_utf8, valid_utf8};

verus! {

/// A run whose process reported success. It never carries error text.
pub struct Success {
    /// The captured standard output, or `None` when it was not captured.
    pub stdout: Option<String>,
    /// The exit code.
    pub code: i32,
}

/// A run whose process reported failure.
pub struct Failure {
    /// The captured standard error, or `None` when it was not captured.
    pub stderr: Option<String>,
    /// The captured standard output, or `None` when it was not captured.
    pub stdout: Option<String>,
    /// The exit code.
    pub code: i32,
}

/// The characters of an optional text.
pub open spec fn text_view(t: Option<String>) -> Option<Seq<char>> {
    match t {
        Some(s) => Some(s@),
        None => None,
    }
}

/// Reading an outcome without branching on its variant.
pub trait IsFailure {
    spec fn spec_failed(&self) -> bool;

    spec fn spec_code(&self) -> i32;

    spec fn spec_stdout(&self) -> Option<Seq<char>>;

    spec fn spec_stderr(&self) -> Option<Seq<char>>;

    /// Whether the run failed.
    fn failed(&self) -> (r: bool)
        ensures
            r == self.spec_failed(),
    ;

    /// The exit code, whichever the variant.
    fn code(&self) -> (r: i32)
        ensures
            r == self.spec_code(),
    ;

    /// The captured standard output, whichever the variant.
    fn stdout(&self) -> (r: Option<String>)
        ensures
            text_view(r) == self.spec_stdout(),
    ;

    /// The captured standard error; always `None` for a success.
    fn stderr(&self) -> (r: Option<String>)
        ensures
            text_view(r) == self.spec_stderr(),
    ;
}

fn copy_text(t: &Option<String>) -> (r: Option<String>)
    ensures
        r == *t,
{
    match t {
        Some(s) => Some(s.clone()),
        None => None,
    }
}

impl IsFailure for Result<Success, Failure> {
    open spec fn spec_failed(&self) -> bool {
        self is Err
    }

    open spec fn spec_code(&self) -> i32 {
        match self {
            Ok(s) => s.code,
            Err(f) => f.code,
        }
    }

    open spec fn spec_stdout(&self) -> Option<Seq<char>> {
        match self {
            Ok(s) => text_view(s.stdout),
            Err(f) => text_view(f.stdout),
        }
    }

    open spec fn spec_stderr(&self) -> Option<Seq<char>> {
        match self {
            Ok(_) => None,
            Err(f) => text_view(f.stderr),
        }
    }

    fn failed(&self) -> (r: bool) {
        self.is_err()
    }

    fn code(&self) -> (r: i32) {
        match self {
            Ok(s) => s.code,
            Err(f) => f.code,
        }
    }

    fn stdout(&self) -> (r: Option<String>) {
        match self {
            Ok(s) => copy_text(&s.stdout),
            Err(f) => copy_text(&f.stdout),
        }
    }

    fn stderr(&self) -> (r: Option<String>) {
        match self {
            Ok(_) => None,
            Err(f) => copy_text(&f.stderr),
        }
    }
}

/// The exit code of a finished process: the reported code, or, when the
/// operating system reports none (the process was ended by a signal), 0 for
/// a success and 1 for a failure.
pub open spec fn code_or_default(success: bool, code: Option<i32>) -> i32 {
    match code {
        Some(c) => c,
        None => if success {
            0
        } else {
            1
        },
    }
}

/// Computes [`code_or_default`].
pub fn resolve_code(success: bool, code: Option<i32>) -> (r: i32)
    ensures
        r == code_or_default(success, code),
{
    match code {
        Some(c) => c,
        None => if success {
            0
        } else {
            1
        },
    }
}

/// The outcome of a run whose output went straight to the caller's
/// terminal: no text is carried in either variant.
pub fn streamed_outcome(success: bool, code: Option<i32>) -> (r: Result<Success, Failure>)
    ensures
        r == (if success {
            Ok(Success { stdout: None, code: code_or_default(success, code) })
        } else {
            Err(Failure { stderr: None, stdout: None, code: code_or_default(success, code) })
        }),
        r.spec_failed() == !success,
        r.spec_stdout() is None,
        r.spec_stderr() is None,
{
    let c = resolve_code(success, code);
    if success {
        Ok(Success { stdout: None, code: c })
    } else {
        Err(Failure { stderr: None, stdout: None, code: c })
    }
}

/// The text kept of a captured stream: its decoded text, or the empty text
/// when it could not be decoded (`None`).
pub open spec fn text_or_empty(t: Option<Seq<char>>) -> Seq<char> {
    match t {
        Some(s) => s,
        None => seq![],
    }
}

fn take_text_or_empty(t: Option<String>) -> (r: String)
    ensures
        r@ == text_or_empty(text_view(t)),
{
    match t {
        Some(s) => s,
        None => String::new(),
    }
}

/// The outcome of a captured run, from the decoded text of its two streams
/// (`None` for a stream that was not valid text, which is kept as the empty
/// text). A success carries its output; a failure carries both streams.
pub fn captured_outcome_of_text(
    success: bool,
    code: Option<i32>,
    stdout: Option<String>,
    stderr: Option<String>,
) -> (r: Result<Success, Failure>)
    ensures
        r.spec_failed() == !success,
        r.spec_code() == code_or_default(success, code),
        r.spec_stdout() == Some(text_or_empty(text_view(stdout))),
        r.spec_stderr() == (if success {
            None
        } else {
            Some(text_or_empty(text_view(stderr)))
        }),
{
    let c = resolve_code(success, code);
    let out = take_text_or_empty(stdout);
    if success {
        Ok(Success { stdout: Some(out), code: c })
    } else {
        let err = take_text_or_empty(stderr);
        Err(Failure { stderr: Some(err), stdout: Some(out), code: c })
    }
}

/// The text of captured bytes: what they encode when they are valid UTF-8,
/// else the empty text.
pub open spec fn captured_text(bytes: Seq<u8>) -> Seq<char> {
    if valid_utf8(bytes) {
        decode_utf8(bytes)
    } else {
        seq![]
    }
}

/// Relies on `String::from_utf8`: it succeeds exactly when the bytes are
/// valid UTF-8, and then holds the characters that they encode.
#[verifier::external_body]
fn decode_text(bytes: Vec<u8>) -> (r: Option<String>)
    ensures
        r is Some <==> valid_utf8(bytes@),
        r matches Some(t) ==> t@ == decode_utf8(bytes@),
{
    String::from_utf8(bytes).ok()
}

/// The outcome of a captured run, from the bytes that the process wrote to
/// its standard output and standard error. A stream that is not valid UTF-8
/// is kept as the empty text; the exit code and the other stream are not
/// affected.
pub fn captured_outcome(success: bool, code: Option<i32>, stdout: Vec<u8>, stderr: Vec<u8>) -> (r:
    Result<Success, Failure>)
    ensures
        r.spec_failed() == !success,
        r.spec_code() == code_or_default(success, code),
        r.spec_stdout() == Some(captured_text(stdout@)),
        r.spec_stderr() == (if success {
            None
        } else {
            Some(captured_text(stderr@))
        }),
{
    let out = decode_text(stdout);
    let err = if success {
        None
    } else {
        decode_text(stderr)
    };
    captured_outcome_of_text(success, code, out, err)
}

} // verus!
