use vstd::prelude::*;
use vstd::utf8::{decode_utf8, valid_utf8};

use crate::error::{outcome_view, ErrorView, InfraError};

verus! {

/// What a finished child process left behind.
pub struct ProcessResult {
    /// The exit status, or `None` when a signal ended the process.
    pub code: Option<i32>,
    pub stdout: Vec<u8>,
    pub stderr: Vec<u8>,
}

pub struct ProcessView {
    pub code: Option<i32>,
    pub stdout: Seq<u8>,
    pub stderr: Seq<u8>,
}

impl View for ProcessResult {
    type V = ProcessView;

    open spec fn view(&self) -> ProcessView {
        ProcessView { code: self.code, stdout: self.stdout@, stderr: self.stderr@ }
    }
}

/// How a failing exit status of the run step is reported.
#[derive(Clone, Copy, PartialEq, Eq, Structural, Debug)]
pub enum FailureClass {
    /// The step only evaluates or compiles (the Nix evaluator).
    Compile,
    /// The step runs the user program.
    Run,
    /// The step compiles and runs in one toolchain invocation.
    CompileOrRun,
}

/// Text of possibly invalid UTF-8 bytes, with each invalid sequence replaced.
pub uninterp spec fn lossy_text(b: Seq<u8>) -> Seq<char>;

/// Relies on `String::from_utf8_lossy`: the result depends on the bytes alone,
/// and valid UTF-8 is decoded unchanged.
#[verifier::external_body]
fn lossy_string(b: &[u8]) -> (r: String)
    ensures
        r@ == lossy_text(b@),
        valid_utf8(b@) ==> r@ == decode_utf8(b@),
{
    String::from_utf8_lossy(b).into_owned()
}

/// Relies on `String::from_utf8`: it succeeds exactly on valid UTF-8, and
/// then holds the decoded characters.
#[verifier::external_body]
fn utf8_string(b: Vec<u8>) -> (r: Option<String>)
    ensures
        r is Some <==> valid_utf8(b@),
        r matches Some(s) ==> s@ == decode_utf8(b@),
{
    String::from_utf8(b).ok()
}

/// The error that a failing step reports, given how its exit status
/// is classed and its standard error.
pub open spec fn step_failure(class: FailureClass, code: Option<i32>, stderr: Seq<u8>) -> ErrorView {
    match code {
        Some(c) => match class {
            FailureClass::Compile => ErrorView::CompilationError(lossy_text(stderr)),
            FailureClass::Run => ErrorView::RunError { code: c, stderr: lossy_text(stderr) },
            FailureClass::CompileOrRun => ErrorView::CompileOrRunError {
                code: c,
                stderr: lossy_text(stderr),
            },
        },
        None => ErrorView::SignalError { stderr: lossy_text(stderr) },
    }
}

/// The outcome of the step that runs the program.
pub open spec fn run_outcome(class: FailureClass, code: Option<i32>, stdout: Seq<u8>, stderr: Seq<u8>) -> Result<Seq<char>, ErrorView> {
    if code == Some(0i32) {
        if valid_utf8(stdout) {
            Ok(decode_utf8(stdout))
        } else {
            Err(ErrorView::StringParseError)
        }
    } else {
        Err(step_failure(class, code, stderr))
    }
}

/// Decodes the standard output of a successful run.
pub fn decode_output(stdout: Vec<u8>) -> (r: Result<String, InfraError>)
    ensures
        outcome_view(r) == (if valid_utf8(stdout@) {
            Ok(decode_utf8(stdout@))
        } else {
            Err(ErrorView::StringParseError)
        }),
{
    match utf8_string(stdout) {
        Some(s) => Ok(s),
        None => Err(InfraError::StringParseError),
    }
}

/// Decides on the result of a compile step: `None` when the run may follow.
pub fn check_compile(result: &ProcessResult) -> (r: Option<InfraError>)
    ensures
        r is None <==> result.code == Some(0i32),
        r matches Some(e) ==> e@ == step_failure(FailureClass::Compile, result.code, result.stderr@),
{
    match result.code {
        Some(0) => None,
        Some(_) => Some(InfraError::CompilationError(lossy_string(result.stderr.as_slice()))),
        None => Some(InfraError::SignalError { stderr: lossy_string(result.stderr.as_slice()) }),
    }
}

/// Decides on the result of the step that runs the program: its standard
/// output on a zero exit status, else the error of the given class.
pub fn finish_run(class: FailureClass, result: ProcessResult) -> (r: Result<String, InfraError>)
    ensures
        outcome_view(r) == run_outcome(class, result.code, result.stdout@, result.stderr@),
{
    match result.code {
        Some(0) => decode_output(result.stdout),
        Some(code) => {
            let stderr = lossy_string(result.stderr.as_slice());
            match class {
                FailureClass::Compile => Err(InfraError::CompilationError(stderr)),
                FailureClass::Run => Err(InfraError::RunError { code, stderr }),
                FailureClass::CompileOrRun => Err(InfraError::CompileOrRunError { code, stderr }),
            }
        },
        None => Err(InfraError::SignalError { stderr: lossy_string(result.stderr.as_slice()) }),
    }
}

} // verus!
