use vstd::prelude::*;

use crate::text::{append, append_int, int_text, joined, owned};

verus! {

/// Why a submission did not produce its output.
pub enum InfraError {
    /// The language tag is outside the supported set; holds the message
    /// that names the tag.
    UnsupportedLanguage(String),
    /// A required executable is not on the search path; holds its name.
    CompilerNotFound(String),
    /// Creating, writing or deleting a scratch resource, or spawning, failed.
    IoError(String),
    /// The compile step (or the evaluator) rejected the program; holds its diagnostics.
    CompilationError(String),
    /// The program exited with a non-zero status.
    RunError { code: i32, stderr: String },
    /// The compile or run step was terminated by a signal.
    SignalError { stderr: String },
    /// The program's standard output is not valid UTF-8.
    StringParseError,
    /// A single compile-and-run invocation exited with a non-zero status.
    CompileOrRunError { code: i32, stderr: String },
}

/// An error with its texts as character sequences.
pub enum ErrorView {
    UnsupportedLanguage(Seq<char>),
    CompilerNotFound(Seq<char>),
    IoError(Seq<char>),
    CompilationError(Seq<char>),
    RunError { code: i32, stderr: Seq<char> },
    SignalError { stderr: Seq<char> },
    StringParseError,
    CompileOrRunError { code: i32, stderr: Seq<char> },
}

impl View for InfraError {
    type V = ErrorView;

    open spec fn view(&self) -> ErrorView {
        match self {
            InfraError::UnsupportedLanguage(detail) => ErrorView::UnsupportedLanguage(detail@),
            InfraError::CompilerNotFound(tool) => ErrorView::CompilerNotFound(tool@),
            InfraError::IoError(detail) => ErrorView::IoError(detail@),
            InfraError::CompilationError(detail) => ErrorView::CompilationError(detail@),
            InfraError::RunError { code, stderr } => ErrorView::RunError { code: *code, stderr: stderr@ },
            InfraError::SignalError { stderr } => ErrorView::SignalError { stderr: stderr@ },
            InfraError::StringParseError => ErrorView::StringParseError,
            InfraError::CompileOrRunError { code, stderr } => ErrorView::CompileOrRunError {
                code: *code,
                stderr: stderr@,
            },
        }
    }
}

/// The outcome of a submission: the program's output, or why there is none.
pub open spec fn outcome_view(r: Result<String, InfraError>) -> Result<Seq<char>, ErrorView> {
    match r {
        Ok(s) => Ok(s@),
        Err(e) => Err(e@),
    }
}

/// The human-readable message of an error.
pub open spec fn error_message(e: ErrorView) -> Seq<char> {
    match e {
        ErrorView::UnsupportedLanguage(detail) => detail,
        ErrorView::CompilerNotFound(tool) => "Failed to find the binary: "@ + tool,
        ErrorView::IoError(detail) => "IO error: "@ + detail,
        ErrorView::CompilationError(detail) => "Compilation failed: "@ + detail,
        ErrorView::RunError { code, stderr } => "Program execution failed with status code: "@
            + int_text(code as int) + "\nError: "@ + stderr,
        ErrorView::SignalError { stderr } => "Program terminated by signal\nError: "@ + stderr,
        ErrorView::StringParseError => "Failed to convert string: output is not valid UTF-8"@,
        ErrorView::CompileOrRunError { code, stderr } =>
            "Compilation or execution failed with status code: "@ + int_text(code as int)
                + "\nError: "@ + stderr,
    }
}

impl InfraError {
    /// The message shown to the operator; it names the class of the failure.
    pub fn message(&self) -> (r: String)
        ensures
            r@ == error_message(self@),
    {
        match self {
            InfraError::UnsupportedLanguage(detail) => detail.clone(),
            InfraError::CompilerNotFound(tool) => joined("Failed to find the binary: ", tool.as_str()),
            InfraError::IoError(detail) => joined("IO error: ", detail.as_str()),
            InfraError::CompilationError(detail) => joined("Compilation failed: ", detail.as_str()),
            InfraError::RunError { code, stderr } => {
                let mut s = owned("Program execution failed with status code: ");
                append_int(&mut s, *code);
                append(&mut s, "\nError: ");
                append(&mut s, stderr.as_str());
                s
            },
            InfraError::SignalError { stderr } => joined(
                "Program terminated by signal\nError: ",
                stderr.as_str(),
            ),
            InfraError::StringParseError => owned(
                "Failed to convert string: output is not valid UTF-8",
            ),
            InfraError::CompileOrRunError { code, stderr } => {
                let mut s = owned("Compilation or execution failed with status code: ");
                append_int(&mut s, *code);
                append(&mut s, "\nError: ");
                append(&mut s, stderr.as_str());
                s
            },
        }
    }
}

} // verus!
