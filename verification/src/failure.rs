//! What can go wrong in one invocation, and what the process exits with.
//!
//! No error is recovered: each one ends the invocation with exit code 1 and a
//! message for the error stream.

use vstd::prelude::*;

verus! {

/// Exit code of an invocation whose mode ran to its end.
pub const EXIT_SUCCESS: i32 = 0;

/// Exit code of an invocation that met any error.
pub const EXIT_FAILURE: i32 = 1;

/// The kinds of error.
#[derive(Clone, Copy, Debug, PartialEq, Eq, Structural)]
pub enum ErrorKind {
    /// Not exactly one of the three mode flags was set.
    ArgConflict,
    /// The guest's input stream was too short; the host sees it as a failed
    /// execution.
    InputUnderflow,
    /// The prover returned an error.
    ProvingFailed,
    /// The verifier rejected the proof.
    VerificationFailed,
    /// The public values are not 64 bytes or have non-zero padding.
    MalformedPublicValues,
    /// The proof file could not be saved or loaded.
    ProofIOFailed,
}

/// An error together with its text for the error stream.
#[derive(Debug, PartialEq, Eq)]
pub struct Failure {
    pub kind: ErrorKind,
    pub message: String,
}

/// The mathematical value of a `Failure`.
pub struct FailureView {
    pub kind: ErrorKind,
    pub message: Seq<char>,
}

impl View for Failure {
    type V = FailureView;

    open spec fn view(&self) -> FailureView {
        FailureView { kind: self.kind, message: self.message@ }
    }
}

/// The exit code for an invocation that ended with or without a failure.
pub open spec fn spec_exit_code(failure: Option<FailureView>) -> i32 {
    if failure is Some {
        EXIT_FAILURE
    } else {
        EXIT_SUCCESS
    }
}

impl ErrorKind {
    /// The exit code that an error of this kind ends the invocation with:
    /// always 1.
    pub fn exit_code(&self) -> (code: i32)
        ensures
            code == EXIT_FAILURE,
            code == 1,
    {
        EXIT_FAILURE
    }
}

impl Failure {
    /// The exit code that this failure ends the invocation with: always 1.
    pub fn exit_code(&self) -> (code: i32)
        ensures
            code == EXIT_FAILURE,
            code == spec_exit_code(Some(self@)),
    {
        self.kind.exit_code()
    }
}

} // verus!
