//! The command line of the host driver, once parsed into plain values.
//!
//! Three flags select the mode and exactly one of them must be set. The
//! input `n` and the path of the proof file have defaults.

use crate::failure::{ErrorKind, Failure, FailureView};
use vstd::prelude::*;
use vstd::string::*;

verus! {

/// The value of `--n` when it is not given.
pub const DEFAULT_N: u32 = 0;

/// What one invocation does.
#[derive(Clone, Copy, Debug, PartialEq, Eq, Structural)]
pub enum Mode {
    /// Run the guest without proving.
    Execute,
    /// Generate a proof, verify it and save it.
    Prove,
    /// Load a proof from disk and verify it.
    Verify,
}

/// The arguments as they come from the command line.
#[derive(Debug, PartialEq, Eq)]
pub struct Args {
    pub execute: bool,
    pub prove: bool,
    pub verify: bool,
    pub n: u32,
    pub proof_path: String,
}

/// The mathematical value of `Args`.
pub struct ArgsView {
    pub execute: bool,
    pub prove: bool,
    pub verify: bool,
    pub n: u32,
    pub proof_path: Seq<char>,
}

impl View for Args {
    type V = ArgsView;

    open spec fn view(&self) -> ArgsView {
        ArgsView {
            execute: self.execute,
            prove: self.prove,
            verify: self.verify,
            n: self.n,
            proof_path: self.proof_path@,
        }
    }
}

/// Arguments that passed validation: the mode is one of three by
/// construction.
#[derive(Debug, PartialEq, Eq)]
pub struct Invocation {
    pub mode: Mode,
    pub n: u32,
    pub proof_path: String,
}

/// The mathematical value of an `Invocation`.
pub struct InvocationView {
    pub mode: Mode,
    pub n: u32,
    pub proof_path: Seq<char>,
}

impl View for Invocation {
    type V = InvocationView;

    open spec fn view(&self) -> InvocationView {
        InvocationView { mode: self.mode, n: self.n, proof_path: self.proof_path@ }
    }
}

/// How many of the three mode flags are set.
pub open spec fn spec_flag_count(execute: bool, prove: bool, verify: bool) -> nat {
    (if execute {
        1nat
    } else {
        0nat
    }) + (if prove {
        1nat
    } else {
        0nat
    }) + (if verify {
        1nat
    } else {
        0nat
    })
}

/// The mode that the flags select: the one that is set, if exactly one is.
pub open spec fn spec_select_mode(execute: bool, prove: bool, verify: bool) -> Option<Mode> {
    if spec_flag_count(execute, prove, verify) != 1 {
        None
    } else if execute {
        Some(Mode::Execute)
    } else if prove {
        Some(Mode::Prove)
    } else {
        Some(Mode::Verify)
    }
}

/// The text shown when the mode flags conflict.
pub open spec fn spec_arg_conflict_message() -> Seq<char> {
    "Error: You must specify exactly one of --execute, --prove, or --verify"@
}

/// The failure reported when the mode flags conflict.
pub open spec fn spec_arg_conflict() -> FailureView {
    FailureView { kind: ErrorKind::ArgConflict, message: spec_arg_conflict_message() }
}

/// What validating the arguments gives.
pub open spec fn spec_parse(args: ArgsView) -> Result<InvocationView, FailureView> {
    match spec_select_mode(args.execute, args.prove, args.verify) {
        Some(mode) => Ok(InvocationView { mode, n: args.n, proof_path: args.proof_path }),
        None => Err(spec_arg_conflict()),
    }
}

/// Any combination of mode flags other than exactly one is refused, and
/// exactly one is accepted with the mode of the flag that is set.
pub proof fn lemma_mode_needs_exactly_one_flag(execute: bool, prove: bool, verify: bool)
    ensures
        spec_select_mode(execute, prove, verify) is Some <==> spec_flag_count(
            execute,
            prove,
            verify,
        ) == 1,
        spec_select_mode(execute, prove, verify) == Some(Mode::Execute) <==> execute && !prove
            && !verify,
        spec_select_mode(execute, prove, verify) == Some(Mode::Prove) <==> !execute && prove
            && !verify,
        spec_select_mode(execute, prove, verify) == Some(Mode::Verify) <==> !execute && !prove
            && verify,
{
}

/// The path of the proof file when `--proof-path` is not given.
pub fn default_proof_path() -> (path: String)
    ensures
        path@ == "example_program_proof.bin"@,
{
    String::from_str("example_program_proof.bin")
}

/// Picks the mode from the three flags.
pub fn select_mode(execute: bool, prove: bool, verify: bool) -> (mode: Option<Mode>)
    ensures
        mode == spec_select_mode(execute, prove, verify),
        mode is Some <==> spec_flag_count(execute, prove, verify) == 1,
{
    if execute && !prove && !verify {
        Some(Mode::Execute)
    } else if !execute && prove && !verify {
        Some(Mode::Prove)
    } else if !execute && !prove && verify {
        Some(Mode::Verify)
    } else {
        None
    }
}

/// The failure for conflicting mode flags.
pub fn arg_conflict() -> (failure: Failure)
    ensures
        failure@ == spec_arg_conflict(),
{
    Failure {
        kind: ErrorKind::ArgConflict,
        message: String::from_str(
            "Error: You must specify exactly one of --execute, --prove, or --verify",
        ),
    }
}

impl Args {
    /// Arguments with no mode flag set and the default input and path.
    pub fn defaults() -> (args: Args)
        ensures
            !args.execute && !args.prove && !args.verify,
            args.n == DEFAULT_N,
            args.proof_path@ == "example_program_proof.bin"@,
    {
        Args {
            execute: false,
            prove: false,
            verify: false,
            n: DEFAULT_N,
            proof_path: default_proof_path(),
        }
    }
}

impl Invocation {
    /// Validates the arguments: exactly one mode flag must be set.
    pub fn parse(args: Args) -> (parsed: Result<Invocation, Failure>)
        ensures
            match spec_parse(args@) {
                Ok(invocation) => parsed matches Ok(got) && got@ == invocation,
                Err(failure) => parsed matches Err(got) && got@ == failure,
            },
            parsed is Ok <==> spec_flag_count(args.execute, args.prove, args.verify) == 1,
    {
        match select_mode(args.execute, args.prove, args.verify) {
            Some(mode) => Ok(Invocation { mode, n: args.n, proof_path: args.proof_path }),
            None => Err(arg_conflict()),
        }
    }
}

} // verus!
