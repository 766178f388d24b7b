//! Shared logic of a small zero-knowledge proof pipeline.
//!
//! A guest program reads one 32-bit input `n`, evaluates the predicate
//! `n >= 10`, squares `n` with wrapping arithmetic and commits both numbers as
//! a 64-byte Solidity-ABI blob. A host driver runs the guest in one of three
//! modes (execute, prove, verify) and reports what was committed.
//!
//! Everything here works on plain values. The proof system itself, the file
//! system and the terminal stay with the caller, which performs the actions
//! that the driver asks for and hands the outcomes back as events.

use vstd::prelude::*;

pub mod base256;
pub mod cli;
pub mod driver;
pub mod driver_lemmas;
pub mod failure;
pub mod guest;
pub mod input_stream;
pub mod public_values;
pub mod report;
pub mod text;

verus! {

/// The smallest input for which the guest's predicate holds.
pub const PREDICATE_THRESHOLD: u32 = 10;

/// The predicate that the guest evaluates on its input: `n` is at least ten.
pub open spec fn predicate_holds(n: u32) -> bool {
    n >= PREDICATE_THRESHOLD
}

/// Evaluates the guest's predicate on `n`.
///
/// The outcome is diagnostic only: it is not part of the committed public
/// values and does not gate the proof.
#[verifier::when_used_as_spec(predicate_holds)]
pub fn verify_program(n: u32) -> (held: bool)
    ensures
        held == predicate_holds(n),
        held <==> n >= 10,
{
    n >= PREDICATE_THRESHOLD
}

} // verus!
