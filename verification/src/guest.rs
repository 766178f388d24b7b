//! The guest program: what runs inside the proving machine.
//!
//! The guest reads one word from its input stream, evaluates the predicate,
//! squares the word with wrapping arithmetic and commits the pair as an ABI
//! blob. It uses nothing but its input, so the same input always gives the
//! same committed bytes.

use crate::input_stream::{
    lemma_read_after_write, spec_le_bytes, spec_read_u32, InputStream, InputUnderflow,
};
use crate::public_values::{
    lemma_decode_encode, spec_abi_decode, spec_abi_encode, spec_squared, MalformedPublicValues,
    PublicValuesStruct,
};
use crate::{predicate_holds, verify_program};
use vstd::prelude::*;

verus! {

/// What one run of the guest produced.
#[derive(Debug, PartialEq, Eq)]
pub struct GuestOutput {
    /// The input and its wrapping square.
    pub values: PublicValuesStruct,
    /// Whether the predicate held of the input. Diagnostic only: it is not
    /// part of what is committed.
    pub predicate_held: bool,
    /// The bytes handed over as public output.
    pub committed: Vec<u8>,
}

/// What the guest computes from the input `n`.
pub open spec fn spec_guest_values(n: u32) -> PublicValuesStruct {
    PublicValuesStruct { n, n_squared: spec_squared(n) }
}

/// The bytes that the guest commits for the input `n`.
pub open spec fn spec_guest_commit(n: u32) -> Seq<u8> {
    spec_abi_encode(spec_guest_values(n))
}

/// What a run of the guest on `stream` commits: the bytes for the first word
/// of the stream, or nothing when the stream is too short.
pub open spec fn spec_run_commit(stream: Seq<u8>) -> Result<Seq<u8>, InputUnderflow> {
    match spec_read_u32(stream) {
        Ok((n, rest)) => Ok(spec_guest_commit(n)),
        Err(underflow) => Err(underflow),
    }
}

/// `out` is what the guest produces for the input `n`.
pub open spec fn spec_is_output_for(out: GuestOutput, n: u32) -> bool {
    &&& out.values == spec_guest_values(n)
    &&& out.predicate_held == predicate_holds(n)
    &&& out.committed@ == spec_guest_commit(n)
}

/// Below 2^16 the square fits and is exact.
pub proof fn lemma_squared_exact_below_two_pow_16(n: u32)
    requires
        n < 0x1_0000,
    ensures
        spec_squared(n) == n * n,
{
    assert(0 <= n * n < 0x1_0000_0000) by (nonlinear_arith)
        requires
            0 <= n < 0x1_0000,
    ;
}

/// From 2^16 on the square is reduced modulo 2^32; at 2^16 itself it is zero.
pub proof fn lemma_squared_wraps(n: u32)
    ensures
        spec_squared(n) == (n * n) % 0x1_0000_0000,
        n == 0x1_0000 ==> spec_squared(n) == 0,
        n >= 0x1_0000 ==> n * n >= 0x1_0000_0000,
{
    if n == 0x1_0000 {
        assert(n * n == 0x1_0000_0000) by (nonlinear_arith)
            requires
                n == 0x1_0000,
        ;
    }
    if n >= 0x1_0000 {
        assert(n * n >= 0x1_0000_0000) by (nonlinear_arith)
            requires
                n >= 0x1_0000,
        ;
    }
}

/// From the stream that the host prepares for `n`, the guest reads `n` and
/// leaves the stream empty; what it commits is the encoding of `n` and its
/// wrapping square, 64 bytes that decode to that pair.
pub proof fn lemma_guest_reads_host_input(n: u32)
    ensures
        spec_read_u32(spec_le_bytes(n)) == Ok::<(u32, Seq<u8>), InputUnderflow>(
            (n, Seq::<u8>::empty()),
        ),
        spec_run_commit(spec_le_bytes(n)) == Ok::<Seq<u8>, InputUnderflow>(spec_guest_commit(n)),
        spec_guest_commit(n).len() == 64,
        spec_abi_decode(spec_guest_commit(n)) == Ok::<PublicValuesStruct, MalformedPublicValues>(
            spec_guest_values(n),
        ),
{
    lemma_read_after_write(n, Seq::<u8>::empty());
    lemma_decode_encode(spec_guest_values(n));
}

/// Takes the guest's input from the stream: exactly one word.
pub fn read_input(stream: &mut InputStream) -> (input: Result<u32, InputUnderflow>)
    requires
        old(stream).wf(),
    ensures
        final(stream).wf(),
        match spec_read_u32(old(stream)@) {
            Ok((value, rest)) => input == Ok::<u32, InputUnderflow>(value) && final(stream)@
                == rest,
            Err(underflow) => input == Err::<u32, InputUnderflow>(underflow) && final(stream)@
                == old(stream)@,
        },
        input is Err <==> old(stream)@.len() < 4,
{
    stream.read_u32()
}

/// Squares `n` in 32 bits, wrapping on overflow.
pub fn compute_squared(n: u32) -> (squared: u32)
    ensures
        squared == spec_squared(n),
        squared == (n * n) % 0x1_0000_0000,
        n < 0x1_0000 ==> squared == n * n,
{
    proof {
        if n < 0x1_0000 {
            lemma_squared_exact_below_two_pow_16(n);
        }
    }
    n.wrapping_mul(n)
}

/// Encodes the public values as the 64-byte blob that is fixed into the
/// proof.
pub fn commit(values: &PublicValuesStruct) -> (blob: Vec<u8>)
    ensures
        blob@ == spec_abi_encode(*values),
        blob@.len() == 64,
{
    values.abi_encode()
}

/// The guest's computation on an input that has been read.
pub fn run_on_input(n: u32) -> (out: GuestOutput)
    ensures
        spec_is_output_for(out, n),
        out.committed@.len() == 64,
{
    let predicate_held = verify_program(n);
    let values = PublicValuesStruct { n, n_squared: compute_squared(n) };
    let committed = commit(&values);
    GuestOutput { values, predicate_held, committed }
}

/// One run of the guest: read one word, compute, commit. With fewer than
/// four bytes of input the run aborts and nothing is consumed.
pub fn run(stream: &mut InputStream) -> (outcome: Result<GuestOutput, InputUnderflow>)
    requires
        old(stream).wf(),
    ensures
        final(stream).wf(),
        match spec_read_u32(old(stream)@) {
            Ok((n, rest)) => outcome matches Ok(out) && spec_is_output_for(out, n)
                && final(stream)@ == rest,
            Err(underflow) => outcome matches Err(e) && e == underflow && final(stream)@ == old(
                stream,
            )@,
        },
        outcome is Err <==> old(stream)@.len() < 4,
        match spec_run_commit(old(stream)@) {
            Ok(blob) => outcome matches Ok(out) && out.committed@ == blob,
            Err(underflow) => outcome is Err,
        },
{
    match read_input(stream) {
        Ok(n) => Ok(run_on_input(n)),
        Err(underflow) => Err(underflow),
    }
}

} // verus!
