//! The text that the programs print.
//!
//! Each function builds one block of lines for the output stream. The spec
//! functions say, character for character, what each block holds.

use crate::public_values::PublicValuesStruct;
use crate::text::{append_decimal, append_hex, spec_decimal, spec_hex};
use vstd::prelude::*;
use vstd::string::*;

verus! {

/// `label`, the decimal numeral of `value`, and a line break.
pub open spec fn spec_number_line(label: Seq<char>, value: nat) -> Seq<char> {
    label + spec_decimal(value) + "\n"@
}

/// `label`, `text`, and a line break.
pub open spec fn spec_text_line(label: Seq<char>, text: Seq<char>) -> Seq<char> {
    label + text + "\n"@
}

/// The guest's diagnostic lines: the input, its square and the outcome of
/// the predicate.
pub open spec fn spec_guest_log(values: PublicValuesStruct, predicate_held: bool) -> Seq<char> {
    "Example program verification:\n"@ + spec_number_line("N: "@, values.n as nat)
        + spec_number_line("N squared: "@, values.n_squared as nat) + (if predicate_held {
        "Verification Result: SUCCESS\n"@
    } else {
        "Verification Result: FAILED\n"@
    })
}

/// The first line of every invocation: the input that was given.
pub open spec fn spec_banner(n: u32) -> Seq<char> {
    spec_number_line("Example Program Data: N = "@, n as nat)
}

/// The summary of the execute mode: the decoded values and the number of
/// instructions that the guest ran.
pub open spec fn spec_execute_report(values: PublicValuesStruct, instructions: u64) -> Seq<char> {
    "Program executed successfully.\n"@ + "Example Program Verification Result:\n"@
        + spec_number_line("N: "@, values.n as nat) + spec_number_line(
        "N squared: "@,
        values.n_squared as nat,
    ) + spec_number_line("Number of instructions executed: "@, instructions as nat)
}

/// The input given and the values decoded, as both summaries of a proof
/// show them.
pub open spec fn spec_data_block(input: u32, values: PublicValuesStruct) -> Seq<char> {
    "\nInput Data:\n"@ + spec_number_line("  N: "@, input as nat) + "\nOutput Data:\n"@
        + spec_number_line("  N: "@, values.n as nat) + spec_number_line(
        "  N squared: "@,
        values.n_squared as nat,
    )
}

/// The raw public values in hexadecimal.
pub open spec fn spec_raw_block(public_values: Seq<u8>) -> Seq<char> {
    "\nPublic Values (Raw):\n"@ + spec_text_line("  "@, spec_hex(public_values))
}

/// The summary of the prove mode: the path of the proof, the input, the
/// decoded values, the digest of the verification key and the raw public
/// values.
pub open spec fn spec_prove_report(
    proof_path: Seq<char>,
    input: u32,
    values: PublicValuesStruct,
    vk_digest: Seq<u8>,
    public_values: Seq<u8>,
) -> Seq<char> {
    "\n=== Proof Details ===\n"@ + "\nProof:\n"@ + spec_text_line("  Path: "@, proof_path)
        + spec_data_block(input, values) + spec_text_line(
        "Program VKey: 0x"@,
        spec_hex(vk_digest),
    ) + spec_raw_block(public_values)
}

/// The summary of the verify mode: the decoded values and the raw public
/// values of the proof that was loaded.
pub open spec fn spec_verify_report(values: PublicValuesStruct, public_values: Seq<u8>) -> Seq<
    char,
> {
    "Proof successfully verified!\n"@ + "\n=== Verification Details ===\n"@ + spec_data_block(
        values.n,
        values,
    ) + spec_raw_block(public_values) + "Your proof is valid! Welcome to the sp1 club buddy!\n"@
}

/// Appends `label`, the decimal numeral of `value` and a line break.
pub fn append_number_line(text: &mut String, label: &str, value: u64)
    ensures
        final(text)@ == old(text)@ + spec_number_line(label@, value as nat),
{
    text.append(label);
    append_decimal(text, value);
    text.append("\n");
}

/// Appends `label`, `line` and a line break.
pub fn append_text_line(text: &mut String, label: &str, line: &str)
    ensures
        final(text)@ == old(text)@ + spec_text_line(label@, line@),
{
    text.append(label);
    text.append(line);
    text.append("\n");
}

/// Appends the block that shows the input and the decoded values.
fn append_data_block(text: &mut String, input: u32, values: &PublicValuesStruct)
    ensures
        final(text)@ == old(text)@ + spec_data_block(input, *values),
{
    text.append("\nInput Data:\n");
    append_number_line(text, "  N: ", input as u64);
    text.append("\nOutput Data:\n");
    append_number_line(text, "  N: ", values.n as u64);
    append_number_line(text, "  N squared: ", values.n_squared as u64);
}

/// Appends the block that shows the raw public values.
fn append_raw_block(text: &mut String, public_values: &[u8])
    ensures
        final(text)@ == old(text)@ + spec_raw_block(public_values@),
{
    text.append("\nPublic Values (Raw):\n");
    text.append("  ");
    append_hex(text, public_values);
    text.append("\n");
}

/// The guest's diagnostic lines.
pub fn guest_log(values: &PublicValuesStruct, predicate_held: bool) -> (text: String)
    ensures
        text@ == spec_guest_log(*values, predicate_held),
{
    let mut text = String::from_str("Example program verification:\n");
    append_number_line(&mut text, "N: ", values.n as u64);
    append_number_line(&mut text, "N squared: ", values.n_squared as u64);
    if predicate_held {
        text.append("Verification Result: SUCCESS\n");
    } else {
        text.append("Verification Result: FAILED\n");
    }
    text
}

/// The first line of every invocation.
pub fn banner(n: u32) -> (text: String)
    ensures
        text@ == spec_banner(n),
{
    let mut text = String::new();
    append_number_line(&mut text, "Example Program Data: N = ", n as u64);
    text
}

/// The summary of the execute mode.
pub fn execute_report(values: &PublicValuesStruct, instructions: u64) -> (text: String)
    ensures
        text@ == spec_execute_report(*values, instructions),
{
    let mut text = String::from_str("Program executed successfully.\n");
    text.append("Example Program Verification Result:\n");
    append_number_line(&mut text, "N: ", values.n as u64);
    append_number_line(&mut text, "N squared: ", values.n_squared as u64);
    append_number_line(&mut text, "Number of instructions executed: ", instructions);
    text
}

/// The summary of the prove mode.
pub fn prove_report(
    proof_path: &str,
    input: u32,
    values: &PublicValuesStruct,
    vk_digest: &[u8],
    public_values: &[u8],
) -> (text: String)
    ensures
        text@ == spec_prove_report(proof_path@, input, *values, vk_digest@, public_values@),
{
    let mut text = String::from_str("\n=== Proof Details ===\n");
    text.append("\nProof:\n");
    append_text_line(&mut text, "  Path: ", proof_path);
    append_data_block(&mut text, input, values);
    text.append("Program VKey: 0x");
    append_hex(&mut text, vk_digest);
    text.append("\n");
    append_raw_block(&mut text, public_values);
    text
}

/// The summary of the verify mode.
pub fn verify_report(values: &PublicValuesStruct, public_values: &[u8]) -> (text: String)
    ensures
        text@ == spec_verify_report(*values, public_values@),
{
    let mut text = String::from_str("Proof successfully verified!\n");
    text.append("\n=== Verification Details ===\n");
    append_data_block(&mut text, values.n, values);
    append_raw_block(&mut text, public_values);
    text.append("Your proof is valid! Welcome to the sp1 club buddy!\n");
    text
}

} // verus!
