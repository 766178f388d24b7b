//! What holds of every step and of every run of the driver.
//!
//! A run is what the driver makes of a sequence of events, one step for each
//! event, from the start of an invocation. The lemmas speak of the transition
//! function `spec_step`, which is what `Driver::step` computes.

use crate::cli::{spec_arg_conflict, spec_flag_count, spec_parse, ArgsView, Mode};
use crate::driver::{
    spec_initial, spec_stdin, spec_step, ActionView, DriverView, EventView, Phase, StepView,
};
use crate::failure::{spec_exit_code, EXIT_FAILURE, EXIT_SUCCESS};
use crate::guest::{
    lemma_guest_reads_host_input, spec_guest_commit, spec_guest_values, spec_run_commit,
};
use crate::input_stream::InputUnderflow;
use crate::public_values::{
    lemma_decode_encode, spec_abi_decode, MalformedPublicValues, PublicValuesStruct,
};
use crate::report::{
    spec_banner, spec_execute_report, spec_prove_report, spec_text_line, spec_verify_report,
};
use vstd::prelude::*;

verus! {

/// How far an invocation has come: the phases in the order in which any
/// lifecycle passes them.
pub open spec fn spec_rank(phase: Phase) -> nat {
    match phase {
        Phase::Start => 0,
        Phase::AwaitingKeys => 1,
        Phase::AwaitingProof => 2,
        Phase::AwaitingLoad => 2,
        Phase::AwaitingVerification => 3,
        Phase::AwaitingSave => 4,
        Phase::AwaitingExecution => 5,
        Phase::Finished => 6,
    }
}

/// The event reports that some work failed.
pub open spec fn spec_is_failure_event(event: EventView) -> bool {
    event is ExecutionFailed || event is ProvingFailed || event is ProofRejected
        || event is ProofSaveFailed || event is ProofLoadFailed
}

/// What holds of every state that a run can reach: the phase fits the mode,
/// a failure is recorded only once the invocation has ended, and in verify
/// mode the values kept are the decoding of the public values kept.
pub open spec fn spec_consistent(state: DriverView) -> bool {
    &&& match state.phase {
        Phase::Start => state.verdict is None,
        Phase::AwaitingKeys => state.invocation.mode != Mode::Execute,
        Phase::AwaitingProof => state.invocation.mode == Mode::Prove,
        Phase::AwaitingLoad => state.invocation.mode == Mode::Verify,
        Phase::AwaitingVerification => state.invocation.mode != Mode::Execute && (
        state.invocation.mode == Mode::Verify ==> spec_abi_decode(state.public_values) == Ok::<
            PublicValuesStruct,
            MalformedPublicValues,
        >(state.values)),
        Phase::AwaitingSave => state.invocation.mode == Mode::Prove,
        Phase::AwaitingExecution => state.invocation.mode != Mode::Verify,
        Phase::Finished => true,
    }
    &&& state.phase != Phase::Finished ==> state.verdict is None
}

/// The state that a run reaches and the steps that it takes.
pub open spec fn spec_run(state: DriverView, events: Seq<EventView>) -> (
    DriverView,
    Seq<StepView>,
)
    decreases events.len(),
{
    if events.len() == 0 {
        (state, Seq::<StepView>::empty())
    } else {
        let (before, steps) = spec_run(state, events.drop_last());
        let (after, step) = spec_step(before, events.last());
        (after, steps.push(step))
    }
}

/// The exit code is 0 exactly when there is no failure and 1 exactly when
/// there is one, and the driver asks to exit exactly when it moves to, or
/// stays in, its final phase.
pub proof fn lemma_exit_code_tells_failure(state: DriverView, event: EventView)
    ensures
        spec_step(state, event).1.action matches ActionView::Exit { code, failure } ==> code
            == spec_exit_code(failure) && (code == EXIT_SUCCESS <==> failure is None) && (code
            == EXIT_FAILURE <==> failure is Some) && spec_step(state, event).0.verdict == failure,
        spec_step(state, event).1.action is Exit <==> spec_step(state, event).0.phase
            == Phase::Finished,
{
}

/// Any combination of mode flags other than exactly one ends the invocation
/// at once with exit code 1 and the message about the flags; exactly one
/// flag does not end it.
pub proof fn lemma_flags_are_mutually_exclusive(state: DriverView, args: ArgsView)
    requires
        state.phase == Phase::Start,
    ensures
        spec_flag_count(args.execute, args.prove, args.verify) != 1 ==> spec_step(
            state,
            EventView::Arguments { args },
        ).1 == (StepView {
            stdout: Seq::<char>::empty(),
            action: ActionView::Exit { code: EXIT_FAILURE, failure: Some(spec_arg_conflict()) },
        }),
        spec_flag_count(args.execute, args.prove, args.verify) == 1 ==> !(spec_step(
            state,
            EventView::Arguments { args },
        ).1.action is Exit),
        spec_flag_count(args.execute, args.prove, args.verify) == 1 ==> spec_step(
            state,
            EventView::Arguments { args },
        ).0.invocation == spec_parse(args)->Ok_0,
{
}

/// While the invocation has not ended, the report of a failure ends it with
/// exit code 1, whatever the driver was waiting for.
pub proof fn lemma_failure_ends_with_exit_one(state: DriverView, event: EventView)
    requires
        state.phase != Phase::Finished,
        spec_is_failure_event(event),
    ensures
        spec_step(state, event).0.phase == Phase::Finished,
        spec_step(state, event).1.action matches ActionView::Exit { code, failure } && code
            == EXIT_FAILURE && failure is Some,
        spec_step(state, event).1.stdout == Seq::<char>::empty(),
{
}

/// Public values that do not decode end the invocation with exit code 1
/// wherever the driver reads them: after a run of the guest and after the
/// load of a proof.
pub proof fn lemma_malformed_values_end_with_exit_one(
    state: DriverView,
    public_values: Seq<u8>,
    instruction_count: u64,
)
    requires
        spec_abi_decode(public_values) is Err,
    ensures
        state.phase == Phase::AwaitingExecution ==> (spec_step(
            state,
            EventView::Executed { public_values, instruction_count },
        ).1.action matches ActionView::Exit { code, failure } && code == EXIT_FAILURE),
        state.phase == Phase::AwaitingLoad ==> (spec_step(
            state,
            EventView::ProofLoaded { public_values },
        ).1.action matches ActionView::Exit { code, failure } && code == EXIT_FAILURE),
{
}

/// Every step moves the invocation forward until it has ended; after that
/// the driver stays where it is and repeats its verdict.
pub proof fn lemma_step_advances(state: DriverView, event: EventView)
    ensures
        state.phase != Phase::Finished ==> spec_rank(spec_step(state, event).0.phase) > spec_rank(
            state.phase,
        ),
        state.phase == Phase::Finished ==> spec_step(state, event).0 == state,
        state.phase == Phase::Finished ==> spec_step(state, event).1.action == (ActionView::Exit {
            code: spec_exit_code(state.verdict),
            failure: state.verdict,
        }),
{
}

/// Each phase is entered in one way only: by the event that reports the
/// success of the work before it.
pub proof fn lemma_phase_is_entered_by(state: DriverView, event: EventView)
    ensures
        match spec_step(state, event).0.phase {
            Phase::Start => false,
            Phase::AwaitingKeys => state.phase == Phase::Start && event is Arguments,
            Phase::AwaitingProof => state.phase == Phase::AwaitingKeys && event is KeysReady,
            Phase::AwaitingLoad => state.phase == Phase::AwaitingKeys && event is KeysReady,
            Phase::AwaitingVerification => (state.phase == Phase::AwaitingProof
                && event is ProofGenerated) || (state.phase == Phase::AwaitingLoad
                && event is ProofLoaded),
            Phase::AwaitingSave => state.phase == Phase::AwaitingVerification
                && event is ProofAccepted,
            Phase::AwaitingExecution => (state.phase == Phase::Start && event is Arguments) || (
            state.phase == Phase::AwaitingSave && event is ProofSaved),
            Phase::Finished => true,
        },
{
}

/// The consistency of the state is kept by every step.
pub proof fn lemma_step_keeps_consistency(state: DriverView, event: EventView)
    requires
        spec_consistent(state),
    ensures
        spec_consistent(spec_step(state, event).0),
{
}

/// The driver asks to save the proof only when the verifier has just
/// accepted it, and only to the path that the arguments gave.
pub proof fn lemma_proof_is_saved_after_acceptance(state: DriverView, event: EventView)
    requires
        spec_step(state, event).1.action is SaveProof,
    ensures
        state.phase == Phase::AwaitingVerification,
        event is ProofAccepted,
        state.invocation.mode != Mode::Verify,
        spec_step(state, event).1.action == (ActionView::SaveProof {
            path: state.invocation.proof_path,
        }),
{
}

/// The driver asks to load the proof from the path that the arguments gave,
/// and gives the executor and the prover the same input: the one word `n`.
pub proof fn lemma_requests_follow_arguments(state: DriverView, event: EventView)
    ensures
        spec_step(state, event).1.action matches ActionView::LoadProof { path } ==> path
            == spec_step(state, event).0.invocation.proof_path,
        spec_step(state, event).1.action matches ActionView::Execute { stdin } ==> stdin
            == spec_stdin(spec_step(state, event).0.invocation.n),
        spec_step(state, event).1.action matches ActionView::Prove { stdin } ==> stdin
            == spec_stdin(spec_step(state, event).0.invocation.n),
        !(state.phase == Phase::Start) ==> spec_step(state, event).0.invocation
            == state.invocation,
{
}

/// Execution and proving agree: whenever one step asks to execute and
/// another asks to prove for the same `n`, both hand the guest the same
/// input stream, and on it the guest commits the same bytes, those for `n`.
pub proof fn lemma_execution_and_proving_agree(
    executing: DriverView,
    first: EventView,
    proving: DriverView,
    second: EventView,
)
    requires
        spec_step(executing, first).1.action is Execute,
        spec_step(proving, second).1.action is Prove,
        spec_step(executing, first).0.invocation.n == spec_step(proving, second).0.invocation.n,
    ensures
        spec_step(executing, first).1.action->Execute_stdin == spec_step(
            proving,
            second,
        ).1.action->Prove_stdin,
        spec_run_commit(spec_step(executing, first).1.action->Execute_stdin) == spec_run_commit(
            spec_step(proving, second).1.action->Prove_stdin,
        ),
        spec_run_commit(spec_step(executing, first).1.action->Execute_stdin) == Ok::<
            Seq<u8>,
            InputUnderflow,
        >(spec_guest_commit(spec_step(executing, first).0.invocation.n)),
{
    lemma_guest_reads_host_input(spec_step(executing, first).0.invocation.n);
}

/// An invocation ends well in two ways only. In execute and in prove mode:
/// the guest has run and what it committed decodes. In verify mode: the
/// verifier has accepted the proof that was loaded. The summary printed
/// shows the decoded values.
pub proof fn lemma_success_needs_the_last_step(state: DriverView, event: EventView)
    requires
        spec_consistent(state),
        state.phase != Phase::Finished,
        spec_step(state, event).1.action == (ActionView::Exit {
            code: EXIT_SUCCESS,
            failure: None,
        }),
    ensures
        match state.invocation.mode {
            Mode::Execute => {
                &&& state.phase == Phase::AwaitingExecution
                &&& event matches EventView::Executed { public_values, instruction_count }
                &&& spec_abi_decode(public_values) matches Ok(values)
                &&& spec_step(state, event).1.stdout == spec_execute_report(
                    values,
                    instruction_count,
                )
            },
            Mode::Prove => {
                &&& state.phase == Phase::AwaitingExecution
                &&& event matches EventView::Executed { public_values, instruction_count }
                &&& spec_abi_decode(public_values) matches Ok(values)
                &&& spec_step(state, event).1.stdout == spec_prove_report(
                    state.invocation.proof_path,
                    state.invocation.n,
                    values,
                    state.vk_digest,
                    public_values,
                )
            },
            Mode::Verify => {
                &&& state.phase == Phase::AwaitingVerification
                &&& event is ProofAccepted
                &&& spec_abi_decode(state.public_values) == Ok::<
                    PublicValuesStruct,
                    MalformedPublicValues,
                >(state.values)
                &&& spec_step(state, event).1.stdout == spec_verify_report(
                    state.values,
                    state.public_values,
                )
            },
        },
{
}

/// A run of `k` events has `k` steps, reaches only consistent states, and
/// has come at least `k` phases far, or has ended.
pub proof fn lemma_run_advances(events: Seq<EventView>)
    ensures
        spec_run(spec_initial(), events).1.len() == events.len(),
        spec_consistent(spec_run(spec_initial(), events).0),
        spec_rank(spec_run(spec_initial(), events).0.phase) >= events.len() || spec_run(
            spec_initial(),
            events,
        ).0.phase == Phase::Finished,
    decreases events.len(),
{
    if events.len() > 0 {
        let before = spec_run(spec_initial(), events.drop_last()).0;
        lemma_run_advances(events.drop_last());
        lemma_step_advances(before, events.last());
        lemma_step_keeps_consistency(before, events.last());
    }
}

/// Every run has ended after six events at the latest.
pub proof fn lemma_run_ends_within_six_events(events: Seq<EventView>)
    requires
        events.len() >= 6,
    ensures
        spec_run(spec_initial(), events).0.phase == Phase::Finished,
        spec_run(spec_initial(), events).1.last().action is Exit,
{
    lemma_run_advances(events);
    let before = spec_run(spec_initial(), events.drop_last()).0;
    lemma_exit_code_tells_failure(before, events.last());
}

/// A run grows by one step with each event.
pub proof fn lemma_run_push(state: DriverView, events: Seq<EventView>, event: EventView)
    ensures
        spec_run(state, events.push(event)).0 == spec_step(spec_run(state, events).0, event).0,
        spec_run(state, events.push(event)).1 == spec_run(state, events).1.push(
            spec_step(spec_run(state, events).0, event).1,
        ),
{
    assert(events.push(event).drop_last() =~= events);
}

/// The arguments of an invocation in `mode`, with exactly that mode's flag
/// set.
pub open spec fn spec_args_for(mode: Mode, n: u32, proof_path: Seq<char>) -> ArgsView {
    ArgsView {
        execute: mode == Mode::Execute,
        prove: mode == Mode::Prove,
        verify: mode == Mode::Verify,
        n,
        proof_path,
    }
}

/// The execute lifecycle, when nothing fails: the driver prints the input,
/// has the guest run on the one word `n`, and ends with exit code 0 and the
/// summary of `n` and its wrapping square.
pub proof fn lemma_execute_lifecycle(n: u32, proof_path: Seq<char>, instruction_count: u64)
    ensures
        spec_run(
            spec_initial(),
            seq![
                EventView::Arguments { args: spec_args_for(Mode::Execute, n, proof_path) },
                EventView::Executed { public_values: spec_guest_commit(n), instruction_count },
            ],
        ).1 == seq![
            StepView {
                stdout: spec_banner(n),
                action: ActionView::Execute { stdin: spec_stdin(n) },
            },
            StepView {
                stdout: spec_execute_report(spec_guest_values(n), instruction_count),
                action: ActionView::Exit { code: EXIT_SUCCESS, failure: None },
            },
        ],
        spec_run_commit(spec_stdin(n)) == Ok::<Seq<u8>, InputUnderflow>(spec_guest_commit(n)),
{
    let e0 = EventView::Arguments { args: spec_args_for(Mode::Execute, n, proof_path) };
    let e1 = EventView::Executed { public_values: spec_guest_commit(n), instruction_count };
    let none = Seq::<EventView>::empty();
    lemma_decode_encode(spec_guest_values(n));
    lemma_guest_reads_host_input(n);
    lemma_run_push(spec_initial(), none, e0);
    lemma_run_push(spec_initial(), none.push(e0), e1);
    assert(none.push(e0).push(e1) =~= seq![e0, e1]);
}

/// The prove lifecycle, when nothing fails: derive the keys, prove on the
/// one word `n`, verify the fresh proof, save it to the path given, run the
/// guest once more, and end with exit code 0 and the summary.
pub proof fn lemma_prove_lifecycle(
    n: u32,
    proof_path: Seq<char>,
    vk_digest: Seq<u8>,
    instruction_count: u64,
)
    ensures
        spec_run(
            spec_initial(),
            seq![
                EventView::Arguments { args: spec_args_for(Mode::Prove, n, proof_path) },
                EventView::KeysReady { vk_digest },
                EventView::ProofGenerated,
                EventView::ProofAccepted,
                EventView::ProofSaved,
                EventView::Executed { public_values: spec_guest_commit(n), instruction_count },
            ],
        ).1 == seq![
            StepView { stdout: spec_banner(n), action: ActionView::Setup },
            StepView {
                stdout: Seq::<char>::empty(),
                action: ActionView::Prove { stdin: spec_stdin(n) },
            },
            StepView {
                stdout: "Proof successfully generated!\n"@,
                action: ActionView::VerifyProof,
            },
            StepView {
                stdout: "Proof successfully verified!\n"@,
                action: ActionView::SaveProof { path: proof_path },
            },
            StepView {
                stdout: spec_text_line("Proof saved to file: "@, proof_path),
                action: ActionView::Execute { stdin: spec_stdin(n) },
            },
            StepView {
                stdout: spec_prove_report(
                    proof_path,
                    n,
                    spec_guest_values(n),
                    vk_digest,
                    spec_guest_commit(n),
                ),
                action: ActionView::Exit { code: EXIT_SUCCESS, failure: None },
            },
        ],
{
    let e0 = EventView::Arguments { args: spec_args_for(Mode::Prove, n, proof_path) };
    let e1 = EventView::KeysReady { vk_digest };
    let e2 = EventView::ProofGenerated;
    let e3 = EventView::ProofAccepted;
    let e4 = EventView::ProofSaved;
    let e5 = EventView::Executed { public_values: spec_guest_commit(n), instruction_count };
    let none = Seq::<EventView>::empty();
    let r1 = none.push(e0);
    let r2 = r1.push(e1);
    let r3 = r2.push(e2);
    let r4 = r3.push(e3);
    let r5 = r4.push(e4);
    lemma_decode_encode(spec_guest_values(n));
    lemma_run_push(spec_initial(), none, e0);
    lemma_run_push(spec_initial(), r1, e1);
    lemma_run_push(spec_initial(), r2, e2);
    lemma_run_push(spec_initial(), r3, e3);
    lemma_run_push(spec_initial(), r4, e4);
    lemma_run_push(spec_initial(), r5, e5);
    assert(r5.push(e5) =~= seq![e0, e1, e2, e3, e4, e5]);
}

/// The verify lifecycle, when nothing fails: derive the key, load the proof
/// from the path given, decode the public values that it embeds, verify it,
/// and end with exit code 0 and the summary of the decoded values.
pub proof fn lemma_verify_lifecycle(
    n: u32,
    proof_path: Seq<char>,
    vk_digest: Seq<u8>,
    values: PublicValuesStruct,
    public_values: Seq<u8>,
)
    requires
        spec_abi_decode(public_values) == Ok::<PublicValuesStruct, MalformedPublicValues>(values),
    ensures
        spec_run(
            spec_initial(),
            seq![
                EventView::Arguments { args: spec_args_for(Mode::Verify, n, proof_path) },
                EventView::KeysReady { vk_digest },
                EventView::ProofLoaded { public_values },
                EventView::ProofAccepted,
            ],
        ).1 == seq![
            StepView {
                stdout: spec_banner(n) + spec_text_line(
                    "Verifying existing proof from file: "@,
                    proof_path,
                ),
                action: ActionView::Setup,
            },
            StepView {
                stdout: Seq::<char>::empty(),
                action: ActionView::LoadProof { path: proof_path },
            },
            StepView { stdout: Seq::<char>::empty(), action: ActionView::VerifyProof },
            StepView {
                stdout: spec_verify_report(values, public_values),
                action: ActionView::Exit { code: EXIT_SUCCESS, failure: None },
            },
        ],
{
    let e0 = EventView::Arguments { args: spec_args_for(Mode::Verify, n, proof_path) };
    let e1 = EventView::KeysReady { vk_digest };
    let e2 = EventView::ProofLoaded { public_values };
    let e3 = EventView::ProofAccepted;
    let none = Seq::<EventView>::empty();
    let r1 = none.push(e0);
    let r2 = r1.push(e1);
    let r3 = r2.push(e2);
    lemma_run_push(spec_initial(), none, e0);
    lemma_run_push(spec_initial(), r1, e1);
    lemma_run_push(spec_initial(), r2, e2);
    lemma_run_push(spec_initial(), r3, e3);
    assert(r3.push(e3) =~= seq![e0, e1, e2, e3]);
}

} // verus!
