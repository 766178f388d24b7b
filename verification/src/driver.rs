//! The host driver: one invocation as a state machine.
//!
//! The driver decides; the caller acts. Each call of [`Driver::step`] takes
//! the outcome of the work that was last asked for and gives back what to
//! print and what to do next. The proving system, the file system and the
//! terminal never appear here.
//!
//! The lifecycles are:
//!
//! * execute: run the guest, decode what it committed, print the summary;
//! * prove: derive the keys, prove, verify the fresh proof, save it to the
//!   path given, run the guest once more for the values to show, print the
//!   summary;
//! * verify: derive the key, load the proof from the path given, decode its
//!   public values, verify it, print the summary.
//!
//! Every error ends the invocation with exit code 1 and a message. An event
//! that does not answer the request that is outstanding counts as the
//! failure of that request. Once the invocation has ended, the driver repeats
//! its verdict whatever it is told.
//!
//! Seen from outside, an invocation is at its start, then parsed, then
//! prepared (its input stream is built), then executed, proved or verified,
//! then reported, then at its end. The driver rests only where it waits for
//! the caller, so its phases are finer in the middle and coarser at both
//! ends: the step that takes the arguments parses them and builds the input
//! stream, and the step that takes the last outcome hands out the summary
//! together with the exit code. In prove mode the proof counts as proved
//! once it is made, verified and saved: that is the phase in which the guest
//! runs once more for the values to show.

use crate::cli::{spec_parse, Args, ArgsView, Invocation, InvocationView, Mode};
use crate::failure::{
    spec_exit_code, ErrorKind, Failure, FailureView, EXIT_FAILURE, EXIT_SUCCESS,
};
use crate::input_stream::{spec_le_bytes, InputStream};
use crate::public_values::{spec_abi_decode, MalformedPublicValues, PublicValuesStruct};
use crate::report::{
    banner, execute_report, prove_report, spec_banner, spec_execute_report, spec_prove_report,
    spec_text_line, spec_verify_report, verify_report,
};
use vstd::array::array_as_slice;
use vstd::prelude::*;
use vstd::string::*;

verus! {

/// Where an invocation stands: what the driver is waiting for.
#[derive(Clone, Copy, Debug, PartialEq, Eq, Structural)]
pub enum Phase {
    /// Nothing has happened; the arguments are awaited.
    Start,
    /// The keys are being derived from the guest program.
    AwaitingKeys,
    /// The guest is being run without proving.
    AwaitingExecution,
    /// The proof is being generated.
    AwaitingProof,
    /// The proof in hand is being verified.
    AwaitingVerification,
    /// The proof is being written to disk.
    AwaitingSave,
    /// The proof is being read from disk.
    AwaitingLoad,
    /// The invocation has ended and its exit code has been given.
    Finished,
}

/// What the caller reports back to the driver.
#[derive(Debug, PartialEq, Eq)]
pub enum Event {
    /// The command line has been read.
    Arguments { args: Args },
    /// The keys have been derived; `vk_digest` is the 32-byte digest of the
    /// verification key.
    KeysReady { vk_digest: [u8; 32] },
    /// The guest ran to its end.
    Executed { public_values: Vec<u8>, instruction_count: u64 },
    /// The guest aborted.
    ExecutionFailed { message: String },
    /// The prover produced a proof.
    ProofGenerated,
    /// The prover returned an error.
    ProvingFailed { message: String },
    /// The verifier accepted the proof.
    ProofAccepted,
    /// The verifier rejected the proof.
    ProofRejected { message: String },
    /// The proof was written to disk.
    ProofSaved,
    /// The proof could not be written.
    ProofSaveFailed { message: String },
    /// The proof was read from disk; `public_values` are the bytes that it
    /// embeds.
    ProofLoaded { public_values: Vec<u8> },
    /// The proof could not be read or parsed.
    ProofLoadFailed { message: String },
}

/// What the driver asks the caller to do next.
#[derive(Debug, PartialEq, Eq)]
pub enum Action {
    /// Derive the proving and the verification key from the guest program.
    Setup,
    /// Run the guest on `stdin` without proving.
    Execute { stdin: Vec<u8> },
    /// Generate a proof of the guest's run on `stdin`.
    Prove { stdin: Vec<u8> },
    /// Verify the proof in hand against the verification key.
    VerifyProof,
    /// Write the proof in hand to `path`.
    SaveProof { path: String },
    /// Read a proof from `path`.
    LoadProof { path: String },
    /// End the process with `code`, after writing the failure's message, if
    /// there is one, to the error stream.
    Exit { code: i32, failure: Option<Failure> },
}

/// One answer of the driver: text for the output stream, then an action.
#[derive(Debug, PartialEq, Eq)]
pub struct Step {
    pub stdout: String,
    pub action: Action,
}

/// The mathematical value of an `Event`.
pub enum EventView {
    Arguments { args: ArgsView },
    KeysReady { vk_digest: Seq<u8> },
    Executed { public_values: Seq<u8>, instruction_count: u64 },
    ExecutionFailed { message: Seq<char> },
    ProofGenerated,
    ProvingFailed { message: Seq<char> },
    ProofAccepted,
    ProofRejected { message: Seq<char> },
    ProofSaved,
    ProofSaveFailed { message: Seq<char> },
    ProofLoaded { public_values: Seq<u8> },
    ProofLoadFailed { message: Seq<char> },
}

/// The mathematical value of an `Action`.
pub enum ActionView {
    Setup,
    Execute { stdin: Seq<u8> },
    Prove { stdin: Seq<u8> },
    VerifyProof,
    SaveProof { path: Seq<char> },
    LoadProof { path: Seq<char> },
    Exit { code: i32, failure: Option<FailureView> },
}

/// The mathematical value of a `Step`.
pub struct StepView {
    pub stdout: Seq<char>,
    pub action: ActionView,
}

/// The mathematical value of a `Driver`.
pub struct DriverView {
    /// What the driver is waiting for.
    pub phase: Phase,
    /// The mode, the input and the path of the proof file, once the
    /// arguments have been accepted.
    pub invocation: InvocationView,
    /// The digest of the verification key, once the keys have been derived.
    pub vk_digest: Seq<u8>,
    /// The public values of the proof that was loaded, and what they decode
    /// to.
    pub public_values: Seq<u8>,
    pub values: PublicValuesStruct,
    /// The failure that ended the invocation, if one did.
    pub verdict: Option<FailureView>,
}

impl View for Event {
    type V = EventView;

    open spec fn view(&self) -> EventView {
        match *self {
            Event::Arguments { args } => EventView::Arguments { args: args@ },
            Event::KeysReady { vk_digest } => EventView::KeysReady { vk_digest: vk_digest@ },
            Event::Executed { public_values, instruction_count } => EventView::Executed {
                public_values: public_values@,
                instruction_count,
            },
            Event::ExecutionFailed { message } => EventView::ExecutionFailed {
                message: message@,
            },
            Event::ProofGenerated => EventView::ProofGenerated,
            Event::ProvingFailed { message } => EventView::ProvingFailed { message: message@ },
            Event::ProofAccepted => EventView::ProofAccepted,
            Event::ProofRejected { message } => EventView::ProofRejected { message: message@ },
            Event::ProofSaved => EventView::ProofSaved,
            Event::ProofSaveFailed { message } => EventView::ProofSaveFailed {
                message: message@,
            },
            Event::ProofLoaded { public_values } => EventView::ProofLoaded {
                public_values: public_values@,
            },
            Event::ProofLoadFailed { message } => EventView::ProofLoadFailed {
                message: message@,
            },
        }
    }
}

impl View for Action {
    type V = ActionView;

    open spec fn view(&self) -> ActionView {
        match *self {
            Action::Setup => ActionView::Setup,
            Action::Execute { stdin } => ActionView::Execute { stdin: stdin@ },
            Action::Prove { stdin } => ActionView::Prove { stdin: stdin@ },
            Action::VerifyProof => ActionView::VerifyProof,
            Action::SaveProof { path } => ActionView::SaveProof { path: path@ },
            Action::LoadProof { path } => ActionView::LoadProof { path: path@ },
            Action::Exit { code, failure } => ActionView::Exit {
                code,
                failure: match failure {
                    Some(f) => Some(f@),
                    None => None,
                },
            },
        }
    }
}

impl View for Step {
    type V = StepView;

    open spec fn view(&self) -> StepView {
        StepView { stdout: self.stdout@, action: self.action@ }
    }
}

/// The driver before anything has happened.
pub open spec fn spec_initial() -> DriverView {
    DriverView {
        phase: Phase::Start,
        invocation: InvocationView {
            mode: Mode::Execute,
            n: 0,
            proof_path: Seq::<char>::empty(),
        },
        vk_digest: Seq::new(32, |i: int| 0u8),
        public_values: Seq::<u8>::empty(),
        values: PublicValuesStruct { n: 0, n_squared: 0 },
        verdict: None,
    }
}

/// The input stream that the host prepares for the guest: the one word `n`.
pub open spec fn spec_stdin(n: u32) -> Seq<u8> {
    spec_le_bytes(n)
}

/// The failure of a run of the guest.
pub open spec fn spec_execution_failed(detail: Seq<char>) -> FailureView {
    FailureView { kind: ErrorKind::InputUnderflow, message: "guest execution failed: "@ + detail }
}

/// The failure of the prover.
pub open spec fn spec_proving_failed(detail: Seq<char>) -> FailureView {
    FailureView { kind: ErrorKind::ProvingFailed, message: "proof generation failed: "@ + detail }
}

/// The failure of the verifier.
pub open spec fn spec_verification_failed(detail: Seq<char>) -> FailureView {
    FailureView {
        kind: ErrorKind::VerificationFailed,
        message: "proof verification failed: "@ + detail,
    }
}

/// The failure to write the proof file, with the path.
pub open spec fn spec_save_failed(path: Seq<char>, detail: Seq<char>) -> FailureView {
    FailureView {
        kind: ErrorKind::ProofIOFailed,
        message: "failed to save proof to "@ + path + ": "@ + detail,
    }
}

/// The failure to read the proof file, with the path.
pub open spec fn spec_load_failed(path: Seq<char>, detail: Seq<char>) -> FailureView {
    FailureView {
        kind: ErrorKind::ProofIOFailed,
        message: "failed to load proof from "@ + path + ": "@ + detail,
    }
}

/// The failure to decode public values.
pub open spec fn spec_malformed(reason: MalformedPublicValues) -> FailureView {
    FailureView {
        kind: ErrorKind::MalformedPublicValues,
        message: match reason {
            MalformedPublicValues::WrongLength => "malformed public values: not 64 bytes long"@,
            MalformedPublicValues::NonZeroPadding => {
                "malformed public values: padding is not zero"@
            },
        },
    }
}

/// The kind under which the request that is outstanding in `phase` fails.
///
/// At the start the request is for the arguments, so the kind is that of a
/// refused command line. The keys are derived for proving or for verifying,
/// whichever the mode asks for. After the end no request is outstanding, and
/// the value given there is never used.
pub open spec fn spec_pending_kind(phase: Phase, mode: Mode) -> ErrorKind {
    match phase {
        Phase::Start => ErrorKind::ArgConflict,
        Phase::AwaitingKeys => if mode == Mode::Verify {
            ErrorKind::VerificationFailed
        } else {
            ErrorKind::ProvingFailed
        },
        Phase::AwaitingExecution => ErrorKind::InputUnderflow,
        Phase::AwaitingProof => ErrorKind::ProvingFailed,
        Phase::AwaitingVerification => ErrorKind::VerificationFailed,
        Phase::AwaitingSave => ErrorKind::ProofIOFailed,
        Phase::AwaitingLoad => ErrorKind::ProofIOFailed,
        Phase::Finished => ErrorKind::ArgConflict,
    }
}

/// The failure for an event that does not answer the outstanding request.
pub open spec fn spec_unexpected(state: DriverView) -> FailureView {
    FailureView {
        kind: spec_pending_kind(state.phase, state.invocation.mode),
        message: "the event does not answer the request that is outstanding"@,
    }
}

/// The invocation ends with `failure`.
pub open spec fn spec_fail(state: DriverView, failure: FailureView) -> (DriverView, StepView) {
    (
        DriverView { phase: Phase::Finished, verdict: Some(failure), ..state },
        StepView {
            stdout: Seq::<char>::empty(),
            action: ActionView::Exit { code: EXIT_FAILURE, failure: Some(failure) },
        },
    )
}

/// The invocation ends well, with `summary` as its last output.
pub open spec fn spec_succeed(state: DriverView, summary: Seq<char>) -> (DriverView, StepView) {
    (
        DriverView { phase: Phase::Finished, verdict: None, ..state },
        StepView {
            stdout: summary,
            action: ActionView::Exit { code: EXIT_SUCCESS, failure: None },
        },
    )
}

/// The first step of an invocation whose arguments were accepted.
pub open spec fn spec_begin(state: DriverView, invocation: InvocationView) -> (
    DriverView,
    StepView,
) {
    match invocation.mode {
        Mode::Execute => (
            DriverView { phase: Phase::AwaitingExecution, invocation, ..state },
            StepView {
                stdout: spec_banner(invocation.n),
                action: ActionView::Execute { stdin: spec_stdin(invocation.n) },
            },
        ),
        Mode::Prove => (
            DriverView { phase: Phase::AwaitingKeys, invocation, ..state },
            StepView { stdout: spec_banner(invocation.n), action: ActionView::Setup },
        ),
        Mode::Verify => (
            DriverView { phase: Phase::AwaitingKeys, invocation, ..state },
            StepView {
                stdout: spec_banner(invocation.n) + spec_text_line(
                    "Verifying existing proof from file: "@,
                    invocation.proof_path,
                ),
                action: ActionView::Setup,
            },
        ),
    }
}

/// The step taken when the keys arrive.
pub open spec fn spec_on_keys(state: DriverView, vk_digest: Seq<u8>) -> (DriverView, StepView) {
    if state.invocation.mode == Mode::Verify {
        (
            DriverView { phase: Phase::AwaitingLoad, vk_digest, ..state },
            StepView {
                stdout: Seq::<char>::empty(),
                action: ActionView::LoadProof { path: state.invocation.proof_path },
            },
        )
    } else {
        (
            DriverView { phase: Phase::AwaitingProof, vk_digest, ..state },
            StepView {
                stdout: Seq::<char>::empty(),
                action: ActionView::Prove { stdin: spec_stdin(state.invocation.n) },
            },
        )
    }
}

/// The step taken when the guest has run: decode what it committed and
/// print the summary of the mode.
pub open spec fn spec_on_executed(
    state: DriverView,
    public_values: Seq<u8>,
    instruction_count: u64,
) -> (DriverView, StepView) {
    match spec_abi_decode(public_values) {
        Err(reason) => spec_fail(state, spec_malformed(reason)),
        Ok(values) => if state.invocation.mode == Mode::Prove {
            spec_succeed(
                state,
                spec_prove_report(
                    state.invocation.proof_path,
                    state.invocation.n,
                    values,
                    state.vk_digest,
                    public_values,
                ),
            )
        } else {
            spec_succeed(state, spec_execute_report(values, instruction_count))
        },
    }
}

/// The step taken when the verifier has accepted the proof: in verify mode
/// the summary, in prove mode the request to save the proof.
pub open spec fn spec_on_accepted(state: DriverView) -> (DriverView, StepView) {
    if state.invocation.mode == Mode::Verify {
        spec_succeed(state, spec_verify_report(state.values, state.public_values))
    } else {
        (
            DriverView { phase: Phase::AwaitingSave, ..state },
            StepView {
                stdout: "Proof successfully verified!\n"@,
                action: ActionView::SaveProof { path: state.invocation.proof_path },
            },
        )
    }
}

/// The step taken when the proof has been loaded: its public values must
/// decode before the proof is verified.
pub open spec fn spec_on_loaded(state: DriverView, public_values: Seq<u8>) -> (
    DriverView,
    StepView,
) {
    match spec_abi_decode(public_values) {
        Err(reason) => spec_fail(state, spec_malformed(reason)),
        Ok(values) => (
            DriverView { phase: Phase::AwaitingVerification, public_values, values, ..state },
            StepView { stdout: Seq::<char>::empty(), action: ActionView::VerifyProof },
        ),
    }
}

/// The transition function: the state after `event`, and the driver's
/// answer to it.
pub open spec fn spec_step(state: DriverView, event: EventView) -> (DriverView, StepView) {
    match state.phase {
        Phase::Start => match event {
            EventView::Arguments { args } => match spec_parse(args) {
                Ok(invocation) => spec_begin(state, invocation),
                Err(failure) => spec_fail(state, failure),
            },
            _ => spec_fail(state, spec_unexpected(state)),
        },
        Phase::AwaitingKeys => match event {
            EventView::KeysReady { vk_digest } => spec_on_keys(state, vk_digest),
            _ => spec_fail(state, spec_unexpected(state)),
        },
        Phase::AwaitingExecution => match event {
            EventView::Executed { public_values, instruction_count } => spec_on_executed(
                state,
                public_values,
                instruction_count,
            ),
            EventView::ExecutionFailed { message } => spec_fail(
                state,
                spec_execution_failed(message),
            ),
            _ => spec_fail(state, spec_unexpected(state)),
        },
        Phase::AwaitingProof => match event {
            EventView::ProofGenerated => (
                DriverView { phase: Phase::AwaitingVerification, ..state },
                StepView {
                    stdout: "Proof successfully generated!\n"@,
                    action: ActionView::VerifyProof,
                },
            ),
            EventView::ProvingFailed { message } => spec_fail(state, spec_proving_failed(message)),
            _ => spec_fail(state, spec_unexpected(state)),
        },
        Phase::AwaitingVerification => match event {
            EventView::ProofAccepted => spec_on_accepted(state),
            EventView::ProofRejected { message } => spec_fail(
                state,
                spec_verification_failed(message),
            ),
            _ => spec_fail(state, spec_unexpected(state)),
        },
        Phase::AwaitingSave => match event {
            EventView::ProofSaved => (
                DriverView { phase: Phase::AwaitingExecution, ..state },
                StepView {
                    stdout: spec_text_line("Proof saved to file: "@, state.invocation.proof_path),
                    action: ActionView::Execute { stdin: spec_stdin(state.invocation.n) },
                },
            ),
            EventView::ProofSaveFailed { message } => spec_fail(
                state,
                spec_save_failed(state.invocation.proof_path, message),
            ),
            _ => spec_fail(state, spec_unexpected(state)),
        },
        Phase::AwaitingLoad => match event {
            EventView::ProofLoaded { public_values } => spec_on_loaded(state, public_values),
            EventView::ProofLoadFailed { message } => spec_fail(
                state,
                spec_load_failed(state.invocation.proof_path, message),
            ),
            _ => spec_fail(state, spec_unexpected(state)),
        },
        Phase::Finished => (
            state,
            StepView {
                stdout: Seq::<char>::empty(),
                action: ActionView::Exit {
                    code: spec_exit_code(state.verdict),
                    failure: state.verdict,
                },
            },
        ),
    }
}

/// The state of one invocation.
pub struct Driver {
    phase: Phase,
    invocation: Invocation,
    vk_digest: [u8; 32],
    public_values: Vec<u8>,
    values: PublicValuesStruct,
    verdict: Option<Failure>,
}

impl View for Driver {
    type V = DriverView;

    closed spec fn view(&self) -> DriverView {
        DriverView {
            phase: self.phase,
            invocation: self.invocation@,
            vk_digest: self.vk_digest@,
            public_values: self.public_values@,
            values: self.values,
            verdict: match self.verdict {
                Some(f) => Some(f@),
                None => None,
            },
        }
    }
}

/// A copy of a failure.
fn copy_failure(failure: &Failure) -> (copy: Failure)
    ensures
        copy@ == failure@,
{
    Failure { kind: failure.kind, message: failure.message.clone() }
}

/// A failure of `kind` whose message is `prefix` followed by `detail`.
fn failure_with_detail(kind: ErrorKind, prefix: &str, detail: &str) -> (failure: Failure)
    ensures
        failure@ == (FailureView { kind, message: prefix@ + detail@ }),
{
    let mut message = String::from_str(prefix);
    message.append(detail);
    Failure { kind, message }
}

/// A failure of the proof file at `path`.
fn file_failure(prefix: &str, path: &str, detail: &str) -> (failure: Failure)
    ensures
        failure@ == (FailureView {
            kind: ErrorKind::ProofIOFailed,
            message: prefix@ + path@ + ": "@ + detail@,
        }),
{
    let mut message = String::from_str(prefix);
    message.append(path);
    message.append(": ");
    message.append(detail);
    Failure { kind: ErrorKind::ProofIOFailed, message }
}

/// The failure to decode public values.
fn malformed(reason: MalformedPublicValues) -> (failure: Failure)
    ensures
        failure@ == spec_malformed(reason),
{
    let message = match reason {
        MalformedPublicValues::WrongLength => String::from_str(
            "malformed public values: not 64 bytes long",
        ),
        MalformedPublicValues::NonZeroPadding => String::from_str(
            "malformed public values: padding is not zero",
        ),
    };
    Failure { kind: ErrorKind::MalformedPublicValues, message }
}

/// The bytes of the input stream that holds the one word `n`.
pub fn stdin_for(n: u32) -> (stdin: Vec<u8>)
    ensures
        stdin@ == spec_stdin(n),
        stdin@.len() == 4,
{
    InputStream::with_word(n).unread_bytes()
}

impl Driver {
    /// A driver at the start of an invocation.
    pub fn new() -> (driver: Driver)
        ensures
            driver@ == spec_initial(),
    {
        let driver = Driver {
            phase: Phase::Start,
            invocation: Invocation { mode: Mode::Execute, n: 0, proof_path: String::new() },
            vk_digest: [0u8;32],
            public_values: Vec::new(),
            values: PublicValuesStruct { n: 0, n_squared: 0 },
            verdict: None,
        };
        assert(driver.vk_digest@ =~= Seq::new(32, |i: int| 0u8));
        driver
    }

    /// What the driver is waiting for.
    pub fn phase(&self) -> (phase: Phase)
        ensures
            phase == self@.phase,
    {
        self.phase
    }

    /// Whether the invocation has ended.
    pub fn is_finished(&self) -> (finished: bool)
        ensures
            finished == (self@.phase == Phase::Finished),
    {
        match self.phase {
            Phase::Finished => true,
            _ => false,
        }
    }

    /// The exit code of the invocation, once it has ended.
    pub fn exit_code(&self) -> (code: Option<i32>)
        ensures
            code == if self@.phase == Phase::Finished {
                Some(spec_exit_code(self@.verdict))
            } else {
                None
            },
    {
        match self.phase {
            Phase::Finished => match &self.verdict {
                Some(_) => Some(EXIT_FAILURE),
                None => Some(EXIT_SUCCESS),
            },
            _ => None,
        }
    }

    /// Ends the invocation with `failure`.
    fn fail(&mut self, failure: Failure) -> (step: Step)
        ensures
            (final(self)@, step@) == spec_fail(old(self)@, failure@),
    {
        self.phase = Phase::Finished;
        self.verdict = Some(copy_failure(&failure));
        Step {
            stdout: String::new(),
            action: Action::Exit { code: EXIT_FAILURE, failure: Some(failure) },
        }
    }

    /// Ends the invocation because `event` does not answer the request that
    /// is outstanding.
    fn reject(&mut self) -> (step: Step)
        ensures
            (final(self)@, step@) == spec_fail(old(self)@, spec_unexpected(old(self)@)),
    {
        let kind = match self.phase {
            Phase::Start => ErrorKind::ArgConflict,
            Phase::AwaitingKeys => match self.invocation.mode {
                Mode::Verify => ErrorKind::VerificationFailed,
                _ => ErrorKind::ProvingFailed,
            },
            Phase::AwaitingExecution => ErrorKind::InputUnderflow,
            Phase::AwaitingProof => ErrorKind::ProvingFailed,
            Phase::AwaitingVerification => ErrorKind::VerificationFailed,
            Phase::AwaitingSave => ErrorKind::ProofIOFailed,
            Phase::AwaitingLoad => ErrorKind::ProofIOFailed,
            Phase::Finished => ErrorKind::ArgConflict,
        };
        let failure = Failure {
            kind,
            message: String::from_str("the event does not answer the request that is outstanding"),
        };
        self.fail(failure)
    }

    /// Ends the invocation well, with `summary` as its last output.
    fn succeed(&mut self, summary: String) -> (step: Step)
        ensures
            (final(self)@, step@) == spec_succeed(old(self)@, summary@),
    {
        self.phase = Phase::Finished;
        self.verdict = None;
        Step { stdout: summary, action: Action::Exit { code: EXIT_SUCCESS, failure: None } }
    }

    /// Takes the arguments and asks for the first piece of work.
    fn begin(&mut self, invocation: Invocation) -> (step: Step)
        ensures
            (final(self)@, step@) == spec_begin(old(self)@, invocation@),
    {
        let mut stdout = banner(invocation.n);
        let action = match invocation.mode {
            Mode::Execute => {
                self.phase = Phase::AwaitingExecution;
                Action::Execute { stdin: stdin_for(invocation.n) }
            },
            Mode::Prove => {
                self.phase = Phase::AwaitingKeys;
                Action::Setup
            },
            Mode::Verify => {
                self.phase = Phase::AwaitingKeys;
                stdout.append("Verifying existing proof from file: ");
                stdout.append(invocation.proof_path.as_str());
                stdout.append("\n");
                assert(stdout@ =~= spec_banner(invocation.n) + spec_text_line(
                    "Verifying existing proof from file: "@,
                    invocation.proof_path@,
                ));
                Action::Setup
            },
        };
        self.invocation = invocation;
        Step { stdout, action }
    }

    /// Takes the keys and asks for the proof: to be made, or to be loaded.
    fn on_keys(&mut self, vk_digest: [u8; 32]) -> (step: Step)
        ensures
            (final(self)@, step@) == spec_on_keys(old(self)@, vk_digest@),
    {
        self.vk_digest = vk_digest;
        match self.invocation.mode {
            Mode::Verify => {
                self.phase = Phase::AwaitingLoad;
                Step {
                    stdout: String::new(),
                    action: Action::LoadProof { path: self.invocation.proof_path.clone() },
                }
            },
            _ => {
                self.phase = Phase::AwaitingProof;
                Step {
                    stdout: String::new(),
                    action: Action::Prove { stdin: stdin_for(self.invocation.n) },
                }
            },
        }
    }

    /// Takes what the guest committed and ends the invocation with the
    /// summary of the mode.
    fn on_executed(&mut self, public_values: Vec<u8>, instruction_count: u64) -> (step: Step)
        ensures
            (final(self)@, step@) == spec_on_executed(
                old(self)@,
                public_values@,
                instruction_count,
            ),
    {
        match PublicValuesStruct::abi_decode(public_values.as_slice()) {
            Err(reason) => self.fail(malformed(reason)),
            Ok(values) => {
                let summary = match self.invocation.mode {
                    Mode::Prove => prove_report(
                        self.invocation.proof_path.as_str(),
                        self.invocation.n,
                        &values,
                        array_as_slice(&self.vk_digest),
                        public_values.as_slice(),
                    ),
                    _ => execute_report(&values, instruction_count),
                };
                self.succeed(summary)
            },
        }
    }

    /// Takes the verifier's acceptance.
    fn on_accepted(&mut self) -> (step: Step)
        ensures
            (final(self)@, step@) == spec_on_accepted(old(self)@),
    {
        match self.invocation.mode {
            Mode::Verify => {
                let summary = verify_report(&self.values, self.public_values.as_slice());
                self.succeed(summary)
            },
            _ => {
                self.phase = Phase::AwaitingSave;
                Step {
                    stdout: String::from_str("Proof successfully verified!\n"),
                    action: Action::SaveProof { path: self.invocation.proof_path.clone() },
                }
            },
        }
    }

    /// Takes the public values of the proof that was loaded.
    fn on_loaded(&mut self, public_values: Vec<u8>) -> (step: Step)
        ensures
            (final(self)@, step@) == spec_on_loaded(old(self)@, public_values@),
    {
        match PublicValuesStruct::abi_decode(public_values.as_slice()) {
            Err(reason) => self.fail(malformed(reason)),
            Ok(values) => {
                self.phase = Phase::AwaitingVerification;
                self.public_values = public_values;
                self.values = values;
                Step { stdout: String::new(), action: Action::VerifyProof }
            },
        }
    }

    /// Repeats the verdict of an invocation that has ended.
    fn repeat_verdict(&self) -> (step: Step)
        ensures
            step@ == (StepView {
                stdout: Seq::<char>::empty(),
                action: ActionView::Exit {
                    code: spec_exit_code(self@.verdict),
                    failure: self@.verdict,
                },
            }),
    {
        let action = match &self.verdict {
            Some(failure) => Action::Exit {
                code: EXIT_FAILURE,
                failure: Some(copy_failure(failure)),
            },
            None => Action::Exit { code: EXIT_SUCCESS, failure: None },
        };
        Step { stdout: String::new(), action }
    }

    /// Takes the outcome of the work that was last asked for and answers
    /// with what to print and what to do next.
    pub fn step(&mut self, event: Event) -> (step: Step)
        ensures
            (final(self)@, step@) == spec_step(old(self)@, event@),
    {
        match self.phase {
            Phase::Start => match event {
                Event::Arguments { args } => match Invocation::parse(args) {
                    Ok(invocation) => self.begin(invocation),
                    Err(failure) => self.fail(failure),
                },
                _ => self.reject(),
            },
            Phase::AwaitingKeys => match event {
                Event::KeysReady { vk_digest } => self.on_keys(vk_digest),
                _ => self.reject(),
            },
            Phase::AwaitingExecution => match event {
                Event::Executed { public_values, instruction_count } => self.on_executed(
                    public_values,
                    instruction_count,
                ),
                Event::ExecutionFailed { message } => self.fail(
                    failure_with_detail(
                        ErrorKind::InputUnderflow,
                        "guest execution failed: ",
                        message.as_str(),
                    ),
                ),
                _ => self.reject(),
            },
            Phase::AwaitingProof => match event {
                Event::ProofGenerated => {
                    self.phase = Phase::AwaitingVerification;
                    Step {
                        stdout: String::from_str("Proof successfully generated!\n"),
                        action: Action::VerifyProof,
                    }
                },
                Event::ProvingFailed { message } => self.fail(
                    failure_with_detail(
                        ErrorKind::ProvingFailed,
                        "proof generation failed: ",
                        message.as_str(),
                    ),
                ),
                _ => self.reject(),
            },
            Phase::AwaitingVerification => match event {
                Event::ProofAccepted => self.on_accepted(),
                Event::ProofRejected { message } => self.fail(
                    failure_with_detail(
                        ErrorKind::VerificationFailed,
                        "proof verification failed: ",
                        message.as_str(),
                    ),
                ),
                _ => self.reject(),
            },
            Phase::AwaitingSave => match event {
                Event::ProofSaved => {
                    self.phase = Phase::AwaitingExecution;
                    let mut stdout = String::from_str("Proof saved to file: ");
                    stdout.append(self.invocation.proof_path.as_str());
                    stdout.append("\n");
                    Step {
                        stdout,
                        action: Action::Execute { stdin: stdin_for(self.invocation.n) },
                    }
                },
                Event::ProofSaveFailed { message } => {
                    let failure = file_failure(
                        "failed to save proof to ",
                        self.invocation.proof_path.as_str(),
                        message.as_str(),
                    );
                    self.fail(failure)
                },
                _ => self.reject(),
            },
            Phase::AwaitingLoad => match event {
                Event::ProofLoaded { public_values } => self.on_loaded(public_values),
                Event::ProofLoadFailed { message } => {
                    let failure = file_failure(
                        "failed to load proof from ",
                        self.invocation.proof_path.as_str(),
                        message.as_str(),
                    );
                    self.fail(failure)
                },
                _ => self.reject(),
            },
            Phase::Finished => self.repeat_verdict(),
        }
    }
}

} // verus!
