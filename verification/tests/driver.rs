use example_proof_lib::cli::Args;
use example_proof_lib::driver::{stdin_for, Action, Driver, Event, Phase, Step};
use example_proof_lib::failure::{ErrorKind, Failure};
use example_proof_lib::guest;
use example_proof_lib::input_stream::InputStream;
use example_proof_lib::public_values::PublicValuesStruct;
use example_proof_lib::text::to_hex;

const INSTRUCTIONS: u64 = 9876;

/// What a whole invocation showed to the outside.
struct Outcome {
    stdout: String,
    stderr: String,
    code: i32,
    actions: Vec<String>,
    saved_to: Option<String>,
}

/// A stand-in for everything outside the library: it runs the guest of this
/// crate for execution and proving, and keeps the one proof file in memory.
struct World {
    proof_file: Option<(String, Vec<u8>)>,
    reject_proofs: bool,
    fail_proving: bool,
    fail_saving: bool,
    proof_in_hand: Option<Vec<u8>>,
}

fn world() -> World {
    World {
        proof_file: None,
        reject_proofs: false,
        fail_proving: false,
        fail_saving: false,
        proof_in_hand: None,
    }
}

fn flags(execute: bool, prove: bool, verify: bool, n: u32, proof_path: &str) -> Args {
    Args { execute, prove, verify, n, proof_path: String::from(proof_path) }
}

fn run_guest(stdin: &[u8]) -> Result<Vec<u8>, String> {
    let mut stream = InputStream::from_bytes(stdin.to_vec());
    match guest::run(&mut stream) {
        Ok(out) => Ok(out.committed),
        Err(_) => Err(String::from("input stream too short")),
    }
}

fn name_of(action: &Action) -> String {
    match action {
        Action::Setup => String::from("setup"),
        Action::Execute { .. } => String::from("execute"),
        Action::Prove { .. } => String::from("prove"),
        Action::VerifyProof => String::from("verify"),
        Action::SaveProof { .. } => String::from("save"),
        Action::LoadProof { .. } => String::from("load"),
        Action::Exit { .. } => String::from("exit"),
    }
}

fn invoke(world: &mut World, args: Args) -> Outcome {
    let mut driver = Driver::new();
    let mut outcome = Outcome {
        stdout: String::new(),
        stderr: String::new(),
        code: -1,
        actions: Vec::new(),
        saved_to: None,
    };
    let mut step = driver.step(Event::Arguments { args });
    loop {
        outcome.stdout.push_str(&step.stdout);
        outcome.actions.push(name_of(&step.action));
        let event = match step.action {
            Action::Setup => Event::KeysReady { vk_digest: [0xab; 32] },
            Action::Execute { stdin } => match run_guest(&stdin) {
                Ok(public_values) => {
                    Event::Executed { public_values, instruction_count: INSTRUCTIONS }
                }
                Err(message) => Event::ExecutionFailed { message },
            },
            Action::Prove { stdin } => match run_guest(&stdin) {
                Ok(public_values) if !world.fail_proving => {
                    world.proof_in_hand = Some(public_values);
                    Event::ProofGenerated
                }
                _ => Event::ProvingFailed { message: String::from("prover unavailable") },
            },
            Action::VerifyProof => {
                if world.reject_proofs {
                    Event::ProofRejected { message: String::from("invalid proof") }
                } else {
                    Event::ProofAccepted
                }
            }
            Action::SaveProof { path } => {
                if world.fail_saving {
                    Event::ProofSaveFailed { message: String::from("disk full") }
                } else {
                    world.proof_file = Some((path.clone(), world.proof_in_hand.clone().unwrap()));
                    outcome.saved_to = Some(path);
                    Event::ProofSaved
                }
            }
            Action::LoadProof { path } => match &world.proof_file {
                Some((saved, public_values)) if *saved == path => {
                    world.proof_in_hand = Some(public_values.clone());
                    Event::ProofLoaded { public_values: public_values.clone() }
                }
                _ => Event::ProofLoadFailed { message: String::from("no such file") },
            },
            Action::Exit { code, failure } => {
                if let Some(failure) = failure {
                    outcome.stderr.push_str(&failure.message);
                }
                outcome.code = code;
                assert!(driver.is_finished());
                assert_eq!(driver.exit_code(), Some(code));
                return outcome;
            }
        };
        assert!(!driver.is_finished());
        assert_eq!(driver.exit_code(), None);
        step = driver.step(event);
    }
}

fn has_line(text: &str, line: &str) -> bool {
    text.lines().any(|candidate| candidate == line)
}

fn exit_of(step: &Step) -> (i32, Option<&Failure>) {
    match &step.action {
        Action::Exit { code, failure } => (*code, failure.as_ref()),
        other => panic!("expected an exit, got {:?}", other),
    }
}

/// A driver in prove mode that has been fed `events` after the arguments.
fn prove_driver_after(events: Vec<Event>) -> Driver {
    let mut driver = Driver::new();
    driver.step(Event::Arguments { args: flags(false, true, false, 3, "p.bin") });
    for event in events {
        driver.step(event);
    }
    driver
}

#[test]
fn execute_with_n_0() {
    let outcome = invoke(&mut world(), flags(true, false, false, 0, "unused.bin"));
    assert_eq!(outcome.code, 0);
    assert_eq!(outcome.stderr, "");
    assert!(has_line(&outcome.stdout, "N: 0"));
    assert!(has_line(&outcome.stdout, "N squared: 0"));
    let raw = to_hex(&run_guest(&stdin_for(0)).unwrap());
    assert!(raw.starts_with(&"0".repeat(64)));
    assert_eq!(raw, "0".repeat(128));
}

#[test]
fn execute_with_n_10() {
    let outcome = invoke(&mut world(), flags(true, false, false, 10, "unused.bin"));
    assert_eq!(outcome.code, 0);
    assert!(has_line(&outcome.stdout, "N: 10"));
    assert!(has_line(&outcome.stdout, "N squared: 100"));
    assert!(guest::run_on_input(10).predicate_held);
}

#[test]
fn execute_with_n_9() {
    let outcome = invoke(&mut world(), flags(true, false, false, 9, "unused.bin"));
    assert_eq!(outcome.code, 0);
    assert!(has_line(&outcome.stdout, "N: 9"));
    assert!(has_line(&outcome.stdout, "N squared: 81"));
    assert!(!guest::run_on_input(9).predicate_held);
}

#[test]
fn execute_with_n_65536_wraps() {
    let outcome = invoke(&mut world(), flags(true, false, false, 65536, "unused.bin"));
    assert_eq!(outcome.code, 0);
    assert!(has_line(&outcome.stdout, "N: 65536"));
    assert!(has_line(&outcome.stdout, "N squared: 0"));
}

#[test]
fn execute_prints_the_whole_summary() {
    let outcome = invoke(&mut world(), flags(true, false, false, 10, "unused.bin"));
    assert_eq!(
        outcome.stdout,
        "Example Program Data: N = 10\n\
         Program executed successfully.\n\
         Example Program Verification Result:\n\
         N: 10\n\
         N squared: 100\n\
         Number of instructions executed: 9876\n"
    );
    assert_eq!(outcome.actions, ["execute", "exit"]);
}

#[test]
fn prove_then_verify_with_n_42() {
    let mut shared = world();
    let proved = invoke(&mut shared, flags(false, true, false, 42, "/tmp/p.bin"));
    assert_eq!(proved.code, 0);
    assert_eq!(proved.saved_to.as_deref(), Some("/tmp/p.bin"));
    assert_eq!(proved.actions, ["setup", "prove", "verify", "save", "execute", "exit"]);

    let verified = invoke(&mut shared, flags(false, false, true, 0, "/tmp/p.bin"));
    assert_eq!(verified.code, 0);
    assert_eq!(verified.stderr, "");
    assert!(has_line(&verified.stdout, "  N: 42"));
    assert!(has_line(&verified.stdout, "  N squared: 1764"));
    assert!(verified.stdout.contains("N: 42"));
    assert!(verified.stdout.contains("N squared: 1764"));
    assert_eq!(verified.actions, ["setup", "load", "verify", "exit"]);
}

#[test]
fn prove_prints_progress_and_details() {
    let outcome = invoke(&mut world(), flags(false, true, false, 42, "/tmp/p.bin"));
    let expected = format!(
        "Example Program Data: N = 42\n\
         Proof successfully generated!\n\
         Proof successfully verified!\n\
         Proof saved to file: /tmp/p.bin\n\
         \n=== Proof Details ===\n\nProof:\n  Path: /tmp/p.bin\n\nInput Data:\n  N: 42\n\n\
         Output Data:\n  N: 42\n  N squared: 1764\nProgram VKey: 0x{}\n\n\
         Public Values (Raw):\n  {}2a{}06e4\n",
        "ab".repeat(32),
        "00".repeat(31),
        "00".repeat(30)
    );
    assert_eq!(outcome.stdout, expected);
}

#[test]
fn verify_prints_the_file_and_the_details() {
    let mut shared = world();
    invoke(&mut shared, flags(false, true, false, 9, "proofs/nine.bin"));
    let outcome = invoke(&mut shared, flags(false, false, true, 0, "proofs/nine.bin"));
    let expected = format!(
        "Example Program Data: N = 0\n\
         Verifying existing proof from file: proofs/nine.bin\n\
         Proof successfully verified!\n\n=== Verification Details ===\n\nInput Data:\n  N: 9\n\n\
         Output Data:\n  N: 9\n  N squared: 81\n\nPublic Values (Raw):\n  {}09{}51\n\
         Your proof is valid! Welcome to the sp1 club buddy!\n",
        "00".repeat(31),
        "00".repeat(31)
    );
    assert_eq!(outcome.stdout, expected);
}

#[test]
fn prove_writes_to_the_path_given() {
    for path in ["example_program_proof.bin", "/tmp/p.bin", "a b/c.proof"] {
        let outcome = invoke(&mut world(), flags(false, true, false, 1, path));
        assert_eq!(outcome.saved_to.as_deref(), Some(path));
    }
}

#[test]
fn two_mode_flags_exit_with_1() {
    let outcome = invoke(&mut world(), flags(true, true, false, 0, "unused.bin"));
    assert_eq!(outcome.code, 1);
    assert_eq!(outcome.stdout, "");
    assert!(outcome.stderr.contains("exactly one"));
    assert_eq!(outcome.actions, ["exit"]);
}

#[test]
fn every_other_count_of_mode_flags_exits_with_1() {
    for bits in 0u8..8 {
        let (execute, prove, verify) = (bits & 1 != 0, bits & 2 != 0, bits & 4 != 0);
        let mut driver = Driver::new();
        let step =
            driver.step(Event::Arguments { args: flags(execute, prove, verify, 1, "p.bin") });
        if bits.count_ones() == 1 {
            assert!(!matches!(step.action, Action::Exit { .. }), "flags {:03b}", bits);
            assert!(!driver.is_finished());
        } else {
            let (code, failure) = exit_of(&step);
            assert_eq!(code, 1, "flags {:03b}", bits);
            assert_eq!(failure.unwrap().kind, ErrorKind::ArgConflict);
            assert!(driver.is_finished());
        }
    }
}

#[test]
fn the_stdin_is_the_one_little_endian_word() {
    assert_eq!(stdin_for(0x0a0b_0c0d), vec![0x0d, 0x0c, 0x0b, 0x0a]);
    let mut driver = Driver::new();
    let step = driver.step(Event::Arguments { args: flags(true, false, false, 258, "p.bin") });
    assert_eq!(step.action, Action::Execute { stdin: vec![2, 1, 0, 0] });
}

#[test]
fn execute_and_prove_get_the_same_stdin() {
    let mut executing = Driver::new();
    let executed =
        executing.step(Event::Arguments { args: flags(true, false, false, 77, "p.bin") });
    let mut proving = Driver::new();
    proving.step(Event::Arguments { args: flags(false, true, false, 77, "p.bin") });
    let proved = proving.step(Event::KeysReady { vk_digest: [0; 32] });
    let (Action::Execute { stdin: first }, Action::Prove { stdin: second }) =
        (executed.action, proved.action)
    else {
        panic!("expected execute and prove requests");
    };
    assert_eq!(first, second);
    assert_eq!(run_guest(&first), run_guest(&second));
}

#[test]
fn failed_execution_exits_with_input_underflow() {
    let mut driver = Driver::new();
    driver.step(Event::Arguments { args: flags(true, false, false, 1, "p.bin") });
    let step = driver.step(Event::ExecutionFailed { message: String::from("stream empty") });
    let (code, failure) = exit_of(&step);
    assert_eq!(code, 1);
    assert_eq!(
        failure,
        Some(&Failure {
            kind: ErrorKind::InputUnderflow,
            message: String::from("guest execution failed: stream empty"),
        })
    );
}

#[test]
fn failed_proving_exits_with_proving_failed() {
    let mut failing = world();
    failing.fail_proving = true;
    let outcome = invoke(&mut failing, flags(false, true, false, 1, "p.bin"));
    assert_eq!(outcome.code, 1);
    assert_eq!(outcome.stderr, "proof generation failed: prover unavailable");
    assert_eq!(outcome.actions, ["setup", "prove", "exit"]);
    assert_eq!(outcome.saved_to, None);

    let mut driver = prove_driver_after(vec![Event::KeysReady { vk_digest: [0; 32] }]);
    let step = driver.step(Event::ProvingFailed { message: String::from("x") });
    assert_eq!(exit_of(&step).1.unwrap().kind, ErrorKind::ProvingFailed);
}

#[test]
fn rejected_fresh_proof_is_not_saved() {
    let mut rejecting = world();
    rejecting.reject_proofs = true;
    let outcome = invoke(&mut rejecting, flags(false, true, false, 1, "p.bin"));
    assert_eq!(outcome.code, 1);
    assert_eq!(outcome.stderr, "proof verification failed: invalid proof");
    assert_eq!(outcome.actions, ["setup", "prove", "verify", "exit"]);
    assert_eq!(outcome.saved_to, None);
    assert!(rejecting.proof_file.is_none());
}

#[test]
fn rejected_loaded_proof_exits_with_verification_failed() {
    let mut shared = world();
    invoke(&mut shared, flags(false, true, false, 5, "p.bin"));
    shared.reject_proofs = true;
    let outcome = invoke(&mut shared, flags(false, false, true, 0, "p.bin"));
    assert_eq!(outcome.code, 1);
    assert_eq!(outcome.stderr, "proof verification failed: invalid proof");
    assert!(!outcome.stdout.contains("N squared"));
}

#[test]
fn failed_save_exits_with_proof_io_failed_and_the_path() {
    let mut failing = world();
    failing.fail_saving = true;
    let outcome = invoke(&mut failing, flags(false, true, false, 1, "/ro/p.bin"));
    assert_eq!(outcome.code, 1);
    assert_eq!(outcome.stderr, "failed to save proof to /ro/p.bin: disk full");

    let mut driver = prove_driver_after(vec![
        Event::KeysReady { vk_digest: [0; 32] },
        Event::ProofGenerated,
        Event::ProofAccepted,
    ]);
    let step = driver.step(Event::ProofSaveFailed { message: String::from("x") });
    assert_eq!(exit_of(&step).1.unwrap().kind, ErrorKind::ProofIOFailed);
}

#[test]
fn missing_proof_file_exits_with_proof_io_failed_and_the_path() {
    let outcome = invoke(&mut world(), flags(false, false, true, 0, "missing.bin"));
    assert_eq!(outcome.code, 1);
    assert_eq!(outcome.stderr, "failed to load proof from missing.bin: no such file");
    assert_eq!(outcome.actions, ["setup", "load", "exit"]);
}

#[test]
fn malformed_public_values_after_execution_exit_with_1() {
    let mut driver = Driver::new();
    driver.step(Event::Arguments { args: flags(true, false, false, 1, "p.bin") });
    let step =
        driver.step(Event::Executed { public_values: vec![0u8; 63], instruction_count: 1 });
    let (code, failure) = exit_of(&step);
    assert_eq!(code, 1);
    assert_eq!(
        failure,
        Some(&Failure {
            kind: ErrorKind::MalformedPublicValues,
            message: String::from("malformed public values: not 64 bytes long"),
        })
    );
    assert_eq!(step.stdout, "");
}

#[test]
fn malformed_public_values_in_a_loaded_proof_exit_before_verification() {
    let mut blob = PublicValuesStruct { n: 1, n_squared: 1 }.abi_encode();
    blob[3] = 1;
    let mut driver = Driver::new();
    driver.step(Event::Arguments { args: flags(false, false, true, 0, "p.bin") });
    driver.step(Event::KeysReady { vk_digest: [0; 32] });
    let step = driver.step(Event::ProofLoaded { public_values: blob });
    let (code, failure) = exit_of(&step);
    assert_eq!(code, 1);
    assert_eq!(
        failure,
        Some(&Failure {
            kind: ErrorKind::MalformedPublicValues,
            message: String::from("malformed public values: padding is not zero"),
        })
    );
}

#[test]
fn phases_follow_the_prove_lifecycle() {
    let mut driver = Driver::new();
    assert_eq!(driver.phase(), Phase::Start);
    driver.step(Event::Arguments { args: flags(false, true, false, 3, "p.bin") });
    assert_eq!(driver.phase(), Phase::AwaitingKeys);
    driver.step(Event::KeysReady { vk_digest: [1; 32] });
    assert_eq!(driver.phase(), Phase::AwaitingProof);
    driver.step(Event::ProofGenerated);
    assert_eq!(driver.phase(), Phase::AwaitingVerification);
    driver.step(Event::ProofAccepted);
    assert_eq!(driver.phase(), Phase::AwaitingSave);
    driver.step(Event::ProofSaved);
    assert_eq!(driver.phase(), Phase::AwaitingExecution);
    let public_values = guest::run_on_input(3).committed;
    driver.step(Event::Executed { public_values, instruction_count: 1 });
    assert_eq!(driver.phase(), Phase::Finished);
    assert_eq!(driver.exit_code(), Some(0));
}

#[test]
fn phases_follow_the_verify_lifecycle() {
    let mut driver = Driver::new();
    driver.step(Event::Arguments { args: flags(false, false, true, 0, "p.bin") });
    assert_eq!(driver.phase(), Phase::AwaitingKeys);
    let step = driver.step(Event::KeysReady { vk_digest: [1; 32] });
    assert_eq!(step.action, Action::LoadProof { path: String::from("p.bin") });
    assert_eq!(driver.phase(), Phase::AwaitingLoad);
    let public_values = guest::run_on_input(3).committed;
    let step = driver.step(Event::ProofLoaded { public_values });
    assert_eq!(step, Step { stdout: String::new(), action: Action::VerifyProof });
    assert_eq!(driver.phase(), Phase::AwaitingVerification);
    driver.step(Event::ProofAccepted);
    assert_eq!(driver.phase(), Phase::Finished);
}

#[test]
fn an_event_that_answers_nothing_ends_the_invocation() {
    let mut at_start = Driver::new();
    let step = at_start.step(Event::ProofAccepted);
    let (code, failure) = exit_of(&step);
    assert_eq!(code, 1);
    assert_eq!(failure.unwrap().kind, ErrorKind::ArgConflict);

    let mut awaiting_keys = prove_driver_after(vec![]);
    let step = awaiting_keys.step(Event::ProofGenerated);
    assert_eq!(exit_of(&step).0, 1);
    assert_eq!(exit_of(&step).1.unwrap().kind, ErrorKind::ProvingFailed);

    let mut awaiting_proof = prove_driver_after(vec![Event::KeysReady { vk_digest: [0; 32] }]);
    let step = awaiting_proof.step(Event::ProofSaved);
    assert_eq!(
        exit_of(&step).1,
        Some(&Failure {
            kind: ErrorKind::ProvingFailed,
            message: String::from("the event does not answer the request that is outstanding"),
        })
    );
    assert!(awaiting_proof.is_finished());
}

#[test]
fn a_finished_driver_repeats_its_verdict() {
    let mut failed = Driver::new();
    let first = failed.step(Event::Arguments { args: flags(false, false, false, 0, "p.bin") });
    let again = failed.step(Event::ProofAccepted);
    assert_eq!(first, again);
    assert_eq!(exit_of(&again).0, 1);

    let mut done = Driver::new();
    done.step(Event::Arguments { args: flags(true, false, false, 2, "p.bin") });
    let public_values = guest::run_on_input(2).committed;
    let last = done.step(Event::Executed { public_values, instruction_count: 5 });
    assert_eq!(exit_of(&last), (0, None));
    let again = done.step(Event::ExecutionFailed { message: String::from("late") });
    assert_eq!(
        again,
        Step { stdout: String::new(), action: Action::Exit { code: 0, failure: None } }
    );
    assert_eq!(done.phase(), Phase::Finished);
}

#[test]
fn no_lifecycle_takes_more_than_six_steps() {
    let modes = [(true, false, false), (false, true, false), (false, false, true)];
    for (execute, prove, verify) in modes {
        let mut shared = world();
        invoke(&mut shared, flags(false, true, false, 4, "p.bin"));
        let outcome = invoke(&mut shared, flags(execute, prove, verify, 4, "p.bin"));
        assert!(outcome.actions.len() <= 6);
        assert_eq!(outcome.actions.last().map(String::as_str), Some("exit"));
    }
}
