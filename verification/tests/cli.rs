use example_proof_lib::cli::{
    arg_conflict, default_proof_path, select_mode, Args, Invocation, Mode, DEFAULT_N,
};
use example_proof_lib::failure::{ErrorKind, EXIT_FAILURE, EXIT_SUCCESS};

fn args(execute: bool, prove: bool, verify: bool) -> Args {
    Args { execute, prove, verify, n: 5, proof_path: String::from("proof.bin") }
}

#[test]
fn exactly_one_flag_selects_its_mode() {
    assert_eq!(select_mode(true, false, false), Some(Mode::Execute));
    assert_eq!(select_mode(false, true, false), Some(Mode::Prove));
    assert_eq!(select_mode(false, false, true), Some(Mode::Verify));
}

#[test]
fn no_flag_selects_nothing() {
    assert_eq!(select_mode(false, false, false), None);
}

#[test]
fn two_or_three_flags_select_nothing() {
    assert_eq!(select_mode(true, true, false), None);
    assert_eq!(select_mode(true, false, true), None);
    assert_eq!(select_mode(false, true, true), None);
    assert_eq!(select_mode(true, true, true), None);
}

#[test]
fn mode_is_selected_exactly_when_one_flag_is_set() {
    for bits in 0u8..8 {
        let (execute, prove, verify) = (bits & 1 != 0, bits & 2 != 0, bits & 4 != 0);
        let count = bits.count_ones();
        assert_eq!(select_mode(execute, prove, verify).is_some(), count == 1);
        assert_eq!(Invocation::parse(args(execute, prove, verify)).is_ok(), count == 1);
    }
}

#[test]
fn parse_keeps_input_and_path() {
    let parsed = Invocation::parse(Args {
        execute: false,
        prove: true,
        verify: false,
        n: 42,
        proof_path: String::from("/tmp/p.bin"),
    });
    assert_eq!(
        parsed,
        Ok(Invocation { mode: Mode::Prove, n: 42, proof_path: String::from("/tmp/p.bin") })
    );
}

#[test]
fn parse_refuses_two_flags_with_arg_conflict() {
    let failure = Invocation::parse(args(true, true, false)).unwrap_err();
    assert_eq!(failure.kind, ErrorKind::ArgConflict);
    assert!(failure.message.contains("exactly one of --execute, --prove, or --verify"));
    assert_eq!(failure.exit_code(), 1);
    assert_eq!(failure, arg_conflict());
}

#[test]
fn defaults_are_zero_and_the_standard_proof_file() {
    assert_eq!(DEFAULT_N, 0);
    assert_eq!(default_proof_path(), "example_program_proof.bin");
    let defaults = Args::defaults();
    assert_eq!(
        defaults,
        Args {
            execute: false,
            prove: false,
            verify: false,
            n: 0,
            proof_path: String::from("example_program_proof.bin"),
        }
    );
    assert!(Invocation::parse(defaults).is_err());
}

#[test]
fn every_kind_of_error_exits_with_one() {
    let kinds = [
        ErrorKind::ArgConflict,
        ErrorKind::InputUnderflow,
        ErrorKind::ProvingFailed,
        ErrorKind::VerificationFailed,
        ErrorKind::MalformedPublicValues,
        ErrorKind::ProofIOFailed,
    ];
    for kind in kinds {
        assert_eq!(kind.exit_code(), 1);
    }
    assert_eq!(EXIT_FAILURE, 1);
    assert_eq!(EXIT_SUCCESS, 0);
}
