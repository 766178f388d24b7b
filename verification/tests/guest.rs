use example_proof_lib::guest::{commit, compute_squared, read_input, run, run_on_input};
use example_proof_lib::input_stream::{InputStream, InputUnderflow};
use example_proof_lib::public_values::PublicValuesStruct;
use example_proof_lib::report::guest_log;
use example_proof_lib::verify_program;

#[test]
fn predicate_holds_from_ten_on() {
    assert!(!verify_program(0));
    assert!(!verify_program(9));
    assert!(verify_program(10));
    assert!(verify_program(11));
    assert!(verify_program(u32::MAX));
}

#[test]
fn predicate_agrees_with_comparison_near_the_threshold() {
    for n in 0u32..64 {
        assert_eq!(verify_program(n), n >= 10);
    }
}

#[test]
fn squared_is_exact_below_two_pow_16() {
    assert_eq!(compute_squared(0), 0);
    assert_eq!(compute_squared(1), 1);
    assert_eq!(compute_squared(9), 81);
    assert_eq!(compute_squared(10), 100);
    assert_eq!(compute_squared(42), 1764);
    assert_eq!(compute_squared(65535), 4_294_836_225);
}

#[test]
fn squared_wraps_from_two_pow_16_on() {
    assert_eq!(compute_squared(65536), 0);
    assert_eq!(compute_squared(65537), 131_073);
    assert_eq!(compute_squared(0x8000_0000), 0);
    assert_eq!(compute_squared(u32::MAX), 1);
    for n in [65536u32, 70000, 123_456_789, 0xdead_beef] {
        let wide = (n as u64 * n as u64) % (1u64 << 32);
        assert_eq!(compute_squared(n) as u64, wide);
    }
}

#[test]
fn stream_holds_little_endian_words() {
    let mut stream = InputStream::new();
    assert_eq!(stream.remaining(), 0);
    stream.write_u32(0x0102_0304);
    assert_eq!(stream.unread_bytes(), vec![4, 3, 2, 1]);
    stream.write_u32(7);
    assert_eq!(stream.remaining(), 8);
    assert_eq!(stream.unread_bytes(), vec![4, 3, 2, 1, 7, 0, 0, 0]);
}

#[test]
fn stream_gives_words_back_in_the_order_written() {
    let mut stream = InputStream::new();
    for value in [0u32, 1, 0xffff_ffff, 0x8000_0001, 65536] {
        stream.write_u32(value);
    }
    for value in [0u32, 1, 0xffff_ffff, 0x8000_0001, 65536] {
        assert_eq!(stream.read_u32(), Ok(value));
    }
    assert_eq!(stream.read_u32(), Err(InputUnderflow));
    assert_eq!(stream.remaining(), 0);
}

#[test]
fn with_word_is_one_written_word() {
    let stream = InputStream::with_word(0xa1b2_c3d4);
    assert_eq!(stream.unread_bytes(), 0xa1b2_c3d4u32.to_le_bytes().to_vec());
}

#[test]
fn read_input_takes_exactly_one_word() {
    let mut stream = InputStream::from_bytes(vec![10, 0, 0, 0, 0xff, 0xee]);
    assert_eq!(read_input(&mut stream), Ok(10));
    assert_eq!(stream.unread_bytes(), vec![0xff, 0xee]);
    assert_eq!(read_input(&mut stream), Err(InputUnderflow));
    assert_eq!(stream.unread_bytes(), vec![0xff, 0xee]);
}

#[test]
fn read_input_underflows_on_short_streams() {
    for len in 0..4usize {
        let mut stream = InputStream::from_bytes(vec![1u8; len]);
        assert_eq!(read_input(&mut stream), Err(InputUnderflow));
        assert_eq!(stream.remaining(), len);
    }
    let mut stream = InputStream::from_bytes(vec![1u8; 4]);
    assert_eq!(read_input(&mut stream), Ok(0x0101_0101));
}

#[test]
fn commit_is_the_abi_encoding() {
    let values = PublicValuesStruct { n: 42, n_squared: 1764 };
    let blob = commit(&values);
    assert_eq!(blob.len(), 64);
    assert_eq!(blob, values.abi_encode());
    assert_eq!(PublicValuesStruct::abi_decode(&blob), Ok(values));
}

#[test]
fn guest_commits_input_and_square() {
    let out = run_on_input(42);
    assert_eq!(out.values, PublicValuesStruct { n: 42, n_squared: 1764 });
    assert!(out.predicate_held);
    assert_eq!(out.committed.len(), 64);
    assert_eq!(out.committed[31], 42);
    assert_eq!(out.committed[62..64], [0x06, 0xe4]);
}

#[test]
fn guest_does_not_abort_on_overflow() {
    let out = run_on_input(65536);
    assert_eq!(out.values, PublicValuesStruct { n: 65536, n_squared: 0 });
    assert_eq!(out.committed[32..64], [0u8; 32]);
    assert_eq!(out.committed[28..32], [0, 1, 0, 0]);
}

#[test]
fn guest_commits_even_when_the_predicate_fails() {
    let out = run_on_input(9);
    assert!(!out.predicate_held);
    assert_eq!(
        PublicValuesStruct::abi_decode(&out.committed),
        Ok(PublicValuesStruct { n: 9, n_squared: 81 })
    );
}

#[test]
fn guest_reads_what_the_host_wrote() {
    for n in [0u32, 9, 10, 65536, u32::MAX] {
        let mut stream = InputStream::with_word(n);
        let out = run(&mut stream).unwrap();
        assert_eq!(out, run_on_input(n));
        assert_eq!(stream.remaining(), 0);
    }
}

#[test]
fn guest_aborts_on_empty_input() {
    let mut stream = InputStream::new();
    assert_eq!(run(&mut stream), Err(InputUnderflow));
    let mut short = InputStream::from_bytes(vec![1, 2, 3]);
    assert_eq!(run(&mut short), Err(InputUnderflow));
    assert_eq!(short.unread_bytes(), vec![1, 2, 3]);
}

#[test]
fn guest_is_deterministic() {
    for n in [0u32, 10, 65537] {
        assert_eq!(run_on_input(n).committed, run_on_input(n).committed);
    }
}

#[test]
fn guest_log_reports_success_at_ten() {
    let out = run_on_input(10);
    assert_eq!(
        guest_log(&out.values, out.predicate_held),
        "Example program verification:\nN: 10\nN squared: 100\nVerification Result: SUCCESS\n"
    );
}

#[test]
fn guest_log_reports_failure_at_nine() {
    let out = run_on_input(9);
    assert_eq!(
        guest_log(&out.values, out.predicate_held),
        "Example program verification:\nN: 9\nN squared: 81\nVerification Result: FAILED\n"
    );
}
