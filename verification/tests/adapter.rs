use libadapters::adapter::{finish_invocation, invoke_enclave_operation, CODE_LENGTH_VIOLATION};
use libadapters::buffer::OutputBuffer;
use libadapters::bytes::{bytes_eq, copy_range, cstr_len, find_byte_vec};
use libadapters::enclave::{
    EnclaveHandle, CODE_ARITH_OVERFLOW, CODE_INVALID_HANDLE, CODE_MALFORMED_PAYLOAD,
    CODE_OUTPUT_TOO_SMALL, CODE_UNKNOWN_OPERATION,
};
use libadapters::outcome::{CallOutcome, ErrorSignal};

fn live_handle() -> EnclaveHandle {
    EnclaveHandle { eid: 1, live: true }
}

fn stale_handle() -> EnclaveHandle {
    EnclaveHandle { eid: 1, live: false }
}

fn invoke(
    handle: &EnclaveHandle,
    selector: &[u8],
    payload: &[u8],
    capacity: usize,
) -> (CallOutcome, ErrorSignal, OutputBuffer) {
    let selector = selector.to_vec();
    let payload = payload.to_vec();
    let mut output = OutputBuffer::new(capacity);
    let mut signal = ErrorSignal::new();
    let outcome = invoke_enclave_operation(handle, &selector, &payload, &mut output, &mut signal);
    (outcome, signal, output)
}

#[test]
fn multiply_three_by_four_succeeds() {
    let (outcome, signal, output) = invoke(&live_handle(), b"multiply\0", b"3,4\0", 16);
    assert_eq!(outcome, CallOutcome::Success);
    assert_eq!(signal.value, 0);
    assert_eq!(output.written_len(), 2);
    assert_eq!(output.written_bytes(), b"12".to_vec());
}

#[test]
fn unknown_selector_is_logic_failure() {
    let (outcome, signal, _) = invoke(&live_handle(), b"unknown_op\0", b"3,4\0", 16);
    assert_eq!(outcome, CallOutcome::LogicFailure(CODE_UNKNOWN_OPERATION));
    assert_ne!(signal.value, 0);
    assert_eq!(signal.value, CODE_UNKNOWN_OPERATION);
}

#[test]
fn stale_handle_is_transport_failure() {
    let (outcome, signal, output) = invoke(&stale_handle(), b"multiply\0", b"3,4\0", 16);
    assert_eq!(outcome, CallOutcome::TransportFailure(CODE_INVALID_HANDLE));
    assert_ne!(signal.value, 0);
    assert_eq!(output.written_len(), 0);
}

#[test]
fn repeated_invocation_is_identical() {
    let first = invoke(&live_handle(), b"multiply\0", b"7,6\0", 16);
    let second = invoke(&live_handle(), b"multiply\0", b"7,6\0", 16);
    assert_eq!(first.0, second.0);
    assert_eq!(first.1.value, second.1.value);
    assert_eq!(first.2.written_bytes(), second.2.written_bytes());
    assert_eq!(first.2.written_bytes(), b"42".to_vec());
}

#[test]
fn exact_capacity_succeeds() {
    let (outcome, signal, output) = invoke(&live_handle(), b"multiply\0", b"3,4\0", 2);
    assert_eq!(outcome, CallOutcome::Success);
    assert_eq!(signal.value, 0);
    assert_eq!(output.written_bytes(), b"12".to_vec());
}

#[test]
fn short_capacity_is_refused_not_truncated() {
    let (outcome, signal, output) = invoke(&live_handle(), b"multiply\0", b"3,4\0", 1);
    assert_eq!(outcome, CallOutcome::LogicFailure(CODE_OUTPUT_TOO_SMALL));
    assert_ne!(signal.value, 0);
    assert_eq!(output.written_len(), 0);
    assert!(output.written_len() <= output.capacity());
}

#[test]
fn zero_capacity_is_refused() {
    let (outcome, _, output) = invoke(&live_handle(), b"multiply\0", b"3,4\0", 0);
    assert_eq!(outcome, CallOutcome::LogicFailure(CODE_OUTPUT_TOO_SMALL));
    assert_eq!(output.written_len(), 0);
}

#[test]
fn payload_without_comma_is_malformed() {
    let (outcome, signal, _) = invoke(&live_handle(), b"multiply\0", b"34\0", 16);
    assert_eq!(outcome, CallOutcome::LogicFailure(CODE_MALFORMED_PAYLOAD));
    assert_eq!(signal.value, CODE_MALFORMED_PAYLOAD);
}

#[test]
fn payload_with_stray_byte_is_malformed() {
    let (outcome, _, _) = invoke(&live_handle(), b"multiply\0", b"3,4x\0", 16);
    assert_eq!(outcome, CallOutcome::LogicFailure(CODE_MALFORMED_PAYLOAD));
}

#[test]
fn payload_with_empty_operand_is_malformed() {
    let (outcome, _, _) = invoke(&live_handle(), b"multiply\0", b",4\0", 16);
    assert_eq!(outcome, CallOutcome::LogicFailure(CODE_MALFORMED_PAYLOAD));
    let (outcome, _, _) = invoke(&live_handle(), b"multiply\0", b"3,\0", 16);
    assert_eq!(outcome, CallOutcome::LogicFailure(CODE_MALFORMED_PAYLOAD));
}

#[test]
fn oversized_operand_is_malformed() {
    let (outcome, _, _) = invoke(
        &live_handle(),
        b"multiply\0",
        b"99999999999999999999,1\0",
        32,
    );
    assert_eq!(outcome, CallOutcome::LogicFailure(CODE_MALFORMED_PAYLOAD));
}

#[test]
fn overflowing_product_is_logic_failure() {
    let (outcome, signal, _) = invoke(
        &live_handle(),
        b"multiply\0",
        b"18446744073709551615,2\0",
        32,
    );
    assert_eq!(outcome, CallOutcome::LogicFailure(CODE_ARITH_OVERFLOW));
    assert_eq!(signal.value, CODE_ARITH_OVERFLOW);
}

#[test]
fn largest_product_that_fits_succeeds() {
    let (outcome, _, output) = invoke(
        &live_handle(),
        b"multiply\0",
        b"18446744073709551615,1\0",
        32,
    );
    assert_eq!(outcome, CallOutcome::Success);
    assert_eq!(output.written_bytes(), b"18446744073709551615".to_vec());
}

#[test]
fn zero_product_renders_single_digit() {
    let (outcome, _, output) = invoke(&live_handle(), b"multiply\0", b"0,0\0", 16);
    assert_eq!(outcome, CallOutcome::Success);
    assert_eq!(output.written_bytes(), b"0".to_vec());
}

#[test]
fn bytes_after_terminator_are_ignored() {
    let (outcome, signal, output) = invoke(&live_handle(), b"multiply\0junk", b"3,4\0!!\0", 16);
    assert_eq!(outcome, CallOutcome::Success);
    assert_eq!(signal.value, 0);
    assert_eq!(output.written_bytes(), b"12".to_vec());
}

#[test]
fn cstr_len_stops_at_first_zero() {
    assert_eq!(cstr_len(&b"abc\0def".to_vec()), 3);
    assert_eq!(cstr_len(&b"\0".to_vec()), 0);
    assert_eq!(cstr_len(&b"multiply\0".to_vec()), 8);
}

#[test]
fn find_byte_vec_finds_first_occurrence() {
    assert_eq!(find_byte_vec(&b"a,b,c".to_vec(), b','), Some(1));
    assert_eq!(find_byte_vec(&b"abc".to_vec(), b','), None);
    assert_eq!(find_byte_vec(&Vec::new(), 0), None);
}

#[test]
fn copy_range_copies_the_requested_slice() {
    let v = b"hello".to_vec();
    assert_eq!(copy_range(&v, 1, 4), b"ell".to_vec());
    assert_eq!(copy_range(&v, 2, 2), Vec::<u8>::new());
}

#[test]
fn bytes_eq_compares_contents() {
    assert!(bytes_eq(&b"ab".to_vec(), &b"ab".to_vec()));
    assert!(!bytes_eq(&b"ab".to_vec(), &b"ac".to_vec()));
    assert!(!bytes_eq(&b"ab".to_vec(), &b"abc".to_vec()));
}

#[test]
fn finish_invocation_orders_and_validates() {
    let mut signal = ErrorSignal::new();
    let outcome = finish_invocation(0, 0, 3, 4, &mut signal);
    assert_eq!(outcome, CallOutcome::Success);
    assert_eq!(signal.value, 0);

    let outcome = finish_invocation(9, 5, 0, 4, &mut signal);
    assert_eq!(outcome, CallOutcome::TransportFailure(9));
    assert_eq!(signal.value, 9);

    let outcome = finish_invocation(0, 5, 0, 4, &mut signal);
    assert_eq!(outcome, CallOutcome::LogicFailure(5));
    assert_eq!(signal.value, 5);

    let outcome = finish_invocation(0, 0, 5, 4, &mut signal);
    assert_eq!(outcome, CallOutcome::LogicFailure(CODE_LENGTH_VIOLATION));
    assert_ne!(signal.value, 0);
}
