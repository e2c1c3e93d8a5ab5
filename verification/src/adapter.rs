//! The enclave call adapter: the one externally-callable operation. It
//! derives the length of each null-terminated input, crosses the trust
//! boundary with the handle the provider yielded, evaluates the transport
//! status before the logic status, and reports the outcome through the
//! error-signal cell.

use vstd::prelude::*;

use crate::bytes::{find_byte, cstr_len, copy_range, lemma_find_byte};
use crate::buffer::OutputBuffer;
use crate::enclave::{
    EnclaveHandle, enclave_multiply, enclave_logic_status, true_result, CODE_INVALID_HANDLE,
    CODE_OUTPUT_TOO_SMALL,
};
use crate::outcome::{
    CallOutcome, ErrorSignal, evaluate_outcome, signal_code_of, STATUS_SUCCESS,
};

verus! {

/// A null-terminated input as the enclave sees it: the bytes strictly
/// before the first zero byte.
pub open spec fn trimmed(s: Seq<u8>) -> Seq<u8>
    recommends
        find_byte(s, 0) is Some,
{
    match find_byte(s, 0) {
        Some(i) => s.subrange(0, i),
        None => s,
    }
}

/// The outcome one invocation is owed: a transport failure for a stale
/// handle - in which case the logic status is never consulted - else
/// the enclave's own verdict on the operation.
pub open spec fn adapter_outcome(
    handle: EnclaveHandle,
    selector: Seq<u8>,
    payload: Seq<u8>,
    capacity: nat,
) -> CallOutcome {
    if !handle.live {
        CallOutcome::TransportFailure(CODE_INVALID_HANDLE)
    } else {
        let l = enclave_logic_status(selector, payload, capacity);
        if l != STATUS_SUCCESS {
            CallOutcome::LogicFailure(l)
        } else {
            CallOutcome::Success
        }
    }
}

/// Invoke the enclave operation named by `selector` on `payload`.
///
/// Both inputs are null-terminated byte strings; their lengths are
/// derived by scanning for the terminator before anything crosses the
/// boundary. The outcome is recorded in `signal` - zero exactly on
/// success - and also returned. On success the output buffer holds the
/// operation's result within the declared capacity; on any failure the
/// buffer is untouched.
pub fn invoke_enclave_operation(
    handle: &EnclaveHandle,
    selector: &Vec<u8>,
    payload: &Vec<u8>,
    output: &mut OutputBuffer,
    signal: &mut ErrorSignal,
) -> (outcome: CallOutcome)
    requires
        find_byte(selector@, 0) is Some,
        find_byte(payload@, 0) is Some,
        old(output).wf(),
    ensures
        final(output).wf(),
        final(output).spec_capacity() == old(output).spec_capacity(),
        outcome == adapter_outcome(
            *handle,
            trimmed(selector@),
            trimmed(payload@),
            old(output).spec_capacity(),
        ),
        final(signal).value == signal_code_of(outcome),
        outcome is Success ==> Some(final(output).written()) == true_result(
            trimmed(selector@),
            trimmed(payload@),
        ),
        outcome is Success ==> final(output).written().len() <= final(output).spec_capacity(),
        !(outcome is Success) ==> *final(output) == *old(output),
{
    let sel_len = cstr_len(selector);
    let pay_len = cstr_len(payload);
    proof {
        lemma_find_byte(selector@, 0);
        lemma_find_byte(payload@, 0);
    }
    let sel = copy_range(selector, 0, sel_len);
    let pay = copy_range(payload, 0, pay_len);
    let statuses = enclave_multiply(handle, &sel, &pay, output);
    let outcome = evaluate_outcome(statuses.0, statuses.1);
    signal.record(&outcome);
    proof {
        output.lemma_written_within_capacity();
    }
    outcome
}

/// Logic-class code the host assigns when a boundary reports success
/// but claims to have written more bytes than the declared capacity:
/// the enclave-side bound check is validated, not trusted blindly.
pub const CODE_LENGTH_VIOLATION: u32 = 7;

/// The outcome owed to a raw boundary's results: transport status first,
/// then logic status, then the host-side validation of the reported
/// written length against the declared capacity.
pub open spec fn checked_outcome(transport: u32, logic: u32, written: nat, capacity: nat) -> CallOutcome {
    if transport != STATUS_SUCCESS {
        CallOutcome::TransportFailure(transport)
    } else if logic != STATUS_SUCCESS {
        CallOutcome::LogicFailure(logic)
    } else if written > capacity {
        CallOutcome::LogicFailure(CODE_LENGTH_VIOLATION)
    } else {
        CallOutcome::Success
    }
}

/// Complete an invocation made over a raw C-ABI boundary: classify the
/// two statuses in order, validate the reported written length, and
/// record the verdict in the error-signal cell.
pub fn finish_invocation(
    transport: u32,
    logic: u32,
    written: usize,
    capacity: usize,
    signal: &mut ErrorSignal,
) -> (outcome: CallOutcome)
    ensures
        outcome == checked_outcome(transport, logic, written as nat, capacity as nat),
        final(signal).value == signal_code_of(outcome),
{
    let outcome = if transport != STATUS_SUCCESS {
        CallOutcome::TransportFailure(transport)
    } else if logic != STATUS_SUCCESS {
        CallOutcome::LogicFailure(logic)
    } else if written > capacity {
        CallOutcome::LogicFailure(CODE_LENGTH_VIOLATION)
    } else {
        CallOutcome::Success
    };
    signal.record(&outcome);
    outcome
}

/// Whenever an invocation succeeds, the error-signal cell reads zero.
pub proof fn lemma_success_signals_zero(
    handle: EnclaveHandle,
    selector: Seq<u8>,
    payload: Seq<u8>,
    capacity: nat,
)
    ensures
        adapter_outcome(handle, selector, payload, capacity) is Success ==> signal_code_of(
            adapter_outcome(handle, selector, payload, capacity),
        ) == 0,
{
}

/// A transport failure arises exactly when the handle is stale, and then
/// the error-signal cell reads a non-zero code.
pub proof fn lemma_transport_failure_signals_nonzero(
    handle: EnclaveHandle,
    selector: Seq<u8>,
    payload: Seq<u8>,
    capacity: nat,
)
    ensures
        adapter_outcome(handle, selector, payload, capacity) is TransportFailure <==> !handle.live,
        !handle.live ==> signal_code_of(adapter_outcome(handle, selector, payload, capacity))
            != 0,
{
}

/// A logic failure always leaves a non-zero code in the error-signal
/// cell, distinguishable from success, and arises exactly when a live
/// enclave reports an unsuccessful logic status.
pub proof fn lemma_logic_failure_signals_nonzero(
    handle: EnclaveHandle,
    selector: Seq<u8>,
    payload: Seq<u8>,
    capacity: nat,
)
    ensures
        adapter_outcome(handle, selector, payload, capacity) is LogicFailure ==> signal_code_of(
            adapter_outcome(handle, selector, payload, capacity),
        ) != 0,
        adapter_outcome(handle, selector, payload, capacity) is LogicFailure <==> handle.live
            && enclave_logic_status(selector, payload, capacity) != STATUS_SUCCESS,
{
}

/// Two invocations with the same handle, selector, payload and capacity
/// observe the same outcome, and on success the same output bytes: what
/// the contract determines is a function of the inputs alone.
pub proof fn lemma_invocation_idempotent(
    handle: EnclaveHandle,
    selector: Seq<u8>,
    payload: Seq<u8>,
    capacity: nat,
    outcome1: CallOutcome,
    outcome2: CallOutcome,
    written1: Seq<u8>,
    written2: Seq<u8>,
)
    requires
        outcome1 == adapter_outcome(handle, selector, payload, capacity),
        outcome2 == adapter_outcome(handle, selector, payload, capacity),
        outcome1 is Success ==> Some(written1) == true_result(selector, payload),
        outcome2 is Success ==> Some(written2) == true_result(selector, payload),
    ensures
        outcome1 == outcome2,
        outcome1 is Success ==> written1 == written2,
{
}

/// The capacity boundary: when a true result exists, a capacity of
/// exactly its size (or more) succeeds, while a smaller capacity is
/// refused as a logic failure - never silently truncated, and the buffer
/// bound is never exceeded.
pub proof fn lemma_capacity_boundary(
    handle: EnclaveHandle,
    selector: Seq<u8>,
    payload: Seq<u8>,
    capacity: nat,
    result: Seq<u8>,
)
    requires
        handle.live,
        true_result(selector, payload) == Some(result),
    ensures
        capacity >= result.len() ==> adapter_outcome(handle, selector, payload, capacity)
            is Success,
        capacity < result.len() ==> adapter_outcome(handle, selector, payload, capacity)
            == CallOutcome::LogicFailure(CODE_OUTPUT_TOO_SMALL),
{
}

} // verus!
