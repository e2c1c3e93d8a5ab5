//! A verified model of the enclave side of the boundary: the handle the
//! provider yields, and the trusted logic of the one exported operation,
//! `multiply`. The real enclave is an external collaborator reached over
//! a C ABI; this model lets every host-side decision be exercised against
//! an enclave whose behaviour is itself pinned down, including the
//! transport-failure path (a stale handle) and the enclave-side capacity
//! discipline (a result that does not fit is refused, never truncated).

use vstd::prelude::*;

use crate::bytes::{find_byte, find_byte_vec, copy_range, bytes_eq, lemma_find_byte};
use crate::buffer::OutputBuffer;
use crate::decimal::{all_digits, dec_value, dec_repr, parse_u64, render_u64, lemma_dec_repr_value};
use crate::outcome::STATUS_SUCCESS;

verus! {

/// Transport status: the enclave runtime was handed a handle that names
/// no live enclave, so the call never reached trusted code.
pub const CODE_INVALID_HANDLE: u32 = 2;

/// Logic status: the operation selector names no exported operation.
pub const CODE_UNKNOWN_OPERATION: u32 = 3;

/// Logic status: the payload is not two comma-separated decimal numbers
/// that fit the enclave's word size.
pub const CODE_MALFORMED_PAYLOAD: u32 = 4;

/// Logic status: the product does not fit the enclave's word size.
pub const CODE_ARITH_OVERFLOW: u32 = 5;

/// Logic status: the true result is larger than the caller's output
/// capacity; the enclave refuses to write rather than truncate.
pub const CODE_OUTPUT_TOO_SMALL: u32 = 6;

/// The handle the provider yields for an already-initialized enclave.
/// A stale or invalid handle is how the transport layer fails.
#[derive(Clone, Copy, Debug, PartialEq, Eq, Structural)]
pub struct EnclaveHandle {
    /// Identifier of the enclave instance this handle names.
    pub eid: u64,
    /// Whether the instance is still live; a reloaded enclave leaves
    /// old handles stale.
    pub live: bool,
}

/// The selector bytes of the one exported operation, `"multiply"`.
pub open spec fn multiply_selector() -> Seq<u8> {
    seq![109u8, 117u8, 108u8, 116u8, 105u8, 112u8, 108u8, 121u8]
}

/// The payload decoded as two comma-separated decimal operands, split at
/// the first comma; `None` when there is no comma or either side is not
/// a decimal number that fits a 64-bit word.
pub open spec fn parsed_operands(payload: Seq<u8>) -> Option<(nat, nat)> {
    match find_byte(payload, 44) {
        None => None,
        Some(i) => {
            let left = payload.subrange(0, i);
            let right = payload.subrange(i + 1, payload.len() as int);
            if all_digits(left) && dec_value(left) <= u64::MAX && all_digits(right) && dec_value(
                right,
            ) <= u64::MAX {
                Some((dec_value(left), dec_value(right)))
            } else {
                None
            }
        },
    }
}

/// The result the operation is owed, independent of any buffer: the
/// product of the operands in canonical decimal, when the selector is
/// recognised, the payload decodes, and the product fits the word size.
pub open spec fn true_result(selector: Seq<u8>, payload: Seq<u8>) -> Option<Seq<u8>> {
    if selector != multiply_selector() {
        None
    } else {
        match parsed_operands(payload) {
            None => None,
            Some((a, b)) => if a * b > u64::MAX {
                None
            } else {
                Some(dec_repr(a * b))
            },
        }
    }
}

/// The logic status the enclave reports for given inputs and capacity.
pub open spec fn enclave_logic_status(selector: Seq<u8>, payload: Seq<u8>, capacity: nat) -> u32 {
    if selector != multiply_selector() {
        CODE_UNKNOWN_OPERATION
    } else {
        match parsed_operands(payload) {
            None => CODE_MALFORMED_PAYLOAD,
            Some((a, b)) => if a * b > u64::MAX {
                CODE_ARITH_OVERFLOW
            } else if dec_repr(a * b).len() > capacity {
                CODE_OUTPUT_TOO_SMALL
            } else {
                STATUS_SUCCESS
            },
        }
    }
}

/// A successful logic status is reported exactly when a true result
/// exists and fits the capacity, and then the result is what the buffer
/// receives.
pub proof fn lemma_logic_status_success(selector: Seq<u8>, payload: Seq<u8>, capacity: nat)
    ensures
        enclave_logic_status(selector, payload, capacity) == STATUS_SUCCESS <==> (true_result(
            selector,
            payload,
        ) matches Some(r) && r.len() <= capacity),
{
}

/// The enclave entry point, modeled: takes the handle, the two
/// length-delimited inputs, and the output buffer; returns the transport
/// status and the logic status, in that order. On a transport failure
/// nothing is written and the logic status is left at its initial
/// success value, exactly as an out-parameter the enclave never reached
/// would be.
pub fn enclave_multiply(
    handle: &EnclaveHandle,
    selector: &Vec<u8>,
    payload: &Vec<u8>,
    output: &mut OutputBuffer,
) -> (r: (u32, u32))
    requires
        old(output).wf(),
    ensures
        final(output).wf(),
        final(output).spec_capacity() == old(output).spec_capacity(),
        !handle.live ==> r == (CODE_INVALID_HANDLE, STATUS_SUCCESS) && *final(output) == *old(
            output,
        ),
        handle.live ==> r.0 == STATUS_SUCCESS && r.1 == enclave_logic_status(
            selector@,
            payload@,
            old(output).spec_capacity(),
        ),
        handle.live && r.1 == STATUS_SUCCESS ==> final(output).written() == true_result(
            selector@,
            payload@,
        ).unwrap(),
        handle.live && r.1 != STATUS_SUCCESS ==> *final(output) == *old(output),
{
    if !handle.live {
        return (CODE_INVALID_HANDLE, STATUS_SUCCESS);
    }
    let expected = expected_selector();
    if !bytes_eq(selector, &expected) {
        return (STATUS_SUCCESS, CODE_UNKNOWN_OPERATION);
    }
    let comma = match find_byte_vec(payload, 44) {
        Some(i) => i,
        None => {
            return (STATUS_SUCCESS, CODE_MALFORMED_PAYLOAD);
        },
    };
    let payload_len = payload.len();
    proof {
        lemma_find_byte(payload@, 44);
        assert(comma < payload@.len());
    }
    let left = copy_range(payload, 0, comma);
    let right = copy_range(payload, comma + 1, payload_len);
    let a = match parse_u64(&left) {
        Some(a) => a,
        None => {
            return (STATUS_SUCCESS, CODE_MALFORMED_PAYLOAD);
        },
    };
    let b = match parse_u64(&right) {
        Some(b) => b,
        None => {
            return (STATUS_SUCCESS, CODE_MALFORMED_PAYLOAD);
        },
    };
    let product = match a.checked_mul(b) {
        Some(p) => p,
        None => {
            return (STATUS_SUCCESS, CODE_ARITH_OVERFLOW);
        },
    };
    let result = render_u64(product);
    if result.len() > output.capacity() {
        return (STATUS_SUCCESS, CODE_OUTPUT_TOO_SMALL);
    }
    output.write_result(&result);
    proof {
        lemma_dec_repr_value(product as nat);
    }
    (STATUS_SUCCESS, STATUS_SUCCESS)
}

/// The selector bytes of the exported operation, as a vector.
pub fn expected_selector() -> (r: Vec<u8>)
    ensures
        r@ == multiply_selector(),
{
    let mut r: Vec<u8> = Vec::new();
    r.push(109);
    r.push(117);
    r.push(108);
    r.push(116);
    r.push(105);
    r.push(112);
    r.push(108);
    r.push(121);
    proof {
        assert(r@ =~= multiply_selector());
    }
    r
}

} // verus!
