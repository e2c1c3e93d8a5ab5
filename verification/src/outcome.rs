//! Outcomes of one enclave invocation and the error-signal cell.
//!
//! A call across the trust boundary yields two independent status codes:
//! the transport status (did the boundary call mechanically complete) and
//! the logic status (did the enclave's own operation succeed). They are
//! consulted in that order: a transport failure makes the logic status
//! meaningless and short-circuits. The caller learns the outcome through
//! an errno-style error-signal cell, zero for success and a non-zero code
//! for either failure class.

use vstd::prelude::*;

verus! {

/// Status code meaning that a boundary call, or the enclave's own logic,
/// completed successfully.
pub const STATUS_SUCCESS: u32 = 0;

/// The single outcome of one invocation. A transport failure hides the
/// logic status, which the structure of this type makes impossible to
/// get wrong: there is no variant carrying both codes.
#[derive(Clone, Copy, Debug, PartialEq, Eq, Structural)]
pub enum CallOutcome {
    /// Both statuses reported success; the output buffer is valid.
    Success,
    /// The boundary call itself did not mechanically complete; holds the
    /// non-zero transport status. Buffer contents are meaningless.
    TransportFailure(u32),
    /// The enclave ran but reported that the operation failed; holds the
    /// non-zero logic status. Buffer contents are meaningless.
    LogicFailure(u32),
}

/// How the two raw status codes, read in order, classify an invocation.
pub open spec fn outcome_of(transport: u32, logic: u32) -> CallOutcome {
    if transport != STATUS_SUCCESS {
        CallOutcome::TransportFailure(transport)
    } else if logic != STATUS_SUCCESS {
        CallOutcome::LogicFailure(logic)
    } else {
        CallOutcome::Success
    }
}

/// The value the error-signal cell takes for an outcome: zero exactly on
/// success, otherwise the failure's own status code.
pub open spec fn signal_code_of(outcome: CallOutcome) -> u32 {
    match outcome {
        CallOutcome::Success => 0,
        CallOutcome::TransportFailure(t) => t,
        CallOutcome::LogicFailure(l) => l,
    }
}

/// Classify the two raw statuses of a boundary call, transport first.
pub fn evaluate_outcome(transport: u32, logic: u32) -> (outcome: CallOutcome)
    ensures
        outcome == outcome_of(transport, logic),
{
    if transport != STATUS_SUCCESS {
        CallOutcome::TransportFailure(transport)
    } else if logic != STATUS_SUCCESS {
        CallOutcome::LogicFailure(logic)
    } else {
        CallOutcome::Success
    }
}

/// An explicit error-signal cell: the per-thread state a caller inspects
/// right after an invocation, overwritten - never accumulated - on every
/// call.
pub struct ErrorSignal {
    /// Zero for success, a failure's status code otherwise.
    pub value: u32,
}

impl ErrorSignal {
    /// A fresh cell, in the success state.
    pub fn new() -> (s: ErrorSignal)
        ensures
            s.value == 0,
    {
        ErrorSignal { value: 0 }
    }

    /// Overwrite the cell with the signal code of `outcome`.
    pub fn record(&mut self, outcome: &CallOutcome)
        ensures
            final(self).value == signal_code_of(*outcome),
    {
        self.value = match outcome {
            CallOutcome::Success => 0,
            CallOutcome::TransportFailure(t) => *t,
            CallOutcome::LogicFailure(l) => *l,
        };
    }
}

/// Relies on errno::set_errno: stores the code in the calling thread's
/// errno cell, where a C-ABI caller that receives no return value looks
/// for the outcome.
#[verifier::external_body]
fn set_thread_errno(code: u32) {
    errno::set_errno(errno::Errno(code as i32));
}

/// Report an outcome through the calling thread's errno cell, as the
/// C-ABI surface requires, and return the code that was stored.
pub fn signal_outcome_to_thread(outcome: &CallOutcome) -> (code: u32)
    ensures
        code == signal_code_of(*outcome),
{
    let code = match outcome {
        CallOutcome::Success => 0u32,
        CallOutcome::TransportFailure(t) => *t,
        CallOutcome::LogicFailure(l) => *l,
    };
    set_thread_errno(code);
    code
}

} // verus!
