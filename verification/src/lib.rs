//! Host-side adapter for invoking a numeric operation inside a
//! hardware-isolated enclave.
//!
//! The adapter hands caller-supplied byte buffers across the trust
//! boundary, distinguishes the two independent outcome signals of that
//! boundary (transport status and enclave-logic status), and reports the
//! result through an errno-style error-signal cell without ever exceeding
//! the caller's output buffer capacity.

use vstd::prelude::*;

pub mod adapter;
pub mod buffer;
pub mod bytes;
pub mod decimal;
pub mod enclave;
pub mod outcome;

verus! {

} // verus!
