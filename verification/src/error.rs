//! The error taxonomy.
//!
//! Every failure of an operation maps to exactly one of these conditions, and
//! a failing operation leaves the marketplace unchanged.

use vstd::prelude::*;

verus! {

#[derive(Clone, Copy, Debug, PartialEq, Eq, Structural)]
pub enum AgentProtocolError {
    /// Malformed input: empty or oversized strings, zero price, out-of-range
    /// score.
    ValidationError,
    /// The caller is not the party required to authorize the operation.
    AuthorizationError,
    /// The operation is invalid for the record's current status (including an
    /// inactive agent profile, or a job with no auto-release configured).
    StateError,
    /// Insufficient payment, insufficient balance or escrow for a debit, or
    /// arithmetic overflow in checked arithmetic.
    FundsError,
    /// Auto-release or timeout resolution attempted before its due time.
    TimingError,
    /// Parent/child linkage failure: too many active children, or
    /// decrementing an already-zero child counter.
    ReconciliationError,
    /// A record that must be unique (the one rating per job) already exists.
    DuplicateRecordError,
}

} // verus!
