//! The fund-movement primitive.
//!
//! All escrow funding, release and refund paths move value through
//! [`transfer_checked`]: a debit/credit pair with checked arithmetic whose
//! contract guarantees that the destination gains exactly what the source
//! loses and that the source never drops below its required minimum standing
//! balance. No business logic lives here.

use vstd::prelude::*;
use crate::error::AgentProtocolError;

verus! {

/// Whether moving `amount` from a balance of `source` to a balance of `dest`
/// is possible: the source retains at least `min_remaining` after the debit,
/// and the credit does not overflow.
pub open spec fn transfer_ok(source: u64, dest: u64, amount: u64, min_remaining: u64) -> bool {
    &&& source >= amount
    &&& source - amount >= min_remaining
    &&& dest + amount <= u64::MAX
}

/// Moves `amount` value units from `source` to `dest`, requiring the source
/// to retain at least `min_remaining` after the debit. Returns the new
/// `(source, dest)` pair; fails with `FundsError` (and moves nothing) when
/// the debit would breach the minimum or the credit would overflow.
pub fn transfer_checked(source: u64, dest: u64, amount: u64, min_remaining: u64) -> (r: Result<
    (u64, u64),
    AgentProtocolError,
>)
    ensures
        match r {
            Ok(p) => {
                &&& transfer_ok(source, dest, amount, min_remaining)
                &&& p.0 == source - amount
                &&& p.1 == dest + amount
                &&& p.0 + p.1 == source + dest
            },
            Err(e) => {
                &&& e == AgentProtocolError::FundsError
                &&& !transfer_ok(source, dest, amount, min_remaining)
            },
        },
{
    if amount > source {
        return Err(AgentProtocolError::FundsError);
    }
    let debited = source - amount;
    if debited < min_remaining {
        return Err(AgentProtocolError::FundsError);
    }
    if amount > u64::MAX - dest {
        return Err(AgentProtocolError::FundsError);
    }
    Ok((debited, dest + amount))
}

} // verus!
