//! A trustless marketplace that matches clients with autonomous service
//! agents, escrows client funds for the duration of a job, and releases or
//! refunds those funds according to an auditable lifecycle with sub-contracting
//! (delegation) and dispute arbitration.
//!
//! The heart of the library is the job/escrow state machine: the rules
//! governing when funds move, between whom, under what authorization, and with
//! what invariants preserved at every transition. The host execution substrate
//! (durable account storage, atomicity, the trusted clock, signature checks)
//! is out of scope: callers hand each operation the authenticated signer and
//! the current timestamp, and the [`marketplace::Marketplace`] store plays the
//! role of the ledger the operations run against.

pub mod accounting;
pub mod constants;
pub mod custody;
pub mod error;
pub mod events;
pub mod laws;
pub mod marketplace;
pub mod state;
pub mod sums;
