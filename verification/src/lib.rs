//! A payment-escrow contract core: an employer deposits a salary into a
//! claimable balance bound to a release timestamp, callers add tip
//! contributions, and a claimant withdraws salary plus accumulated tips once
//! the time bound has passed. A separate direct-payment helper splits a
//! payment between a business recipient and a list of tip recipients.
//!
//! The library is the contract's decision core: it holds the persisted state
//! as plain values and turns each entry point into a verified transition from
//! state and arguments to the next state and the token transfers the host is
//! asked to perform. Host concerns (persistent storage, authorization,
//! the ledger clock, the token interface) stay outside; a host adapter reads
//! the clock, performs the transfers, and commits or rolls back the state.

pub mod contract;
pub mod laws;
pub mod types;
