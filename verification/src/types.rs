//! Plain-value types of the escrow contract: identities, the persisted
//! record, the transfer actions handed to the host, and the error cases.

use vstd::prelude::*;

verus! {

/// An on-chain account or contract identity, reduced to the one thing the
/// escrow logic ever does with it: compare it for equality. A host adapter
/// assigns each distinct host address a distinct `id`.
#[derive(Clone, Copy, PartialEq, Eq, Structural, Debug)]
pub struct Address {
    pub id: u64,
}

/// The keys of the contract's instance storage, one per persisted entry.
/// The state struct [`crate::contract::FairPaymentContract`] carries one
/// field for each key; a host adapter persists the fields under these tags.
#[derive(Clone, Copy, PartialEq, Eq, Structural, Debug)]
pub enum DataKey {
    Init,
    Balance,
    Employer,
    Worker,
    Customer,
    TotalTips,
}

/// The direction of a time bound relative to the current ledger time.
/// The escrow only ever releases a balance `After` its stored timestamp,
/// but the kind is part of the contract's public vocabulary.
#[derive(Clone, Copy, PartialEq, Eq, Structural, Debug)]
pub enum TimeBoundKind {
    Before,
    After,
}

/// The one mutable escrow record: a deposited salary in a given token,
/// claimable once the ledger time reaches `time_bound_timestamp`.
#[derive(Clone, Copy, PartialEq, Eq, Structural, Debug)]
pub struct ClaimableBalance {
    pub token: Address,
    pub salary_amount: i128,
    pub time_bound_timestamp: u64,
}

/// A single token movement that the host is asked to perform: `amount`
/// units of `token` from `from` to `to`. The contract core only issues
/// transfers; whether the token accepts them is the host's business.
#[derive(Clone, Copy, PartialEq, Eq, Structural, Debug)]
pub struct Transfer {
    pub token: Address,
    pub from: Address,
    pub to: Address,
    pub amount: i128,
}

/// Why an entry point refused to act. Each variant corresponds to one
/// distinct fatal abort of the contract; a host adapter fails the whole
/// invocation when it sees one, so no partial effects persist.
#[derive(Clone, Copy, PartialEq, Eq, Structural, Debug)]
pub enum Error {
    /// The contract has not been initialized.
    NotInitialized,
    /// Only the employer can deposit salary.
    NotEmployer,
    /// No claimable balance exists to pay out.
    NoBalance,
    /// The payment cannot be executed before the time bound.
    TimeBoundNotReached,
}

} // verus!
