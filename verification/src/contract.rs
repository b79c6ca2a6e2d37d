//! The escrow state machine: the persisted contract state as plain values,
//! and one verified transition per entry point. Each transition returns the
//! token transfers the host must perform; the host commits the new state
//! only if every transfer succeeds, else it discards it (the host runs each
//! invocation atomically).

use vstd::prelude::*;

use crate::types::Address;
use crate::types::ClaimableBalance;
use crate::types::Error;
use crate::types::Transfer;

verus! {

/// The contract's instance storage, one field per [`crate::types::DataKey`],
/// plus the contract's own address (assigned by the host at deployment, and
/// the custody account of every deposit). An absent storage entry is `None`
/// (or `false` for the presence-only init marker).
#[derive(Clone, Copy, Debug)]
pub struct FairPaymentContract {
    /// The address the host assigned to this contract instance.
    pub contract_address: Address,
    /// The init marker: present once `init` has run.
    pub initialized: bool,
    /// The employer role, set by `init`.
    pub employer: Option<Address>,
    /// The worker role, set by `init`.
    pub worker: Option<Address>,
    /// The customer role, set by `init`.
    pub customer: Option<Address>,
    /// The claimable balance, present between a salary deposit and the
    /// following payment execution.
    pub balance: Option<ClaimableBalance>,
    /// The running tip counter, present once `init` has run.
    pub total_tips: Option<i32>,
}

impl FairPaymentContract {
    /// The storage shapes reachable through the entry points: once the init
    /// marker is set the three roles and the tip counter are present, and a
    /// claimable balance can only exist in an initialized contract (only
    /// `deposit_salary` creates one, and it insists on initialization).
    pub open spec fn wf(self) -> bool {
        &&& self.initialized ==> {
            &&& self.employer is Some
            &&& self.worker is Some
            &&& self.customer is Some
            &&& self.total_tips is Some
        }
        &&& self.balance is Some ==> self.initialized
    }

    /// The tip counter as a mathematical integer; an absent counter counts
    /// as zero.
    pub open spec fn spec_total_tips(self) -> int {
        match self.total_tips {
            Some(t) => t as int,
            None => 0,
        }
    }

    /// A freshly deployed contract: the host has assigned it an address and
    /// nothing is stored yet.
    pub fn new(contract_address: Address) -> (c: FairPaymentContract)
        ensures
            c == (FairPaymentContract {
                contract_address,
                initialized: false,
                employer: None,
                worker: None,
                customer: None,
                balance: None,
                total_tips: None,
            }),
            c.wf(),
    {
        FairPaymentContract {
            contract_address,
            initialized: false,
            employer: None,
            worker: None,
            customer: None,
            balance: None,
            total_tips: None,
        }
    }

    /// Store the three role addresses, reset the tip counter to zero, and
    /// set the init marker. No authorization is demanded of the caller, no
    /// guard stops a repeated call (a second call silently overwrites the
    /// roles), and the claimable balance is left untouched.
    pub fn init(&mut self, employer: Address, worker: Address, customer: Address)
        ensures
            *final(self) == after_init(*old(self), employer, worker, customer),
            final(self).wf(),
    {
        self.employer = Some(employer);
        self.worker = Some(worker);
        self.customer = Some(customer);
        self.total_tips = Some(0);
        self.initialized = true;
    }

    /// Deposit a salary into escrow: move `salary_amount` of `token` from
    /// the caller into the contract's custody and store the claimable
    /// balance with its release timestamp, silently overwriting any balance
    /// already there. Fails, mutating nothing, unless the contract is
    /// initialized and the caller is the stored employer.
    pub fn deposit_salary(
        &mut self,
        from: Address,
        token: Address,
        salary_amount: i128,
        time_bound_timestamp: u64,
    ) -> (result: Result<Transfer, Error>)
        requires
            old(self).wf(),
        ensures
            final(self).wf(),
            result is Ok <==> old(self).initialized && old(self).employer == Some(from),
            !old(self).initialized ==> result == Err::<Transfer, Error>(Error::NotInitialized),
            old(self).initialized && old(self).employer != Some(from) ==> result
                == Err::<Transfer, Error>(Error::NotEmployer),
            // A non-employer caller always fails, before any storage mutation.
            old(self).employer != Some(from) ==> result is Err && *final(self) == *old(self),
            result is Err ==> *final(self) == *old(self),
            result is Ok ==> {
                &&& result == Ok::<Transfer, Error>(Transfer {
                    token,
                    from,
                    to: old(self).contract_address,
                    amount: salary_amount,
                })
                &&& *final(self) == (FairPaymentContract {
                    balance: Some(ClaimableBalance { token, salary_amount, time_bound_timestamp }),
                    ..*old(self)
                })
            },
    {
        if !self.initialized {
            return Err(Error::NotInitialized);
        }
        let employer: Address = match self.employer {
            Some(e) => e,
            None => {
                return Err(Error::NotInitialized);
            },
        };
        if from != employer {
            return Err(Error::NotEmployer);
        }
        let transfer = Transfer { token, from, to: self.contract_address, amount: salary_amount };
        self.balance = Some(ClaimableBalance { token, salary_amount, time_bound_timestamp });
        Ok(transfer)
    }

    /// Deposit a tip: move `amount` of `token` (widened from 32 to 128
    /// bits) from the caller into the contract's custody and add it to the
    /// running tip counter. Any caller may tip, with any token; the only
    /// demand is that the contract is initialized. The counter arithmetic
    /// must fit in 32 bits, which the host adapter checks before calling.
    pub fn deposit_tip(&mut self, from: Address, token: Address, amount: i32) -> (result: Result<
        Transfer,
        Error,
    >)
        requires
            old(self).wf(),
            i32::MIN <= old(self).spec_total_tips() + amount <= i32::MAX,
        ensures
            final(self).wf(),
            result is Ok <==> old(self).initialized,
            !old(self).initialized ==> result == Err::<Transfer, Error>(Error::NotInitialized)
                && *final(self) == *old(self),
            result is Ok ==> {
                &&& result == Ok::<Transfer, Error>(Transfer {
                    token,
                    from,
                    to: old(self).contract_address,
                    amount: amount as i128,
                })
                &&& *final(self) == (FairPaymentContract {
                    total_tips: Some((old(self).spec_total_tips() + amount) as i32),
                    ..*old(self)
                })
            },
    {
        if !self.initialized {
            return Err(Error::NotInitialized);
        }
        let total_tips: i32 = match self.total_tips {
            Some(t) => t,
            None => {
                return Err(Error::NotInitialized);
            },
        };
        let amount_i128: i128 = amount as i128;
        let transfer = Transfer { token, from, to: self.contract_address, amount: amount_i128 };
        self.total_tips = Some(total_tips + amount);
        Ok(transfer)
    }

    /// Pay out the escrow: once the provided ledger timestamp has reached
    /// the stored release timestamp, move salary plus accumulated tips of
    /// `token` from the contract's custody to the claimant, delete the
    /// balance record and reset the tip counter. Fails, mutating nothing,
    /// if no balance exists or the time bound has not been reached. The
    /// claimant is deliberately not compared with the stored worker: any
    /// authorized caller may claim.
    pub fn execute_payment(&mut self, claimant: Address, token: Address, now: u64) -> (result:
        Result<Transfer, Error>)
        requires
            old(self).wf(),
            old(self).balance matches Some(b) ==> i128::MIN <= b.salary_amount + old(
                self,
            ).spec_total_tips() <= i128::MAX,
        ensures
            final(self).wf(),
            result is Ok <==> (old(self).balance matches Some(b) && now >= b.time_bound_timestamp),
            old(self).balance is None ==> result == Err::<Transfer, Error>(Error::NoBalance)
                && *final(self) == *old(self),
            // Before the release timestamp the call fails and leaves the
            // balance and the tip counter unchanged.
            old(self).balance matches Some(b) && now < b.time_bound_timestamp ==> result
                == Err::<Transfer, Error>(Error::TimeBoundNotReached) && *final(self) == *old(self),
            result is Ok ==> {
                &&& old(self).balance matches Some(b) && result == Ok::<Transfer, Error>(Transfer {
                    token,
                    from: old(self).contract_address,
                    to: claimant,
                    amount: (b.salary_amount + old(self).spec_total_tips()) as i128,
                })
                &&& final(self).balance is None
                &&& final(self).total_tips == Some(0i32)
                &&& *final(self) == (FairPaymentContract {
                    balance: None,
                    total_tips: Some(0i32),
                    ..*old(self)
                })
            },
    {
        let claimable_balance: ClaimableBalance = match self.balance {
            Some(b) => b,
            None => {
                return Err(Error::NoBalance);
            },
        };
        if !check_time_bound(now, claimable_balance.time_bound_timestamp) {
            return Err(Error::TimeBoundNotReached);
        }
        let total_tips: i32 = match self.total_tips {
            Some(t) => t,
            None => {
                return Err(Error::NoBalance);
            },
        };
        let total_amount: i128 = claimable_balance.salary_amount + total_tips as i128;
        self.balance = None;
        self.total_tips = Some(0);
        Ok(Transfer { token, from: self.contract_address, to: claimant, amount: total_amount })
    }

    /// Split a direct payment: transfer `value_amount` of `token` from the
    /// payer to the business recipient, then transfer the full tip amount,
    /// `value_amount * tip_percent / 100` rounded toward zero, to every
    /// address in `tip_recipients` (each recipient receives the whole tip
    /// amount, not a share of it). Independent of the escrow state; the
    /// returned transfers are in issue order, business payment first.
    pub fn make_payments(
        from: Address,
        tip_recipients: Vec<Address>,
        business_recipient: Address,
        token: Address,
        value_amount: i128,
        tip_percent: i128,
    ) -> (transfers: Vec<Transfer>)
        requires
            -(i128::MAX as int) <= value_amount as int * tip_percent as int <= i128::MAX as int,
        ensures
            transfers@.len() == tip_recipients@.len() + 1,
            transfers@[0] == (Transfer { token, from, to: business_recipient, amount: value_amount }),
            // Each of the N tip recipients receives the full tip amount.
            forall|i: int|
                1 <= i < transfers@.len() ==> #[trigger] transfers@[i] == (Transfer {
                    token,
                    from,
                    to: tip_recipients@[i - 1],
                    amount: tip_amount_spec(value_amount as int, tip_percent as int) as i128,
                }),
    {
        let mut transfers: Vec<Transfer> = Vec::new();
        transfers.push(Transfer { token, from, to: business_recipient, amount: value_amount });

        let tip_amount: i128 = tip_amount(value_amount, tip_percent);

        let mut i: usize = 0;
        while i < tip_recipients.len()
            invariant
                i <= tip_recipients@.len(),
                transfers@.len() == i + 1,
                transfers@[0] == (Transfer {
                    token,
                    from,
                    to: business_recipient,
                    amount: value_amount,
                }),
                tip_amount as int == tip_amount_spec(value_amount as int, tip_percent as int),
                forall|j: int|
                    1 <= j < transfers@.len() ==> #[trigger] transfers@[j] == (Transfer {
                        token,
                        from,
                        to: tip_recipients@[j - 1],
                        amount: tip_amount,
                    }),
            decreases tip_recipients@.len() - i,
        {
            let recipient: Address = tip_recipients[i];
            transfers.push(Transfer { token, from, to: recipient, amount: tip_amount });
            i = i + 1;
        }
        transfers
    }
}

/// The tip amount of a direct payment: `value_amount * tip_percent / 100`
/// with the division rounding toward zero, as 128-bit machine division
/// does.
pub open spec fn tip_amount_spec(value_amount: int, tip_percent: int) -> int {
    let product = value_amount * tip_percent;
    if product >= 0 {
        product / 100
    } else {
        -((-product) / 100)
    }
}

/// `value_amount * tip_percent / 100`, rounded toward zero, computed on
/// the magnitude so only unsigned machine division is needed.
fn tip_amount(value_amount: i128, tip_percent: i128) -> (tip: i128)
    requires
        -(i128::MAX as int) <= value_amount as int * tip_percent as int <= i128::MAX as int,
    ensures
        tip as int == tip_amount_spec(value_amount as int, tip_percent as int),
{
    let product: i128 = value_amount * tip_percent;
    if product >= 0 {
        let quotient: u128 = (product as u128) / 100;
        assert(quotient <= i128::MAX as u128);
        quotient as i128
    } else {
        let magnitude: i128 = -product;
        let quotient: u128 = (magnitude as u128) / 100;
        assert(quotient <= i128::MAX as u128);
        -(quotient as i128)
    }
}

/// The state `init` leaves behind: the given roles, a zero tip counter, the
/// init marker set, and everything else carried over from `s`.
pub open spec fn after_init(
    s: FairPaymentContract,
    employer: Address,
    worker: Address,
    customer: Address,
) -> FairPaymentContract {
    FairPaymentContract {
        contract_address: s.contract_address,
        initialized: true,
        employer: Some(employer),
        worker: Some(worker),
        customer: Some(customer),
        balance: s.balance,
        total_tips: Some(0i32),
    }
}

/// Whether the init marker is set, i.e. whether `init` has run at least
/// once on this state.
pub fn is_initialized(c: &FairPaymentContract) -> (r: bool)
    ensures
        r == c.initialized,
{
    c.initialized
}

/// The time-bound check of the payout: the provided ledger timestamp must
/// have reached the stored release timestamp.
fn check_time_bound(now: u64, time_bound_timestamp: u64) -> (ok: bool)
    ensures
        ok == (now >= time_bound_timestamp),
{
    now >= time_bound_timestamp
}

} // verus!
