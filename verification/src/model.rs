//! The ledger as a mathematical state machine.
//!
//! [`AssetState`] is the value of one asset class, [`State`] that of the whole
//! ledger. Each operation of the ledger is given here as a function from the
//! state before it to either the error it is refused with, or the state after
//! it together with the actions it hands to the host.

use vstd::prelude::*;
use crate::types::{
    AccountId, Action, Approval, AssetAccount, AssetDetails, AssetId, AssetStatus, Balance, Config,
    DebitFlags, Error, ExistenceReason, Grant, Holding, MetadataView,
};
use crate::records::{
    above_floor, distinct, distinct_grants, grant_index, granted, index_of, lookup,
    sufficient_count, total_balance,
};

verus! {

/// Value of one asset class: its registry entry and the records that hang on it.
pub struct AssetState {
    /// The registry entry.
    pub details: AssetDetails,
    /// The account records, oldest first.
    pub accounts: Seq<Holding>,
    /// The approval records, oldest first.
    pub approvals: Seq<Grant>,
    /// The metadata, where some was set.
    pub metadata: Option<MetadataView>,
}

/// What a successful step of one asset class leaves behind.
pub struct Step {
    /// The asset class after the step.
    pub state: AssetState,
    /// What the host has to carry out, in this order.
    pub actions: Seq<Action>,
    /// Units moved or burned, or records removed by a cleanup; zero otherwise.
    pub amount: Balance,
}

/// What a successful operation of the ledger leaves behind.
pub struct Outcome {
    /// The ledger after the operation.
    pub state: State,
    /// What the host has to carry out, in this order.
    pub actions: Seq<Action>,
    /// Units moved or burned, or records removed by a cleanup; zero otherwise.
    pub amount: Balance,
}

/// Value of the ledger.
pub struct State {
    /// The constants the ledger was made with.
    pub config: Config,
    /// The asset classes by identifier.
    pub assets: Map<AssetId, AssetState>,
}

/// `a + b`, or the largest balance where the sum passes it.
pub open spec fn saturating_sum(a: Balance, b: Balance) -> Balance {
    if a + b > Balance::MAX {
        Balance::MAX
    } else {
        (a + b) as Balance
    }
}

/// Units that leave a holding of `balance` when `amount` is asked for.
///
/// Without `keep_alive` the holding gives what it has, up to `amount`, and
/// what would be left under `floor` goes with it. With `keep_alive` it gives
/// only what lies above `floor`. Giving less than `amount` takes
/// `best_effort`.
pub open spec fn debit_of(balance: Balance, floor: Balance, amount: Balance, f: DebitFlags)
    -> Result<Balance, Error> {
    let reducible = if !f.keep_alive {
        balance
    } else if balance >= floor {
        (balance - floor) as Balance
    } else {
        0
    };
    let actual = if amount <= reducible {
        amount
    } else {
        reducible
    };
    if !f.best_effort && actual < amount {
        Err(Error::BalanceLow)
    } else if actual > 0 && balance - actual < floor {
        Ok(balance)
    } else {
        Ok(actual)
    }
}

/// What the host is told when a record with `reason` goes: the reference or
/// the deposit that kept it goes back, and the hook learns of it.
pub open spec fn teardown_actions(id: AssetId, who: AccountId, reason: ExistenceReason)
    -> Seq<Action> {
    match reason {
        ExistenceReason::Consumer => seq![
            Action::DecConsumers { who },
            Action::Died { asset: id, who },
        ],
        ExistenceReason::Sufficient => seq![
            Action::DecSufficients { who },
            Action::Died { asset: id, who },
        ],
        ExistenceReason::DepositHeld(amount) => seq![
            Action::Unreserve { who, amount },
            Action::Died { asset: id, who },
        ],
        ExistenceReason::DepositRefunded => seq![Action::Died { asset: id, who }],
    }
}

/// What the host is told when the records `s` are removed, last one first.
pub open spec fn drain_actions(id: AssetId, s: Seq<Holding>) -> Seq<Action>
    decreases s.len(),
{
    if s.len() == 0 {
        Seq::empty()
    } else {
        teardown_actions(id, s.last().who, s.last().account.reason) + drain_actions(
            id,
            s.drop_last(),
        )
    }
}

/// The deposits of the approvals `s` going back to their owners, last record first.
pub open spec fn release_actions(s: Seq<Grant>) -> Seq<Action>
    decreases s.len(),
{
    if s.len() == 0 {
        Seq::empty()
    } else {
        seq![Action::Unreserve { who: s.last().owner, amount: s.last().approval.deposit }]
            + release_actions(s.drop_last())
    }
}

/// Number of records that one cleanup call removes of `len`: all of them, or
/// as many as the limit allows.
pub open spec fn drain_count(len: nat, limit: u32) -> nat {
    if len <= limit {
        len
    } else {
        limit as nat
    }
}

/// Deposit that metadata of `bytes` bytes asks for: the base and the price of
/// each byte, or the largest balance where the sum passes it.
pub open spec fn metadata_deposit(config: Config, bytes: nat) -> Balance {
    let exact = config.metadata_deposit_base + config.metadata_deposit_per_byte * bytes;
    if exact > Balance::MAX {
        Balance::MAX
    } else {
        exact as Balance
    }
}

/// A registry entry as creation leaves it.
pub open spec fn fresh_details(
    owner: AccountId,
    team: AccountId,
    deposit: Balance,
    min_balance: Balance,
    is_sufficient: bool,
) -> AssetDetails {
    AssetDetails {
        owner,
        issuer: team,
        admin: team,
        freezer: team,
        supply: 0,
        deposit,
        min_balance,
        is_sufficient,
        accounts: 0,
        sufficients: 0,
        approvals: 0,
        is_frozen: false,
        status: AssetStatus::Live,
    }
}

impl AssetState {
    /// An asset class without records.
    pub open spec fn fresh(details: AssetDetails) -> AssetState {
        AssetState {
            details,
            accounts: Seq::empty(),
            approvals: Seq::empty(),
            metadata: None,
        }
    }

    /// The record of `who`, if there is one.
    pub open spec fn account(self, who: AccountId) -> Option<AssetAccount> {
        lookup(self.accounts, who)
    }

    /// The approval that `owner` gave `delegate`, if there is one.
    pub open spec fn approval(self, owner: AccountId, delegate: AccountId) -> Option<Approval> {
        if granted(self.approvals, owner, delegate) {
            Some(self.approvals[grant_index(self.approvals, owner, delegate)].approval)
        } else {
            None
        }
    }

    /// The deposit held for the metadata.
    pub open spec fn metadata_held(self) -> Balance {
        match self.metadata {
            Some(m) => m.deposit,
            None => 0,
        }
    }

    /// Keys are distinct and the counters of the registry entry count the records.
    pub open spec fn structured(self) -> bool {
        &&& distinct(self.accounts)
        &&& distinct_grants(self.approvals)
        &&& self.accounts.len() == self.details.accounts
        &&& self.approvals.len() == self.details.approvals
        &&& sufficient_count(self.accounts) == self.details.sufficients
    }

    /// The supply is the sum of the balances.
    pub open spec fn balanced(self) -> bool {
        total_balance(self.accounts) == self.details.supply
    }

    /// The minimum balance is not zero, and no holding lies strictly between
    /// zero and the minimum balance.
    pub open spec fn floored(self) -> bool {
        self.details.min_balance > 0 && above_floor(self.accounts, self.details.min_balance)
    }

    /// An asset that is being destroyed is frozen.
    pub open spec fn closed_down(self) -> bool {
        self.details.status == AssetStatus::Destroying ==> self.details.is_frozen
    }

    /// What every operation keeps.
    pub open spec fn wf(self) -> bool {
        self.structured() && self.balanced() && self.floored() && self.closed_down()
    }

    /// `self` with the registry entry `details`.
    pub open spec fn with_details(self, details: AssetDetails) -> AssetState {
        AssetState { details, ..self }
    }

    /// `self` with `account` in place of `who`'s record.
    pub open spec fn set_account(self, who: AccountId, account: AssetAccount) -> AssetState {
        AssetState {
            accounts: self.accounts.update(index_of(self.accounts, who), Holding { who, account }),
            ..self
        }
    }

    /// `self` with `approval` in place of the one that `owner` gave `delegate`.
    pub open spec fn set_approval(self, owner: AccountId, delegate: AccountId, approval: Approval)
        -> AssetState {
        AssetState {
            approvals: self.approvals.update(
                grant_index(self.approvals, owner, delegate),
                Grant { owner, delegate, approval },
            ),
            ..self
        }
    }

    /// `self` without the approval that `owner` gave `delegate`, and counted so.
    pub open spec fn drop_approval(self, owner: AccountId, delegate: AccountId) -> AssetState {
        AssetState {
            details: AssetDetails {
                approvals: (self.details.approvals - 1) as u32,
                ..self.details
            },
            approvals: self.approvals.remove(grant_index(self.approvals, owner, delegate)),
            ..self
        }
    }

    /// Whether `amount` may be credited to `who`. `minting` says that the
    /// supply grows with it, `provider` that the host has a provider
    /// reference to spare for `who`.
    pub open spec fn credit_check(
        self,
        who: AccountId,
        amount: Balance,
        provider: bool,
        minting: bool,
    ) -> Result<(), Error> {
        let d = self.details;
        if minting && d.supply + amount > Balance::MAX {
            Err(Error::Overflow)
        } else {
            match self.account(who) {
                Some(a) => if a.is_frozen {
                    Err(Error::Frozen)
                } else if a.balance + amount > Balance::MAX {
                    Err(Error::Overflow)
                } else if 0 < a.balance + amount < d.min_balance {
                    Err(Error::BelowMinimum)
                } else {
                    Ok(())
                },
                None => if amount == 0 || amount < d.min_balance {
                    Err(Error::BelowMinimum)
                } else if !d.is_sufficient && !provider {
                    Err(Error::NoProvider)
                } else if d.accounts == u32::MAX || (d.is_sufficient && d.sufficients
                    == u32::MAX) {
                    Err(Error::Overflow)
                } else {
                    Ok(())
                },
            }
        }
    }

    /// `self` after `amount` went to `who`; the supply is left as it is.
    pub open spec fn credited(self, who: AccountId, amount: Balance) -> AssetState {
        match self.account(who) {
            Some(a) => self.set_account(
                who,
                AssetAccount { balance: (a.balance + amount) as Balance, ..a },
            ),
            None => AssetState {
                details: AssetDetails {
                    accounts: (self.details.accounts + 1) as u32,
                    sufficients: if self.details.is_sufficient {
                        (self.details.sufficients + 1) as u32
                    } else {
                        self.details.sufficients
                    },
                    ..self.details
                },
                accounts: self.accounts.push(
                    Holding {
                        who,
                        account: AssetAccount {
                            balance: amount,
                            is_frozen: false,
                            reason: if self.details.is_sufficient {
                                ExistenceReason::Sufficient
                            } else {
                                ExistenceReason::Consumer
                            },
                            extra: 0,
                        },
                    },
                ),
                ..self
            },
        }
    }

    /// What the host is told when a credit goes to `who`.
    pub open spec fn credit_actions(self, who: AccountId) -> Seq<Action> {
        if self.account(who) is Some {
            Seq::empty()
        } else if self.details.is_sufficient {
            seq![Action::IncSufficients { who }]
        } else {
            seq![Action::IncConsumers { who }]
        }
    }

    /// Units that a debit of `amount` takes from `who`. `unfreeze` says that
    /// a freeze of the account does not count.
    pub open spec fn debit_check(
        self,
        who: AccountId,
        amount: Balance,
        f: DebitFlags,
        unfreeze: bool,
    ) -> Result<Balance, Error> {
        match self.account(who) {
            None => Err(Error::NoAccount),
            Some(a) => if a.is_frozen && !unfreeze {
                Err(Error::Frozen)
            } else {
                debit_of(a.balance, self.details.min_balance, amount, f)
            },
        }
    }

    /// Whether a debit of `debit` units removes the record of `who`: it does
    /// where nothing is left and no deposit is held for the record.
    pub open spec fn dies(self, who: AccountId, debit: Balance) -> bool {
        let a = self.account(who).unwrap();
        a.balance == debit && a.reason.deposit() is None
    }

    /// `self` after `debit` units left `who`; the supply is left as it is.
    pub open spec fn debited(self, who: AccountId, debit: Balance) -> AssetState {
        let a = self.account(who).unwrap();
        if self.dies(who, debit) {
            AssetState {
                details: AssetDetails {
                    accounts: (self.details.accounts - 1) as u32,
                    sufficients: if a.reason == ExistenceReason::Sufficient {
                        (self.details.sufficients - 1) as u32
                    } else {
                        self.details.sufficients
                    },
                    ..self.details
                },
                accounts: self.accounts.remove(index_of(self.accounts, who)),
                ..self
            }
        } else {
            self.set_account(who, AssetAccount { balance: (a.balance - debit) as Balance, ..a })
        }
    }

    /// What the host is told when `debit` units leave `who`.
    pub open spec fn debit_actions(self, id: AssetId, who: AccountId, debit: Balance) -> Seq<
        Action,
    > {
        if self.dies(who, debit) {
            teardown_actions(id, who, self.account(who).unwrap().reason)
        } else {
            Seq::empty()
        }
    }

    /// `self` with the supply changed from `self.details.supply` to `supply`.
    pub open spec fn with_supply(self, supply: Balance) -> AssetState {
        self.with_details(AssetDetails { supply, ..self.details })
    }
}

/// Removing the oldest of the records `s` last tells the host of it last.
pub proof fn lemma_drain_front(id: AssetId, s: Seq<Holding>)
    requires
        s.len() > 0,
    ensures
        drain_actions(id, s) == drain_actions(id, s.skip(1)) + teardown_actions(
            id,
            s[0].who,
            s[0].account.reason,
        ),
    decreases s.len(),
{
    if s.len() == 1 {
        assert(s.drop_last() =~= s.skip(1));
        assert(drain_actions(id, s.skip(1)) =~= Seq::empty());
        assert(drain_actions(id, s) =~= teardown_actions(id, s[0].who, s[0].account.reason));
    } else {
        lemma_drain_front(id, s.drop_last());
        assert(s.drop_last().skip(1) =~= s.skip(1).drop_last());
        assert(s.skip(1).last() == s.last());
        assert(drain_actions(id, s) =~= drain_actions(id, s.skip(1)) + teardown_actions(
            id,
            s[0].who,
            s[0].account.reason,
        ));
    }
}

/// Freeing the deposit of the oldest of the approvals `s` last tells the host of it last.
pub proof fn lemma_release_front(s: Seq<Grant>)
    requires
        s.len() > 0,
    ensures
        release_actions(s) == release_actions(s.skip(1)).push(
            Action::Unreserve { who: s[0].owner, amount: s[0].approval.deposit },
        ),
    decreases s.len(),
{
    if s.len() == 1 {
        assert(s.drop_last() =~= s.skip(1));
        assert(release_actions(s.skip(1)) =~= Seq::empty());
        assert(release_actions(s) =~= release_actions(s.skip(1)).push(
            Action::Unreserve { who: s[0].owner, amount: s[0].approval.deposit },
        ));
    } else {
        lemma_release_front(s.drop_last());
        assert(s.drop_last().skip(1) =~= s.skip(1).drop_last());
        assert(s.skip(1).last() == s.last());
        assert(release_actions(s) =~= release_actions(s.skip(1)).push(
            Action::Unreserve { who: s[0].owner, amount: s[0].approval.deposit },
        ));
    }
}

/// Whether `r` and `after` are what `model` says of an asset class that was
/// `before`: on an error nothing has changed.
pub open spec fn took(
    model: Result<Step, Error>,
    before: AssetState,
    after: AssetState,
    r: Result<Vec<Action>, Error>,
) -> bool {
    match model {
        Ok(step) => r matches Ok(actions) && actions@ == step.actions && after == step.state,
        Err(e) => r matches Err(x) && x == e && after == before,
    }
}

/// As [`took`], for an operation that also reports the units it moved.
pub open spec fn took_amount(
    model: Result<Step, Error>,
    before: AssetState,
    after: AssetState,
    r: Result<(Balance, Vec<Action>), Error>,
) -> bool {
    match model {
        Ok(step) => r matches Ok(done) && done.0 == step.amount && done.1@ == step.actions
            && after == step.state,
        Err(e) => r matches Err(x) && x == e && after == before,
    }
}

/// As [`took`], for a cleanup call, which reports how many records it
/// removed and how many are left.
pub open spec fn took_records(
    model: Result<Step, Error>,
    left: u32,
    before: AssetState,
    after: AssetState,
    r: Result<(u32, u32, Vec<Action>), Error>,
) -> bool {
    match model {
        Ok(step) => r matches Ok(done) && done.0 == step.amount && done.1 == left && done.2@
            == step.actions && after == step.state,
        Err(e) => r matches Err(x) && x == e && after == before,
    }
}

} // verus!
