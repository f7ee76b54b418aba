//! One asset class in memory: its registry entry, account records,
//! approvals and metadata, and the operations on them.

use vstd::prelude::*;
use crate::types::{
    AccountId, Action, Approval, AssetAccount, AssetDetails, AssetId, AssetMetadata, AssetStatus,
    Authority, Balance, Config, DebitFlags, Error, ExistenceReason, Grant, Holding, Origin,
    TransferFlags,
};
use crate::records::{
    distinct, distinct_grants, grant_index, granted, holds, index_of, lemma_grant_index,
    above_floor, balance_of, lemma_index_of, lemma_sum_remove, lemma_sum_split, sufficient_count,
    sufficient_of, total_balance,
};
use crate::model::{
    drain_actions, drain_count, lemma_drain_front, lemma_release_front, metadata_deposit,
    release_actions, took, took_amount, took_records, AssetState,
};
use crate::laws::{
    lemma_approve_transfer, lemma_burn, lemma_cancel_approval, lemma_credited,
    lemma_debit_of, lemma_debited, lemma_destroy_accounts, lemma_destroy_approvals,
    lemma_force_asset_status, lemma_mint, lemma_refund, lemma_registry, lemma_set_frozen,
    lemma_touch, lemma_transfer, lemma_transfer_approved,
};

verus! {

/// An asset class: the registry entry and every record that hangs on it.
pub struct AssetClass {
    details: AssetDetails,
    accounts: Vec<Holding>,
    approvals: Vec<Grant>,
    metadata: Option<AssetMetadata>,
}

impl View for AssetClass {
    type V = AssetState;

    closed spec fn view(&self) -> AssetState {
        AssetState {
            details: self.details,
            accounts: self.accounts@,
            approvals: self.approvals@,
            metadata: match self.metadata {
                Some(m) => Some(m@),
                None => None,
            },
        }
    }
}

impl Clone for AssetClass {
    /// A copy with the same value.
    fn clone(&self) -> (r: AssetClass)
        ensures
            r@ == self@,
    {
        let metadata = match &self.metadata {
            Some(m) => Some(
                AssetMetadata {
                    deposit: m.deposit,
                    name: m.name.clone(),
                    symbol: m.symbol.clone(),
                    decimals: m.decimals,
                    is_frozen: m.is_frozen,
                },
            ),
            None => None,
        };
        let r = AssetClass {
            details: self.details,
            accounts: self.accounts.clone(),
            approvals: self.approvals.clone(),
            metadata,
        };
        assert(r.accounts@ =~= self.accounts@);
        assert(r.approvals@ =~= self.approvals@);
        r
    }
}

impl AssetClass {
    /// An asset class without records.
    pub(crate) fn new(details: AssetDetails) -> (r: AssetClass)
        ensures
            r@ == AssetState::fresh(details),
    {
        AssetClass { details, accounts: Vec::new(), approvals: Vec::new(), metadata: None }
    }

    /// The registry entry.
    pub(crate) fn details(&self) -> (r: AssetDetails)
        ensures
            r == self@.details,
    {
        self.details
    }

    /// Where the record of `who` stands.
    fn find_account(&self, who: AccountId) -> (r: Option<usize>)
        requires
            distinct(self.accounts@),
        ensures
            match r {
                Some(i) => i < self.accounts.len() && self.accounts@[i as int].who == who
                    && holds(self.accounts@, who) && index_of(self.accounts@, who) == i,
                None => !holds(self.accounts@, who),
            },
    {
        let mut i: usize = 0;
        while i < self.accounts.len()
            invariant
                distinct(self.accounts@),
                i <= self.accounts.len(),
                forall|j: int| 0 <= j < i ==> (#[trigger] self.accounts@[j]).who != who,
            decreases self.accounts.len() - i,
        {
            if self.accounts[i].who == who {
                proof {
                    lemma_index_of(self.accounts@, who, i as int);
                }
                return Some(i);
            }
            i += 1;
        }
        None
    }

    /// Where the approval that `owner` gave `delegate` stands.
    fn find_approval(&self, owner: AccountId, delegate: AccountId) -> (r: Option<usize>)
        requires
            distinct_grants(self.approvals@),
        ensures
            match r {
                Some(i) => i < self.approvals.len() && self.approvals@[i as int].owner == owner
                    && self.approvals@[i as int].delegate == delegate && granted(
                    self.approvals@,
                    owner,
                    delegate,
                ) && grant_index(self.approvals@, owner, delegate) == i,
                None => !granted(self.approvals@, owner, delegate),
            },
    {
        let mut i: usize = 0;
        while i < self.approvals.len()
            invariant
                distinct_grants(self.approvals@),
                i <= self.approvals.len(),
                forall|j: int|
                    0 <= j < i ==> !((#[trigger] self.approvals@[j]).owner == owner
                        && self.approvals@[j].delegate == delegate),
            decreases self.approvals.len() - i,
        {
            if self.approvals[i].owner == owner && self.approvals[i].delegate == delegate {
                proof {
                    lemma_grant_index(self.approvals@, owner, delegate, i as int);
                }
                return Some(i);
            }
            i += 1;
        }
        None
    }

    /// The record of `who`, if there is one.
    pub(crate) fn account(&self, who: AccountId) -> (r: Option<AssetAccount>)
        requires
            self@.structured(),
        ensures
            r == self@.account(who),
    {
        match self.find_account(who) {
            Some(i) => Some(self.accounts[i].account),
            None => None,
        }
    }

    /// The approval that `owner` gave `delegate`, if there is one.
    pub(crate) fn approval(&self, owner: AccountId, delegate: AccountId) -> (r: Option<Approval>)
        requires
            self@.structured(),
        ensures
            r == self@.approval(owner, delegate),
    {
        match self.find_approval(owner, delegate) {
            Some(i) => Some(self.approvals[i].approval),
            None => None,
        }
    }

    /// Whether `amount` may be credited to `who`.
    pub(crate) fn credit_check(
        &self,
        who: AccountId,
        amount: Balance,
        provider: bool,
        minting: bool,
    ) -> (r: Result<(), Error>)
        requires
            self@.structured(),
        ensures
            r == self@.credit_check(who, amount, provider, minting),
    {
        let d = self.details;
        if minting && d.supply.checked_add(amount).is_none() {
            return Err(Error::Overflow);
        }
        match self.account(who) {
            Some(a) => {
                if a.is_frozen {
                    return Err(Error::Frozen);
                }
                match a.balance.checked_add(amount) {
                    None => Err(Error::Overflow),
                    Some(sum) => if 0 < sum && sum < d.min_balance {
                        Err(Error::BelowMinimum)
                    } else {
                        Ok(())
                    },
                }
            },
            None => {
                if amount == 0 || amount < d.min_balance {
                    Err(Error::BelowMinimum)
                } else if !d.is_sufficient && !provider {
                    Err(Error::NoProvider)
                } else if d.accounts == u32::MAX || (d.is_sufficient && d.sufficients
                    == u32::MAX) {
                    Err(Error::Overflow)
                } else {
                    Ok(())
                }
            },
        }
    }

    /// Credits `amount` to `who` and notes for the host what follows from it.
    fn credit(&mut self, who: AccountId, amount: Balance, actions: &mut Vec<Action>)
        requires
            old(self)@.structured(),
            match old(self)@.account(who) {
                Some(a) => a.balance + amount <= Balance::MAX,
                None => old(self)@.details.accounts < u32::MAX && (
                old(self)@.details.is_sufficient ==> old(self)@.details.sufficients < u32::MAX),
            },
        ensures
            final(self)@ == old(self)@.credited(who, amount),
            final(actions)@ == old(actions)@ + old(self)@.credit_actions(who),
    {
        match self.find_account(who) {
            Some(i) => {
                let balance = self.accounts[i].account.balance;
                self.accounts[i].account.balance = balance + amount;
                assert(self.accounts@ =~= old(self).accounts@.update(
                    i as int,
                    Holding {
                        who,
                        account: AssetAccount {
                            balance: (balance + amount) as Balance,
                            ..old(self).accounts@[i as int].account
                        },
                    },
                ));
                assert(actions@ =~= old(actions)@ + old(self)@.credit_actions(who));
            },
            None => {
                let reason = if self.details.is_sufficient {
                    self.details.sufficients = self.details.sufficients + 1;
                    actions.push(Action::IncSufficients { who });
                    ExistenceReason::Sufficient
                } else {
                    actions.push(Action::IncConsumers { who });
                    ExistenceReason::Consumer
                };
                self.details.accounts = self.details.accounts + 1;
                self.accounts.push(
                    Holding {
                        who,
                        account: AssetAccount {
                            balance: amount,
                            is_frozen: false,
                            reason,
                            extra: 0,
                        },
                    },
                );
                assert(actions@ =~= old(actions)@ + old(self)@.credit_actions(who));
            },
        }
    }

    /// What `owner` has to reserve when it approves `delegate`.
    pub(crate) fn approval_due(&self, config: &Config, owner: AccountId, delegate: AccountId) -> (r:
        Balance)
        requires
            self@.structured(),
        ensures
            r == self@.approval_due(*config, owner, delegate),
    {
        let held = match self.approval(owner, delegate) {
            Some(a) => a.deposit,
            None => 0,
        };
        if held < config.approval_deposit {
            config.approval_deposit - held
        } else {
            0
        }
    }

    /// The deposit held for the metadata.
    fn metadata_held(&self) -> (r: Balance)
        ensures
            r == self@.metadata_held(),
    {
        match &self.metadata {
            Some(m) => m.deposit,
            None => 0,
        }
    }

    /// What the owner has to reserve when it sets a name of `name_len` and a
    /// symbol of `symbol_len` bytes.
    pub(crate) fn metadata_due(&self, config: &Config, name_len: usize, symbol_len: usize) -> (r:
        Balance)
        ensures
            r == self@.metadata_due(*config, (name_len + symbol_len) as nat),
    {
        let held = self.metadata_held();
        let deposit = deposit_for_metadata(config, name_len, symbol_len);
        if deposit > held {
            deposit - held
        } else {
            0
        }
    }

    /// What `who` can give.
    pub(crate) fn reducible_balance(&self, who: AccountId, keep_alive: bool) -> (r: Result<
        Balance,
        Error,
    >)
        requires
            self@.structured(),
        ensures
            r == self@.reducible_balance(who, keep_alive),
    {
        if self.details.is_frozen {
            return Err(Error::Frozen);
        }
        match self.account(who) {
            None => Err(Error::NoAccount),
            Some(a) => {
                if a.is_frozen {
                    Err(Error::Frozen)
                } else if !keep_alive {
                    Ok(a.balance)
                } else {
                    Ok(a.balance.saturating_sub(self.details.min_balance))
                }
            },
        }
    }

    /// Whether exactly `amount` can leave `who`, and the dust that would go with it.
    pub(crate) fn can_decrease(&self, who: AccountId, amount: Balance, keep_alive: bool) -> (r:
        Result<Balance, Error>)
        requires
            self@.structured(),
        ensures
            r == self@.can_decrease(who, amount, keep_alive),
    {
        if self.details.is_frozen {
            return Err(Error::Frozen);
        }
        if amount == 0 {
            return Ok(0);
        }
        match self.account(who) {
            None => Err(Error::NoAccount),
            Some(a) => {
                if a.is_frozen {
                    return Err(Error::Frozen);
                }
                match a.balance.checked_sub(amount) {
                    None => Err(Error::BalanceLow),
                    Some(rest) => if rest >= self.details.min_balance {
                        Ok(0)
                    } else if keep_alive {
                        Err(Error::WouldDie)
                    } else {
                        Ok(rest)
                    },
                }
            },
        }
    }

    /// Units that a debit of `amount` takes from `who`.
    fn debit_check(&self, who: AccountId, amount: Balance, f: DebitFlags, unfreeze: bool) -> (r:
        Result<Balance, Error>)
        requires
            self@.structured(),
        ensures
            r == self@.debit_check(who, amount, f, unfreeze),
    {
        match self.account(who) {
            None => Err(Error::NoAccount),
            Some(a) => {
                if a.is_frozen && !unfreeze {
                    return Err(Error::Frozen);
                }
                let floor = self.details.min_balance;
                let reducible = if !f.keep_alive {
                    a.balance
                } else if a.balance >= floor {
                    a.balance - floor
                } else {
                    0
                };
                let actual = if amount <= reducible {
                    amount
                } else {
                    reducible
                };
                if !f.best_effort && actual < amount {
                    Err(Error::BalanceLow)
                } else if actual > 0 && a.balance - actual < floor {
                    Ok(a.balance)
                } else {
                    Ok(actual)
                }
            },
        }
    }

    /// Takes `debit` units from `who`, removes the record where nothing
    /// keeps it, and notes for the host what follows from it.
    fn debit(&mut self, id: AssetId, who: AccountId, debit: Balance, actions: &mut Vec<Action>)
        requires
            old(self)@.structured(),
            old(self)@.account(who) is Some,
            debit <= old(self)@.account(who).unwrap().balance,
        ensures
            final(self)@ == old(self)@.debited(who, debit),
            final(actions)@ == old(actions)@ + old(self)@.debit_actions(id, who, debit),
    {
        proof {
            lemma_debited(self@, who, debit);
        }
        let i = self.find_account(who).unwrap();
        let a = self.accounts[i].account;
        if a.balance == debit && !matches!(a.reason, ExistenceReason::DepositHeld(_)) {
            match a.reason {
                ExistenceReason::Consumer => {
                    actions.push(Action::DecConsumers { who });
                },
                ExistenceReason::Sufficient => {
                    proof {
                        lemma_sum_remove(self.accounts@, i as int, sufficient_of());
                    }
                    self.details.sufficients = self.details.sufficients - 1;
                    actions.push(Action::DecSufficients { who });
                },
                _ => {},
            }
            actions.push(Action::Died { asset: id, who });
            self.details.accounts = self.details.accounts - 1;
            self.accounts.remove(i);
            assert(actions@ =~= old(actions)@ + old(self)@.debit_actions(id, who, debit));
        } else {
            self.accounts[i].account.balance = a.balance - debit;
            assert(self.accounts@ =~= old(self).accounts@.update(
                i as int,
                Holding {
                    who,
                    account: AssetAccount { balance: (a.balance - debit) as Balance, ..a },
                },
            ));
            assert(actions@ =~= old(actions)@ + old(self)@.debit_actions(id, who, debit));
        }
    }
}

/// Deposit that metadata with a name of `name_len` and a symbol of
/// `symbol_len` bytes asks for.
pub(crate) fn deposit_for_metadata(config: &Config, name_len: usize, symbol_len: usize) -> (r:
    Balance)
    ensures
        r == metadata_deposit(*config, (name_len + symbol_len) as nat),
{
    let bytes: u128 = name_len as u128 + symbol_len as u128;
    let per_byte = match config.metadata_deposit_per_byte.checked_mul(bytes) {
        Some(product) => product,
        None => Balance::MAX,
    };
    per_byte.saturating_add(config.metadata_deposit_base)
}

impl AssetClass {
    /// Mints `amount` for `who`.
    pub(crate) fn mint(
        &mut self,
        who: AccountId,
        amount: Balance,
        maybe_check_issuer: Option<AccountId>,
        provider: bool,
    ) -> (r: Result<Vec<Action>, Error>)
        requires
            old(self)@.wf(),
        ensures
            took(
                old(self)@.mint(who, amount, maybe_check_issuer, provider),
                old(self)@,
                final(self)@,
                r,
            ),
            final(self)@.wf(),
    {
        proof {
            lemma_mint(self@, who, amount, maybe_check_issuer, provider);
        }
        if let Some(issuer) = maybe_check_issuer {
            if issuer != self.details.issuer {
                return Err(Error::NoPermission);
            }
            if self.details.is_frozen {
                return Err(Error::Frozen);
            }
        }
        if let Err(e) = self.credit_check(who, amount, provider, true) {
            return Err(e);
        }
        let mut actions: Vec<Action> = Vec::new();
        self.credit(who, amount, &mut actions);
        self.details.supply = self.details.supply + amount;
        assert(actions@ =~= old(self)@.credit_actions(who));
        Ok(actions)
    }

    /// Burns up to `amount` of `who`'s holding and says how much it burned.
    pub(crate) fn burn(
        &mut self,
        id: AssetId,
        who: AccountId,
        amount: Balance,
        maybe_check_admin: Option<AccountId>,
        f: DebitFlags,
    ) -> (r: Result<(Balance, Vec<Action>), Error>)
        requires
            old(self)@.wf(),
        ensures
            took_amount(
                old(self)@.burn(id, who, amount, maybe_check_admin, f),
                old(self)@,
                final(self)@,
                r,
            ),
            final(self)@.wf(),
    {
        proof {
            lemma_burn(self@, id, who, amount, maybe_check_admin, f);
        }
        if let Some(admin) = maybe_check_admin {
            if admin != self.details.admin {
                return Err(Error::NoPermission);
            }
        }
        if self.details.is_frozen {
            return Err(Error::Frozen);
        }
        let debit = match self.debit_check(who, amount, f, false) {
            Ok(debit) => debit,
            Err(e) => {
                return Err(e);
            },
        };
        let mut actions: Vec<Action> = Vec::new();
        self.debit(id, who, debit, &mut actions);
        self.details.supply = self.details.supply - debit;
        assert(actions@ =~= old(self)@.debit_actions(id, who, debit));
        Ok((debit, actions))
    }

    /// Moves `amount` from `source` to `dest` and says how much `dest` received.
    pub(crate) fn transfer(
        &mut self,
        id: AssetId,
        source: AccountId,
        dest: AccountId,
        amount: Balance,
        authority: Authority,
        f: TransferFlags,
        provider: bool,
    ) -> (r: Result<(Balance, Vec<Action>), Error>)
        requires
            old(self)@.wf(),
        ensures
            took_amount(
                old(self)@.transfer(id, source, dest, amount, authority, f, provider),
                old(self)@,
                final(self)@,
                r,
            ),
            final(self)@.wf(),
    {
        proof {
            lemma_transfer(self@, id, source, dest, amount, authority, f, provider);
        }
        if let Authority::Admin(admin) = authority {
            if admin != self.details.admin {
                return Err(Error::NoPermission);
            }
        }
        if self.details.is_frozen && !(authority == Authority::Privileged && self.details.status
            == AssetStatus::Destroying) {
            return Err(Error::Frozen);
        }
        let flags = DebitFlags { keep_alive: f.keep_alive, best_effort: f.best_effort };
        let debit = match self.debit_check(source, amount, flags, authority != Authority::Holder) {
            Ok(debit) => debit,
            Err(e) => {
                return Err(e);
            },
        };
        let credit = if f.burn_dust && debit >= amount {
            amount
        } else {
            debit
        };
        if let Err(e) = self.credit_check(dest, credit, provider, false) {
            return Err(e);
        }
        let mut actions: Vec<Action> = Vec::new();
        if source == dest {
            return Ok((credit, actions));
        }
        proof {
            let a = self@.account(source).unwrap();
            lemma_debit_of(a.balance, self@.details.min_balance, amount, flags);
            lemma_debited(self@, source, debit);
        }
        self.details.supply = self.details.supply - (debit - credit);
        proof {
            lemma_credited(self@, dest, credit, provider, false);
        }
        self.credit(dest, credit, &mut actions);
        self.debit(id, source, debit, &mut actions);
        assert(actions@ =~= old(self)@.credit_actions(dest) + old(self)@.debit_actions(
            id,
            source,
            debit,
        ));
        Ok((credit, actions))
    }

    /// Adds `amount` to what `owner` lets `delegate` move.
    pub(crate) fn approve_transfer(
        &mut self,
        config: &Config,
        owner: AccountId,
        delegate: AccountId,
        amount: Balance,
        funded: bool,
    ) -> (r: Result<Vec<Action>, Error>)
        requires
            old(self)@.wf(),
        ensures
            took(
                old(self)@.approve_transfer(*config, owner, delegate, amount, funded),
                old(self)@,
                final(self)@,
                r,
            ),
            final(self)@.wf(),
    {
        proof {
            lemma_approve_transfer(self@, *config, owner, delegate, amount, funded);
        }
        if self.details.is_frozen {
            return Err(Error::Frozen);
        }
        let found = self.find_approval(owner, delegate);
        let before = match found {
            Some(i) => self.approvals[i].approval,
            None => Approval { amount: 0, deposit: 0 },
        };
        if found.is_none() && self.details.approvals == u32::MAX {
            return Err(Error::Overflow);
        }
        let due = if before.deposit < config.approval_deposit {
            config.approval_deposit - before.deposit
        } else {
            0
        };
        if due > 0 && !funded {
            return Err(Error::Currency);
        }
        let after = Approval {
            amount: before.amount.saturating_add(amount),
            deposit: if due > 0 {
                config.approval_deposit
            } else {
                before.deposit
            },
        };
        match found {
            Some(i) => {
                self.approvals[i].approval = after;
                assert(self.approvals@ =~= old(self).approvals@.update(
                    i as int,
                    Grant { owner, delegate, approval: after },
                ));
            },
            None => {
                self.details.approvals = self.details.approvals + 1;
                self.approvals.push(Grant { owner, delegate, approval: after });
            },
        }
        let mut actions: Vec<Action> = Vec::new();
        if due > 0 {
            actions.push(Action::Reserve { who: owner, amount: due });
        }
        assert(actions@ =~= old(self)@.approve_transfer(
            *config,
            owner,
            delegate,
            amount,
            funded,
        ).unwrap().actions);
        Ok(actions)
    }

    /// Removes the approval at `i` and counts it out.
    fn remove_approval(&mut self, i: usize) -> (r: Approval)
        requires
            old(self)@.structured(),
            i < old(self).approvals.len(),
        ensures
            r == old(self).approvals@[i as int].approval,
            final(self)@ == old(self)@.drop_approval(
                old(self).approvals@[i as int].owner,
                old(self).approvals@[i as int].delegate,
            ),
    {
        proof {
            lemma_grant_index(
                self.approvals@,
                self.approvals@[i as int].owner,
                self.approvals@[i as int].delegate,
                i as int,
            );
        }
        let g = self.approvals.remove(i);
        self.details.approvals = self.details.approvals - 1;
        g.approval
    }

    /// Removes the approval that `owner` gave `delegate`, on behalf of `origin`.
    pub(crate) fn force_cancel_approval(
        &mut self,
        origin: Origin,
        owner: AccountId,
        delegate: AccountId,
    ) -> (r: Result<Vec<Action>, Error>)
        requires
            old(self)@.wf(),
        ensures
            took(
                old(self)@.force_cancel_approval(origin, owner, delegate),
                old(self)@,
                final(self)@,
                r,
            ),
            final(self)@.wf(),
    {
        proof {
            lemma_cancel_approval(self@, origin, owner, delegate);
        }
        if let Origin::Signed(caller) = origin {
            if caller != self.details.admin {
                return Err(Error::NoPermission);
            }
        }
        self.cancel_approval(owner, delegate)
    }

    /// Removes the approval that `owner` gave `delegate`.
    pub(crate) fn cancel_approval(&mut self, owner: AccountId, delegate: AccountId) -> (r: Result<
        Vec<Action>,
        Error,
    >)
        requires
            old(self)@.wf(),
        ensures
            took(old(self)@.cancel_approval(owner, delegate), old(self)@, final(self)@, r),
            final(self)@.wf(),
    {
        proof {
            lemma_cancel_approval(self@, Origin::Root, owner, delegate);
        }
        match self.find_approval(owner, delegate) {
            None => Err(Error::Unknown),
            Some(i) => {
                let a = self.remove_approval(i);
                let mut actions: Vec<Action> = Vec::new();
                actions.push(Action::Unreserve { who: owner, amount: a.deposit });
                assert(actions@ =~= seq![Action::Unreserve { who: owner, amount: a.deposit }]);
                Ok(actions)
            },
        }
    }

    /// Lets `delegate` move `amount` of `owner`'s holding to `dest`.
    pub(crate) fn transfer_approved(
        &mut self,
        id: AssetId,
        owner: AccountId,
        delegate: AccountId,
        dest: AccountId,
        amount: Balance,
        provider: bool,
    ) -> (r: Result<(Balance, Vec<Action>), Error>)
        requires
            old(self)@.wf(),
        ensures
            took_amount(
                old(self)@.transfer_approved(id, owner, delegate, dest, amount, provider),
                old(self)@,
                final(self)@,
                r,
            ),
            final(self)@.wf(),
    {
        let flags = TransferFlags { keep_alive: false, best_effort: false, burn_dust: false };
        proof {
            lemma_transfer_approved(self@, id, owner, delegate, dest, amount, provider);
            lemma_transfer(self@, id, owner, dest, amount, Authority::Holder, flags, provider);
        }
        let i = match self.find_approval(owner, delegate) {
            None => {
                return Err(Error::Unapproved);
            },
            Some(i) => i,
        };
        let a = self.approvals[i].approval;
        if a.amount < amount {
            return Err(Error::Unapproved);
        }
        let (moved, mut actions) = match self.transfer(
            id,
            owner,
            dest,
            amount,
            Authority::Holder,
            flags,
            provider,
        ) {
            Ok(done) => done,
            Err(e) => {
                return Err(e);
            },
        };
        if a.amount == amount {
            let _ = self.remove_approval(i);
            actions.push(Action::Unreserve { who: owner, amount: a.deposit });
        } else {
            self.approvals[i].approval.amount = a.amount - amount;
            assert(self.approvals@ =~= old(self).approvals@.update(
                i as int,
                Grant {
                    owner,
                    delegate,
                    approval: Approval { amount: (a.amount - amount) as Balance, ..a },
                },
            ));
        }
        Ok((moved, actions))
    }

    /// Sets the freeze of `who`'s record to `frozen`; `frozen` also picks the
    /// role that `caller` must hold: the freezer freezes, the admin thaws.
    pub(crate) fn set_frozen(&mut self, caller: AccountId, who: AccountId, frozen: bool) -> (r:
        Result<Vec<Action>, Error>)
        requires
            old(self)@.wf(),
        ensures
            took(
                if frozen {
                    old(self)@.freeze(caller, who)
                } else {
                    old(self)@.thaw(caller, who)
                },
                old(self)@,
                final(self)@,
                r,
            ),
            final(self)@.wf(),
    {
        let role = if frozen {
            self.details.freezer
        } else {
            self.details.admin
        };
        proof {
            lemma_set_frozen(self@, caller, role, who, frozen);
        }
        if caller != role {
            return Err(Error::NoPermission);
        }
        match self.find_account(who) {
            None => Err(Error::NoAccount),
            Some(i) => {
                self.accounts[i].account.is_frozen = frozen;
                assert(self.accounts@ =~= old(self).accounts@.update(
                    i as int,
                    Holding {
                        who,
                        account: AssetAccount {
                            is_frozen: frozen,
                            ..old(self).accounts@[i as int].account
                        },
                    },
                ));
                Ok(Vec::new())
            },
        }
    }

    /// Sets the asset-wide freeze to `frozen`; `frozen` also picks the role
    /// that `caller` must hold: the freezer freezes, the admin thaws.
    pub(crate) fn set_asset_frozen(&mut self, caller: AccountId, frozen: bool) -> (r: Result<
        Vec<Action>,
        Error,
    >)
        requires
            old(self)@.wf(),
        ensures
            took(
                if frozen {
                    old(self)@.freeze_asset(caller)
                } else {
                    old(self)@.thaw_asset(caller)
                },
                old(self)@,
                final(self)@,
                r,
            ),
            final(self)@.wf(),
    {
        proof {
            lemma_registry(
                self@,
                no_config(),
                Origin::Root,
                caller,
                0,
                0,
                0,
                Seq::empty(),
                Seq::empty(),
                0,
                false,
            );
        }
        let role = if frozen {
            self.details.freezer
        } else {
            self.details.admin
        };
        if caller != role {
            return Err(Error::NoPermission);
        }
        if !frozen && self.details.status == AssetStatus::Destroying {
            return Err(Error::AssetNotLive);
        }
        self.details.is_frozen = frozen;
        Ok(Vec::new())
    }
}

/// The constants that a step without deposits is held against.
spec fn no_config() -> Config {
    Config {
        remove_keys_limit: 0,
        asset_deposit: 0,
        asset_account_deposit: 0,
        metadata_deposit_base: 0,
        metadata_deposit_per_byte: 0,
        approval_deposit: 0,
        string_limit: 0,
    }
}

impl AssetClass {
    /// Hands the asset to `owner`.
    pub(crate) fn transfer_ownership(&mut self, caller: AccountId, owner: AccountId, funded: bool)
        -> (r: Result<Vec<Action>, Error>)
        requires
            old(self)@.wf(),
        ensures
            took(
                old(self)@.transfer_ownership(caller, owner, funded),
                old(self)@,
                final(self)@,
                r,
            ),
            final(self)@.wf(),
    {
        proof {
            lemma_registry(
                self@,
                no_config(),
                Origin::Root,
                caller,
                owner,
                0,
                0,
                Seq::empty(),
                Seq::empty(),
                0,
                funded,
            );
        }
        if caller != self.details.owner {
            return Err(Error::NoPermission);
        }
        let mut actions: Vec<Action> = Vec::new();
        if owner == self.details.owner {
            return Ok(actions);
        }
        let held = self.metadata_held();
        let deposit = match self.details.deposit.checked_add(held) {
            Some(sum) => sum,
            None => {
                return Err(Error::Overflow);
            },
        };
        if !funded {
            return Err(Error::Currency);
        }
        actions.push(Action::Repatriate { from: self.details.owner, to: owner, amount: deposit });
        self.details.owner = owner;
        assert(actions@ =~= old(self)@.transfer_ownership(caller, owner, funded).unwrap().actions);
        Ok(actions)
    }

    /// Appoints issuer, admin and freezer.
    pub(crate) fn set_team(
        &mut self,
        caller: AccountId,
        issuer: AccountId,
        admin: AccountId,
        freezer: AccountId,
    ) -> (r: Result<Vec<Action>, Error>)
        requires
            old(self)@.wf(),
        ensures
            took(old(self)@.set_team(caller, issuer, admin, freezer), old(self)@, final(self)@, r),
            final(self)@.wf(),
    {
        proof {
            lemma_registry(
                self@,
                no_config(),
                Origin::Root,
                caller,
                issuer,
                admin,
                freezer,
                Seq::empty(),
                Seq::empty(),
                0,
                false,
            );
        }
        if caller != self.details.owner {
            return Err(Error::NoPermission);
        }
        self.details.issuer = issuer;
        self.details.admin = admin;
        self.details.freezer = freezer;
        Ok(Vec::new())
    }

    /// Whether every holding is zero or at least `floor`.
    fn holdings_reach(&self, floor: Balance) -> (r: bool)
        ensures
            r == above_floor(self.accounts@, floor),
    {
        let mut i: usize = 0;
        while i < self.accounts.len()
            invariant
                i <= self.accounts.len(),
                forall|j: int|
                    0 <= j < i ==> (#[trigger] self.accounts@[j]).account.balance == 0
                        || self.accounts@[j].account.balance >= floor,
            decreases self.accounts.len() - i,
        {
            let balance = self.accounts[i].account.balance;
            if balance != 0 && balance < floor {
                return false;
            }
            i += 1;
        }
        true
    }

    /// Overwrites roles, minimum balance, sufficiency and freeze of the asset.
    pub(crate) fn force_asset_status(
        &mut self,
        owner: AccountId,
        issuer: AccountId,
        admin: AccountId,
        freezer: AccountId,
        min_balance: Balance,
        is_sufficient: bool,
        is_frozen: bool,
    ) -> (r: Result<Vec<Action>, Error>)
        requires
            old(self)@.wf(),
        ensures
            took(
                old(self)@.force_asset_status(
                    owner,
                    issuer,
                    admin,
                    freezer,
                    min_balance,
                    is_sufficient,
                    is_frozen,
                ),
                old(self)@,
                final(self)@,
                r,
            ),
            final(self)@.wf(),
    {
        proof {
            lemma_force_asset_status(
                self@,
                owner,
                issuer,
                admin,
                freezer,
                min_balance,
                is_sufficient,
                is_frozen,
            );
        }
        if min_balance == 0 {
            return Err(Error::MinBalanceZero);
        }
        if !self.holdings_reach(min_balance) {
            return Err(Error::BelowMinimum);
        }
        if self.details.status == AssetStatus::Destroying && !is_frozen {
            return Err(Error::AssetNotLive);
        }
        self.details.owner = owner;
        self.details.issuer = issuer;
        self.details.admin = admin;
        self.details.freezer = freezer;
        self.details.min_balance = min_balance;
        self.details.is_sufficient = is_sufficient;
        self.details.is_frozen = is_frozen;
        Ok(Vec::new())
    }

    /// Sets the metadata on behalf of the owner.
    pub(crate) fn set_metadata(
        &mut self,
        config: &Config,
        caller: AccountId,
        name: Vec<u8>,
        symbol: Vec<u8>,
        decimals: u8,
        funded: bool,
    ) -> (r: Result<Vec<Action>, Error>)
        requires
            old(self)@.wf(),
        ensures
            took(
                old(self)@.set_metadata(*config, caller, name@, symbol@, decimals, funded),
                old(self)@,
                final(self)@,
                r,
            ),
            final(self)@.wf(),
    {
        proof {
            lemma_registry(
                self@,
                *config,
                Origin::Root,
                caller,
                0,
                0,
                0,
                name@,
                symbol@,
                decimals,
                funded,
            );
        }
        if caller != self.details.owner {
            return Err(Error::NoPermission);
        }
        let held = match &self.metadata {
            Some(m) => {
                if m.is_frozen {
                    return Err(Error::NoPermission);
                }
                m.deposit
            },
            None => 0,
        };
        let deposit = deposit_for_metadata(config, name.len(), symbol.len());
        let mut actions: Vec<Action> = Vec::new();
        if deposit > held {
            if !funded {
                return Err(Error::Currency);
            }
            actions.push(Action::Reserve { who: caller, amount: deposit - held });
        } else {
            actions.push(Action::Unreserve { who: caller, amount: held - deposit });
        }
        self.metadata = Some(AssetMetadata { deposit, name, symbol, decimals, is_frozen: false });
        assert(actions@ =~= old(self)@.set_metadata(
            *config,
            caller,
            name@,
            symbol@,
            decimals,
            funded,
        ).unwrap().actions);
        Ok(actions)
    }

    /// Sets the metadata on behalf of the privileged origin.
    pub(crate) fn force_set_metadata(
        &mut self,
        name: Vec<u8>,
        symbol: Vec<u8>,
        decimals: u8,
        is_frozen: bool,
    ) -> (r: Result<Vec<Action>, Error>)
        requires
            old(self)@.wf(),
        ensures
            took(
                old(self)@.force_set_metadata(name@, symbol@, decimals, is_frozen),
                old(self)@,
                final(self)@,
                r,
            ),
            final(self)@.wf(),
    {
        proof {
            lemma_registry(
                self@,
                no_config(),
                Origin::Root,
                0,
                0,
                0,
                0,
                name@,
                symbol@,
                decimals,
                is_frozen,
            );
        }
        let deposit = self.metadata_held();
        self.metadata = Some(AssetMetadata { deposit, name, symbol, decimals, is_frozen });
        Ok(Vec::new())
    }

    /// Removes the metadata, on behalf of `origin`.
    pub(crate) fn clear_metadata(&mut self, origin: Origin) -> (r: Result<Vec<Action>, Error>)
        requires
            old(self)@.wf(),
        ensures
            took(old(self)@.clear_metadata(origin), old(self)@, final(self)@, r),
            final(self)@.wf(),
    {
        proof {
            lemma_registry(
                self@,
                no_config(),
                origin,
                0,
                0,
                0,
                0,
                Seq::empty(),
                Seq::empty(),
                0,
                false,
            );
        }
        if let Origin::Signed(caller) = origin {
            if caller != self.details.owner {
                return Err(Error::NoPermission);
            }
        }
        let deposit = match &self.metadata {
            Some(m) => m.deposit,
            None => {
                return Err(Error::Unknown);
            },
        };
        self.metadata = None;
        let mut actions: Vec<Action> = Vec::new();
        actions.push(Action::Unreserve { who: self.details.owner, amount: deposit });
        assert(actions@ =~= old(self)@.clear_metadata(origin).unwrap().actions);
        Ok(actions)
    }

    /// Gives `who` an empty record against a deposit.
    pub(crate) fn touch(&mut self, config: &Config, who: AccountId, funded: bool) -> (r: Result<
        Vec<Action>,
        Error,
    >)
        requires
            old(self)@.wf(),
        ensures
            took(old(self)@.touch(*config, who, funded), old(self)@, final(self)@, r),
            final(self)@.wf(),
    {
        proof {
            lemma_touch(self@, *config, who, funded);
        }
        if self.find_account(who).is_some() {
            return Err(Error::AlreadyExists);
        }
        if self.details.accounts == u32::MAX {
            return Err(Error::Overflow);
        }
        if !funded {
            return Err(Error::Currency);
        }
        let deposit = config.asset_account_deposit;
        self.details.accounts = self.details.accounts + 1;
        self.accounts.push(
            Holding {
                who,
                account: AssetAccount {
                    balance: 0,
                    is_frozen: false,
                    reason: ExistenceReason::DepositHeld(deposit),
                    extra: 0,
                },
            },
        );
        let mut actions: Vec<Action> = Vec::new();
        actions.push(Action::Reserve { who, amount: deposit });
        assert(actions@ =~= old(self)@.touch(*config, who, funded).unwrap().actions);
        Ok(actions)
    }

    /// Gives back the deposit of `who`'s record and removes the record.
    pub(crate) fn refund(&mut self, id: AssetId, who: AccountId, allow_burn: bool) -> (r: Result<
        Vec<Action>,
        Error,
    >)
        requires
            old(self)@.wf(),
        ensures
            took(old(self)@.refund(id, who, allow_burn), old(self)@, final(self)@, r),
            final(self)@.wf(),
    {
        proof {
            lemma_refund(self@, id, who, allow_burn);
        }
        let i = match self.find_account(who) {
            Some(i) => i,
            None => {
                return Err(Error::NoDeposit);
            },
        };
        let mut a = self.accounts[i].account;
        let deposit = match a.reason.take_deposit() {
            Some(deposit) => deposit,
            None => {
                return Err(Error::NoDeposit);
            },
        };
        if a.balance != 0 && !allow_burn {
            return Err(Error::WouldBurn);
        }
        if self.details.is_frozen || a.is_frozen {
            return Err(Error::Frozen);
        }
        self.details.accounts = self.details.accounts - 1;
        self.details.supply = self.details.supply - a.balance;
        self.accounts.remove(i);
        let mut actions: Vec<Action> = Vec::new();
        actions.push(Action::Unreserve { who, amount: deposit });
        actions.push(Action::Died { asset: id, who });
        assert(actions@ =~= old(self)@.refund(id, who, allow_burn).unwrap().actions);
        Ok(actions)
    }

    /// Whether `origin` may take the asset apart.
    fn may_destroy(&self, origin: Origin) -> (r: bool)
        ensures
            r == self@.may_destroy(origin),
    {
        match origin {
            Origin::Root => true,
            Origin::Signed(caller) => caller == self.details.owner,
        }
    }

    /// Opens the destruction of a frozen asset.
    pub(crate) fn start_destroy(&mut self, origin: Origin) -> (r: Result<Vec<Action>, Error>)
        requires
            old(self)@.wf(),
        ensures
            took(old(self)@.start_destroy(origin), old(self)@, final(self)@, r),
            final(self)@.wf(),
    {
        proof {
            lemma_registry(
                self@,
                no_config(),
                origin,
                0,
                0,
                0,
                0,
                Seq::empty(),
                Seq::empty(),
                0,
                false,
            );
        }
        if !self.may_destroy(origin) {
            return Err(Error::NoPermission);
        }
        if !self.details.is_frozen {
            return Err(Error::BadWitness);
        }
        self.details.status = AssetStatus::Destroying;
        Ok(Vec::new())
    }

    /// Removes the newest account records of an asset that is being
    /// destroyed, takes what they held from the supply, and says how many it
    /// removed and how many are left.
    pub(crate) fn destroy_accounts(&mut self, id: AssetId, origin: Origin, limit: u32) -> (r:
        Result<(u32, u32, Vec<Action>), Error>)
        requires
            old(self)@.wf(),
        ensures
            took_records(
                old(self)@.destroy_accounts(id, origin, limit),
                final(self)@.details.accounts,
                old(self)@,
                final(self)@,
                r,
            ),
            final(self)@.wf(),
    {
        proof {
            lemma_destroy_accounts(self@, id, origin, limit);
        }
        if !self.may_destroy(origin) {
            return Err(Error::NoPermission);
        }
        if !self.details.is_frozen {
            return Err(Error::BadWitness);
        }
        if self.details.status != AssetStatus::Destroying {
            return Err(Error::LiveAsset);
        }
        let ghost before = self.accounts@;
        let mut actions: Vec<Action> = Vec::new();
        let mut removed: u32 = 0;
        assert(before.skip(before.len() as int) =~= Seq::empty());
        assert(before.take(before.len() as int) =~= before);
        while self.accounts.len() > 0 && removed < limit
            invariant
                before == old(self).accounts@,
                old(self)@.structured(),
                removed <= before.len(),
                removed <= limit,
                self.accounts@ == before.take(before.len() - removed),
                actions@ == drain_actions(id, before.skip(before.len() - removed)),
                self.details == (AssetDetails {
                    supply: total_balance(self.accounts@) as Balance,
                    accounts: (old(self).details.accounts - removed) as u32,
                    sufficients: sufficient_count(self.accounts@) as u32,
                    ..old(self).details
                }),
                sufficient_count(self.accounts@) <= u32::MAX,
                total_balance(self.accounts@) <= Balance::MAX,
                self.approvals == old(self).approvals,
                self.metadata == old(self).metadata,
            decreases self.accounts.len(),
        {
            let ghost now = self.accounts@;
            let h = self.accounts.pop().unwrap();
            proof {
                let m = before.len() - removed - 1;
                assert(self.accounts@ =~= before.take(m));
                assert(now.drop_last() =~= self.accounts@);
                lemma_drain_front(id, before.skip(m));
                assert(before.skip(m).skip(1) =~= before.skip(m + 1));
                assert(before.skip(m)[0] == h);
            }
            match h.account.reason {
                ExistenceReason::Consumer => {
                    actions.push(Action::DecConsumers { who: h.who });
                },
                ExistenceReason::Sufficient => {
                    self.details.sufficients = self.details.sufficients - 1;
                    actions.push(Action::DecSufficients { who: h.who });
                },
                ExistenceReason::DepositHeld(amount) => {
                    actions.push(Action::Unreserve { who: h.who, amount });
                },
                ExistenceReason::DepositRefunded => {},
            }
            actions.push(Action::Died { asset: id, who: h.who });
            self.details.supply = self.details.supply - h.account.balance;
            self.details.accounts = self.details.accounts - 1;
            removed = removed + 1;
            assert(actions@ =~= drain_actions(id, before.skip(before.len() - removed)));
        }
        assert(removed == drain_count(before.len(), limit));
        proof {
            lemma_sum_split(before, before.len() - removed, balance_of());
        }
        Ok((removed, self.details.accounts, actions))
    }

    /// Removes the newest approvals of an asset that is being destroyed, and
    /// says how many it removed and how many are left.
    pub(crate) fn destroy_approvals(&mut self, origin: Origin, limit: u32) -> (r: Result<
        (u32, u32, Vec<Action>),
        Error,
    >)
        requires
            old(self)@.wf(),
        ensures
            took_records(
                old(self)@.destroy_approvals(origin, limit),
                final(self)@.details.approvals,
                old(self)@,
                final(self)@,
                r,
            ),
            final(self)@.wf(),
    {
        proof {
            lemma_destroy_approvals(self@, origin, limit);
        }
        if !self.may_destroy(origin) {
            return Err(Error::NoPermission);
        }
        if !self.details.is_frozen {
            return Err(Error::BadWitness);
        }
        if self.details.status != AssetStatus::Destroying {
            return Err(Error::LiveAsset);
        }
        let ghost before = self.approvals@;
        let mut actions: Vec<Action> = Vec::new();
        let mut removed: u32 = 0;
        assert(before.skip(before.len() as int) =~= Seq::empty());
        assert(before.take(before.len() as int) =~= before);
        while self.approvals.len() > 0 && removed < limit
            invariant
                before == old(self).approvals@,
                old(self)@.structured(),
                removed <= before.len(),
                removed <= limit,
                self.approvals@ == before.take(before.len() - removed),
                actions@ == release_actions(before.skip(before.len() - removed)),
                self.details == (AssetDetails {
                    approvals: (old(self).details.approvals - removed) as u32,
                    ..old(self).details
                }),
                self.accounts == old(self).accounts,
                self.metadata == old(self).metadata,
            decreases self.approvals.len(),
        {
            let g = self.approvals.pop().unwrap();
            proof {
                let m = before.len() - removed - 1;
                assert(self.approvals@ =~= before.take(m));
                lemma_release_front(before.skip(m));
                assert(before.skip(m).skip(1) =~= before.skip(m + 1));
                assert(before.skip(m)[0] == g);
            }
            actions.push(Action::Unreserve { who: g.owner, amount: g.approval.deposit });
            self.details.approvals = self.details.approvals - 1;
            removed = removed + 1;
        }
        assert(removed == drain_count(before.len(), limit));
        Ok((removed, self.details.approvals, actions))
    }

    /// Whether the asset may leave the ledger, and which deposit goes back to
    /// the owner with it.
    pub(crate) fn finish_destroy(&self, origin: Origin) -> (r: Result<Vec<Action>, Error>)
        requires
            self@.wf(),
        ensures
            took(self@.finish_destroy(origin), self@, self@, r),
    {
        if !self.may_destroy(origin) {
            return Err(Error::NoPermission);
        }
        if self.details.accounts != 0 || self.details.approvals != 0 {
            return Err(Error::InUse);
        }
        if !self.details.is_frozen {
            return Err(Error::BadWitness);
        }
        if self.details.status != AssetStatus::Destroying {
            return Err(Error::LiveAsset);
        }
        let held = self.metadata_held();
        let mut actions: Vec<Action> = Vec::new();
        actions.push(
            Action::Unreserve {
                who: self.details.owner,
                amount: self.details.deposit.saturating_add(held),
            },
        );
        assert(actions@ =~= self@.finish_destroy(origin).unwrap().actions);
        Ok(actions)
    }

    /// A copy of the metadata, where some was set.
    pub(crate) fn metadata(&self) -> (r: Option<AssetMetadata>)
        ensures
            match r {
                Some(m) => self@.metadata == Some(m@),
                None => self@.metadata is None,
            },
    {
        match &self.metadata {
            Some(m) => Some(
                AssetMetadata {
                    deposit: m.deposit,
                    name: m.name.clone(),
                    symbol: m.symbol.clone(),
                    decimals: m.decimals,
                    is_frozen: m.is_frozen,
                },
            ),
            None => None,
        }
    }
}

} // verus!
