//! The operations on one asset class, as functions of its value.
//!
//! Each function gives, for an asset class that exists, either the error the
//! operation is refused with or the [`Step`] it takes. Whether the asset
//! exists, and of what kind the origin must be, is settled one level up, in
//! the operations of the ledger.

use vstd::prelude::*;
use crate::types::{
    AccountId, Action, Approval, AssetAccount, AssetDetails, AssetId, AssetStatus, Authority,
    Balance, Config, DebitFlags, Error, ExistenceReason, Grant, Holding, MetadataView, Origin,
    TransferFlags,
};
use crate::records::{above_floor, index_of, sufficient_count, total_balance};
use crate::model::{
    drain_actions, drain_count, metadata_deposit, release_actions, saturating_sum, AssetState,
    Step,
};

verus! {

impl AssetState {
    /// A step that changes the asset class and tells the host nothing.
    pub open spec fn quiet(state: AssetState) -> Result<Step, Error> {
        Ok(Step { state, actions: Seq::empty(), amount: 0 })
    }

    /// What `who` can give: the whole holding, or what lies above the
    /// minimum balance where the account must stay alive.
    pub open spec fn reducible_balance(self, who: AccountId, keep_alive: bool) -> Result<
        Balance,
        Error,
    > {
        if self.details.is_frozen {
            Err(Error::Frozen)
        } else {
            match self.account(who) {
                None => Err(Error::NoAccount),
                Some(a) => if a.is_frozen {
                    Err(Error::Frozen)
                } else if !keep_alive {
                    Ok(a.balance)
                } else if a.balance >= self.details.min_balance {
                    Ok((a.balance - self.details.min_balance) as Balance)
                } else {
                    Ok(0)
                },
            }
        }
    }

    /// Whether exactly `amount` can leave `who`, and the dust that would go
    /// with it because it would be left under the minimum balance.
    pub open spec fn can_decrease(self, who: AccountId, amount: Balance, keep_alive: bool)
        -> Result<Balance, Error> {
        if self.details.is_frozen {
            Err(Error::Frozen)
        } else if amount == 0 {
            Ok(0)
        } else {
            match self.account(who) {
                None => Err(Error::NoAccount),
                Some(a) => if a.is_frozen {
                    Err(Error::Frozen)
                } else if a.balance < amount {
                    Err(Error::BalanceLow)
                } else if a.balance - amount >= self.details.min_balance {
                    Ok(0)
                } else if keep_alive {
                    Err(Error::WouldDie)
                } else {
                    Ok((a.balance - amount) as Balance)
                },
            }
        }
    }

    /// Mints `amount` for `who`. A check of the issuer is left out for the
    /// privileged origin, and with it the asset-wide freeze.
    pub open spec fn mint(
        self,
        who: AccountId,
        amount: Balance,
        maybe_check_issuer: Option<AccountId>,
        provider: bool,
    ) -> Result<Step, Error> {
        if maybe_check_issuer is Some && maybe_check_issuer != Some(self.details.issuer) {
            Err(Error::NoPermission)
        } else if self.details.is_frozen && maybe_check_issuer is Some {
            Err(Error::Frozen)
        } else {
            match self.credit_check(who, amount, provider, true) {
                Err(e) => Err(e),
                Ok(_) => Ok(
                    Step {
                        state: self.credited(who, amount).with_supply(
                            (self.details.supply + amount) as Balance,
                        ),
                        actions: self.credit_actions(who),
                        amount,
                    },
                ),
            }
        }
    }

    /// Burns up to `amount` of `who`'s holding; the step's amount is what was burned.
    pub open spec fn burn(
        self,
        id: AssetId,
        who: AccountId,
        amount: Balance,
        maybe_check_admin: Option<AccountId>,
        f: DebitFlags,
    ) -> Result<Step, Error> {
        if maybe_check_admin is Some && maybe_check_admin != Some(self.details.admin) {
            Err(Error::NoPermission)
        } else if self.details.is_frozen {
            Err(Error::Frozen)
        } else {
            match self.debit_check(who, amount, f, false) {
                Err(e) => Err(e),
                Ok(debit) => Ok(
                    Step {
                        state: self.debited(who, debit).with_supply(
                            (self.details.supply - debit) as Balance,
                        ),
                        actions: self.debit_actions(id, who, debit),
                        amount: debit,
                    },
                ),
            }
        }
    }

    /// Whether the asset-wide freeze stops a transfer made with `authority`.
    pub open spec fn blocks(self, authority: Authority) -> bool {
        self.details.is_frozen && !(authority == Authority::Privileged && self.details.status
            == AssetStatus::Destroying)
    }

    /// Moves `amount` from `source` to `dest`; the step's amount is what `dest` received.
    ///
    /// The debit may take more than `amount` where dust would be left. What
    /// `dest` receives is the debit, or, with `burn_dust`, no more than
    /// `amount`, the rest leaving the supply.
    pub open spec fn transfer(
        self,
        id: AssetId,
        source: AccountId,
        dest: AccountId,
        amount: Balance,
        authority: Authority,
        f: TransferFlags,
        provider: bool,
    ) -> Result<Step, Error> {
        if authority matches Authority::Admin(admin) && admin != self.details.admin {
            Err(Error::NoPermission)
        } else if self.blocks(authority) {
            Err(Error::Frozen)
        } else {
            match self.debit_check(source, amount, f.debit(), authority != Authority::Holder) {
                Err(e) => Err(e),
                Ok(debit) => {
                    let credit = if f.burn_dust && debit >= amount {
                        amount
                    } else {
                        debit
                    };
                    let burn = (debit - credit) as Balance;
                    match self.credit_check(dest, credit, provider, false) {
                        Err(e) => Err(e),
                        Ok(_) => if source == dest {
                            Ok(Step { state: self, actions: Seq::empty(), amount: credit })
                        } else {
                            Ok(
                                Step {
                                    state: self.with_supply(
                                        (self.details.supply - burn) as Balance,
                                    ).credited(dest, credit).debited(source, debit),
                                    actions: self.credit_actions(dest) + self.debit_actions(
                                        id,
                                        source,
                                        debit,
                                    ),
                                    amount: credit,
                                },
                            )
                        },
                    }
                },
            }
        }
    }

    /// What `owner` has to reserve when it approves `delegate`: what the
    /// deposit held for the approval lacks of the approval deposit, all of it
    /// for a new approval.
    pub open spec fn approval_due(self, config: Config, owner: AccountId, delegate: AccountId)
        -> Balance {
        let held = match self.approval(owner, delegate) {
            Some(a) => a.deposit,
            None => 0,
        };
        if held < config.approval_deposit {
            (config.approval_deposit - held) as Balance
        } else {
            0
        }
    }

    /// What the owner has to reserve when it sets metadata of `bytes` bytes:
    /// what the deposit held for the metadata lacks of the deposit for them.
    pub open spec fn metadata_due(self, config: Config, bytes: nat) -> Balance {
        if metadata_deposit(config, bytes) > self.metadata_held() {
            (metadata_deposit(config, bytes) - self.metadata_held()) as Balance
        } else {
            0
        }
    }

    /// Adds `amount` to what `owner` lets `delegate` move. `funded` says that
    /// the host's currency can reserve what is due from `owner`; it counts
    /// only where something is due.
    pub open spec fn approve_transfer(
        self,
        config: Config,
        owner: AccountId,
        delegate: AccountId,
        amount: Balance,
        funded: bool,
    ) -> Result<Step, Error> {
        let before = match self.approval(owner, delegate) {
            Some(a) => a,
            None => Approval { amount: 0, deposit: 0 },
        };
        let due = self.approval_due(config, owner, delegate);
        let after = Approval {
            amount: saturating_sum(before.amount, amount),
            deposit: if due > 0 {
                config.approval_deposit
            } else {
                before.deposit
            },
        };
        if self.details.is_frozen {
            Err(Error::Frozen)
        } else if self.approval(owner, delegate) is None && self.details.approvals == u32::MAX {
            Err(Error::Overflow)
        } else if due > 0 && !funded {
            Err(Error::Currency)
        } else {
            Ok(
                Step {
                    state: if self.approval(owner, delegate) is Some {
                        self.set_approval(owner, delegate, after)
                    } else {
                        AssetState {
                            details: AssetDetails {
                                approvals: (self.details.approvals + 1) as u32,
                                ..self.details
                            },
                            approvals: self.approvals.push(
                                Grant { owner, delegate, approval: after },
                            ),
                            ..self
                        }
                    },
                    actions: if due > 0 {
                        seq![Action::Reserve { who: owner, amount: due }]
                    } else {
                        Seq::empty()
                    },
                    amount: 0,
                },
            )
        }
    }

    /// Removes the approval that `owner` gave `delegate` and frees its deposit.
    pub open spec fn cancel_approval(self, owner: AccountId, delegate: AccountId) -> Result<
        Step,
        Error,
    > {
        match self.approval(owner, delegate) {
            None => Err(Error::Unknown),
            Some(a) => Ok(
                Step {
                    state: self.drop_approval(owner, delegate),
                    actions: seq![Action::Unreserve { who: owner, amount: a.deposit }],
                    amount: 0,
                },
            ),
        }
    }

    /// Removes an approval on behalf of the admin or of the privileged origin.
    pub open spec fn force_cancel_approval(
        self,
        origin: Origin,
        owner: AccountId,
        delegate: AccountId,
    ) -> Result<Step, Error> {
        if origin matches Origin::Signed(caller) && caller != self.details.admin {
            Err(Error::NoPermission)
        } else {
            self.cancel_approval(owner, delegate)
        }
    }

    /// Lets `delegate` move `amount` of `owner`'s holding to `dest`, against
    /// the approval, which goes when it is used up.
    pub open spec fn transfer_approved(
        self,
        id: AssetId,
        owner: AccountId,
        delegate: AccountId,
        dest: AccountId,
        amount: Balance,
        provider: bool,
    ) -> Result<Step, Error> {
        match self.approval(owner, delegate) {
            None => Err(Error::Unapproved),
            Some(a) => if a.amount < amount {
                Err(Error::Unapproved)
            } else {
                match self.transfer(
                    id,
                    owner,
                    dest,
                    amount,
                    Authority::Holder,
                    TransferFlags { keep_alive: false, best_effort: false, burn_dust: false },
                    provider,
                ) {
                    Err(e) => Err(e),
                    Ok(moved) => if a.amount == amount {
                        Ok(
                            Step {
                                state: moved.state.drop_approval(owner, delegate),
                                actions: moved.actions.push(
                                    Action::Unreserve { who: owner, amount: a.deposit },
                                ),
                                amount: moved.amount,
                            },
                        )
                    } else {
                        Ok(
                            Step {
                                state: moved.state.set_approval(
                                    owner,
                                    delegate,
                                    Approval { amount: (a.amount - amount) as Balance, ..a },
                                ),
                                actions: moved.actions,
                                amount: moved.amount,
                            },
                        )
                    },
                }
            },
        }
    }

    /// Sets the freeze of `who`'s record to `frozen`, on behalf of `caller`,
    /// who must hold `role`.
    pub open spec fn set_frozen(
        self,
        caller: AccountId,
        role: AccountId,
        who: AccountId,
        frozen: bool,
    ) -> Result<Step, Error> {
        if caller != role {
            Err(Error::NoPermission)
        } else {
            match self.account(who) {
                None => Err(Error::NoAccount),
                Some(a) => Self::quiet(
                    self.set_account(who, AssetAccount { is_frozen: frozen, ..a }),
                ),
            }
        }
    }

    /// Freezes the record of `who`; the freezer may.
    pub open spec fn freeze(self, caller: AccountId, who: AccountId) -> Result<Step, Error> {
        self.set_frozen(caller, self.details.freezer, who, true)
    }

    /// Thaws the record of `who`; the admin may.
    pub open spec fn thaw(self, caller: AccountId, who: AccountId) -> Result<Step, Error> {
        self.set_frozen(caller, self.details.admin, who, false)
    }

    /// Freezes the whole asset; the freezer may.
    pub open spec fn freeze_asset(self, caller: AccountId) -> Result<Step, Error> {
        if caller != self.details.freezer {
            Err(Error::NoPermission)
        } else {
            Self::quiet(self.with_details(AssetDetails { is_frozen: true, ..self.details }))
        }
    }

    /// Thaws the whole asset; the admin may, unless the asset is being destroyed.
    pub open spec fn thaw_asset(self, caller: AccountId) -> Result<Step, Error> {
        if caller != self.details.admin {
            Err(Error::NoPermission)
        } else if self.details.status == AssetStatus::Destroying {
            Err(Error::AssetNotLive)
        } else {
            Self::quiet(self.with_details(AssetDetails { is_frozen: false, ..self.details }))
        }
    }

    /// Hands the asset, and the deposits held for it, to `owner`. `funded`
    /// says that the host's currency can move the reserved deposits.
    pub open spec fn transfer_ownership(self, caller: AccountId, owner: AccountId, funded: bool)
        -> Result<Step, Error> {
        if caller != self.details.owner {
            Err(Error::NoPermission)
        } else if owner == self.details.owner {
            Self::quiet(self)
        } else if self.details.deposit + self.metadata_held() > Balance::MAX {
            Err(Error::Overflow)
        } else if !funded {
            Err(Error::Currency)
        } else {
            Ok(
                Step {
                    state: self.with_details(AssetDetails { owner, ..self.details }),
                    actions: seq![
                        Action::Repatriate {
                            from: self.details.owner,
                            to: owner,
                            amount: (self.details.deposit + self.metadata_held()) as Balance,
                        },
                    ],
                    amount: 0,
                },
            )
        }
    }

    /// Appoints issuer, admin and freezer; the owner may.
    pub open spec fn set_team(
        self,
        caller: AccountId,
        issuer: AccountId,
        admin: AccountId,
        freezer: AccountId,
    ) -> Result<Step, Error> {
        if caller != self.details.owner {
            Err(Error::NoPermission)
        } else {
            Self::quiet(self.with_details(AssetDetails { issuer, admin, freezer, ..self.details }))
        }
    }

    /// Overwrites roles, minimum balance, sufficiency and freeze of the asset.
    /// Refused are a minimum balance of zero, one above a holding that is not
    /// zero, and lifting the freeze of an asset that is being destroyed.
    pub open spec fn force_asset_status(
        self,
        owner: AccountId,
        issuer: AccountId,
        admin: AccountId,
        freezer: AccountId,
        min_balance: Balance,
        is_sufficient: bool,
        is_frozen: bool,
    ) -> Result<Step, Error> {
        if min_balance == 0 {
            Err(Error::MinBalanceZero)
        } else if !above_floor(self.accounts, min_balance) {
            Err(Error::BelowMinimum)
        } else if self.details.status == AssetStatus::Destroying && !is_frozen {
            Err(Error::AssetNotLive)
        } else {
            Self::quiet(
                self.with_details(
                    AssetDetails {
                        owner,
                        issuer,
                        admin,
                        freezer,
                        min_balance,
                        is_sufficient,
                        is_frozen,
                        ..self.details
                    },
                ),
            )
        }
    }

    /// Sets the metadata on behalf of the owner, and settles the deposit for
    /// it: what it lacks is reserved, what it has too much is freed. `funded`
    /// says that the host's currency can reserve what is due; it counts only
    /// where something is due.
    pub open spec fn set_metadata(
        self,
        config: Config,
        caller: AccountId,
        name: Seq<u8>,
        symbol: Seq<u8>,
        decimals: u8,
        funded: bool,
    ) -> Result<Step, Error> {
        let held = self.metadata_held();
        let deposit = metadata_deposit(config, name.len() + symbol.len());
        let due = self.metadata_due(config, name.len() + symbol.len());
        if caller != self.details.owner {
            Err(Error::NoPermission)
        } else if self.metadata matches Some(m) && m.is_frozen {
            Err(Error::NoPermission)
        } else if due > 0 && !funded {
            Err(Error::Currency)
        } else {
            Ok(
                Step {
                    state: AssetState {
                        metadata: Some(
                            MetadataView { deposit, name, symbol, decimals, is_frozen: false },
                        ),
                        ..self
                    },
                    actions: if due > 0 {
                        seq![Action::Reserve { who: caller, amount: due }]
                    } else {
                        seq![
                            Action::Unreserve { who: caller, amount: (held - deposit) as Balance },
                        ]
                    },
                    amount: 0,
                },
            )
        }
    }

    /// Sets the metadata on behalf of the privileged origin; the deposit stays.
    pub open spec fn force_set_metadata(
        self,
        name: Seq<u8>,
        symbol: Seq<u8>,
        decimals: u8,
        is_frozen: bool,
    ) -> Result<Step, Error> {
        Self::quiet(
            AssetState {
                metadata: Some(
                    MetadataView {
                        deposit: self.metadata_held(),
                        name,
                        symbol,
                        decimals,
                        is_frozen,
                    },
                ),
                ..self
            },
        )
    }

    /// Removes the metadata and frees its deposit for the owner. A signed
    /// caller must be the owner.
    pub open spec fn clear_metadata(self, origin: Origin) -> Result<Step, Error> {
        if origin matches Origin::Signed(caller) && caller != self.details.owner {
            Err(Error::NoPermission)
        } else {
            match self.metadata {
                None => Err(Error::Unknown),
                Some(m) => Ok(
                    Step {
                        state: AssetState { metadata: None, ..self },
                        actions: seq![
                            Action::Unreserve { who: self.details.owner, amount: m.deposit },
                        ],
                        amount: 0,
                    },
                ),
            }
        }
    }

    /// Gives `who` an empty record against a deposit. `funded` says that the
    /// host's currency can reserve the deposit.
    pub open spec fn touch(self, config: Config, who: AccountId, funded: bool) -> Result<
        Step,
        Error,
    > {
        if self.account(who) is Some {
            Err(Error::AlreadyExists)
        } else if self.details.accounts == u32::MAX {
            Err(Error::Overflow)
        } else if !funded {
            Err(Error::Currency)
        } else {
            Ok(
                Step {
                    state: AssetState {
                        details: AssetDetails {
                            accounts: (self.details.accounts + 1) as u32,
                            ..self.details
                        },
                        accounts: self.accounts.push(
                            Holding {
                                who,
                                account: AssetAccount {
                                    balance: 0,
                                    is_frozen: false,
                                    reason: ExistenceReason::DepositHeld(
                                        config.asset_account_deposit,
                                    ),
                                    extra: 0,
                                },
                            },
                        ),
                        ..self
                    },
                    actions: seq![
                        Action::Reserve { who, amount: config.asset_account_deposit },
                    ],
                    amount: 0,
                },
            )
        }
    }

    /// Gives back the deposit of `who`'s record and removes the record. What
    /// the record still holds is burned, which takes `allow_burn`; the
    /// step's amount is what was burned.
    pub open spec fn refund(self, id: AssetId, who: AccountId, allow_burn: bool) -> Result<
        Step,
        Error,
    > {
        match self.account(who) {
            None => Err(Error::NoDeposit),
            Some(a) => match a.reason.deposit() {
                None => Err(Error::NoDeposit),
                Some(deposit) => if a.balance != 0 && !allow_burn {
                    Err(Error::WouldBurn)
                } else if self.details.is_frozen || a.is_frozen {
                    Err(Error::Frozen)
                } else {
                    Ok(
                        Step {
                            state: AssetState {
                                details: AssetDetails {
                                    accounts: (self.details.accounts - 1) as u32,
                                    supply: (self.details.supply - a.balance) as Balance,
                                    ..self.details
                                },
                                accounts: self.accounts.remove(
                                    index_of(self.accounts, who),
                                ),
                                ..self
                            },
                            actions: seq![
                                Action::Unreserve { who, amount: deposit },
                                Action::Died { asset: id, who },
                            ],
                            amount: a.balance,
                        },
                    )
                },
            },
        }
    }

    /// Whether `origin` may take the asset apart: the privileged origin and the owner may.
    pub open spec fn may_destroy(self, origin: Origin) -> bool {
        match origin {
            Origin::Root => true,
            Origin::Signed(caller) => caller == self.details.owner,
        }
    }

    /// Opens the destruction of a frozen asset.
    pub open spec fn start_destroy(self, origin: Origin) -> Result<Step, Error> {
        if !self.may_destroy(origin) {
            Err(Error::NoPermission)
        } else if !self.details.is_frozen {
            Err(Error::BadWitness)
        } else {
            Self::quiet(
                self.with_details(
                    AssetDetails { status: AssetStatus::Destroying, ..self.details },
                ),
            )
        }
    }

    /// Removes the newest account records of an asset that is being
    /// destroyed, at most `limit` of them. What they held leaves the supply
    /// with them; the step's amount is their number.
    pub open spec fn destroy_accounts(self, id: AssetId, origin: Origin, limit: u32) -> Result<
        Step,
        Error,
    > {
        let n = drain_count(self.accounts.len(), limit);
        let kept = self.accounts.take(self.accounts.len() - n);
        let gone = self.accounts.skip(self.accounts.len() - n);
        if !self.may_destroy(origin) {
            Err(Error::NoPermission)
        } else if !self.details.is_frozen {
            Err(Error::BadWitness)
        } else if self.details.status != AssetStatus::Destroying {
            Err(Error::LiveAsset)
        } else {
            Ok(
                Step {
                    state: AssetState {
                        details: AssetDetails {
                            supply: (self.details.supply - total_balance(gone)) as Balance,
                            accounts: (self.details.accounts - n) as u32,
                            sufficients: sufficient_count(kept) as u32,
                            ..self.details
                        },
                        accounts: kept,
                        ..self
                    },
                    actions: drain_actions(id, gone),
                    amount: n as Balance,
                },
            )
        }
    }

    /// Removes the newest approvals of an asset that is being destroyed, at
    /// most `limit` of them, and frees their deposits; the step's amount is
    /// their number.
    pub open spec fn destroy_approvals(self, origin: Origin, limit: u32) -> Result<Step, Error> {
        let n = drain_count(self.approvals.len(), limit);
        if !self.may_destroy(origin) {
            Err(Error::NoPermission)
        } else if !self.details.is_frozen {
            Err(Error::BadWitness)
        } else if self.details.status != AssetStatus::Destroying {
            Err(Error::LiveAsset)
        } else {
            Ok(
                Step {
                    state: AssetState {
                        details: AssetDetails {
                            approvals: (self.details.approvals - n) as u32,
                            ..self.details
                        },
                        approvals: self.approvals.take(self.approvals.len() - n),
                        ..self
                    },
                    actions: release_actions(self.approvals.skip(self.approvals.len() - n)),
                    amount: n as Balance,
                },
            )
        }
    }

    /// Whether an asset may leave the ledger, and which deposit goes back to
    /// the owner with it: it may once its destruction was opened and no
    /// account record and no approval hangs on it.
    pub open spec fn finish_destroy(self, origin: Origin) -> Result<Step, Error> {
        if !self.may_destroy(origin) {
            Err(Error::NoPermission)
        } else if self.details.accounts != 0 || self.details.approvals != 0 {
            Err(Error::InUse)
        } else if !self.details.is_frozen {
            Err(Error::BadWitness)
        } else if self.details.status != AssetStatus::Destroying {
            Err(Error::LiveAsset)
        } else {
            Ok(
                Step {
                    state: self,
                    actions: seq![
                        Action::Unreserve {
                            who: self.details.owner,
                            amount: saturating_sum(self.details.deposit, self.metadata_held()),
                        },
                    ],
                    amount: 0,
                },
            )
        }
    }
}

} // verus!
