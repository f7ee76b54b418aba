//! The operations of the ledger, as functions of its value.
//!
//! Each function gives either the error an operation is refused with, in
//! which case the ledger stays as it is, or the [`Outcome`]: the ledger after
//! it and the actions handed to the host.
//!
//! Two kinds of argument carry what the host answered before the call.
//! `funded` says that the host's currency can make the reservation, or the
//! move of reserved funds, that the operation may ask for. `provider` says
//! that the host has a provider reference to spare for the account that the
//! operation may create a record for.

use vstd::prelude::*;
use crate::types::{
    AccountId, Action, AssetId, Authority, Balance, DebitFlags, Error, Origin, TransferFlags,
};
use crate::model::{fresh_details, AssetState, Outcome, State, Step};

verus! {

/// The flags of a plain transfer: the source may die, the amount is moved in
/// full, dust goes to the destination.
pub open spec fn plain_transfer() -> TransferFlags {
    TransferFlags { keep_alive: false, best_effort: false, burn_dust: false }
}

/// The flags of a transfer that keeps the source alive.
pub open spec fn keep_alive_transfer() -> TransferFlags {
    TransferFlags { keep_alive: true, best_effort: false, burn_dust: false }
}

/// The flags of a burn: as much as there is, up to the amount.
pub open spec fn burn_flags() -> DebitFlags {
    DebitFlags { keep_alive: false, best_effort: true }
}

impl State {
    /// Every asset class is well formed.
    pub open spec fn wf(self) -> bool {
        forall|id: AssetId| #[trigger] self.assets.contains_key(id) ==> self.assets[id].wf()
    }

    /// The asset class `id`, if it exists.
    pub open spec fn asset(self, id: AssetId) -> Option<AssetState> {
        if self.assets.contains_key(id) {
            Some(self.assets[id])
        } else {
            None
        }
    }

    /// `self` with `asset` as the asset class `id`.
    pub open spec fn with_asset(self, id: AssetId, asset: AssetState) -> State {
        State { assets: self.assets.insert(id, asset), ..self }
    }

    /// `self` without the asset class `id`.
    pub open spec fn without_asset(self, id: AssetId) -> State {
        State { assets: self.assets.remove(id), ..self }
    }

    /// The outcome for the ledger of a step of the asset class `id`.
    pub open spec fn lift(self, id: AssetId, r: Result<Step, Error>) -> Result<Outcome, Error> {
        match r {
            Ok(step) => Ok(
                Outcome {
                    state: self.with_asset(id, step.state),
                    actions: step.actions,
                    amount: step.amount,
                },
            ),
            Err(e) => Err(e),
        }
    }

    /// An outcome that tells the host nothing.
    pub open spec fn quiet(state: State) -> Result<Outcome, Error> {
        Ok(Outcome { state, actions: Seq::empty(), amount: 0 })
    }

    /// What `owner` has to reserve when it approves `delegate` in the asset
    /// `id`; nothing where the asset does not exist.
    pub open spec fn approval_due(self, id: AssetId, owner: AccountId, delegate: AccountId)
        -> Balance {
        match self.asset(id) {
            None => 0,
            Some(a) => a.approval_due(self.config, owner, delegate),
        }
    }

    /// What the owner of the asset `id` has to reserve when it sets metadata
    /// of `bytes` bytes; nothing where the asset does not exist.
    pub open spec fn metadata_due(self, id: AssetId, bytes: nat) -> Balance {
        match self.asset(id) {
            None => 0,
            Some(a) => a.metadata_due(self.config, bytes),
        }
    }

    /// What `who` can give of the asset `id`.
    pub open spec fn reducible_balance(self, id: AssetId, who: AccountId, keep_alive: bool)
        -> Result<Balance, Error> {
        match self.asset(id) {
            None => Err(Error::Unknown),
            Some(a) => a.reducible_balance(who, keep_alive),
        }
    }

    /// Whether exactly `amount` of the asset `id` can leave `who`, and the
    /// dust that would go with it.
    pub open spec fn can_decrease(
        self,
        id: AssetId,
        who: AccountId,
        amount: Balance,
        keep_alive: bool,
    ) -> Result<Balance, Error> {
        match self.asset(id) {
            None => Err(Error::Unknown),
            Some(a) => a.can_decrease(who, amount, keep_alive),
        }
    }

    /// Whether `amount` of the asset `id` can go to `who`.
    pub open spec fn can_increase(
        self,
        id: AssetId,
        who: AccountId,
        amount: Balance,
        increase_supply: bool,
        provider: bool,
    ) -> Result<(), Error> {
        match self.asset(id) {
            None => Err(Error::Unknown),
            Some(a) => a.credit_check(who, amount, provider, increase_supply),
        }
    }

    /// Registers the asset `id` for the signer against the creation deposit;
    /// `admin` becomes issuer, admin and freezer.
    pub open spec fn create(
        self,
        origin: Origin,
        id: AssetId,
        admin: AccountId,
        min_balance: Balance,
        funded: bool,
    ) -> Result<Outcome, Error> {
        match origin {
            Origin::Root => Err(Error::BadOrigin),
            Origin::Signed(owner) => if self.assets.contains_key(id) {
                Err(Error::InUse)
            } else if min_balance == 0 {
                Err(Error::MinBalanceZero)
            } else if !funded {
                Err(Error::Currency)
            } else {
                Ok(
                    Outcome {
                        state: self.with_asset(
                            id,
                            AssetState::fresh(
                                fresh_details(
                                    owner,
                                    admin,
                                    self.config.asset_deposit,
                                    min_balance,
                                    false,
                                ),
                            ),
                        ),
                        actions: seq![
                            Action::Reserve { who: owner, amount: self.config.asset_deposit },
                        ],
                        amount: 0,
                    },
                )
            },
        }
    }

    /// Registers the asset `id` for `owner`, who holds every role, without a deposit.
    pub open spec fn do_force_create(
        self,
        id: AssetId,
        owner: AccountId,
        is_sufficient: bool,
        min_balance: Balance,
    ) -> Result<Outcome, Error> {
        if self.assets.contains_key(id) {
            Err(Error::InUse)
        } else if min_balance == 0 {
            Err(Error::MinBalanceZero)
        } else {
            Self::quiet(
                self.with_asset(
                    id,
                    AssetState::fresh(fresh_details(owner, owner, 0, min_balance, is_sufficient)),
                ),
            )
        }
    }

    /// [`State::do_force_create`] for the privileged origin.
    pub open spec fn force_create(
        self,
        origin: Origin,
        id: AssetId,
        owner: AccountId,
        is_sufficient: bool,
        min_balance: Balance,
    ) -> Result<Outcome, Error> {
        match origin {
            Origin::Root => self.do_force_create(id, owner, is_sufficient, min_balance),
            Origin::Signed(_) => Err(Error::BadOrigin),
        }
    }

    /// Opens the destruction of the frozen asset `id`.
    pub open spec fn start_destroy(self, origin: Origin, id: AssetId) -> Result<Outcome, Error> {
        match self.asset(id) {
            None => Err(Error::Unknown),
            Some(a) => self.lift(id, a.start_destroy(origin)),
        }
    }

    /// One cleanup call on the account records of `id`.
    pub open spec fn destroy_accounts(self, origin: Origin, id: AssetId) -> Result<Outcome, Error> {
        match self.asset(id) {
            None => Err(Error::Unknown),
            Some(a) => self.lift(id, a.destroy_accounts(id, origin, self.config.remove_keys_limit)),
        }
    }

    /// One cleanup call on the approvals of `id`.
    pub open spec fn destroy_approvals(self, origin: Origin, id: AssetId) -> Result<
        Outcome,
        Error,
    > {
        match self.asset(id) {
            None => Err(Error::Unknown),
            Some(a) => self.lift(id, a.destroy_approvals(origin, self.config.remove_keys_limit)),
        }
    }

    /// Removes the asset `id`, whose destruction was opened and which has no
    /// records left, and frees the deposits held for it.
    pub open spec fn finish_destroy(self, origin: Origin, id: AssetId) -> Result<Outcome, Error> {
        match self.asset(id) {
            None => Err(Error::Unknown),
            Some(a) => match a.finish_destroy(origin) {
                Err(e) => Err(e),
                Ok(step) => Ok(
                    Outcome { state: self.without_asset(id), actions: step.actions, amount: 0 },
                ),
            },
        }
    }

    /// Credits `amount` to `who` and adds it to the supply.
    pub open spec fn increase_balance(
        self,
        id: AssetId,
        who: AccountId,
        amount: Balance,
        maybe_check_issuer: Option<AccountId>,
        provider: bool,
    ) -> Result<Outcome, Error> {
        match self.asset(id) {
            None => Err(Error::Unknown),
            Some(a) => self.lift(id, a.mint(who, amount, maybe_check_issuer, provider)),
        }
    }

    /// [`State::increase_balance`] for the signer, who must be the issuer.
    pub open spec fn mint(
        self,
        origin: Origin,
        id: AssetId,
        beneficiary: AccountId,
        amount: Balance,
        provider: bool,
    ) -> Result<Outcome, Error> {
        match origin {
            Origin::Root => Err(Error::BadOrigin),
            Origin::Signed(caller) => self.increase_balance(
                id,
                beneficiary,
                amount,
                Some(caller),
                provider,
            ),
        }
    }

    /// Debits `who` and takes what was debited from the supply.
    pub open spec fn do_burn(
        self,
        id: AssetId,
        who: AccountId,
        amount: Balance,
        maybe_check_admin: Option<AccountId>,
        f: DebitFlags,
    ) -> Result<Outcome, Error> {
        match self.asset(id) {
            None => Err(Error::Unknown),
            Some(a) => self.lift(id, a.burn(id, who, amount, maybe_check_admin, f)),
        }
    }

    /// [`State::do_burn`] without a check of the caller.
    pub open spec fn decrease_balance(
        self,
        id: AssetId,
        who: AccountId,
        amount: Balance,
        f: DebitFlags,
    ) -> Result<Outcome, Error> {
        self.do_burn(id, who, amount, None, f)
    }

    /// [`State::do_burn`] for the signer, who must be the admin: as much as
    /// there is, up to `amount`.
    pub open spec fn burn(self, origin: Origin, id: AssetId, who: AccountId, amount: Balance)
        -> Result<Outcome, Error> {
        match origin {
            Origin::Root => Err(Error::BadOrigin),
            Origin::Signed(caller) => self.do_burn(id, who, amount, Some(caller), burn_flags()),
        }
    }

    /// Moves `amount` of the asset `id` from `source` to `dest`.
    pub open spec fn do_transfer(
        self,
        id: AssetId,
        source: AccountId,
        dest: AccountId,
        amount: Balance,
        authority: Authority,
        f: TransferFlags,
        provider: bool,
    ) -> Result<Outcome, Error> {
        match self.asset(id) {
            None => Err(Error::Unknown),
            Some(a) => self.lift(id, a.transfer(id, source, dest, amount, authority, f, provider)),
        }
    }

    /// The signer moves own funds to `target` with the flags `f`.
    pub open spec fn transfer_as(
        self,
        origin: Origin,
        id: AssetId,
        target: AccountId,
        amount: Balance,
        f: TransferFlags,
        provider: bool,
    ) -> Result<Outcome, Error> {
        match origin {
            Origin::Root => Err(Error::BadOrigin),
            Origin::Signed(caller) => self.do_transfer(
                id,
                caller,
                target,
                amount,
                Authority::Holder,
                f,
                provider,
            ),
        }
    }

    /// The signer moves own funds to `target`; its record may go with them.
    pub open spec fn transfer(
        self,
        origin: Origin,
        id: AssetId,
        target: AccountId,
        amount: Balance,
        provider: bool,
    ) -> Result<Outcome, Error> {
        self.transfer_as(origin, id, target, amount, plain_transfer(), provider)
    }

    /// The signer moves own funds to `target` and keeps the minimum balance.
    pub open spec fn transfer_keep_alive(
        self,
        origin: Origin,
        id: AssetId,
        target: AccountId,
        amount: Balance,
        provider: bool,
    ) -> Result<Outcome, Error> {
        self.transfer_as(origin, id, target, amount, keep_alive_transfer(), provider)
    }

    /// The signer, who must be the admin, moves funds of `source` to `dest`.
    pub open spec fn force_transfer(
        self,
        origin: Origin,
        id: AssetId,
        source: AccountId,
        dest: AccountId,
        amount: Balance,
        provider: bool,
    ) -> Result<Outcome, Error> {
        match origin {
            Origin::Root => Err(Error::BadOrigin),
            Origin::Signed(caller) => self.do_transfer(
                id,
                source,
                dest,
                amount,
                Authority::Admin(caller),
                plain_transfer(),
                provider,
            ),
        }
    }

    /// A step of the asset `id` that takes a signer.
    pub open spec fn signed_step(
        self,
        origin: Origin,
        id: AssetId,
        step: spec_fn(AssetState, AccountId) -> Result<Step, Error>,
    ) -> Result<Outcome, Error> {
        match origin {
            Origin::Root => Err(Error::BadOrigin),
            Origin::Signed(caller) => match self.asset(id) {
                None => Err(Error::Unknown),
                Some(a) => self.lift(id, step(a, caller)),
            },
        }
    }

    /// A step of the asset `id` that takes the privileged origin.
    pub open spec fn root_step(
        self,
        origin: Origin,
        id: AssetId,
        step: spec_fn(AssetState) -> Result<Step, Error>,
    ) -> Result<Outcome, Error> {
        match origin {
            Origin::Signed(_) => Err(Error::BadOrigin),
            Origin::Root => match self.asset(id) {
                None => Err(Error::Unknown),
                Some(a) => self.lift(id, step(a)),
            },
        }
    }

    /// The signer, who must be the freezer, freezes the record of `who`.
    pub open spec fn freeze(self, origin: Origin, id: AssetId, who: AccountId) -> Result<
        Outcome,
        Error,
    > {
        self.signed_step(origin, id, |a: AssetState, caller: AccountId| a.freeze(caller, who))
    }

    /// The signer, who must be the admin, thaws the record of `who`.
    pub open spec fn thaw(self, origin: Origin, id: AssetId, who: AccountId) -> Result<
        Outcome,
        Error,
    > {
        self.signed_step(origin, id, |a: AssetState, caller: AccountId| a.thaw(caller, who))
    }

    /// The signer, who must be the freezer, freezes the asset.
    pub open spec fn freeze_asset(self, origin: Origin, id: AssetId) -> Result<Outcome, Error> {
        self.signed_step(origin, id, |a: AssetState, caller: AccountId| a.freeze_asset(caller))
    }

    /// The signer, who must be the admin, thaws the asset.
    pub open spec fn thaw_asset(self, origin: Origin, id: AssetId) -> Result<Outcome, Error> {
        self.signed_step(origin, id, |a: AssetState, caller: AccountId| a.thaw_asset(caller))
    }

    /// The signer, who must be the owner, hands the asset to `owner`.
    pub open spec fn transfer_ownership(
        self,
        origin: Origin,
        id: AssetId,
        owner: AccountId,
        funded: bool,
    ) -> Result<Outcome, Error> {
        self.signed_step(
            origin,
            id,
            |a: AssetState, caller: AccountId| a.transfer_ownership(caller, owner, funded),
        )
    }

    /// The signer, who must be the owner, appoints issuer, admin and freezer.
    pub open spec fn set_team(
        self,
        origin: Origin,
        id: AssetId,
        issuer: AccountId,
        admin: AccountId,
        freezer: AccountId,
    ) -> Result<Outcome, Error> {
        self.signed_step(
            origin,
            id,
            |a: AssetState, caller: AccountId| a.set_team(caller, issuer, admin, freezer),
        )
    }

    /// Whether `name` and `symbol` are within the limit.
    pub open spec fn fits(self, name: Seq<u8>, symbol: Seq<u8>) -> bool {
        name.len() <= self.config.string_limit && symbol.len() <= self.config.string_limit
    }

    /// Sets the metadata of `id` on behalf of `from`, who must be the owner.
    pub open spec fn do_set_metadata(
        self,
        id: AssetId,
        from: AccountId,
        name: Seq<u8>,
        symbol: Seq<u8>,
        decimals: u8,
        funded: bool,
    ) -> Result<Outcome, Error> {
        if !self.fits(name, symbol) {
            Err(Error::BadMetadata)
        } else {
            match self.asset(id) {
                None => Err(Error::Unknown),
                Some(a) => self.lift(
                    id,
                    a.set_metadata(self.config, from, name, symbol, decimals, funded),
                ),
            }
        }
    }

    /// [`State::do_set_metadata`] for the signer.
    pub open spec fn set_metadata(
        self,
        origin: Origin,
        id: AssetId,
        name: Seq<u8>,
        symbol: Seq<u8>,
        decimals: u8,
        funded: bool,
    ) -> Result<Outcome, Error> {
        match origin {
            Origin::Root => Err(Error::BadOrigin),
            Origin::Signed(caller) => self.do_set_metadata(
                id,
                caller,
                name,
                symbol,
                decimals,
                funded,
            ),
        }
    }

    /// The signer, who must be the owner, removes the metadata of `id`.
    pub open spec fn clear_metadata(self, origin: Origin, id: AssetId) -> Result<Outcome, Error> {
        self.signed_step(origin, id, |a: AssetState, caller: AccountId| a.clear_metadata(origin))
    }

    /// The privileged origin sets the metadata of `id`; the deposit stays.
    pub open spec fn force_set_metadata(
        self,
        origin: Origin,
        id: AssetId,
        name: Seq<u8>,
        symbol: Seq<u8>,
        decimals: u8,
        is_frozen: bool,
    ) -> Result<Outcome, Error> {
        match origin {
            Origin::Signed(_) => Err(Error::BadOrigin),
            Origin::Root => if !self.fits(name, symbol) {
                Err(Error::BadMetadata)
            } else {
                match self.asset(id) {
                    None => Err(Error::Unknown),
                    Some(a) => self.lift(
                        id,
                        a.force_set_metadata(name, symbol, decimals, is_frozen),
                    ),
                }
            },
        }
    }

    /// The privileged origin removes the metadata of `id`.
    pub open spec fn force_clear_metadata(self, origin: Origin, id: AssetId) -> Result<
        Outcome,
        Error,
    > {
        self.root_step(origin, id, |a: AssetState| a.clear_metadata(origin))
    }

    /// The privileged origin overwrites the attributes of `id`.
    pub open spec fn force_asset_status(
        self,
        origin: Origin,
        id: AssetId,
        owner: AccountId,
        issuer: AccountId,
        admin: AccountId,
        freezer: AccountId,
        min_balance: Balance,
        is_sufficient: bool,
        is_frozen: bool,
    ) -> Result<Outcome, Error> {
        self.root_step(
            origin,
            id,
            |a: AssetState|
                a.force_asset_status(
                    owner,
                    issuer,
                    admin,
                    freezer,
                    min_balance,
                    is_sufficient,
                    is_frozen,
                ),
        )
    }

    /// Adds `amount` to what `owner` lets `delegate` move of the asset `id`.
    pub open spec fn do_approve_transfer(
        self,
        id: AssetId,
        owner: AccountId,
        delegate: AccountId,
        amount: Balance,
        funded: bool,
    ) -> Result<Outcome, Error> {
        match self.asset(id) {
            None => Err(Error::Unknown),
            Some(a) => self.lift(
                id,
                a.approve_transfer(self.config, owner, delegate, amount, funded),
            ),
        }
    }

    /// [`State::do_approve_transfer`] for the signer as owner.
    pub open spec fn approve_transfer(
        self,
        origin: Origin,
        id: AssetId,
        delegate: AccountId,
        amount: Balance,
        funded: bool,
    ) -> Result<Outcome, Error> {
        match origin {
            Origin::Root => Err(Error::BadOrigin),
            Origin::Signed(owner) => self.do_approve_transfer(id, owner, delegate, amount, funded),
        }
    }

    /// The signer takes back what it let `delegate` move.
    pub open spec fn cancel_approval(self, origin: Origin, id: AssetId, delegate: AccountId)
        -> Result<Outcome, Error> {
        self.signed_step(
            origin,
            id,
            |a: AssetState, caller: AccountId| a.cancel_approval(caller, delegate),
        )
    }

    /// The admin, or the privileged origin, removes the approval that `owner` gave `delegate`.
    pub open spec fn force_cancel_approval(
        self,
        origin: Origin,
        id: AssetId,
        owner: AccountId,
        delegate: AccountId,
    ) -> Result<Outcome, Error> {
        match self.asset(id) {
            None => Err(Error::Unknown),
            Some(a) => self.lift(id, a.force_cancel_approval(origin, owner, delegate)),
        }
    }

    /// Lets `delegate` move `amount` of `owner`'s holding to `destination`.
    pub open spec fn do_transfer_approved(
        self,
        id: AssetId,
        owner: AccountId,
        delegate: AccountId,
        destination: AccountId,
        amount: Balance,
        provider: bool,
    ) -> Result<Outcome, Error> {
        match self.asset(id) {
            None => Err(Error::Unapproved),
            Some(a) => self.lift(
                id,
                a.transfer_approved(id, owner, delegate, destination, amount, provider),
            ),
        }
    }

    /// [`State::do_transfer_approved`] for the signer as delegate.
    pub open spec fn transfer_approved(
        self,
        origin: Origin,
        id: AssetId,
        owner: AccountId,
        destination: AccountId,
        amount: Balance,
        provider: bool,
    ) -> Result<Outcome, Error> {
        match origin {
            Origin::Root => Err(Error::BadOrigin),
            Origin::Signed(delegate) => self.do_transfer_approved(
                id,
                owner,
                delegate,
                destination,
                amount,
                provider,
            ),
        }
    }

    /// Gives `who` an empty record in `id` against a deposit.
    pub open spec fn do_touch(self, id: AssetId, who: AccountId, funded: bool) -> Result<
        Outcome,
        Error,
    > {
        match self.asset(id) {
            None => Err(Error::Unknown),
            Some(a) => self.lift(id, a.touch(self.config, who, funded)),
        }
    }

    /// [`State::do_touch`] for the signer.
    pub open spec fn touch(self, origin: Origin, id: AssetId, funded: bool) -> Result<
        Outcome,
        Error,
    > {
        match origin {
            Origin::Root => Err(Error::BadOrigin),
            Origin::Signed(who) => self.do_touch(id, who, funded),
        }
    }

    /// Gives back the deposit of `who`'s record in `id` and removes the record.
    pub open spec fn do_refund(self, id: AssetId, who: AccountId, allow_burn: bool) -> Result<
        Outcome,
        Error,
    > {
        match self.asset(id) {
            None => Err(Error::NoDeposit),
            Some(a) => self.lift(id, a.refund(id, who, allow_burn)),
        }
    }

    /// [`State::do_refund`] for the signer.
    pub open spec fn refund(self, origin: Origin, id: AssetId, allow_burn: bool) -> Result<
        Outcome,
        Error,
    > {
        match origin {
            Origin::Root => Err(Error::BadOrigin),
            Origin::Signed(who) => self.do_refund(id, who, allow_burn),
        }
    }
}

/// Whether `r` and the ledger `after` are what `model` says of a ledger that
/// was `before`: on an error nothing has changed.
pub open spec fn done(
    model: Result<Outcome, Error>,
    before: State,
    after: State,
    r: Result<Vec<Action>, Error>,
) -> bool {
    match model {
        Ok(out) => r matches Ok(actions) && actions@ == out.actions && after == out.state,
        Err(e) => r matches Err(x) && x == e && after == before,
    }
}

/// As [`done`], for an operation that also reports the units it moved.
pub open spec fn done_amount(
    model: Result<Outcome, Error>,
    before: State,
    after: State,
    r: Result<(Balance, Vec<Action>), Error>,
) -> bool {
    match model {
        Ok(out) => r matches Ok(res) && res.0 == out.amount && res.1@ == out.actions && after
            == out.state,
        Err(e) => r matches Err(x) && x == e && after == before,
    }
}

/// As [`done`], for a cleanup call, which reports how many records it
/// removed and that `left` are left.
pub open spec fn done_records(
    model: Result<Outcome, Error>,
    left: u32,
    before: State,
    after: State,
    r: Result<(u32, u32, Vec<Action>), Error>,
) -> bool {
    match model {
        Ok(out) => r matches Ok(res) && res.0 == out.amount && res.1 == left && res.2@
            == out.actions && after == out.state,
        Err(e) => r matches Err(x) && x == e && after == before,
    }
}

} // verus!
