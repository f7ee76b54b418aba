//! The ledger in memory and its operations.
//!
//! An operation does no I/O. What it needs to know of the host it takes as
//! an argument: `funded` says that the host's currency can make the
//! reservation, or the move of reserved funds, that the operation asks for,
//! and `provider` that the host has a provider reference to spare for the
//! account that the operation may create a record for. What the host has to
//! do once the operation went through comes back as a list of
//! [`Action`]s, to be carried out in order. An operation that is refused
//! changes nothing and hands the host nothing.
//!
//! The contract of each operation names the function of
//! [`State`] that says what the operation makes of every ledger.

use std::collections::HashMap;
use vstd::prelude::*;
use crate::types::{
    AccountId, Action, Approval, AssetAccount, AssetDetails, AssetId, AssetMetadata, AssetStatus,
    Authority, Balance, Config, DebitFlags, Error, Origin, TransferFlags,
};
use crate::class::AssetClass;
use crate::model::{AssetState, State};
use crate::ledger::{done, done_amount, done_records};

verus! {

broadcast use vstd::std_specs::hash::group_hash_axioms;

/// The ledger: every asset class by its identifier, and the constants.
pub struct Pallet {
    config: Config,
    assets: HashMap<AssetId, AssetClass>,
}

impl View for Pallet {
    type V = State;

    closed spec fn view(&self) -> State {
        State {
            config: self.config,
            assets: Map::new(
                |id: AssetId| self.assets@.contains_key(id),
                |id: AssetId| self.assets@[id]@,
            ),
        }
    }
}

impl Clone for Pallet {
    /// A copy with the same value, to go back to where the host cannot
    /// carry out what an operation handed it.
    fn clone(&self) -> (r: Pallet)
        ensures
            r@ == self@,
    {
        proof {
            use_type_invariant(self);
        }
        let assets = self.assets.clone();
        proof {
            assert forall|k: AssetId| #[trigger]
                assets@.contains_key(k) implies assets@[k]@.wf() by {
                assert(self@.assets.contains_key(k));
            }
        }
        let r = Pallet { config: self.config, assets };
        assert(r@.assets =~= self@.assets);
        r
    }
}

/// Whether a ledger that was `before` is well formed `after` and has kept its
/// constants.
pub open spec fn sound(before: State, after: State) -> bool {
    after.wf() && after.config == before.config
}

impl Pallet {
    /// Every asset class of the ledger is well formed.
    #[verifier::type_invariant]
    spec fn inv(self) -> bool {
        self@.wf()
    }

    /// A ledger without assets.
    pub fn new(config: Config) -> (r: Pallet)
        ensures
            r@.config == config,
            r@.assets == Map::<AssetId, AssetState>::empty(),
            r@.wf(),
    {
        let r = Pallet { config, assets: HashMap::new() };
        assert(r@.assets =~= Map::<AssetId, AssetState>::empty());
        r
    }

    /// Tells a proof what the type keeps at all times: every asset class of
    /// the ledger is well formed. Does nothing when run.
    pub fn well_formed(&self)
        ensures
            self@.wf(),
    {
        proof {
            use_type_invariant(self);
        }
    }

    /// The constants of the ledger.
    pub fn config(&self) -> (r: Config)
        ensures
            r == self@.config,
    {
        self.config
    }

    /// Takes the asset class `id` out of the ledger.
    fn take(&mut self, id: AssetId) -> (r: Option<AssetClass>)
        ensures
            final(self)@.config == old(self)@.config,
            match r {
                Some(class) => old(self)@.asset(id) == Some(class@) && class@.wf() && final(self)@
                    == old(self)@.without_asset(id),
                None => old(self)@.asset(id) is None && final(self)@ == old(self)@,
            },
    {
        proof {
            use_type_invariant(&*self);
        }
        let mut whole = Pallet::new(self.config);
        core::mem::swap(self, &mut whole);
        let Pallet { config, mut assets } = whole;
        let r = assets.remove(&id);
        proof {
            if r is Some {
                assert(assets@ == old(self).assets@.remove(id));
                assert(old(self).assets@.contains_key(id) && old(self).assets@[id] == r.unwrap());
            } else {
                assert(assets@ =~= old(self).assets@);
            }
            assert forall|k: AssetId| #[trigger]
                assets@.contains_key(k) implies assets@[k]@.wf() by {
                assert(old(self)@.assets.contains_key(k));
            }
        }
        *self = Pallet { config, assets };
        proof {
            if r is Some {
                assert(self@.assets =~= old(self)@.assets.remove(id));
            } else {
                assert(self@.assets =~= old(self)@.assets);
            }
        }
        r
    }

    /// Puts `class` into the ledger as the asset class `id`.
    fn put(&mut self, id: AssetId, class: AssetClass)
        requires
            class@.wf(),
        ensures
            final(self)@ == old(self)@.with_asset(id, class@),
    {
        proof {
            use_type_invariant(&*self);
        }
        let mut whole = Pallet::new(self.config);
        core::mem::swap(self, &mut whole);
        let Pallet { config, mut assets } = whole;
        assets.insert(id, class);
        proof {
            assert forall|k: AssetId| #[trigger]
                assets@.contains_key(k) implies assets@[k]@.wf() by {
                if k != id {
                    assert(old(self)@.assets.contains_key(k));
                }
            }
        }
        *self = Pallet { config, assets };
        assert(self@.assets =~= old(self)@.assets.insert(id, class@));
    }

    /// Puts back `class`, which [`Pallet::take`] took out of the ledger `before`.
    fn settle(&mut self, id: AssetId, class: AssetClass, Ghost(before): Ghost<State>)
        requires
            before.asset(id) is Some,
            old(self)@ == before.without_asset(id),
            class@.wf(),
        ensures
            final(self)@ == before.with_asset(id, class@),
            class@ == before.asset(id).unwrap() ==> final(self)@ == before,
            before.wf() && class@.wf() ==> final(self)@.wf(),
            final(self)@.config == before.config,
    {
        self.put(id, class);
        proof {
            assert(self@.assets =~= before.assets.insert(id, class@));
            if class@ == before.asset(id).unwrap() {
                assert(self@.assets =~= before.assets);
            }
        }
    }

    /// The registry entry of `id`, if the asset exists.
    pub fn asset(&self, id: AssetId) -> (r: Option<AssetDetails>)
        ensures
            r == match self@.asset(id) {
                Some(a) => Some(a.details),
                None => None,
            },
    {
        match self.assets.get(&id) {
            Some(class) => Some(class.details()),
            None => None,
        }
    }

    /// The record of `who` in `id`, if there is one.
    pub fn account(&self, id: AssetId, who: AccountId) -> (r: Option<AssetAccount>)
        ensures
            r == match self@.asset(id) {
                Some(a) => a.account(who),
                None => None,
            },
    {
        proof {
            use_type_invariant(self);
        }
        match self.assets.get(&id) {
            Some(class) => class.account(who),
            None => None,
        }
    }

    /// The approval that `owner` gave `delegate` in `id`, if there is one.
    pub fn approval(&self, id: AssetId, owner: AccountId, delegate: AccountId) -> (r: Option<
        Approval,
    >)
        ensures
            r == match self@.asset(id) {
                Some(a) => a.approval(owner, delegate),
                None => None,
            },
    {
        proof {
            use_type_invariant(self);
        }
        match self.assets.get(&id) {
            Some(class) => class.approval(owner, delegate),
            None => None,
        }
    }

    /// A copy of the metadata of `id`, where some was set.
    pub fn metadata(&self, id: AssetId) -> (r: Option<AssetMetadata>)
        ensures
            match r {
                Some(m) => self@.asset(id) matches Some(a) && a.metadata == Some(m@),
                None => self@.asset(id) matches Some(a) ==> a.metadata is None,
            },
    {
        match self.assets.get(&id) {
            Some(class) => class.metadata(),
            None => None,
        }
    }

    /// The balance of `who` in `id`, if `who` has a record there.
    pub fn maybe_balance(&self, id: AssetId, who: AccountId) -> (r: Option<Balance>)
        ensures
            r == match self@.asset(id) {
                Some(a) => match a.account(who) {
                    Some(account) => Some(account.balance),
                    None => None,
                },
                None => None,
            },
    {
        proof {
            use_type_invariant(self);
        }
        match self.account(id, who) {
            Some(account) => Some(account.balance),
            None => None,
        }
    }

    /// The balance of `who` in `id`; zero without a record.
    pub fn balance(&self, id: AssetId, who: AccountId) -> (r: Balance)
        ensures
            r == match self@.asset(id) {
                Some(a) => match a.account(who) {
                    Some(account) => account.balance,
                    None => 0,
                },
                None => 0,
            },
    {
        proof {
            use_type_invariant(self);
        }
        match self.maybe_balance(id, who) {
            Some(balance) => balance,
            None => 0,
        }
    }

    /// The supply of `id`, if the asset exists.
    pub fn maybe_total_supply(&self, id: AssetId) -> (r: Option<Balance>)
        ensures
            r == match self@.asset(id) {
                Some(a) => Some(a.details.supply),
                None => None,
            },
    {
        match self.asset(id) {
            Some(details) => Some(details.supply),
            None => None,
        }
    }

    /// The supply of `id`; zero where the asset does not exist.
    pub fn total_supply(&self, id: AssetId) -> (r: Balance)
        ensures
            r == match self@.asset(id) {
                Some(a) => a.details.supply,
                None => 0,
            },
    {
        match self.maybe_total_supply(id) {
            Some(supply) => supply,
            None => 0,
        }
    }

    /// What `owner` has to reserve when it approves `delegate` in the asset
    /// `id`: the host answers for this amount when it says `funded`.
    pub fn approval_due(&self, id: AssetId, owner: AccountId, delegate: AccountId) -> (r: Balance)
        ensures
            r == self@.approval_due(id, owner, delegate),
    {
        proof {
            use_type_invariant(self);
            assert(self@.assets.contains_key(id) ==> self@.assets[id].wf());
        }
        match self.assets.get(&id) {
            Some(class) => class.approval_due(&self.config, owner, delegate),
            None => 0,
        }
    }

    /// What the owner of the asset `id` has to reserve when it sets a name of
    /// `name_len` and a symbol of `symbol_len` bytes: the host answers for
    /// this amount when it says `funded`.
    pub fn metadata_due(&self, id: AssetId, name_len: usize, symbol_len: usize) -> (r: Balance)
        ensures
            r == self@.metadata_due(id, (name_len + symbol_len) as nat),
    {
        match self.assets.get(&id) {
            Some(class) => class.metadata_due(&self.config, name_len, symbol_len),
            None => 0,
        }
    }

    /// What `who` can give of the asset `id`: the whole holding, or what
    /// lies above the minimum balance where the account must stay alive.
    pub fn reducible_balance(&self, id: AssetId, who: AccountId, keep_alive: bool) -> (r: Result<
        Balance,
        Error,
    >)
        ensures
            r == self@.reducible_balance(id, who, keep_alive),
    {
        proof {
            use_type_invariant(self);
        }
        match self.assets.get(&id) {
            Some(class) => class.reducible_balance(who, keep_alive),
            None => Err(Error::Unknown),
        }
    }

    /// Whether exactly `amount` of the asset `id` can leave `who`. Returns
    /// the dust that would go with it because it would be left under the
    /// minimum balance; where the account must stay alive, such a debit is
    /// refused.
    pub fn can_decrease(
        &self,
        id: AssetId,
        who: AccountId,
        amount: Balance,
        keep_alive: bool,
    ) -> (r: Result<Balance, Error>)
        ensures
            r == self@.can_decrease(id, who, amount, keep_alive),
    {
        proof {
            use_type_invariant(self);
        }
        match self.assets.get(&id) {
            Some(class) => class.can_decrease(who, amount, keep_alive),
            None => Err(Error::Unknown),
        }
    }

    /// Whether `amount` of the asset `id` can go to `who`. `increase_supply`
    /// says that the supply grows with it, `provider` that the host has a
    /// provider reference to spare for `who`.
    pub fn can_increase(
        &self,
        id: AssetId,
        who: AccountId,
        amount: Balance,
        increase_supply: bool,
        provider: bool,
    ) -> (r: Result<(), Error>)
        ensures
            r == self@.can_increase(id, who, amount, increase_supply, provider),
    {
        proof {
            use_type_invariant(self);
        }
        match self.assets.get(&id) {
            Some(class) => class.credit_check(who, amount, provider, increase_supply),
            None => Err(Error::Unknown),
        }
    }

    /// Registers the asset `id` without a deposit; `owner` holds every role.
    pub fn do_force_create(
        &mut self,
        id: AssetId,
        owner: AccountId,
        is_sufficient: bool,
        min_balance: Balance,
    ) -> (r: Result<Vec<Action>, Error>)
        ensures
            done(
                old(self)@.do_force_create(id, owner, is_sufficient, min_balance),
                old(self)@,
                final(self)@,
                r,
            ),
            sound(old(self)@, final(self)@),
    {
        proof {
            use_type_invariant(&*self);
        }
        if self.assets.contains_key(&id) {
            return Err(Error::InUse);
        }
        if min_balance == 0 {
            return Err(Error::MinBalanceZero);
        }
        let details = AssetDetails {
            owner,
            issuer: owner,
            admin: owner,
            freezer: owner,
            supply: 0,
            deposit: 0,
            min_balance,
            is_sufficient,
            accounts: 0,
            sufficients: 0,
            approvals: 0,
            is_frozen: false,
            status: AssetStatus::Live,
        };
        self.put(id, AssetClass::new(details));
        proof {
            lemma_fresh(details);
        }
        Ok(Vec::new())
    }

    /// Registers the asset `id` for the privileged origin.
    pub fn force_create(
        &mut self,
        origin: Origin,
        id: AssetId,
        owner: AccountId,
        is_sufficient: bool,
        min_balance: Balance,
    ) -> (r: Result<Vec<Action>, Error>)
        ensures
            done(
                old(self)@.force_create(origin, id, owner, is_sufficient, min_balance),
                old(self)@,
                final(self)@,
                r,
            ),
            sound(old(self)@, final(self)@),
    {
        proof {
            use_type_invariant(&*self);
        }
        match origin {
            Origin::Root => self.do_force_create(id, owner, is_sufficient, min_balance),
            Origin::Signed(_) => Err(Error::BadOrigin),
        }
    }

    /// Registers the asset `id` for the signer against the creation deposit.
    pub fn create(
        &mut self,
        origin: Origin,
        id: AssetId,
        admin: AccountId,
        min_balance: Balance,
        funded: bool,
    ) -> (r: Result<Vec<Action>, Error>)
        ensures
            done(
                old(self)@.create(origin, id, admin, min_balance, funded),
                old(self)@,
                final(self)@,
                r,
            ),
            sound(old(self)@, final(self)@),
    {
        proof {
            use_type_invariant(&*self);
        }
        let owner = match origin {
            Origin::Signed(owner) => owner,
            Origin::Root => {
                return Err(Error::BadOrigin);
            },
        };
        if self.assets.contains_key(&id) {
            return Err(Error::InUse);
        }
        if min_balance == 0 {
            return Err(Error::MinBalanceZero);
        }
        if !funded {
            return Err(Error::Currency);
        }
        let deposit = self.config.asset_deposit;
        let details = AssetDetails {
            owner,
            issuer: admin,
            admin,
            freezer: admin,
            supply: 0,
            deposit,
            min_balance,
            is_sufficient: false,
            accounts: 0,
            sufficients: 0,
            approvals: 0,
            is_frozen: false,
            status: AssetStatus::Live,
        };
        self.put(id, AssetClass::new(details));
        proof {
            lemma_fresh(details);
        }
        let mut actions: Vec<Action> = Vec::new();
        actions.push(Action::Reserve { who: owner, amount: deposit });
        assert(actions@ =~= seq![Action::Reserve { who: owner, amount: deposit }]);
        Ok(actions)
    }

    /// Opens the destruction of the frozen asset `id`; its owner and the
    /// privileged origin may.
    pub fn start_destroy(&mut self, origin: Origin, id: AssetId) -> (r: Result<Vec<Action>, Error>)
        ensures
            done(old(self)@.start_destroy(origin, id), old(self)@, final(self)@, r),
            sound(old(self)@, final(self)@),
    {
        proof {
            use_type_invariant(&*self);
        }
        let ghost before = self@;
        let mut class = match self.take(id) {
            Some(class) => class,
            None => {
                return Err(Error::Unknown);
            },
        };
        let r = class.start_destroy(origin);
        self.settle(id, class, Ghost(before));
        r
    }

    /// Removes account records of the asset `id`, which is being destroyed:
    /// the newest first, at most as many as the limit of the ledger says.
    /// What they held leaves the supply with them. Returns how many it
    /// removed and how many are left, with the actions.
    pub fn destroy_accounts(&mut self, origin: Origin, id: AssetId) -> (r: Result<
        (u32, u32, Vec<Action>),
        Error,
    >)
        ensures
            done_records(
                old(self)@.destroy_accounts(origin, id),
                match final(self)@.asset(id) {
                    Some(a) => a.details.accounts,
                    None => 0,
                },
                old(self)@,
                final(self)@,
                r,
            ),
            sound(old(self)@, final(self)@),
    {
        proof {
            use_type_invariant(&*self);
        }
        let ghost before = self@;
        let mut class = match self.take(id) {
            Some(class) => class,
            None => {
                return Err(Error::Unknown);
            },
        };
        let r = class.destroy_accounts(id, origin, self.config.remove_keys_limit);
        self.settle(id, class, Ghost(before));
        r
    }

    /// Removes approvals of the asset `id`, which is being destroyed, and
    /// frees their deposits: the newest first, at most as many as the limit
    /// of the ledger says. Returns how many it removed and how many are
    /// left, with the actions.
    pub fn destroy_approvals(&mut self, origin: Origin, id: AssetId) -> (r: Result<
        (u32, u32, Vec<Action>),
        Error,
    >)
        ensures
            done_records(
                old(self)@.destroy_approvals(origin, id),
                match final(self)@.asset(id) {
                    Some(a) => a.details.approvals,
                    None => 0,
                },
                old(self)@,
                final(self)@,
                r,
            ),
            sound(old(self)@, final(self)@),
    {
        proof {
            use_type_invariant(&*self);
        }
        let ghost before = self@;
        let mut class = match self.take(id) {
            Some(class) => class,
            None => {
                return Err(Error::Unknown);
            },
        };
        let r = class.destroy_approvals(origin, self.config.remove_keys_limit);
        self.settle(id, class, Ghost(before));
        r
    }

    /// Removes the asset `id`, whose destruction was opened, once no account
    /// record and no approval hangs on it, and frees the deposits held for
    /// it and its metadata.
    pub fn finish_destroy(&mut self, origin: Origin, id: AssetId) -> (r: Result<Vec<Action>, Error>)
        ensures
            done(old(self)@.finish_destroy(origin, id), old(self)@, final(self)@, r),
            sound(old(self)@, final(self)@),
    {
        proof {
            use_type_invariant(&*self);
        }
        let ghost before = self@;
        let class = match self.take(id) {
            Some(class) => class,
            None => {
                return Err(Error::Unknown);
            },
        };
        match class.finish_destroy(origin) {
            Ok(actions) => Ok(actions),
            Err(e) => {
                self.settle(id, class, Ghost(before));
                Err(e)
            },
        }
    }

    /// Credits `amount` of the asset `id` to `who` and adds it to the supply.
    ///
    /// With `maybe_check_issuer` the named account must be the issuer and
    /// the asset must not be frozen; without it the privileged origin acts.
    /// `provider` says that the host has a provider reference to spare for
    /// `who`; it counts only where `who` gets a record in an asset that is
    /// not sufficient.
    pub fn increase_balance(
        &mut self,
        id: AssetId,
        who: AccountId,
        amount: Balance,
        maybe_check_issuer: Option<AccountId>,
        provider: bool,
    ) -> (r: Result<Vec<Action>, Error>)
        ensures
            done(
                old(self)@.increase_balance(id, who, amount, maybe_check_issuer, provider),
                old(self)@,
                final(self)@,
                r,
            ),
            sound(old(self)@, final(self)@),
    {
        proof {
            use_type_invariant(&*self);
        }
        let ghost before = self@;
        let mut class = match self.take(id) {
            Some(class) => class,
            None => {
                return Err(Error::Unknown);
            },
        };
        let r = class.mint(who, amount, maybe_check_issuer, provider);
        self.settle(id, class, Ghost(before));
        r
    }

    /// The signer, who must be the issuer, mints `amount` for `beneficiary`.
    pub fn mint(
        &mut self,
        origin: Origin,
        id: AssetId,
        beneficiary: AccountId,
        amount: Balance,
        provider: bool,
    ) -> (r: Result<Vec<Action>, Error>)
        ensures
            done(
                old(self)@.mint(origin, id, beneficiary, amount, provider),
                old(self)@,
                final(self)@,
                r,
            ),
            sound(old(self)@, final(self)@),
    {
        proof {
            use_type_invariant(&*self);
        }
        match origin {
            Origin::Signed(caller) => self.increase_balance(
                id,
                beneficiary,
                amount,
                Some(caller),
                provider,
            ),
            Origin::Root => Err(Error::BadOrigin),
        }
    }

    /// Debits `who` in the asset `id` as the flags allow, takes what was
    /// debited from the supply, and returns it with the actions. With
    /// `maybe_check_admin` the named account must be the admin.
    pub fn do_burn(
        &mut self,
        id: AssetId,
        who: AccountId,
        amount: Balance,
        maybe_check_admin: Option<AccountId>,
        f: DebitFlags,
    ) -> (r: Result<(Balance, Vec<Action>), Error>)
        ensures
            done_amount(
                old(self)@.do_burn(id, who, amount, maybe_check_admin, f),
                old(self)@,
                final(self)@,
                r,
            ),
            sound(old(self)@, final(self)@),
    {
        proof {
            use_type_invariant(&*self);
        }
        let ghost before = self@;
        let mut class = match self.take(id) {
            Some(class) => class,
            None => {
                return Err(Error::Unknown);
            },
        };
        let r = class.burn(id, who, amount, maybe_check_admin, f);
        self.settle(id, class, Ghost(before));
        r
    }

    /// Debits `who` in the asset `id` as the flags allow, takes what was
    /// debited from the supply, and returns it with the actions.
    pub fn decrease_balance(&mut self, id: AssetId, who: AccountId, amount: Balance, f: DebitFlags)
        -> (r: Result<(Balance, Vec<Action>), Error>)
        ensures
            done_amount(
                old(self)@.decrease_balance(id, who, amount, f),
                old(self)@,
                final(self)@,
                r,
            ),
            sound(old(self)@, final(self)@),
    {
        proof {
            use_type_invariant(&*self);
        }
        self.do_burn(id, who, amount, None, f)
    }

    /// The signer, who must be the admin, burns up to `amount` of `who`'s
    /// holding. Returns what was burned, with the actions.
    pub fn burn(&mut self, origin: Origin, id: AssetId, who: AccountId, amount: Balance) -> (r:
        Result<(Balance, Vec<Action>), Error>)
        ensures
            done_amount(old(self)@.burn(origin, id, who, amount), old(self)@, final(self)@, r),
            sound(old(self)@, final(self)@),
    {
        proof {
            use_type_invariant(&*self);
        }
        match origin {
            Origin::Signed(caller) => self.do_burn(
                id,
                who,
                amount,
                Some(caller),
                DebitFlags { keep_alive: false, best_effort: true },
            ),
            Origin::Root => Err(Error::BadOrigin),
        }
    }

    /// Moves `amount` of the asset `id` from `source` to `dest` with the
    /// given authority and flags. Returns what `dest` received, with the
    /// actions. `provider` says that the host has a provider reference to
    /// spare for `dest`.
    pub fn do_transfer(
        &mut self,
        id: AssetId,
        source: AccountId,
        dest: AccountId,
        amount: Balance,
        authority: Authority,
        f: TransferFlags,
        provider: bool,
    ) -> (r: Result<(Balance, Vec<Action>), Error>)
        ensures
            done_amount(
                old(self)@.do_transfer(id, source, dest, amount, authority, f, provider),
                old(self)@,
                final(self)@,
                r,
            ),
            sound(old(self)@, final(self)@),
    {
        proof {
            use_type_invariant(&*self);
        }
        let ghost before = self@;
        let mut class = match self.take(id) {
            Some(class) => class,
            None => {
                return Err(Error::Unknown);
            },
        };
        let r = class.transfer(id, source, dest, amount, authority, f, provider);
        self.settle(id, class, Ghost(before));
        r
    }

    /// The signer moves `amount` of own funds to `target`; the signer's
    /// record may go with it.
    pub fn transfer(
        &mut self,
        origin: Origin,
        id: AssetId,
        target: AccountId,
        amount: Balance,
        provider: bool,
    ) -> (r: Result<(Balance, Vec<Action>), Error>)
        ensures
            done_amount(
                old(self)@.transfer(origin, id, target, amount, provider),
                old(self)@,
                final(self)@,
                r,
            ),
            sound(old(self)@, final(self)@),
    {
        proof {
            use_type_invariant(&*self);
        }
        match origin {
            Origin::Signed(caller) => self.do_transfer(
                id,
                caller,
                target,
                amount,
                Authority::Holder,
                TransferFlags { keep_alive: false, best_effort: false, burn_dust: false },
                provider,
            ),
            Origin::Root => Err(Error::BadOrigin),
        }
    }

    /// The signer moves `amount` of own funds to `target` and keeps at least
    /// the minimum balance.
    pub fn transfer_keep_alive(
        &mut self,
        origin: Origin,
        id: AssetId,
        target: AccountId,
        amount: Balance,
        provider: bool,
    ) -> (r: Result<(Balance, Vec<Action>), Error>)
        ensures
            done_amount(
                old(self)@.transfer_keep_alive(origin, id, target, amount, provider),
                old(self)@,
                final(self)@,
                r,
            ),
            sound(old(self)@, final(self)@),
    {
        proof {
            use_type_invariant(&*self);
        }
        match origin {
            Origin::Signed(caller) => self.do_transfer(
                id,
                caller,
                target,
                amount,
                Authority::Holder,
                TransferFlags { keep_alive: true, best_effort: false, burn_dust: false },
                provider,
            ),
            Origin::Root => Err(Error::BadOrigin),
        }
    }

    /// The signer, who must be the admin, moves `amount` from `source` to `dest`.
    pub fn force_transfer(
        &mut self,
        origin: Origin,
        id: AssetId,
        source: AccountId,
        dest: AccountId,
        amount: Balance,
        provider: bool,
    ) -> (r: Result<(Balance, Vec<Action>), Error>)
        ensures
            done_amount(
                old(self)@.force_transfer(origin, id, source, dest, amount, provider),
                old(self)@,
                final(self)@,
                r,
            ),
            sound(old(self)@, final(self)@),
    {
        proof {
            use_type_invariant(&*self);
        }
        match origin {
            Origin::Signed(caller) => self.do_transfer(
                id,
                source,
                dest,
                amount,
                Authority::Admin(caller),
                TransferFlags { keep_alive: false, best_effort: false, burn_dust: false },
                provider,
            ),
            Origin::Root => Err(Error::BadOrigin),
        }
    }

    /// The signer, who must be the freezer, freezes the record of `who`.
    pub fn freeze(&mut self, origin: Origin, id: AssetId, who: AccountId) -> (r: Result<
        Vec<Action>,
        Error,
    >)
        ensures
            done(old(self)@.freeze(origin, id, who), old(self)@, final(self)@, r),
            sound(old(self)@, final(self)@),
    {
        proof {
            use_type_invariant(&*self);
        }
        let caller = match origin {
            Origin::Signed(caller) => caller,
            Origin::Root => {
                return Err(Error::BadOrigin);
            },
        };
        let ghost before = self@;
        let mut class = match self.take(id) {
            Some(class) => class,
            None => {
                return Err(Error::Unknown);
            },
        };
        let r = class.set_frozen(caller, who, true);
        self.settle(id, class, Ghost(before));
        r
    }

    /// The signer, who must be the admin, thaws the record of `who`.
    pub fn thaw(&mut self, origin: Origin, id: AssetId, who: AccountId) -> (r: Result<
        Vec<Action>,
        Error,
    >)
        ensures
            done(old(self)@.thaw(origin, id, who), old(self)@, final(self)@, r),
            sound(old(self)@, final(self)@),
    {
        proof {
            use_type_invariant(&*self);
        }
        let caller = match origin {
            Origin::Signed(caller) => caller,
            Origin::Root => {
                return Err(Error::BadOrigin);
            },
        };
        let ghost before = self@;
        let mut class = match self.take(id) {
            Some(class) => class,
            None => {
                return Err(Error::Unknown);
            },
        };
        let r = class.set_frozen(caller, who, false);
        self.settle(id, class, Ghost(before));
        r
    }

    /// The signer, who must be the freezer, freezes the asset `id`.
    pub fn freeze_asset(&mut self, origin: Origin, id: AssetId) -> (r: Result<Vec<Action>, Error>)
        ensures
            done(old(self)@.freeze_asset(origin, id), old(self)@, final(self)@, r),
            sound(old(self)@, final(self)@),
    {
        proof {
            use_type_invariant(&*self);
        }
        let caller = match origin {
            Origin::Signed(caller) => caller,
            Origin::Root => {
                return Err(Error::BadOrigin);
            },
        };
        let ghost before = self@;
        let mut class = match self.take(id) {
            Some(class) => class,
            None => {
                return Err(Error::Unknown);
            },
        };
        let r = class.set_asset_frozen(caller, true);
        self.settle(id, class, Ghost(before));
        r
    }

    /// The signer, who must be the admin, thaws the asset `id`; not while
    /// the asset is being destroyed.
    pub fn thaw_asset(&mut self, origin: Origin, id: AssetId) -> (r: Result<Vec<Action>, Error>)
        ensures
            done(old(self)@.thaw_asset(origin, id), old(self)@, final(self)@, r),
            sound(old(self)@, final(self)@),
    {
        proof {
            use_type_invariant(&*self);
        }
        let caller = match origin {
            Origin::Signed(caller) => caller,
            Origin::Root => {
                return Err(Error::BadOrigin);
            },
        };
        let ghost before = self@;
        let mut class = match self.take(id) {
            Some(class) => class,
            None => {
                return Err(Error::Unknown);
            },
        };
        let r = class.set_asset_frozen(caller, false);
        self.settle(id, class, Ghost(before));
        r
    }

    /// The signer, who must be the owner, hands the asset `id` to `owner`,
    /// and with it the deposits held for the asset and its metadata.
    /// `funded` says that the host's currency can move them.
    pub fn transfer_ownership(
        &mut self,
        origin: Origin,
        id: AssetId,
        owner: AccountId,
        funded: bool,
    ) -> (r: Result<Vec<Action>, Error>)
        ensures
            done(
                old(self)@.transfer_ownership(origin, id, owner, funded),
                old(self)@,
                final(self)@,
                r,
            ),
            sound(old(self)@, final(self)@),
    {
        proof {
            use_type_invariant(&*self);
        }
        let caller = match origin {
            Origin::Signed(caller) => caller,
            Origin::Root => {
                return Err(Error::BadOrigin);
            },
        };
        let ghost before = self@;
        let mut class = match self.take(id) {
            Some(class) => class,
            None => {
                return Err(Error::Unknown);
            },
        };
        let r = class.transfer_ownership(caller, owner, funded);
        self.settle(id, class, Ghost(before));
        r
    }

    /// The signer, who must be the owner, appoints issuer, admin and freezer.
    pub fn set_team(
        &mut self,
        origin: Origin,
        id: AssetId,
        issuer: AccountId,
        admin: AccountId,
        freezer: AccountId,
    ) -> (r: Result<Vec<Action>, Error>)
        ensures
            done(
                old(self)@.set_team(origin, id, issuer, admin, freezer),
                old(self)@,
                final(self)@,
                r,
            ),
            sound(old(self)@, final(self)@),
    {
        proof {
            use_type_invariant(&*self);
        }
        let caller = match origin {
            Origin::Signed(caller) => caller,
            Origin::Root => {
                return Err(Error::BadOrigin);
            },
        };
        let ghost before = self@;
        let mut class = match self.take(id) {
            Some(class) => class,
            None => {
                return Err(Error::Unknown);
            },
        };
        let r = class.set_team(caller, issuer, admin, freezer);
        self.settle(id, class, Ghost(before));
        r
    }

    /// Whether `name` and `symbol` are within the limit of the ledger.
    fn fits(&self, name: &Vec<u8>, symbol: &Vec<u8>) -> (r: bool)
        ensures
            r == self@.fits(name@, symbol@),
    {
        let limit = self.config.string_limit as usize;
        proof {
            assert(self.config == self@.config);
        }
        name.len() <= limit && symbol.len() <= limit
    }

    /// Sets the metadata of `id` on behalf of `from`, who must be the owner,
    /// and settles the deposit for it. `funded` says that the host's
    /// currency can reserve what a larger deposit asks for.
    pub fn do_set_metadata(
        &mut self,
        id: AssetId,
        from: AccountId,
        name: Vec<u8>,
        symbol: Vec<u8>,
        decimals: u8,
        funded: bool,
    ) -> (r: Result<Vec<Action>, Error>)
        ensures
            done(
                old(self)@.do_set_metadata(id, from, name@, symbol@, decimals, funded),
                old(self)@,
                final(self)@,
                r,
            ),
            sound(old(self)@, final(self)@),
    {
        proof {
            use_type_invariant(&*self);
        }
        if !self.fits(&name, &symbol) {
            return Err(Error::BadMetadata);
        }
        let ghost before = self@;
        let mut class = match self.take(id) {
            Some(class) => class,
            None => {
                return Err(Error::Unknown);
            },
        };
        let r = class.set_metadata(&self.config, from, name, symbol, decimals, funded);
        self.settle(id, class, Ghost(before));
        r
    }

    /// The signer, who must be the owner, sets the metadata of `id`.
    pub fn set_metadata(
        &mut self,
        origin: Origin,
        id: AssetId,
        name: Vec<u8>,
        symbol: Vec<u8>,
        decimals: u8,
        funded: bool,
    ) -> (r: Result<Vec<Action>, Error>)
        ensures
            done(
                old(self)@.set_metadata(origin, id, name@, symbol@, decimals, funded),
                old(self)@,
                final(self)@,
                r,
            ),
            sound(old(self)@, final(self)@),
    {
        proof {
            use_type_invariant(&*self);
        }
        match origin {
            Origin::Signed(caller) => self.do_set_metadata(
                id,
                caller,
                name,
                symbol,
                decimals,
                funded,
            ),
            Origin::Root => Err(Error::BadOrigin),
        }
    }

    /// The signer, who must be the owner, removes the metadata of `id` and
    /// gets its deposit back.
    pub fn clear_metadata(&mut self, origin: Origin, id: AssetId) -> (r: Result<Vec<Action>, Error>)
        ensures
            done(old(self)@.clear_metadata(origin, id), old(self)@, final(self)@, r),
            sound(old(self)@, final(self)@),
    {
        proof {
            use_type_invariant(&*self);
        }
        if let Origin::Root = origin {
            return Err(Error::BadOrigin);
        }
        let ghost before = self@;
        let mut class = match self.take(id) {
            Some(class) => class,
            None => {
                return Err(Error::Unknown);
            },
        };
        let r = class.clear_metadata(origin);
        self.settle(id, class, Ghost(before));
        r
    }

    /// The privileged origin sets the metadata of `id`; the deposit held for
    /// it stays as it is.
    pub fn force_set_metadata(
        &mut self,
        origin: Origin,
        id: AssetId,
        name: Vec<u8>,
        symbol: Vec<u8>,
        decimals: u8,
        is_frozen: bool,
    ) -> (r: Result<Vec<Action>, Error>)
        ensures
            done(
                old(self)@.force_set_metadata(origin, id, name@, symbol@, decimals, is_frozen),
                old(self)@,
                final(self)@,
                r,
            ),
            sound(old(self)@, final(self)@),
    {
        proof {
            use_type_invariant(&*self);
        }
        if let Origin::Signed(_) = origin {
            return Err(Error::BadOrigin);
        }
        if !self.fits(&name, &symbol) {
            return Err(Error::BadMetadata);
        }
        let ghost before = self@;
        let mut class = match self.take(id) {
            Some(class) => class,
            None => {
                return Err(Error::Unknown);
            },
        };
        let r = class.force_set_metadata(name, symbol, decimals, is_frozen);
        self.settle(id, class, Ghost(before));
        r
    }

    /// The privileged origin removes the metadata of `id`; the deposit goes
    /// back to the owner.
    pub fn force_clear_metadata(&mut self, origin: Origin, id: AssetId) -> (r: Result<
        Vec<Action>,
        Error,
    >)
        ensures
            done(old(self)@.force_clear_metadata(origin, id), old(self)@, final(self)@, r),
            sound(old(self)@, final(self)@),
    {
        proof {
            use_type_invariant(&*self);
        }
        if let Origin::Signed(_) = origin {
            return Err(Error::BadOrigin);
        }
        let ghost before = self@;
        let mut class = match self.take(id) {
            Some(class) => class,
            None => {
                return Err(Error::Unknown);
            },
        };
        let r = class.clear_metadata(origin);
        self.settle(id, class, Ghost(before));
        r
    }

    /// The privileged origin overwrites roles, minimum balance, sufficiency
    /// and freeze of the asset `id`. Refused are a minimum balance of zero,
    /// one above a holding that is not zero, and lifting the freeze of an
    /// asset that is being destroyed.
    pub fn force_asset_status(
        &mut self,
        origin: Origin,
        id: AssetId,
        owner: AccountId,
        issuer: AccountId,
        admin: AccountId,
        freezer: AccountId,
        min_balance: Balance,
        is_sufficient: bool,
        is_frozen: bool,
    ) -> (r: Result<Vec<Action>, Error>)
        ensures
            done(
                old(self)@.force_asset_status(
                    origin,
                    id,
                    owner,
                    issuer,
                    admin,
                    freezer,
                    min_balance,
                    is_sufficient,
                    is_frozen,
                ),
                old(self)@,
                final(self)@,
                r,
            ),
            sound(old(self)@, final(self)@),
    {
        proof {
            use_type_invariant(&*self);
        }
        if let Origin::Signed(_) = origin {
            return Err(Error::BadOrigin);
        }
        let ghost before = self@;
        let mut class = match self.take(id) {
            Some(class) => class,
            None => {
                return Err(Error::Unknown);
            },
        };
        let r = class.force_asset_status(
            owner,
            issuer,
            admin,
            freezer,
            min_balance,
            is_sufficient,
            is_frozen,
        );
        self.settle(id, class, Ghost(before));
        r
    }

    /// Adds `amount` to what `owner` lets `delegate` move of the asset `id`.
    /// A new approval takes the approval deposit; `funded` says that the
    /// host's currency can reserve it.
    pub fn do_approve_transfer(
        &mut self,
        id: AssetId,
        owner: AccountId,
        delegate: AccountId,
        amount: Balance,
        funded: bool,
    ) -> (r: Result<Vec<Action>, Error>)
        ensures
            done(
                old(self)@.do_approve_transfer(id, owner, delegate, amount, funded),
                old(self)@,
                final(self)@,
                r,
            ),
            sound(old(self)@, final(self)@),
    {
        proof {
            use_type_invariant(&*self);
        }
        let ghost before = self@;
        let mut class = match self.take(id) {
            Some(class) => class,
            None => {
                return Err(Error::Unknown);
            },
        };
        let r = class.approve_transfer(&self.config, owner, delegate, amount, funded);
        self.settle(id, class, Ghost(before));
        r
    }

    /// The signer lets `delegate` move `amount` more of its holding.
    pub fn approve_transfer(
        &mut self,
        origin: Origin,
        id: AssetId,
        delegate: AccountId,
        amount: Balance,
        funded: bool,
    ) -> (r: Result<Vec<Action>, Error>)
        ensures
            done(
                old(self)@.approve_transfer(origin, id, delegate, amount, funded),
                old(self)@,
                final(self)@,
                r,
            ),
            sound(old(self)@, final(self)@),
    {
        proof {
            use_type_invariant(&*self);
        }
        match origin {
            Origin::Signed(owner) => self.do_approve_transfer(id, owner, delegate, amount, funded),
            Origin::Root => Err(Error::BadOrigin),
        }
    }

    /// The signer takes back what it let `delegate` move, and gets the
    /// deposit of the approval back.
    pub fn cancel_approval(&mut self, origin: Origin, id: AssetId, delegate: AccountId) -> (r:
        Result<Vec<Action>, Error>)
        ensures
            done(old(self)@.cancel_approval(origin, id, delegate), old(self)@, final(self)@, r),
            sound(old(self)@, final(self)@),
    {
        proof {
            use_type_invariant(&*self);
        }
        let caller = match origin {
            Origin::Signed(caller) => caller,
            Origin::Root => {
                return Err(Error::BadOrigin);
            },
        };
        let ghost before = self@;
        let mut class = match self.take(id) {
            Some(class) => class,
            None => {
                return Err(Error::Unknown);
            },
        };
        let r = class.cancel_approval(caller, delegate);
        self.settle(id, class, Ghost(before));
        r
    }

    /// The admin, or the privileged origin, removes the approval that
    /// `owner` gave `delegate`; the deposit goes back to `owner`.
    pub fn force_cancel_approval(
        &mut self,
        origin: Origin,
        id: AssetId,
        owner: AccountId,
        delegate: AccountId,
    ) -> (r: Result<Vec<Action>, Error>)
        ensures
            done(
                old(self)@.force_cancel_approval(origin, id, owner, delegate),
                old(self)@,
                final(self)@,
                r,
            ),
            sound(old(self)@, final(self)@),
    {
        proof {
            use_type_invariant(&*self);
        }
        let ghost before = self@;
        let mut class = match self.take(id) {
            Some(class) => class,
            None => {
                return Err(Error::Unknown);
            },
        };
        let r = class.force_cancel_approval(origin, owner, delegate);
        self.settle(id, class, Ghost(before));
        r
    }

    /// Lets `delegate` move `amount` of `owner`'s holding to `destination`
    /// against the approval, which loses `amount` and goes, with its deposit
    /// freed, when nothing is left of it. Returns what `destination`
    /// received, with the actions.
    pub fn do_transfer_approved(
        &mut self,
        id: AssetId,
        owner: AccountId,
        delegate: AccountId,
        destination: AccountId,
        amount: Balance,
        provider: bool,
    ) -> (r: Result<(Balance, Vec<Action>), Error>)
        ensures
            done_amount(
                old(self)@.do_transfer_approved(id, owner, delegate, destination, amount, provider),
                old(self)@,
                final(self)@,
                r,
            ),
            sound(old(self)@, final(self)@),
    {
        proof {
            use_type_invariant(&*self);
        }
        let ghost before = self@;
        let mut class = match self.take(id) {
            Some(class) => class,
            None => {
                return Err(Error::Unapproved);
            },
        };
        let r = class.transfer_approved(id, owner, delegate, destination, amount, provider);
        self.settle(id, class, Ghost(before));
        r
    }

    /// The signer, as delegate of `owner`, moves `amount` to `destination`.
    pub fn transfer_approved(
        &mut self,
        origin: Origin,
        id: AssetId,
        owner: AccountId,
        destination: AccountId,
        amount: Balance,
        provider: bool,
    ) -> (r: Result<(Balance, Vec<Action>), Error>)
        ensures
            done_amount(
                old(self)@.transfer_approved(origin, id, owner, destination, amount, provider),
                old(self)@,
                final(self)@,
                r,
            ),
            sound(old(self)@, final(self)@),
    {
        proof {
            use_type_invariant(&*self);
        }
        match origin {
            Origin::Signed(delegate) => self.do_transfer_approved(
                id,
                owner,
                delegate,
                destination,
                amount,
                provider,
            ),
            Origin::Root => Err(Error::BadOrigin),
        }
    }

    /// Gives `who` an empty record in `id` against the account deposit.
    /// `funded` says that the host's currency can reserve it.
    pub fn do_touch(&mut self, id: AssetId, who: AccountId, funded: bool) -> (r: Result<
        Vec<Action>,
        Error,
    >)
        ensures
            done(old(self)@.do_touch(id, who, funded), old(self)@, final(self)@, r),
            sound(old(self)@, final(self)@),
    {
        proof {
            use_type_invariant(&*self);
        }
        let ghost before = self@;
        let mut class = match self.take(id) {
            Some(class) => class,
            None => {
                return Err(Error::Unknown);
            },
        };
        let r = class.touch(&self.config, who, funded);
        self.settle(id, class, Ghost(before));
        r
    }

    /// The signer gets an empty record in `id` against the account deposit.
    pub fn touch(&mut self, origin: Origin, id: AssetId, funded: bool) -> (r: Result<
        Vec<Action>,
        Error,
    >)
        ensures
            done(old(self)@.touch(origin, id, funded), old(self)@, final(self)@, r),
            sound(old(self)@, final(self)@),
    {
        proof {
            use_type_invariant(&*self);
        }
        match origin {
            Origin::Signed(who) => self.do_touch(id, who, funded),
            Origin::Root => Err(Error::BadOrigin),
        }
    }

    /// Gives back the deposit of `who`'s record in `id` and removes the
    /// record. What the record still holds leaves the supply, which takes
    /// `allow_burn`.
    pub fn do_refund(&mut self, id: AssetId, who: AccountId, allow_burn: bool) -> (r: Result<
        Vec<Action>,
        Error,
    >)
        ensures
            done(old(self)@.do_refund(id, who, allow_burn), old(self)@, final(self)@, r),
            sound(old(self)@, final(self)@),
    {
        proof {
            use_type_invariant(&*self);
        }
        let ghost before = self@;
        let mut class = match self.take(id) {
            Some(class) => class,
            None => {
                return Err(Error::NoDeposit);
            },
        };
        let r = class.refund(id, who, allow_burn);
        self.settle(id, class, Ghost(before));
        r
    }

    /// The signer gets the deposit of its record in `id` back and loses the record.
    pub fn refund(&mut self, origin: Origin, id: AssetId, allow_burn: bool) -> (r: Result<
        Vec<Action>,
        Error,
    >)
        ensures
            done(old(self)@.refund(origin, id, allow_burn), old(self)@, final(self)@, r),
            sound(old(self)@, final(self)@),
    {
        proof {
            use_type_invariant(&*self);
        }
        match origin {
            Origin::Signed(who) => self.do_refund(id, who, allow_burn),
            Origin::Root => Err(Error::BadOrigin),
        }
    }
}

/// A live asset class without records and with a minimum balance is well formed.
pub proof fn lemma_fresh(details: AssetDetails)
    requires
        details.supply == 0,
        details.accounts == 0,
        details.sufficients == 0,
        details.approvals == 0,
        details.min_balance > 0,
        details.status == AssetStatus::Live,
    ensures
        AssetState::fresh(details).wf(),
{
}

} // verus!
