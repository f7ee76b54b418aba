//! A ledger built in one go from lists of assets, metadata and holdings.

use vstd::prelude::*;
use crate::types::{AccountId, Action, AssetId, Balance, Config, Error, Origin};
use crate::model::{AssetState, State};
use crate::pallet::Pallet;

verus! {

/// What a ledger starts with.
pub struct GenesisConfig {
    /// Assets: identifier, owner, sufficiency, minimum balance.
    pub assets: Vec<(AssetId, AccountId, bool, Balance)>,
    /// Metadata: asset, name, symbol, decimals.
    pub metadata: Vec<(AssetId, Vec<u8>, Vec<u8>, u8)>,
    /// Holdings: asset, account, balance.
    pub accounts: Vec<(AssetId, AccountId, Balance)>,
}

impl Default for GenesisConfig {
    /// A start without assets.
    fn default() -> (r: GenesisConfig)
        ensures
            r.assets@.len() == 0,
            r.metadata@.len() == 0,
            r.accounts@.len() == 0,
    {
        GenesisConfig { assets: Vec::new(), metadata: Vec::new(), accounts: Vec::new() }
    }
}

/// The ledger `s` after the assets of the list were registered in order,
/// each without a deposit and with its owner in every role.
pub open spec fn seed_assets(s: State, assets: Seq<(AssetId, AccountId, bool, Balance)>) -> Result<
    State,
    Error,
>
    decreases assets.len(),
{
    if assets.len() == 0 {
        Ok(s)
    } else {
        match s.do_force_create(assets[0].0, assets[0].1, assets[0].2, assets[0].3) {
            Err(e) => Err(e),
            Ok(out) => seed_assets(out.state, assets.skip(1)),
        }
    }
}

/// The ledger `s` after the metadata of the list was set in order, each
/// without a deposit.
pub open spec fn seed_metadata(s: State, metadata: Seq<(AssetId, Vec<u8>, Vec<u8>, u8)>) -> Result<
    State,
    Error,
>
    decreases metadata.len(),
{
    if metadata.len() == 0 {
        Ok(s)
    } else {
        match s.force_set_metadata(
            Origin::Root,
            metadata[0].0,
            metadata[0].1@,
            metadata[0].2@,
            metadata[0].3,
            false,
        ) {
            Err(e) => Err(e),
            Ok(out) => seed_metadata(out.state, metadata.skip(1)),
        }
    }
}

/// The ledger `s` after the holdings of the list were minted in order, and
/// the actions that minting them adds to `actions`. The host is taken to
/// have a provider reference for every account.
pub open spec fn seed_accounts(
    s: State,
    actions: Seq<Action>,
    accounts: Seq<(AssetId, AccountId, Balance)>,
) -> Result<(State, Seq<Action>), Error>
    decreases accounts.len(),
{
    if accounts.len() == 0 {
        Ok((s, actions))
    } else {
        match s.increase_balance(accounts[0].0, accounts[0].1, accounts[0].2, None, true) {
            Err(e) => Err(e),
            Ok(out) => seed_accounts(out.state, actions + out.actions, accounts.skip(1)),
        }
    }
}

/// An empty ledger with the constants `config`.
pub open spec fn empty(config: Config) -> State {
    State { config, assets: Map::<AssetId, AssetState>::empty() }
}

impl GenesisConfig {
    /// The ledger that `self` describes and what the host has to carry out
    /// for it: first the assets, then the metadata, then the holdings.
    pub open spec fn built(&self, config: Config) -> Result<(State, Seq<Action>), Error> {
        match seed_assets(empty(config), self.assets@) {
            Err(e) => Err(e),
            Ok(s) => match seed_metadata(s, self.metadata@) {
                Err(e) => Err(e),
                Ok(s) => seed_accounts(s, Seq::empty(), self.accounts@),
            },
        }
    }

    /// Builds the ledger that `self` describes.
    ///
    /// Fails with the error of the first entry that cannot be applied: an
    /// asset whose identifier is taken or whose minimum balance is zero,
    /// metadata of an asset that does not exist or with a name or symbol
    /// over the limit, a holding that cannot be minted.
    pub fn build(&self, config: Config) -> (r: Result<(Pallet, Vec<Action>), Error>)
        ensures
            match self.built(config) {
                Ok(made) => r matches Ok(res) && res.0@ == made.0 && res.1@ == made.1
                    && res.0@.wf(),
                Err(e) => r matches Err(x) && x == e,
            },
    {
        let mut ledger = Pallet::new(config);
        assert(ledger@ == empty(config));
        let mut i: usize = 0;
        assert(self.assets@.skip(0) =~= self.assets@);
        while i < self.assets.len()
            invariant
                i <= self.assets.len(),
                ledger@.wf(),
                ledger@.config == config,
                seed_assets(empty(config), self.assets@) == seed_assets(
                    ledger@,
                    self.assets@.skip(i as int),
                ),
            decreases self.assets.len() - i,
        {
            let (id, owner, is_sufficient, min_balance) = self.assets[i];
            proof {
                assert(self.assets@.skip(i as int)[0] == self.assets@[i as int]);
                assert(self.assets@.skip(i as int).skip(1) =~= self.assets@.skip(i + 1));
            }
            if let Err(e) = ledger.do_force_create(id, owner, is_sufficient, min_balance) {
                return Err(e);
            }
            i += 1;
        }
        let mut i: usize = 0;
        let ghost seeded = ledger@;
        assert(self.metadata@.skip(0) =~= self.metadata@);
        while i < self.metadata.len()
            invariant
                i <= self.metadata.len(),
                ledger@.wf(),
                ledger@.config == config,
                seed_assets(empty(config), self.assets@) == Ok::<State, Error>(seeded),
                seed_metadata(seeded, self.metadata@) == seed_metadata(
                    ledger@,
                    self.metadata@.skip(i as int),
                ),
            decreases self.metadata.len() - i,
        {
            let entry = &self.metadata[i];
            let name = entry.1.clone();
            let symbol = entry.2.clone();
            proof {
                assert(self.metadata@.skip(i as int)[0] == self.metadata@[i as int]);
                assert(self.metadata@.skip(i as int).skip(1) =~= self.metadata@.skip(i + 1));
                assert(name@ =~= entry.1@);
                assert(symbol@ =~= entry.2@);
            }
            if let Err(e) = ledger.force_set_metadata(
                Origin::Root,
                entry.0,
                name,
                symbol,
                entry.3,
                false,
            ) {
                return Err(e);
            }
            i += 1;
        }
        let mut i: usize = 0;
        let ghost described = ledger@;
        let mut actions: Vec<Action> = Vec::new();
        assert(self.accounts@.skip(0) =~= self.accounts@);
        while i < self.accounts.len()
            invariant
                i <= self.accounts.len(),
                ledger@.wf(),
                ledger@.config == config,
                seed_assets(empty(config), self.assets@) == Ok::<State, Error>(seeded),
                seed_metadata(seeded, self.metadata@) == Ok::<State, Error>(described),
                seed_accounts(described, Seq::empty(), self.accounts@) == seed_accounts(
                    ledger@,
                    actions@,
                    self.accounts@.skip(i as int),
                ),
            decreases self.accounts.len() - i,
        {
            let (id, who, amount) = self.accounts[i];
            proof {
                assert(self.accounts@.skip(i as int)[0] == self.accounts@[i as int]);
                assert(self.accounts@.skip(i as int).skip(1) =~= self.accounts@.skip(i + 1));
            }
            match ledger.increase_balance(id, who, amount, None, true) {
                Err(e) => {
                    return Err(e);
                },
                Ok(mut more) => {
                    actions.append(&mut more);
                },
            }
            i += 1;
        }
        Ok((ledger, actions))
    }
}

} // verus!
