//! Plain data of the ledger: identifiers, registry entries, account and
//! approval records, flags, errors and the actions handed to the host.

use vstd::prelude::*;

verus! {

/// Identifier of an asset class.
pub type AssetId = u32;

/// Identifier of an account, already resolved by the host.
pub type AccountId = u64;

/// Unit in which balances, supplies and deposits are counted.
pub type Balance = u128;

/// Opaque per-account payload that a collaborator hook owns.
pub type Extra = u64;

/// Who asks for an operation, as the host's permission resolution reports it.
#[derive(Clone, Copy, Debug, PartialEq, Eq, Structural)]
pub enum Origin {
    /// The privileged origin, which may force any change.
    Root,
    /// An authenticated account.
    Signed(AccountId),
}

/// Lifecycle status of an asset class.
#[derive(Clone, Copy, Debug, PartialEq, Eq, Structural)]
pub enum AssetStatus {
    /// The asset is in normal use.
    Live,
    /// The asset is being taken apart; only the cleanup calls are of use.
    Destroying,
}

/// Registry entry of one asset class.
#[derive(Clone, Copy, Debug, PartialEq, Eq, Structural)]
pub struct AssetDetails {
    /// May destroy the asset and appoint the team.
    pub owner: AccountId,
    /// May mint.
    pub issuer: AccountId,
    /// May thaw, force transfers and burn.
    pub admin: AccountId,
    /// May freeze.
    pub freezer: AccountId,
    /// Units issued and not yet burned.
    pub supply: Balance,
    /// Collateral that the creator reserved for this entry.
    pub deposit: Balance,
    /// Floor of every holding that is not zero.
    pub min_balance: Balance,
    /// Whether a holding alone lets its account exist.
    pub is_sufficient: bool,
    /// Number of account records.
    pub accounts: u32,
    /// Number of account records that exist as self-sufficient holdings.
    pub sufficients: u32,
    /// Number of approval records.
    pub approvals: u32,
    /// Asset-wide freeze.
    pub is_frozen: bool,
    /// Where the asset stands in its life.
    pub status: AssetStatus,
}

/// Why an account record may exist.
#[derive(Clone, Copy, Debug, PartialEq, Eq, Structural)]
pub enum ExistenceReason {
    /// The record holds a consumer reference on the account.
    Consumer,
    /// The holding itself keeps the account alive.
    Sufficient,
    /// The account owner reserved this deposit for the record.
    DepositHeld(Balance),
    /// A deposit was held and has been given back.
    DepositRefunded,
}

impl ExistenceReason {
    /// The deposit that `self` holds, if any.
    pub open spec fn deposit(self) -> Option<Balance> {
        match self {
            ExistenceReason::DepositHeld(amount) => Some(amount),
            _ => None,
        }
    }

    /// Hands out the deposit of a `DepositHeld` reason and marks it refunded.
    pub fn take_deposit(&mut self) -> (r: Option<Balance>)
        ensures
            r == old(self).deposit(),
            *final(self) == (if r is Some {
                ExistenceReason::DepositRefunded
            } else {
                *old(self)
            }),
    {
        match *self {
            ExistenceReason::DepositHeld(amount) => {
                *self = ExistenceReason::DepositRefunded;
                Some(amount)
            },
            _ => None,
        }
    }
}

/// Balance record of one account in one asset class.
#[derive(Clone, Copy, Debug, PartialEq, Eq, Structural)]
pub struct AssetAccount {
    /// Units held.
    pub balance: Balance,
    /// Account-level freeze.
    pub is_frozen: bool,
    /// Why the record may exist.
    pub reason: ExistenceReason,
    /// Payload of a collaborator hook.
    pub extra: Extra,
}

/// Permission of a delegate to move funds of an owner.
#[derive(Clone, Copy, Debug, PartialEq, Eq, Structural)]
pub struct Approval {
    /// Units the delegate may still move.
    pub amount: Balance,
    /// Collateral that the owner reserved for this record.
    pub deposit: Balance,
}

/// An account record together with its key.
#[derive(Clone, Copy, Debug, PartialEq, Eq, Structural)]
pub struct Holding {
    pub who: AccountId,
    pub account: AssetAccount,
}

/// An approval record together with its key.
#[derive(Clone, Copy, Debug, PartialEq, Eq, Structural)]
pub struct Grant {
    pub owner: AccountId,
    pub delegate: AccountId,
    pub approval: Approval,
}

/// Descriptive data of an asset class.
#[derive(Clone, Debug)]
pub struct AssetMetadata {
    /// Collateral reserved for the metadata.
    pub deposit: Balance,
    /// Display name.
    pub name: Vec<u8>,
    /// Ticker symbol.
    pub symbol: Vec<u8>,
    /// Number of decimals of one unit.
    pub decimals: u8,
    /// Whether only the privileged origin may change the metadata.
    pub is_frozen: bool,
}

/// Mathematical value of an [`AssetMetadata`].
pub struct MetadataView {
    pub deposit: Balance,
    pub name: Seq<u8>,
    pub symbol: Seq<u8>,
    pub decimals: u8,
    pub is_frozen: bool,
}

impl View for AssetMetadata {
    type V = MetadataView;

    open spec fn view(&self) -> MetadataView {
        MetadataView {
            deposit: self.deposit,
            name: self.name@,
            symbol: self.symbol@,
            decimals: self.decimals,
            is_frozen: self.is_frozen,
        }
    }
}

/// How a debit may bend.
#[derive(Clone, Copy, Debug, PartialEq, Eq, Structural)]
pub struct DebitFlags {
    /// The account must keep at least the minimum balance.
    pub keep_alive: bool,
    /// Less than the amount asked for may be taken.
    pub best_effort: bool,
}

/// How a transfer may bend.
#[derive(Clone, Copy, Debug, PartialEq, Eq, Structural)]
pub struct TransferFlags {
    /// The source must keep at least the minimum balance.
    pub keep_alive: bool,
    /// Less than the amount asked for may be moved.
    pub best_effort: bool,
    /// Dust swept from the source is burned instead of credited.
    pub burn_dust: bool,
}

impl TransferFlags {
    /// The debit half of the flags.
    pub open spec fn debit(self) -> DebitFlags {
        DebitFlags { keep_alive: self.keep_alive, best_effort: self.best_effort }
    }
}

/// With what authority a transfer is made.
#[derive(Clone, Copy, Debug, PartialEq, Eq, Structural)]
pub enum Authority {
    /// The holder, or a delegate of the holder, moves the funds: every
    /// freeze applies.
    Holder,
    /// The named account acts as the asset's admin: a freeze of the source
    /// account does not apply.
    Admin(AccountId),
    /// The privileged origin acts: a freeze of the source account does not
    /// apply, nor does the asset-wide freeze while the asset is being
    /// destroyed.
    Privileged,
}

/// Why an operation was refused.
#[derive(Clone, Copy, Debug, PartialEq, Eq, Structural)]
pub enum Error {
    /// The balance does not cover the amount.
    BalanceLow,
    /// The account has no record in the asset.
    NoAccount,
    /// The caller lacks the role that the operation asks for.
    NoPermission,
    /// The asset, or the record asked for, does not exist.
    Unknown,
    /// The asset or the account is frozen.
    Frozen,
    /// The asset identifier is taken, or records still hang on the asset.
    InUse,
    /// The asset is not frozen although the operation needs it frozen.
    BadWitness,
    /// A minimum balance of zero was asked for.
    MinBalanceZero,
    /// The host has no provider reference to spare for the account.
    NoProvider,
    /// Name or symbol is longer than the limit.
    BadMetadata,
    /// No approval covers the amount.
    Unapproved,
    /// The account would lose its record although it must stay alive.
    WouldDie,
    /// The account record exists already.
    AlreadyExists,
    /// The account record holds no deposit.
    NoDeposit,
    /// Funds would be burned without leave.
    WouldBurn,
    /// The asset is not being destroyed.
    LiveAsset,
    /// The asset is being destroyed.
    AssetNotLive,
    /// The origin is of the wrong kind for the operation.
    BadOrigin,
    /// A number would pass the upper bound of its type.
    Overflow,
    /// The holding would be positive and under the minimum balance.
    BelowMinimum,
    /// The host's currency cannot make the reservation or the move of
    /// reserved funds that the operation depends on.
    Currency,
}

/// What the host has to carry out after an operation succeeded.
#[derive(Clone, Copy, Debug, PartialEq, Eq, Structural)]
pub enum Action {
    /// Move `amount` of `who`'s free funds into reserve.
    Reserve { who: AccountId, amount: Balance },
    /// Release up to `amount` of `who`'s reserved funds.
    Unreserve { who: AccountId, amount: Balance },
    /// Move `amount` of reserved funds from `from` into the reserve of `to`.
    Repatriate { from: AccountId, to: AccountId, amount: Balance },
    /// Take a consumer reference on `who`.
    IncConsumers { who: AccountId },
    /// Give back a consumer reference on `who`.
    DecConsumers { who: AccountId },
    /// Count one more self-sufficient holding of `who`.
    IncSufficients { who: AccountId },
    /// Count one self-sufficient holding of `who` less.
    DecSufficients { who: AccountId },
    /// Tell the freeze hook that `who`'s record in `asset` is gone.
    Died { asset: AssetId, who: AccountId },
}

/// Constants of the ledger.
#[derive(Clone, Copy, Debug, PartialEq, Eq, Structural)]
pub struct Config {
    /// Most records that one cleanup call removes.
    pub remove_keys_limit: u32,
    /// Deposit for creating an asset.
    pub asset_deposit: Balance,
    /// Deposit for an account record that nothing else keeps alive.
    pub asset_account_deposit: Balance,
    /// Fixed part of the metadata deposit.
    pub metadata_deposit_base: Balance,
    /// Part of the metadata deposit per byte of name and symbol.
    pub metadata_deposit_per_byte: Balance,
    /// Deposit for an approval record.
    pub approval_deposit: Balance,
    /// Most bytes of a name or of a symbol.
    pub string_limit: u32,
}

} // verus!
