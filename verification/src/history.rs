//! The ledger over time: every operation as a value, the ledger after a
//! sequence of them, and what holds after any such sequence.

use vstd::prelude::*;
use crate::types::{
    AccountId, Action, Approval, AssetAccount, AssetId, AssetStatus, Authority, Balance, Config,
    DebitFlags, Error, Origin, TransferFlags,
};
use crate::records::{
    index_of, lemma_grant_index, lemma_push_grant, lemma_remove_record, lemma_update_grant,
    lemma_update_record, total_balance,
};
use crate::model::{fresh_details, saturating_sum, Outcome, State, Step};
use crate::ledger::{burn_flags, keep_alive_transfer, plain_transfer};
use crate::genesis::empty;
use crate::laws::{
    lemma_approve_transfer, lemma_burn, lemma_cancel_approval, lemma_credited, lemma_debited,
    lemma_destroy_accounts, lemma_destroy_approvals, lemma_force_asset_status, lemma_mint,
    lemma_refund, lemma_registry, lemma_set_frozen, lemma_touch, lemma_transfer,
    lemma_transfer_approved,
};
use crate::pallet::lemma_fresh;

verus! {

/// One operation of the ledger with its arguments, the host's answers among them.
pub enum Call {
    Create { origin: Origin, id: AssetId, admin: AccountId, min_balance: Balance, funded: bool },
    DoForceCreate { id: AssetId, owner: AccountId, is_sufficient: bool, min_balance: Balance },
    ForceCreate {
        origin: Origin,
        id: AssetId,
        owner: AccountId,
        is_sufficient: bool,
        min_balance: Balance,
    },
    StartDestroy { origin: Origin, id: AssetId },
    DestroyAccounts { origin: Origin, id: AssetId },
    DestroyApprovals { origin: Origin, id: AssetId },
    FinishDestroy { origin: Origin, id: AssetId },
    IncreaseBalance {
        id: AssetId,
        who: AccountId,
        amount: Balance,
        maybe_check_issuer: Option<AccountId>,
        provider: bool,
    },
    Mint { origin: Origin, id: AssetId, beneficiary: AccountId, amount: Balance, provider: bool },
    DoBurn {
        id: AssetId,
        who: AccountId,
        amount: Balance,
        maybe_check_admin: Option<AccountId>,
        f: DebitFlags,
    },
    Burn { origin: Origin, id: AssetId, who: AccountId, amount: Balance },
    DoTransfer {
        id: AssetId,
        source: AccountId,
        dest: AccountId,
        amount: Balance,
        authority: Authority,
        f: TransferFlags,
        provider: bool,
    },
    Transfer { origin: Origin, id: AssetId, target: AccountId, amount: Balance, provider: bool },
    TransferKeepAlive {
        origin: Origin,
        id: AssetId,
        target: AccountId,
        amount: Balance,
        provider: bool,
    },
    ForceTransfer {
        origin: Origin,
        id: AssetId,
        source: AccountId,
        dest: AccountId,
        amount: Balance,
        provider: bool,
    },
    Freeze { origin: Origin, id: AssetId, who: AccountId },
    Thaw { origin: Origin, id: AssetId, who: AccountId },
    FreezeAsset { origin: Origin, id: AssetId },
    ThawAsset { origin: Origin, id: AssetId },
    TransferOwnership { origin: Origin, id: AssetId, owner: AccountId, funded: bool },
    SetTeam {
        origin: Origin,
        id: AssetId,
        issuer: AccountId,
        admin: AccountId,
        freezer: AccountId,
    },
    DoSetMetadata {
        id: AssetId,
        from: AccountId,
        name: Seq<u8>,
        symbol: Seq<u8>,
        decimals: u8,
        funded: bool,
    },
    SetMetadata {
        origin: Origin,
        id: AssetId,
        name: Seq<u8>,
        symbol: Seq<u8>,
        decimals: u8,
        funded: bool,
    },
    ClearMetadata { origin: Origin, id: AssetId },
    ForceSetMetadata {
        origin: Origin,
        id: AssetId,
        name: Seq<u8>,
        symbol: Seq<u8>,
        decimals: u8,
        is_frozen: bool,
    },
    ForceClearMetadata { origin: Origin, id: AssetId },
    ForceAssetStatus {
        origin: Origin,
        id: AssetId,
        owner: AccountId,
        issuer: AccountId,
        admin: AccountId,
        freezer: AccountId,
        min_balance: Balance,
        is_sufficient: bool,
        is_frozen: bool,
    },
    DoApproveTransfer {
        id: AssetId,
        owner: AccountId,
        delegate: AccountId,
        amount: Balance,
        funded: bool,
    },
    ApproveTransfer {
        origin: Origin,
        id: AssetId,
        delegate: AccountId,
        amount: Balance,
        funded: bool,
    },
    CancelApproval { origin: Origin, id: AssetId, delegate: AccountId },
    ForceCancelApproval { origin: Origin, id: AssetId, owner: AccountId, delegate: AccountId },
    DoTransferApproved {
        id: AssetId,
        owner: AccountId,
        delegate: AccountId,
        destination: AccountId,
        amount: Balance,
        provider: bool,
    },
    TransferApproved {
        origin: Origin,
        id: AssetId,
        owner: AccountId,
        destination: AccountId,
        amount: Balance,
        provider: bool,
    },
    DoTouch { id: AssetId, who: AccountId, funded: bool },
    Touch { origin: Origin, id: AssetId, funded: bool },
    DoRefund { id: AssetId, who: AccountId, allow_burn: bool },
    Refund { origin: Origin, id: AssetId, allow_burn: bool },
}

impl Call {
    /// The asset that the call is about.
    pub open spec fn asset(self) -> AssetId {
        match self {
            Call::Create { id, .. } => id,
            Call::DoForceCreate { id, .. } => id,
            Call::ForceCreate { id, .. } => id,
            Call::StartDestroy { id, .. } => id,
            Call::DestroyAccounts { id, .. } => id,
            Call::DestroyApprovals { id, .. } => id,
            Call::FinishDestroy { id, .. } => id,
            Call::IncreaseBalance { id, .. } => id,
            Call::Mint { id, .. } => id,
            Call::DoBurn { id, .. } => id,
            Call::Burn { id, .. } => id,
            Call::DoTransfer { id, .. } => id,
            Call::Transfer { id, .. } => id,
            Call::TransferKeepAlive { id, .. } => id,
            Call::ForceTransfer { id, .. } => id,
            Call::Freeze { id, .. } => id,
            Call::Thaw { id, .. } => id,
            Call::FreezeAsset { id, .. } => id,
            Call::ThawAsset { id, .. } => id,
            Call::TransferOwnership { id, .. } => id,
            Call::SetTeam { id, .. } => id,
            Call::DoSetMetadata { id, .. } => id,
            Call::SetMetadata { id, .. } => id,
            Call::ClearMetadata { id, .. } => id,
            Call::ForceSetMetadata { id, .. } => id,
            Call::ForceClearMetadata { id, .. } => id,
            Call::ForceAssetStatus { id, .. } => id,
            Call::DoApproveTransfer { id, .. } => id,
            Call::ApproveTransfer { id, .. } => id,
            Call::CancelApproval { id, .. } => id,
            Call::ForceCancelApproval { id, .. } => id,
            Call::DoTransferApproved { id, .. } => id,
            Call::TransferApproved { id, .. } => id,
            Call::DoTouch { id, .. } => id,
            Call::Touch { id, .. } => id,
            Call::DoRefund { id, .. } => id,
            Call::Refund { id, .. } => id,
        }
    }
}

impl State {
    /// What `call` makes of the ledger.
    pub open spec fn apply(self, call: Call) -> Result<Outcome, Error> {
        match call {
            Call::Create { origin, id, admin, min_balance, funded } => self.create(
                origin,
                id,
                admin,
                min_balance,
                funded,
            ),
            Call::DoForceCreate { id, owner, is_sufficient, min_balance } => self.do_force_create(
                id,
                owner,
                is_sufficient,
                min_balance,
            ),
            Call::ForceCreate { origin, id, owner, is_sufficient, min_balance } => self
                .force_create(origin, id, owner, is_sufficient, min_balance),
            Call::StartDestroy { origin, id } => self.start_destroy(origin, id),
            Call::DestroyAccounts { origin, id } => self.destroy_accounts(origin, id),
            Call::DestroyApprovals { origin, id } => self.destroy_approvals(origin, id),
            Call::FinishDestroy { origin, id } => self.finish_destroy(origin, id),
            Call::IncreaseBalance { id, who, amount, maybe_check_issuer, provider } => self
                .increase_balance(id, who, amount, maybe_check_issuer, provider),
            Call::Mint { origin, id, beneficiary, amount, provider } => self.mint(
                origin,
                id,
                beneficiary,
                amount,
                provider,
            ),
            Call::DoBurn { id, who, amount, maybe_check_admin, f } => self.do_burn(
                id,
                who,
                amount,
                maybe_check_admin,
                f,
            ),
            Call::Burn { origin, id, who, amount } => self.burn(origin, id, who, amount),
            Call::DoTransfer { id, source, dest, amount, authority, f, provider } => self
                .do_transfer(id, source, dest, amount, authority, f, provider),
            Call::Transfer { origin, id, target, amount, provider } => self.transfer(
                origin,
                id,
                target,
                amount,
                provider,
            ),
            Call::TransferKeepAlive { origin, id, target, amount, provider } => self
                .transfer_keep_alive(origin, id, target, amount, provider),
            Call::ForceTransfer { origin, id, source, dest, amount, provider } => self
                .force_transfer(origin, id, source, dest, amount, provider),
            Call::Freeze { origin, id, who } => self.freeze(origin, id, who),
            Call::Thaw { origin, id, who } => self.thaw(origin, id, who),
            Call::FreezeAsset { origin, id } => self.freeze_asset(origin, id),
            Call::ThawAsset { origin, id } => self.thaw_asset(origin, id),
            Call::TransferOwnership { origin, id, owner, funded } => self.transfer_ownership(
                origin,
                id,
                owner,
                funded,
            ),
            Call::SetTeam { origin, id, issuer, admin, freezer } => self.set_team(
                origin,
                id,
                issuer,
                admin,
                freezer,
            ),
            Call::DoSetMetadata { id, from, name, symbol, decimals, funded } => self
                .do_set_metadata(id, from, name, symbol, decimals, funded),
            Call::SetMetadata { origin, id, name, symbol, decimals, funded } => self.set_metadata(
                origin,
                id,
                name,
                symbol,
                decimals,
                funded,
            ),
            Call::ClearMetadata { origin, id } => self.clear_metadata(origin, id),
            Call::ForceSetMetadata { origin, id, name, symbol, decimals, is_frozen } => self
                .force_set_metadata(origin, id, name, symbol, decimals, is_frozen),
            Call::ForceClearMetadata { origin, id } => self.force_clear_metadata(origin, id),
            Call::ForceAssetStatus {
                origin,
                id,
                owner,
                issuer,
                admin,
                freezer,
                min_balance,
                is_sufficient,
                is_frozen,
            } => self.force_asset_status(
                origin,
                id,
                owner,
                issuer,
                admin,
                freezer,
                min_balance,
                is_sufficient,
                is_frozen,
            ),
            Call::DoApproveTransfer { id, owner, delegate, amount, funded } => self
                .do_approve_transfer(id, owner, delegate, amount, funded),
            Call::ApproveTransfer { origin, id, delegate, amount, funded } => self.approve_transfer(
                origin,
                id,
                delegate,
                amount,
                funded,
            ),
            Call::CancelApproval { origin, id, delegate } => self.cancel_approval(
                origin,
                id,
                delegate,
            ),
            Call::ForceCancelApproval { origin, id, owner, delegate } => self.force_cancel_approval(
                origin,
                id,
                owner,
                delegate,
            ),
            Call::DoTransferApproved { id, owner, delegate, destination, amount, provider } => self
                .do_transfer_approved(id, owner, delegate, destination, amount, provider),
            Call::TransferApproved { origin, id, owner, destination, amount, provider } => self
                .transfer_approved(origin, id, owner, destination, amount, provider),
            Call::DoTouch { id, who, funded } => self.do_touch(id, who, funded),
            Call::Touch { origin, id, funded } => self.touch(origin, id, funded),
            Call::DoRefund { id, who, allow_burn } => self.do_refund(id, who, allow_burn),
            Call::Refund { origin, id, allow_burn } => self.refund(origin, id, allow_burn),
        }
    }

    /// The ledger after `call`: as it was where the call is refused.
    pub open spec fn after(self, call: Call) -> State {
        match self.apply(call) {
            Ok(out) => out.state,
            Err(_) => self,
        }
    }

    /// The ledger after the calls of `calls`, made in order.
    pub open spec fn run(self, calls: Seq<Call>) -> State
        decreases calls.len(),
    {
        if calls.len() == 0 {
            self
        } else {
            self.run(calls.drop_last()).after(calls.last())
        }
    }
}

/// A step that keeps an asset class well formed keeps the ledger well formed.
proof fn lemma_lift(s: State, id: AssetId, r: Result<Step, Error>)
    requires
        s.wf(),
        s.asset(id) is Some,
        r matches Ok(step) ==> step.state.wf(),
    ensures
        s.lift(id, r) matches Ok(out) ==> out.state.wf() && out.state.config == s.config,
{
}

/// Whether `call` leaves the ledger `s` well formed, with its constants, and
/// with every asset but its own as it was.
pub open spec fn call_sound(s: State, call: Call) -> bool {
    &&& s.after(call).wf()
    &&& s.after(call).config == s.config
    &&& forall|other: AssetId|
        other != call.asset() ==> #[trigger] s.after(call).asset(other) == s.asset(other)
}

/// Registering an asset is sound.
proof fn lemma_creation_calls(s: State, call: Call)
    requires
        s.wf(),
        call is Create || call is DoForceCreate || call is ForceCreate,
    ensures
        call_sound(s, call),
{
    let id = call.asset();
    assert forall|other: AssetId| other != id implies #[trigger] s.after(call).asset(other)
        == s.asset(other) by {}
    match call {
        Call::Create { origin, id, admin, min_balance, funded } => {
            if let Origin::Signed(owner) = origin {
                if min_balance > 0 {
                    lemma_fresh(
                        fresh_details(owner, admin, s.config.asset_deposit, min_balance, false),
                    );
                }
            }
        },
        Call::DoForceCreate { id, owner, is_sufficient, min_balance } => {
            if min_balance > 0 {
                lemma_fresh(fresh_details(owner, owner, 0, min_balance, is_sufficient));
            }
        },
        Call::ForceCreate { origin, id, owner, is_sufficient, min_balance } => {
            if min_balance > 0 {
                lemma_fresh(fresh_details(owner, owner, 0, min_balance, is_sufficient));
            }
        },
        _ => {},
    }
}

/// Calls for taking an asset apart are sound.
proof fn lemma_lifecycle_calls(s: State, call: Call)
    requires
        s.wf(),
        call is StartDestroy || call is DestroyAccounts || call is DestroyApprovals
            || call is FinishDestroy,
    ensures
        call_sound(s, call),
{
    let id = call.asset();
    let config = s.config;
    assert forall|other: AssetId| other != id implies #[trigger] s.after(call).asset(other)
        == s.asset(other) by {}
    if let Some(a) = s.asset(id) {
        match call {
            Call::StartDestroy { origin, id } => {
                lemma_registry(a, config, origin, 0, 0, 0, 0, Seq::empty(), Seq::empty(), 0, false);
                lemma_lift(s, id, a.start_destroy(origin));
            },
            Call::DestroyAccounts { origin, id } => {
                lemma_destroy_accounts(a, id, origin, config.remove_keys_limit);
                lemma_lift(s, id, a.destroy_accounts(id, origin, config.remove_keys_limit));
            },
            Call::DestroyApprovals { origin, id } => {
                lemma_destroy_approvals(a, origin, config.remove_keys_limit);
                lemma_lift(s, id, a.destroy_approvals(origin, config.remove_keys_limit));
            },
            Call::FinishDestroy { origin, id } => {},
            _ => {},
        }
    }
}

/// Calls for minting and burning are sound.
proof fn lemma_supply_calls(s: State, call: Call)
    requires
        s.wf(),
        call is IncreaseBalance || call is Mint || call is DoBurn || call is Burn,
    ensures
        call_sound(s, call),
{
    let id = call.asset();
    let config = s.config;
    assert forall|other: AssetId| other != id implies #[trigger] s.after(call).asset(other)
        == s.asset(other) by {}
    if let Some(a) = s.asset(id) {
        match call {
            Call::IncreaseBalance { id, who, amount, maybe_check_issuer, provider } => {
                lemma_mint(a, who, amount, maybe_check_issuer, provider);
                lemma_lift(s, id, a.mint(who, amount, maybe_check_issuer, provider));
            },
            Call::Mint { origin, id, beneficiary, amount, provider } => {
                if let Origin::Signed(caller) = origin {
                    lemma_mint(a, beneficiary, amount, Some(caller), provider);
                    lemma_lift(s, id, a.mint(beneficiary, amount, Some(caller), provider));
                }
            },
            Call::DoBurn { id, who, amount, maybe_check_admin, f } => {
                lemma_burn(a, id, who, amount, maybe_check_admin, f);
                lemma_lift(s, id, a.burn(id, who, amount, maybe_check_admin, f));
            },
            Call::Burn { origin, id, who, amount } => {
                if let Origin::Signed(caller) = origin {
                    let f = burn_flags();
                    lemma_burn(a, id, who, amount, Some(caller), f);
                    lemma_lift(s, id, a.burn(id, who, amount, Some(caller), f));
                }
            },
            _ => {},
        }
    }
}

/// Calls for moving funds are sound.
proof fn lemma_transfer_calls(s: State, call: Call)
    requires
        s.wf(),
        call is DoTransfer || call is Transfer || call is TransferKeepAlive
            || call is ForceTransfer,
    ensures
        call_sound(s, call),
{
    let id = call.asset();
    let config = s.config;
    assert forall|other: AssetId| other != id implies #[trigger] s.after(call).asset(other)
        == s.asset(other) by {}
    if let Some(a) = s.asset(id) {
        match call {
            Call::DoTransfer { id, source, dest, amount, authority, f, provider } => {
                lemma_transfer(a, id, source, dest, amount, authority, f, provider);
                lemma_lift(s, id, a.transfer(id, source, dest, amount, authority, f, provider));
            },
            Call::Transfer { origin, id, target, amount, provider } => {
                if let Origin::Signed(caller) = origin {
                    let f = plain_transfer();
                    lemma_transfer(a, id, caller, target, amount, Authority::Holder, f, provider);
                    lemma_lift(
                        s,
                        id,
                        a.transfer(id, caller, target, amount, Authority::Holder, f, provider),
                    );
                }
            },
            Call::TransferKeepAlive { origin, id, target, amount, provider } => {
                if let Origin::Signed(caller) = origin {
                    let f = keep_alive_transfer();
                    lemma_transfer(a, id, caller, target, amount, Authority::Holder, f, provider);
                    lemma_lift(
                        s,
                        id,
                        a.transfer(id, caller, target, amount, Authority::Holder, f, provider),
                    );
                }
            },
            Call::ForceTransfer { origin, id, source, dest, amount, provider } => {
                if let Origin::Signed(caller) = origin {
                    let f = plain_transfer();
                    let au = Authority::Admin(caller);
                    lemma_transfer(a, id, source, dest, amount, au, f, provider);
                    lemma_lift(s, id, a.transfer(id, source, dest, amount, au, f, provider));
                }
            },
            _ => {},
        }
    }
}

/// Calls for freezing and thawing are sound.
proof fn lemma_freeze_calls(s: State, call: Call)
    requires
        s.wf(),
        call is Freeze || call is Thaw || call is FreezeAsset || call is ThawAsset,
    ensures
        call_sound(s, call),
{
    let id = call.asset();
    let config = s.config;
    assert forall|other: AssetId| other != id implies #[trigger] s.after(call).asset(other)
        == s.asset(other) by {}
    if let Some(a) = s.asset(id) {
        match call {
            Call::Freeze { origin, id, who } => {
                if let Origin::Signed(caller) = origin {
                    lemma_set_frozen(a, caller, a.details.freezer, who, true);
                    lemma_lift(s, id, a.freeze(caller, who));
                }
            },
            Call::Thaw { origin, id, who } => {
                if let Origin::Signed(caller) = origin {
                    lemma_set_frozen(a, caller, a.details.admin, who, false);
                    lemma_lift(s, id, a.thaw(caller, who));
                }
            },
            Call::FreezeAsset { origin, id } => {
                if let Origin::Signed(caller) = origin {
                    lemma_registry(
                        a,
                        config,
                        origin,
                        caller,
                        0,
                        0,
                        0,
                        Seq::empty(),
                        Seq::empty(),
                        0,
                        false,
                    );
                    lemma_lift(s, id, a.freeze_asset(caller));
                }
            },
            Call::ThawAsset { origin, id } => {
                if let Origin::Signed(caller) = origin {
                    lemma_registry(
                        a,
                        config,
                        origin,
                        caller,
                        0,
                        0,
                        0,
                        Seq::empty(),
                        Seq::empty(),
                        0,
                        false,
                    );
                    lemma_lift(s, id, a.thaw_asset(caller));
                }
            },
            _ => {},
        }
    }
}

/// Calls for appointing roles and overwriting attributes are sound.
proof fn lemma_role_calls(s: State, call: Call)
    requires
        s.wf(),
        call is TransferOwnership || call is SetTeam || call is ForceAssetStatus,
    ensures
        call_sound(s, call),
{
    let id = call.asset();
    let config = s.config;
    assert forall|other: AssetId| other != id implies #[trigger] s.after(call).asset(other)
        == s.asset(other) by {}
    if let Some(a) = s.asset(id) {
        match call {
            Call::TransferOwnership { origin, id, owner, funded } => {
                if let Origin::Signed(caller) = origin {
                    lemma_registry(
                        a,
                        config,
                        origin,
                        caller,
                        owner,
                        0,
                        0,
                        Seq::empty(),
                        Seq::empty(),
                        0,
                        funded,
                    );
                    lemma_lift(s, id, a.transfer_ownership(caller, owner, funded));
                }
            },
            Call::SetTeam { origin, id, issuer, admin, freezer } => {
                if let Origin::Signed(caller) = origin {
                    lemma_registry(
                        a,
                        config,
                        origin,
                        caller,
                        issuer,
                        admin,
                        freezer,
                        Seq::empty(),
                        Seq::empty(),
                        0,
                        false,
                    );
                    lemma_lift(s, id, a.set_team(caller, issuer, admin, freezer));
                }
            },
            Call::ForceAssetStatus {
                origin,
                id,
                owner,
                issuer,
                admin,
                freezer,
                min_balance,
                is_sufficient,
                is_frozen,
            } => {
                lemma_force_asset_status(
                    a,
                    owner,
                    issuer,
                    admin,
                    freezer,
                    min_balance,
                    is_sufficient,
                    is_frozen,
                );
                lemma_lift(
                    s,
                    id,
                    a.force_asset_status(
                        owner,
                        issuer,
                        admin,
                        freezer,
                        min_balance,
                        is_sufficient,
                        is_frozen,
                    ),
                );
            },
            _ => {},
        }
    }
}

/// Calls for setting and clearing metadata are sound.
proof fn lemma_metadata_calls(s: State, call: Call)
    requires
        s.wf(),
        call is DoSetMetadata || call is SetMetadata || call is ClearMetadata
            || call is ForceSetMetadata || call is ForceClearMetadata,
    ensures
        call_sound(s, call),
{
    let id = call.asset();
    let config = s.config;
    assert forall|other: AssetId| other != id implies #[trigger] s.after(call).asset(other)
        == s.asset(other) by {}
    if let Some(a) = s.asset(id) {
        match call {
            Call::DoSetMetadata { id, from, name, symbol, decimals, funded } => {
                lemma_registry(
                    a,
                    config,
                    Origin::Root,
                    from,
                    0,
                    0,
                    0,
                    name,
                    symbol,
                    decimals,
                    funded,
                );
                lemma_lift(s, id, a.set_metadata(config, from, name, symbol, decimals, funded));
            },
            Call::SetMetadata { origin, id, name, symbol, decimals, funded } => {
                if let Origin::Signed(caller) = origin {
                    lemma_registry(
                        a,
                        config,
                        origin,
                        caller,
                        0,
                        0,
                        0,
                        name,
                        symbol,
                        decimals,
                        funded,
                    );
                    lemma_lift(
                        s,
                        id,
                        a.set_metadata(config, caller, name, symbol, decimals, funded),
                    );
                }
            },
            Call::ClearMetadata { origin, id } => {
                lemma_registry(a, config, origin, 0, 0, 0, 0, Seq::empty(), Seq::empty(), 0, false);
                lemma_lift(s, id, a.clear_metadata(origin));
            },
            Call::ForceSetMetadata { origin, id, name, symbol, decimals, is_frozen } => {
                lemma_registry(a, config, origin, 0, 0, 0, 0, name, symbol, decimals, is_frozen);
                lemma_lift(s, id, a.force_set_metadata(name, symbol, decimals, is_frozen));
            },
            Call::ForceClearMetadata { origin, id } => {
                lemma_registry(a, config, origin, 0, 0, 0, 0, Seq::empty(), Seq::empty(), 0, false);
                lemma_lift(s, id, a.clear_metadata(origin));
            },
            _ => {},
        }
    }
}

/// Calls for approving, cancelling and spending approvals are sound.
proof fn lemma_approval_calls(s: State, call: Call)
    requires
        s.wf(),
        call is DoApproveTransfer || call is ApproveTransfer || call is CancelApproval
            || call is ForceCancelApproval || call is DoTransferApproved
            || call is TransferApproved,
    ensures
        call_sound(s, call),
{
    let id = call.asset();
    let config = s.config;
    assert forall|other: AssetId| other != id implies #[trigger] s.after(call).asset(other)
        == s.asset(other) by {}
    if let Some(a) = s.asset(id) {
        match call {
            Call::DoApproveTransfer { id, owner, delegate, amount, funded } => {
                lemma_approve_transfer(a, config, owner, delegate, amount, funded);
                lemma_lift(s, id, a.approve_transfer(config, owner, delegate, amount, funded));
            },
            Call::ApproveTransfer { origin, id, delegate, amount, funded } => {
                if let Origin::Signed(owner) = origin {
                    lemma_approve_transfer(a, config, owner, delegate, amount, funded);
                    lemma_lift(s, id, a.approve_transfer(config, owner, delegate, amount, funded));
                }
            },
            Call::CancelApproval { origin, id, delegate } => {
                if let Origin::Signed(caller) = origin {
                    lemma_cancel_approval(a, origin, caller, delegate);
                    lemma_lift(s, id, a.cancel_approval(caller, delegate));
                }
            },
            Call::ForceCancelApproval { origin, id, owner, delegate } => {
                lemma_cancel_approval(a, origin, owner, delegate);
                lemma_lift(s, id, a.force_cancel_approval(origin, owner, delegate));
            },
            Call::DoTransferApproved { id, owner, delegate, destination, amount, provider } => {
                lemma_transfer_approved(a, id, owner, delegate, destination, amount, provider);
                lemma_lift(
                    s,
                    id,
                    a.transfer_approved(id, owner, delegate, destination, amount, provider),
                );
            },
            Call::TransferApproved { origin, id, owner, destination, amount, provider } => {
                if let Origin::Signed(delegate) = origin {
                    lemma_transfer_approved(a, id, owner, delegate, destination, amount, provider);
                    lemma_lift(
                        s,
                        id,
                        a.transfer_approved(id, owner, delegate, destination, amount, provider),
                    );
                }
            },
            _ => {},
        }
    }
}

/// Calls for records against a deposit are sound.
proof fn lemma_deposit_calls(s: State, call: Call)
    requires
        s.wf(),
        call is DoTouch || call is Touch || call is DoRefund || call is Refund,
    ensures
        call_sound(s, call),
{
    let id = call.asset();
    let config = s.config;
    assert forall|other: AssetId| other != id implies #[trigger] s.after(call).asset(other)
        == s.asset(other) by {}
    if let Some(a) = s.asset(id) {
        match call {
            Call::DoTouch { id, who, funded } => {
                lemma_touch(a, config, who, funded);
                lemma_lift(s, id, a.touch(config, who, funded));
            },
            Call::Touch { origin, id, funded } => {
                if let Origin::Signed(who) = origin {
                    lemma_touch(a, config, who, funded);
                    lemma_lift(s, id, a.touch(config, who, funded));
                }
            },
            Call::DoRefund { id, who, allow_burn } => {
                lemma_refund(a, id, who, allow_burn);
                lemma_lift(s, id, a.refund(id, who, allow_burn));
            },
            Call::Refund { origin, id, allow_burn } => {
                if let Origin::Signed(who) = origin {
                    lemma_refund(a, id, who, allow_burn);
                    lemma_lift(s, id, a.refund(id, who, allow_burn));
                }
            },
            _ => {},
        }
    }
}

/// Every operation keeps the ledger well formed and touches no asset but its
/// own.
pub proof fn law_call_is_sound(s: State, call: Call)
    requires
        s.wf(),
    ensures
        call_sound(s, call),
{
    match call {
        Call::Create { .. } | Call::DoForceCreate { .. } | Call::ForceCreate { .. } => {
            lemma_creation_calls(s, call);
        },
        Call::StartDestroy { .. }
        | Call::DestroyAccounts { .. }
        | Call::DestroyApprovals { .. }
        | Call::FinishDestroy { .. } => {
            lemma_lifecycle_calls(s, call);
        },
        Call::IncreaseBalance { .. }
        | Call::Mint { .. }
        | Call::DoBurn { .. }
        | Call::Burn { .. } => {
            lemma_supply_calls(s, call);
        },
        Call::DoTransfer { .. }
        | Call::Transfer { .. }
        | Call::TransferKeepAlive { .. }
        | Call::ForceTransfer { .. } => {
            lemma_transfer_calls(s, call);
        },
        Call::Freeze { .. }
        | Call::Thaw { .. }
        | Call::FreezeAsset { .. }
        | Call::ThawAsset { .. } => {
            lemma_freeze_calls(s, call);
        },
        Call::TransferOwnership { .. } | Call::SetTeam { .. } | Call::ForceAssetStatus { .. } => {
            lemma_role_calls(s, call);
        },
        Call::DoSetMetadata { .. }
        | Call::SetMetadata { .. }
        | Call::ClearMetadata { .. }
        | Call::ForceSetMetadata { .. }
        | Call::ForceClearMetadata { .. } => {
            lemma_metadata_calls(s, call);
        },
        Call::DoApproveTransfer { .. }
        | Call::ApproveTransfer { .. }
        | Call::CancelApproval { .. }
        | Call::ForceCancelApproval { .. }
        | Call::DoTransferApproved { .. }
        | Call::TransferApproved { .. } => {
            lemma_approval_calls(s, call);
        },
        Call::DoTouch { .. } | Call::Touch { .. } | Call::DoRefund { .. } | Call::Refund { .. } => {
            lemma_deposit_calls(s, call);
        },
    }
}

/// Whatever was done with a ledger since it was made, it is well formed.
pub proof fn law_always_sound(config: Config, calls: Seq<Call>)
    ensures
        empty(config).run(calls).wf(),
        empty(config).run(calls).config == config,
    decreases calls.len(),
{
    if calls.len() > 0 {
        law_always_sound(config, calls.drop_last());
        law_call_is_sound(empty(config).run(calls.drop_last()), calls.last());
    }
}

/// Conservation: whatever was done with a ledger since it was made, the
/// supply of every asset is the sum of its holdings.
pub proof fn law_conservation(config: Config, calls: Seq<Call>, id: AssetId)
    requires
        empty(config).run(calls).asset(id) is Some,
    ensures
        total_balance(empty(config).run(calls).asset(id).unwrap().accounts) == empty(config).run(
            calls,
        ).asset(id).unwrap().details.supply,
{
    law_always_sound(config, calls);
}

/// The floor: whatever was done with a ledger since it was made, the minimum
/// balance of every asset is above zero, and no account holds an amount
/// strictly between zero and the minimum balance of its asset.
pub proof fn law_floor(config: Config, calls: Seq<Call>, id: AssetId, who: AccountId)
    requires
        empty(config).run(calls).asset(id) is Some,
    ensures
        ({
            let a = empty(config).run(calls).asset(id).unwrap();
            &&& a.details.min_balance > 0
            &&& a.account(who) matches Some(held) ==> held.balance == 0 || held.balance
                >= a.details.min_balance
        }),
{
    law_always_sound(config, calls);
    let a = empty(config).run(calls).asset(id).unwrap();
    if a.account(who) is Some {
        let i = index_of(a.accounts, who);
        assert(a.accounts[i].account.balance == 0 || a.accounts[i].account.balance
            >= a.details.min_balance);
    }
}

/// An asset that is being destroyed stays frozen: whatever was done with a
/// ledger since it was made, no holder, delegate or admin can move funds of
/// such an asset, and its admin cannot thaw it.
pub proof fn law_destroying_is_frozen(
    config: Config,
    calls: Seq<Call>,
    id: AssetId,
    source: AccountId,
    delegate: AccountId,
    dest: AccountId,
    amount: Balance,
    authority: Authority,
    f: TransferFlags,
    provider: bool,
    origin: Origin,
)
    requires
        empty(config).run(calls).asset(id) matches Some(a) && a.details.status
            == AssetStatus::Destroying,
        authority != Authority::Privileged,
    ensures
        empty(config).run(calls).asset(id).unwrap().details.is_frozen,
        empty(config).run(calls).do_transfer(id, source, dest, amount, authority, f, provider)
            is Err,
        empty(config).run(calls).do_transfer_approved(
            id,
            source,
            delegate,
            dest,
            amount,
            provider,
        ) is Err,
        empty(config).run(calls).thaw_asset(origin, id) is Err,
{
    law_always_sound(config, calls);
}

/// `n` times the same call.
pub open spec fn repeated(call: Call, n: nat) -> Seq<Call> {
    Seq::new(n, |i: int| call)
}

/// One cleanup call on the accounts of an asset whose cleanup is open leaves
/// the cleanup open, and removes a record while there is one and the limit is
/// not zero.
proof fn lemma_destroy_accounts_step(s: State, origin: Origin, id: AssetId)
    requires
        s.wf(),
        s.destroy_accounts(origin, id) is Ok,
    ensures
        ({
            let t = s.after(Call::DestroyAccounts { origin, id });
            let before = s.asset(id).unwrap().details.accounts;
            &&& t.wf()
            &&& t.config == s.config
            &&& t.destroy_accounts(origin, id) is Ok
            &&& t.asset(id).unwrap().details.accounts <= before
            &&& before > 0 && s.config.remove_keys_limit >= 1 ==> t.asset(
                id,
            ).unwrap().details.accounts < before
        }),
{
    let a = s.asset(id).unwrap();
    let limit = s.config.remove_keys_limit;
    lemma_destroy_accounts(a, id, origin, limit);
    lemma_lift(s, id, a.destroy_accounts(id, origin, limit));
    let step = a.destroy_accounts(id, origin, limit).unwrap();
    let t = s.after(Call::DestroyAccounts { origin, id });
    assert(t == s.with_asset(id, step.state));
    assert(t.asset(id) == Some(step.state));
    assert(step.state.may_destroy(origin));
}

/// One cleanup call on the approvals of an asset whose cleanup is open
/// leaves the cleanup open, and removes a record while there is one and the
/// limit is not zero.
proof fn lemma_destroy_approvals_step(s: State, origin: Origin, id: AssetId)
    requires
        s.wf(),
        s.destroy_approvals(origin, id) is Ok,
    ensures
        ({
            let t = s.after(Call::DestroyApprovals { origin, id });
            let before = s.asset(id).unwrap().details.approvals;
            &&& t.wf()
            &&& t.config == s.config
            &&& t.destroy_approvals(origin, id) is Ok
            &&& t.asset(id).unwrap().details.approvals <= before
            &&& before > 0 && s.config.remove_keys_limit >= 1 ==> t.asset(
                id,
            ).unwrap().details.approvals < before
        }),
{
    let a = s.asset(id).unwrap();
    let limit = s.config.remove_keys_limit;
    lemma_destroy_approvals(a, origin, limit);
    lemma_lift(s, id, a.destroy_approvals(origin, limit));
    let step = a.destroy_approvals(origin, limit).unwrap();
    let t = s.after(Call::DestroyApprovals { origin, id });
    assert(t == s.with_asset(id, step.state));
    assert(t.asset(id) == Some(step.state));
    assert(step.state.may_destroy(origin));
}

/// While the cleanup of accounts is open, `k` calls of it leave it open and
/// leave at most the records that `k` calls of one record each would leave.
proof fn lemma_destroy_accounts_progress(s: State, origin: Origin, id: AssetId, k: nat)
    requires
        s.wf(),
        s.destroy_accounts(origin, id) is Ok,
        s.config.remove_keys_limit >= 1,
    ensures
        ({
            let t = s.run(repeated(Call::DestroyAccounts { origin, id }, k));
            &&& t.wf()
            &&& t.config == s.config
            &&& t.destroy_accounts(origin, id) is Ok
            &&& t.asset(id).unwrap().details.accounts <= s.asset(id).unwrap().details.accounts
            &&& t.asset(id).unwrap().details.accounts == 0 || t.asset(
                id,
            ).unwrap().details.accounts + k <= s.asset(id).unwrap().details.accounts
        }),
    decreases k,
{
    let call = Call::DestroyAccounts { origin, id };
    if k > 0 {
        lemma_destroy_accounts_progress(s, origin, id, (k - 1) as nat);
        assert(repeated(call, k).drop_last() =~= repeated(call, (k - 1) as nat));
        assert(repeated(call, k).last() == call);
        lemma_destroy_accounts_step(s.run(repeated(call, (k - 1) as nat)), origin, id);
    }
}

/// While the cleanup of approvals is open, `k` calls of it leave it open and
/// leave at most the records that `k` calls of one record each would leave.
proof fn lemma_destroy_approvals_progress(s: State, origin: Origin, id: AssetId, k: nat)
    requires
        s.wf(),
        s.destroy_approvals(origin, id) is Ok,
        s.config.remove_keys_limit >= 1,
    ensures
        ({
            let t = s.run(repeated(Call::DestroyApprovals { origin, id }, k));
            &&& t.wf()
            &&& t.config == s.config
            &&& t.destroy_approvals(origin, id) is Ok
            &&& t.asset(id).unwrap().details.approvals <= s.asset(id).unwrap().details.approvals
            &&& t.asset(id).unwrap().details.approvals == 0 || t.asset(
                id,
            ).unwrap().details.approvals + k <= s.asset(id).unwrap().details.approvals
        }),
    decreases k,
{
    let call = Call::DestroyApprovals { origin, id };
    if k > 0 {
        lemma_destroy_approvals_progress(s, origin, id, (k - 1) as nat);
        assert(repeated(call, k).drop_last() =~= repeated(call, (k - 1) as nat));
        assert(repeated(call, k).last() == call);
        lemma_destroy_approvals_step(s.run(repeated(call, (k - 1) as nat)), origin, id);
    }
}

/// The cleanup of accounts ends. A call that is not refused removes as many
/// records as there are, or as the limit of one call allows where there are
/// more, so that the counter never passes below zero; and with a limit of
/// one or more, as many calls as there are records leave none.
pub proof fn law_destroy_accounts_ends(s: State, origin: Origin, id: AssetId)
    requires
        s.wf(),
        s.destroy_accounts(origin, id) is Ok,
        s.config.remove_keys_limit >= 1,
    ensures
        ({
            let before = s.asset(id).unwrap().details.accounts;
            let out = s.destroy_accounts(origin, id).unwrap();
            let after = out.state.asset(id).unwrap().details.accounts;
            &&& out.amount == if before <= s.config.remove_keys_limit {
                before
            } else {
                s.config.remove_keys_limit
            }
            &&& after == before - out.amount
            &&& s.run(repeated(Call::DestroyAccounts { origin, id }, before as nat)).asset(
                id,
            ).unwrap().details.accounts == 0
        }),
{
    lemma_destroy_accounts(s.asset(id).unwrap(), id, origin, s.config.remove_keys_limit);
    lemma_destroy_accounts_progress(
        s,
        origin,
        id,
        s.asset(id).unwrap().details.accounts as nat,
    );
}

/// The cleanup of approvals ends. A call that is not refused removes as many
/// records as there are, or as the limit of one call allows where there are
/// more, so that the counter never passes below zero; and with a limit of
/// one or more, as many calls as there are records leave none.
pub proof fn law_destroy_approvals_ends(s: State, origin: Origin, id: AssetId)
    requires
        s.wf(),
        s.destroy_approvals(origin, id) is Ok,
        s.config.remove_keys_limit >= 1,
    ensures
        ({
            let before = s.asset(id).unwrap().details.approvals;
            let out = s.destroy_approvals(origin, id).unwrap();
            let after = out.state.asset(id).unwrap().details.approvals;
            &&& out.amount == if before <= s.config.remove_keys_limit {
                before
            } else {
                s.config.remove_keys_limit
            }
            &&& after == before - out.amount
            &&& s.run(repeated(Call::DestroyApprovals { origin, id }, before as nat)).asset(
                id,
            ).unwrap().details.approvals == 0
        }),
{
    lemma_destroy_approvals(s.asset(id).unwrap(), origin, s.config.remove_keys_limit);
    lemma_destroy_approvals_progress(
        s,
        origin,
        id,
        s.asset(id).unwrap().details.approvals as nat,
    );
}

/// Finishing the destruction of an asset, on behalf of its owner or of the
/// privileged origin, is refused as in use whenever an account record or an
/// approval hangs on the asset. Without records an asset whose destruction
/// was opened leaves the ledger, and the deposits held for it and for its
/// metadata go back to the owner in full; an asset whose destruction was not
/// opened stays.
pub proof fn law_finish_destroy(s: State, origin: Origin, id: AssetId)
    requires
        s.wf(),
        s.asset(id) matches Some(a) && a.may_destroy(origin),
    ensures
        ({
            let a = s.asset(id).unwrap();
            if a.details.accounts > 0 || a.details.approvals > 0 {
                s.finish_destroy(origin, id) == Err::<Outcome, Error>(Error::InUse)
            } else if a.details.status == AssetStatus::Destroying {
                s.finish_destroy(origin, id) matches Ok(out) && out.state == s.without_asset(id)
                    && out.state.asset(id) is None && out.actions == seq![
                    Action::Unreserve {
                        who: a.details.owner,
                        amount: saturating_sum(a.details.deposit, a.metadata_held()),
                    },
                ]
            } else {
                s.finish_destroy(origin, id) is Err
            }
        }),
{
}

/// A holder whose transfer would leave it under the minimum balance is
/// refused with a low balance where it asks to be kept alive. Where it does
/// not, the transfer takes the whole holding, dust with it, and credits all
/// of it, provided the destination can take it; if not, the transfer is
/// refused with the error of that credit.
pub proof fn law_keep_alive(
    s: State,
    id: AssetId,
    source: AccountId,
    target: AccountId,
    amount: Balance,
    provider: bool,
)
    requires
        s.wf(),
        s.asset(id) matches Some(a) && !a.details.is_frozen && (a.account(source) matches Some(
            held,
        ) && !held.is_frozen && 0 < amount <= held.balance && held.balance - amount
            < a.details.min_balance),
    ensures
        s.transfer_keep_alive(Origin::Signed(source), id, target, amount, provider) == Err::<
            Outcome,
            Error,
        >(Error::BalanceLow),
        ({
            let a = s.asset(id).unwrap();
            let held = a.account(source).unwrap();
            match s.transfer(Origin::Signed(source), id, target, amount, provider) {
                Ok(out) => {
                    &&& out.amount == held.balance
                    &&& a.credit_check(target, held.balance, provider, false) is Ok
                    &&& source != target ==> match out.state.asset(id).unwrap().account(source) {
                        Some(left) => left.balance == 0,
                        None => true,
                    }
                },
                Err(e) => a.credit_check(target, held.balance, provider, false) == Err::<(), Error>(
                    e,
                ),
            }
        }),
{
    let a = s.asset(id).unwrap();
    let held = a.account(source).unwrap();
    if source != target && a.credit_check(target, held.balance, provider, false) is Ok {
        lemma_credited(a.with_supply(a.details.supply), target, held.balance, provider, false);
        let mid = a.with_supply(a.details.supply).credited(target, held.balance);
        assert(mid.account(source) == a.account(source));
        lemma_debited(mid, source, held.balance);
        let i = index_of(mid.accounts, source);
        if mid.dies(source, held.balance) {
            lemma_remove_record(mid.accounts, i);
        } else {
            lemma_update_record(
                mid.accounts,
                i,
                AssetAccount { balance: 0, ..held },
            );
        }
    }
}

/// Approving twice adds up, and the deposit is taken once: the first
/// approval of a pair asks the host to reserve the approval deposit, the
/// second asks nothing of it, and the record holds the sum of both amounts,
/// or the largest balance where the sum passes it.
pub proof fn law_approve_twice(
    s: State,
    origin: Origin,
    id: AssetId,
    delegate: AccountId,
    first: Balance,
    second: Balance,
    funded: bool,
)
    requires
        s.wf(),
        origin matches Origin::Signed(owner) && (s.asset(id) matches Some(a) && a.approval(
            owner,
            delegate,
        ) is None),
        s.approve_transfer(origin, id, delegate, first, true) is Ok,
    ensures
        ({
            let owner = origin->Signed_0;
            let one = s.approve_transfer(origin, id, delegate, first, true).unwrap();
            &&& one.actions == if s.config.approval_deposit > 0 {
                seq![Action::Reserve { who: owner, amount: s.config.approval_deposit }]
            } else {
                Seq::<Action>::empty()
            }
            &&& one.state.approve_transfer(origin, id, delegate, second, funded) matches Ok(two)
                && two.actions == Seq::<Action>::empty() && two.state.asset(id).unwrap().approval(
                owner,
                delegate,
            ) == Some(
                Approval {
                    amount: saturating_sum(first, second),
                    deposit: s.config.approval_deposit,
                },
            ) && two.state.asset(id).unwrap().details.approvals == s.asset(
                id,
            ).unwrap().details.approvals + 1
        }),
{
    let owner = origin->Signed_0;
    let a = s.asset(id).unwrap();
    let one = s.approve_transfer(origin, id, delegate, first, true).unwrap();
    let b = one.state.asset(id).unwrap();
    let g = b.approvals.last();
    lemma_push_grant(a.approvals, g);
    lemma_grant_index(b.approvals, owner, delegate, a.approvals.len() as int);
    assert(b.approval(owner, delegate) == Some(g.approval));
    let two = one.state.approve_transfer(origin, id, delegate, second, funded).unwrap();
    let c = two.state.asset(id).unwrap();
    let i = a.approvals.len() as int;
    lemma_update_grant(b.approvals, i, c.approvals[i]);
    lemma_grant_index(c.approvals, owner, delegate, i);
}

/// Where exactly `amount` can leave an account, a debit of `amount` that
/// must be met in full takes `amount` and the dust that goes with it.
pub proof fn law_can_decrease(
    s: State,
    id: AssetId,
    who: AccountId,
    amount: Balance,
    keep_alive: bool,
)
    requires
        s.wf(),
        s.can_decrease(id, who, amount, keep_alive) is Ok,
        amount > 0,
    ensures
        ({
            let a = s.asset(id).unwrap();
            let dust = s.can_decrease(id, who, amount, keep_alive).unwrap();
            let f = DebitFlags { keep_alive, best_effort: false };
            &&& a.debit_check(who, amount, f, false) == Ok::<Balance, Error>(
                (amount + dust) as Balance,
            )
            &&& s.reducible_balance(id, who, keep_alive) matches Ok(most) && amount <= most
        }),
{
}

} // verus!
