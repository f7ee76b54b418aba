//! What holds of the ledger whatever is done with it.

use vstd::prelude::*;
use crate::types::{
    AccountId, AssetAccount, AssetDetails, AssetId, Authority, Balance, Config, DebitFlags, Error,
    Holding, Origin, TransferFlags,
};
use crate::records::{
    balance_of, grant_index, index_of, lemma_push_grant, lemma_push_record, lemma_remove_grant,
    lemma_remove_record, lemma_sufficient_count_bound, lemma_sum_push, lemma_sum_remove,
    lemma_sum_split, lemma_sum_update, lemma_take_distinct, lemma_take_distinct_grants,
    lemma_update_grant, lemma_update_record, sufficient_of, total_balance,
};
use crate::model::{debit_of, drain_count, AssetState, Step};

verus! {

/// A debit never takes more than the holding has, and leaves the holding as
/// it was, empty, or at the floor or above.
pub proof fn lemma_debit_of(balance: Balance, floor: Balance, amount: Balance, f: DebitFlags)
    ensures
        match debit_of(balance, floor, amount, f) {
            Ok(debit) => {
                &&& debit <= balance
                &&& debit == 0 || debit == balance || balance - debit >= floor
                &&& f.keep_alive && balance >= floor ==> balance - debit >= floor
                &&& !f.best_effort ==> debit >= amount
                &&& f.best_effort && amount <= balance && !f.keep_alive ==> debit >= amount
            },
            Err(e) => e == Error::BalanceLow && !f.best_effort,
        },
{
}

/// A credit that passed its check keeps the records in order, adds exactly
/// `amount` to the sum of the balances, keeps the floor and touches no other
/// record.
pub proof fn lemma_credited(
    s: AssetState,
    who: AccountId,
    amount: Balance,
    provider: bool,
    minting: bool,
)
    requires
        s.structured(),
        s.credit_check(who, amount, provider, minting) is Ok,
    ensures
        s.credited(who, amount).structured(),
        total_balance(s.credited(who, amount).accounts) == total_balance(s.accounts) + amount,
        s.floored() ==> s.credited(who, amount).floored(),
        s.credited(who, amount).account(who) is Some,
        forall|w: AccountId|
            w != who ==> #[trigger] s.credited(who, amount).account(w) == s.account(w),
        s.credited(who, amount).approvals == s.approvals,
        s.credited(who, amount).metadata == s.metadata,
        s.credited(who, amount).details == (AssetDetails {
            accounts: s.credited(who, amount).details.accounts,
            sufficients: s.credited(who, amount).details.sufficients,
            ..s.details
        }),
{
    let t = s.credited(who, amount);
    match s.account(who) {
        Some(a) => {
            let i = index_of(s.accounts, who);
            let b = AssetAccount { balance: (a.balance + amount) as Balance, ..a };
            lemma_update_record(s.accounts, i, b);
            lemma_sum_update(s.accounts, i, Holding { who, account: b }, balance_of());
            lemma_sum_update(s.accounts, i, Holding { who, account: b }, sufficient_of());
            assert(t.accounts == s.accounts.update(i, Holding { who, account: b }));
            if s.floored() {
                assert forall|k: int| 0 <= k < t.accounts.len() implies (
                #[trigger] t.accounts[k]).account.balance == 0 || t.accounts[k].account.balance
                    >= t.details.min_balance by {
                    if k != i {
                        assert(t.accounts[k] == s.accounts[k]);
                    }
                }
            }
        },
        None => {
            let h = t.accounts.last();
            assert(t.accounts == s.accounts.push(h));
            lemma_push_record(s.accounts, h);
            lemma_sum_push(s.accounts, h, balance_of());
            lemma_sum_push(s.accounts, h, sufficient_of());
            lemma_sufficient_count_bound(s.accounts);
            if s.floored() {
                assert forall|k: int| 0 <= k < t.accounts.len() implies (
                #[trigger] t.accounts[k]).account.balance == 0 || t.accounts[k].account.balance
                    >= t.details.min_balance by {
                    if k < s.accounts.len() {
                        assert(t.accounts[k] == s.accounts[k]);
                    }
                }
            }
        },
    }
}

/// A debit within the holding keeps the records in order, takes exactly
/// `debit` from the sum of the balances and touches no other record. It keeps
/// the floor where it leaves the holding as it was, empty, or at the floor or
/// above.
pub proof fn lemma_debited(s: AssetState, who: AccountId, debit: Balance)
    requires
        s.structured(),
        s.account(who) is Some,
        debit <= s.account(who).unwrap().balance,
    ensures
        s.debited(who, debit).structured(),
        total_balance(s.debited(who, debit).accounts) + debit == total_balance(s.accounts),
        debit <= total_balance(s.accounts),
        s.floored() && (debit == 0 || debit == s.account(who).unwrap().balance || s.account(
            who,
        ).unwrap().balance - debit >= s.details.min_balance) ==> s.debited(who, debit).floored(),
        forall|w: AccountId|
            w != who ==> #[trigger] s.debited(who, debit).account(w) == s.account(w),
        s.debited(who, debit).approvals == s.approvals,
        s.debited(who, debit).metadata == s.metadata,
        s.debited(who, debit).details == (AssetDetails {
            accounts: s.debited(who, debit).details.accounts,
            sufficients: s.debited(who, debit).details.sufficients,
            ..s.details
        }),
{
    let t = s.debited(who, debit);
    let a = s.account(who).unwrap();
    let i = index_of(s.accounts, who);
    assert(s.accounts[i].who == who);
    if s.dies(who, debit) {
        lemma_remove_record(s.accounts, i);
        lemma_sum_remove(s.accounts, i, balance_of());
        lemma_sum_remove(s.accounts, i, sufficient_of());
        if s.floored() {
            assert forall|k: int| 0 <= k < t.accounts.len() implies (
            #[trigger] t.accounts[k]).account.balance == 0 || t.accounts[k].account.balance
                >= t.details.min_balance by {
                assert(t.accounts[k] == s.accounts[if k < i {
                    k
                } else {
                    k + 1
                }]);
            }
        }
    } else {
        let b = AssetAccount { balance: (a.balance - debit) as Balance, ..a };
        lemma_update_record(s.accounts, i, b);
        lemma_sum_update(s.accounts, i, Holding { who, account: b }, balance_of());
        lemma_sum_update(s.accounts, i, Holding { who, account: b }, sufficient_of());
        assert(t.accounts == s.accounts.update(i, Holding { who, account: b }));
        if s.floored() {
            assert forall|k: int| 0 <= k < t.accounts.len() && (debit == 0 || debit == a.balance
                || a.balance - debit >= s.details.min_balance) implies (
            #[trigger] t.accounts[k]).account.balance == 0 || t.accounts[k].account.balance
                >= t.details.min_balance by {
                if k != i {
                    assert(t.accounts[k] == s.accounts[k]);
                } else {
                    assert(s.accounts[i].account.balance == 0 || s.accounts[i].account.balance
                        >= s.details.min_balance);
                }
            }
        }
    }
}

/// Whether a step, where it is taken, leaves the asset class well formed.
pub open spec fn keeps(r: Result<Step, Error>) -> bool {
    r matches Ok(step) ==> step.state.wf()
}

/// Minting keeps the supply equal to the sum of the balances, and the floor.
pub proof fn lemma_mint(
    s: AssetState,
    who: AccountId,
    amount: Balance,
    maybe_check_issuer: Option<AccountId>,
    provider: bool,
)
    requires
        s.wf(),
    ensures
        keeps(s.mint(who, amount, maybe_check_issuer, provider)),
{
    if s.mint(who, amount, maybe_check_issuer, provider) is Ok {
        lemma_credited(s, who, amount, provider, true);
    }
}

/// Burning keeps the supply equal to the sum of the balances, and the floor.
pub proof fn lemma_burn(
    s: AssetState,
    id: AssetId,
    who: AccountId,
    amount: Balance,
    maybe_check_admin: Option<AccountId>,
    f: DebitFlags,
)
    requires
        s.wf(),
    ensures
        keeps(s.burn(id, who, amount, maybe_check_admin, f)),
        s.burn(id, who, amount, maybe_check_admin, f) matches Ok(step) ==> step.amount
            <= s.details.supply && step.amount <= s.account(who).unwrap().balance,
{
    if s.burn(id, who, amount, maybe_check_admin, f) is Ok {
        let a = s.account(who).unwrap();
        lemma_debit_of(a.balance, s.details.min_balance, amount, f);
        let debit = s.debit_check(who, amount, f, false).unwrap();
        lemma_debited(s, who, debit);
    }
}

/// A transfer keeps the supply equal to the sum of the balances, and the
/// floor: what leaves the source reaches the destination or leaves the supply.
pub proof fn lemma_transfer(
    s: AssetState,
    id: AssetId,
    source: AccountId,
    dest: AccountId,
    amount: Balance,
    authority: Authority,
    f: TransferFlags,
    provider: bool,
)
    requires
        s.wf(),
    ensures
        keeps(s.transfer(id, source, dest, amount, authority, f, provider)),
        s.transfer(id, source, dest, amount, authority, f, provider) matches Ok(step) ==> {
            &&& step.state.approvals == s.approvals
            &&& step.state.metadata == s.metadata
            &&& step.state.details.approvals == s.details.approvals
        },
{
    if s.transfer(id, source, dest, amount, authority, f, provider) is Ok && source != dest {
        let a = s.account(source).unwrap();
        lemma_debit_of(a.balance, s.details.min_balance, amount, f.debit());
        let unfreeze = authority != Authority::Holder;
        let debit = s.debit_check(source, amount, f.debit(), unfreeze).unwrap();
        let credit = if f.burn_dust && debit >= amount {
            amount
        } else {
            debit
        };
        let burn = (debit - credit) as Balance;
        lemma_debited(s, source, debit);
        let lower = s.with_supply((s.details.supply - burn) as Balance);
        assert(lower.credit_check(dest, credit, provider, false) is Ok);
        lemma_credited(lower, dest, credit, provider, false);
        let mid = lower.credited(dest, credit);
        assert(mid.account(source) == s.account(source));
        lemma_debited(mid, source, debit);
    }
}

/// Approving keeps the asset class well formed.
pub proof fn lemma_approve_transfer(
    s: AssetState,
    config: Config,
    owner: AccountId,
    delegate: AccountId,
    amount: Balance,
    funded: bool,
)
    requires
        s.wf(),
    ensures
        keeps(s.approve_transfer(config, owner, delegate, amount, funded)),
{
    if let Ok(step) = s.approve_transfer(config, owner, delegate, amount, funded) {
        match s.approval(owner, delegate) {
            Some(a) => {
                let i = grant_index(s.approvals, owner, delegate);
                lemma_update_grant(s.approvals, i, step.state.approvals[i]);
            },
            None => {
                lemma_push_grant(s.approvals, step.state.approvals.last());
            },
        }
    }
}

/// Dropping an approval that exists keeps the asset class well formed.
pub proof fn lemma_drop_approval(s: AssetState, owner: AccountId, delegate: AccountId)
    requires
        s.wf(),
        s.approval(owner, delegate) is Some,
    ensures
        s.drop_approval(owner, delegate).wf(),
{
    lemma_remove_grant(s.approvals, grant_index(s.approvals, owner, delegate));
}

/// Cancelling an approval keeps the asset class well formed.
pub proof fn lemma_cancel_approval(
    s: AssetState,
    origin: Origin,
    owner: AccountId,
    delegate: AccountId,
)
    requires
        s.wf(),
    ensures
        keeps(s.cancel_approval(owner, delegate)),
        keeps(s.force_cancel_approval(origin, owner, delegate)),
{
    if s.approval(owner, delegate) is Some {
        lemma_drop_approval(s, owner, delegate);
    }
}

/// A transfer by a delegate keeps the asset class well formed, and the floor.
pub proof fn lemma_transfer_approved(
    s: AssetState,
    id: AssetId,
    owner: AccountId,
    delegate: AccountId,
    dest: AccountId,
    amount: Balance,
    provider: bool,
)
    requires
        s.wf(),
    ensures
        keeps(s.transfer_approved(id, owner, delegate, dest, amount, provider)),
{
    if let Ok(step) = s.transfer_approved(id, owner, delegate, dest, amount, provider) {
        let flags = TransferFlags { keep_alive: false, best_effort: false, burn_dust: false };
        lemma_transfer(s, id, owner, dest, amount, Authority::Holder, flags, provider);
        let holder = Authority::Holder;
        let moved = s.transfer(id, owner, dest, amount, holder, flags, provider).unwrap();
        let a = s.approval(owner, delegate).unwrap();
        assert(moved.state.approval(owner, delegate) == Some(a));
        if a.amount == amount {
            lemma_drop_approval(moved.state, owner, delegate);
        } else {
            let i = grant_index(s.approvals, owner, delegate);
            lemma_update_grant(s.approvals, i, step.state.approvals[i]);
        }
    }
}

/// Freezing or thawing a record keeps the asset class well formed, and the floor.
pub proof fn lemma_set_frozen(
    s: AssetState,
    caller: AccountId,
    role: AccountId,
    who: AccountId,
    frozen: bool,
)
    requires
        s.wf(),
    ensures
        keeps(s.set_frozen(caller, role, who, frozen)),
{
    if let Ok(step) = s.set_frozen(caller, role, who, frozen) {
        let a = s.account(who).unwrap();
        let i = index_of(s.accounts, who);
        let b = AssetAccount { is_frozen: frozen, ..a };
        lemma_update_record(s.accounts, i, b);
        lemma_sum_update(s.accounts, i, Holding { who, account: b }, balance_of());
        lemma_sum_update(s.accounts, i, Holding { who, account: b }, sufficient_of());
        assert forall|k: int| 0 <= k < step.state.accounts.len() implies (
        #[trigger] step.state.accounts[k]).account.balance == 0
            || step.state.accounts[k].account.balance >= s.details.min_balance by {
            assert(step.state.accounts[k].account.balance == s.accounts[k].account.balance);
        }
    }
}

/// Creating an empty record against a deposit keeps the asset class well
/// formed, and the floor.
pub proof fn lemma_touch(s: AssetState, config: Config, who: AccountId, funded: bool)
    requires
        s.wf(),
    ensures
        keeps(s.touch(config, who, funded)),
{
    if let Ok(step) = s.touch(config, who, funded) {
        let h = step.state.accounts.last();
        assert(step.state.accounts == s.accounts.push(h));
        lemma_push_record(s.accounts, h);
        lemma_sum_push(s.accounts, h, balance_of());
        lemma_sum_push(s.accounts, h, sufficient_of());
        assert forall|k: int| 0 <= k < step.state.accounts.len() implies (
        #[trigger] step.state.accounts[k]).account.balance == 0
            || step.state.accounts[k].account.balance >= s.details.min_balance by {
            if k < s.accounts.len() {
                assert(step.state.accounts[k] == s.accounts[k]);
            }
        }
    }
}

/// A refund keeps the asset class well formed, and the floor: what the
/// record held leaves the supply with it.
pub proof fn lemma_refund(s: AssetState, id: AssetId, who: AccountId, allow_burn: bool)
    requires
        s.wf(),
    ensures
        keeps(s.refund(id, who, allow_burn)),
        s.refund(id, who, allow_burn) matches Ok(step) ==> step.amount <= s.details.supply,
{
    if let Ok(step) = s.refund(id, who, allow_burn) {
        let i = index_of(s.accounts, who);
        lemma_remove_record(s.accounts, i);
        lemma_sum_remove(s.accounts, i, balance_of());
        lemma_sum_remove(s.accounts, i, sufficient_of());
        assert forall|k: int| 0 <= k < step.state.accounts.len() implies (
        #[trigger] step.state.accounts[k]).account.balance == 0
            || step.state.accounts[k].account.balance >= s.details.min_balance by {
            assert(step.state.accounts[k] == s.accounts[if k < i {
                k
            } else {
                k + 1
            }]);
        }
    }
}

/// What touches neither records nor supply keeps the asset class well
/// formed, and the floor.
pub proof fn lemma_registry(
    s: AssetState,
    config: Config,
    origin: Origin,
    caller: AccountId,
    a: AccountId,
    b: AccountId,
    c: AccountId,
    name: Seq<u8>,
    symbol: Seq<u8>,
    decimals: u8,
    flag: bool,
)
    requires
        s.wf(),
    ensures
        keeps(s.freeze_asset(caller)),
        keeps(s.thaw_asset(caller)),
        keeps(s.transfer_ownership(caller, a, flag)),
        keeps(s.set_team(caller, a, b, c)),
        keeps(s.set_metadata(config, caller, name, symbol, decimals, flag)),
        keeps(s.force_set_metadata(name, symbol, decimals, flag)),
        keeps(s.clear_metadata(origin)),
        keeps(s.start_destroy(origin)),
        keeps(s.finish_destroy(origin)),
{
}

/// Overwriting the attributes of an asset keeps it well formed: a minimum
/// balance that would break the floor is refused.
pub proof fn lemma_force_asset_status(
    s: AssetState,
    owner: AccountId,
    issuer: AccountId,
    admin: AccountId,
    freezer: AccountId,
    min_balance: Balance,
    is_sufficient: bool,
    is_frozen: bool,
)
    requires
        s.wf(),
    ensures
        keeps(
            s.force_asset_status(
                owner,
                issuer,
                admin,
                freezer,
                min_balance,
                is_sufficient,
                is_frozen,
            ),
        ),
{
}

/// One cleanup call on the accounts keeps the asset class well formed: the
/// supply drops by what the removed records held. It removes no more
/// records than there are and than the limit allows, and at least one while
/// there is one and the limit is not zero.
pub proof fn lemma_destroy_accounts(s: AssetState, id: AssetId, origin: Origin, limit: u32)
    requires
        s.wf(),
    ensures
        keeps(s.destroy_accounts(id, origin, limit)),
        s.destroy_accounts(id, origin, limit) matches Ok(step) ==> {
            &&& step.state.details.accounts + step.amount == s.details.accounts
            &&& step.amount <= limit
            &&& s.details.accounts > 0 && limit > 0 ==> step.amount > 0
            &&& step.state.details.approvals == s.details.approvals
            &&& step.state.details.supply == total_balance(step.state.accounts)
        },
{
    if let Ok(step) = s.destroy_accounts(id, origin, limit) {
        let n = drain_count(s.accounts.len(), limit);
        let m = s.accounts.len() - n;
        lemma_take_distinct(s.accounts, m);
        lemma_sum_split(s.accounts, m, balance_of());
        lemma_sufficient_count_bound(s.accounts.take(m));
        assert forall|k: int| 0 <= k < step.state.accounts.len() implies (
        #[trigger] step.state.accounts[k]).account.balance == 0
            || step.state.accounts[k].account.balance >= s.details.min_balance by {
            assert(step.state.accounts[k] == s.accounts[k]);
        }
    }
}

/// One cleanup call on the approvals keeps the asset class well formed. It
/// removes no more records than there are and than the limit allows, and at
/// least one while there is one and the limit is not zero.
pub proof fn lemma_destroy_approvals(s: AssetState, origin: Origin, limit: u32)
    requires
        s.wf(),
    ensures
        keeps(s.destroy_approvals(origin, limit)),
        s.destroy_approvals(origin, limit) matches Ok(step) ==> {
            &&& step.state.details.approvals + step.amount == s.details.approvals
            &&& step.amount <= limit
            &&& s.details.approvals > 0 && limit > 0 ==> step.amount > 0
            &&& step.state.details.accounts == s.details.accounts
        },
{
    if s.destroy_approvals(origin, limit) is Ok {
        let n = drain_count(s.approvals.len(), limit);
        lemma_take_distinct_grants(s.approvals, s.approvals.len() - n);
    }
}

} // verus!
