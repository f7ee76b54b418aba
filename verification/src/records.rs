//! Sequences of account and approval records: lookup by key, totals, and
//! how both behave when a record is added, changed or removed.

use vstd::prelude::*;
use crate::types::{AccountId, AssetAccount, Balance, ExistenceReason, Grant, Holding};

verus! {

/// Sum of `f` over the records of `s`.
pub open spec fn sum_by(s: Seq<Holding>, f: spec_fn(Holding) -> nat) -> nat
    decreases s.len(),
{
    if s.len() == 0 {
        0
    } else {
        sum_by(s.drop_last(), f) + f(s.last())
    }
}

/// The balance of a record, as a number to add up.
pub open spec fn balance_of() -> spec_fn(Holding) -> nat {
    |h: Holding| h.account.balance as nat
}

/// One for a record that exists as a self-sufficient holding, else zero.
pub open spec fn sufficient_of() -> spec_fn(Holding) -> nat {
    |h: Holding|
        if h.account.reason == ExistenceReason::Sufficient {
            1nat
        } else {
            0nat
        }
}

/// Sum of the balances of `s`.
pub open spec fn total_balance(s: Seq<Holding>) -> nat {
    sum_by(s, balance_of())
}

/// Number of records of `s` that exist as self-sufficient holdings.
pub open spec fn sufficient_count(s: Seq<Holding>) -> nat {
    sum_by(s, sufficient_of())
}

/// Whether `who` has a record in `s`.
pub open spec fn holds(s: Seq<Holding>, who: AccountId) -> bool {
    exists|i: int| 0 <= i < s.len() && #[trigger] s[i].who == who
}

/// Position of `who`'s record in `s`, where it has one.
pub open spec fn index_of(s: Seq<Holding>, who: AccountId) -> int {
    choose|i: int| 0 <= i < s.len() && #[trigger] s[i].who == who
}

/// The record of `who` in `s`, if there is one.
pub open spec fn lookup(s: Seq<Holding>, who: AccountId) -> Option<AssetAccount> {
    if holds(s, who) {
        Some(s[index_of(s, who)].account)
    } else {
        None
    }
}

/// No account has two records in `s`.
pub open spec fn distinct(s: Seq<Holding>) -> bool {
    forall|i: int, j: int| 0 <= i < j < s.len() ==> #[trigger] s[i].who != #[trigger] s[j].who
}

/// Every balance of `s` is zero or at least `floor`.
pub open spec fn above_floor(s: Seq<Holding>, floor: Balance) -> bool {
    forall|i: int|
        0 <= i < s.len() ==> (#[trigger] s[i]).account.balance == 0 || s[i].account.balance
            >= floor
}

/// Whether `owner` has approved `delegate` in `s`.
pub open spec fn granted(s: Seq<Grant>, owner: AccountId, delegate: AccountId) -> bool {
    exists|i: int| 0 <= i < s.len() && #[trigger] s[i].owner == owner && s[i].delegate == delegate
}

/// Position in `s` of the approval that `owner` gave `delegate`, where there is one.
pub open spec fn grant_index(s: Seq<Grant>, owner: AccountId, delegate: AccountId) -> int {
    choose|i: int| 0 <= i < s.len() && #[trigger] s[i].owner == owner && s[i].delegate == delegate
}

/// No pair of owner and delegate has two records in `s`.
pub open spec fn distinct_grants(s: Seq<Grant>) -> bool {
    forall|i: int, j: int|
        0 <= i < j < s.len() ==> !((#[trigger] s[i]).owner == (#[trigger] s[j]).owner
            && s[i].delegate == s[j].delegate)
}

/// Adding a record adds its share to the sum.
pub proof fn lemma_sum_push(s: Seq<Holding>, h: Holding, f: spec_fn(Holding) -> nat)
    ensures
        sum_by(s.push(h), f) == sum_by(s, f) + f(h),
{
    assert(s.push(h).drop_last() =~= s);
}

/// Changing a record changes the sum by the difference of its shares.
pub proof fn lemma_sum_update(s: Seq<Holding>, i: int, h: Holding, f: spec_fn(Holding) -> nat)
    requires
        0 <= i < s.len(),
    ensures
        sum_by(s.update(i, h), f) + f(s[i]) == sum_by(s, f) + f(h),
    decreases s.len(),
{
    if i == s.len() - 1 {
        assert(s.update(i, h).drop_last() =~= s.drop_last());
    } else {
        lemma_sum_update(s.drop_last(), i, h, f);
        assert(s.update(i, h).drop_last() =~= s.drop_last().update(i, h));
    }
}

/// Removing a record takes its share from the sum.
pub proof fn lemma_sum_remove(s: Seq<Holding>, i: int, f: spec_fn(Holding) -> nat)
    requires
        0 <= i < s.len(),
    ensures
        sum_by(s.remove(i), f) + f(s[i]) == sum_by(s, f),
    decreases s.len(),
{
    if i == s.len() - 1 {
        assert(s.remove(i) =~= s.drop_last());
    } else {
        lemma_sum_remove(s.drop_last(), i, f);
        assert(s.remove(i).drop_last() =~= s.drop_last().remove(i));
        assert(s.remove(i).last() == s.last());
    }
}

/// The sum over the whole is the sum over a prefix and over the rest.
pub proof fn lemma_sum_split(s: Seq<Holding>, n: int, f: spec_fn(Holding) -> nat)
    requires
        0 <= n <= s.len(),
    ensures
        sum_by(s.take(n), f) + sum_by(s.skip(n), f) == sum_by(s, f),
    decreases s.len(),
{
    if n == s.len() {
        assert(s.take(n) =~= s);
        assert(s.skip(n) =~= Seq::<Holding>::empty());
    } else {
        lemma_sum_split(s.drop_last(), n, f);
        assert(s.drop_last().take(n) =~= s.take(n));
        assert(s.drop_last().skip(n) =~= s.skip(n).drop_last());
        assert(s.skip(n).last() == s.last());
    }
}

/// The sum of zero-or-one shares is at most the number of records.
pub proof fn lemma_sufficient_count_bound(s: Seq<Holding>)
    ensures
        sufficient_count(s) <= s.len(),
    decreases s.len(),
{
    if s.len() > 0 {
        lemma_sufficient_count_bound(s.drop_last());
    }
}

/// With distinct keys, the record of `who` is where one finds it.
pub proof fn lemma_index_of(s: Seq<Holding>, who: AccountId, i: int)
    requires
        distinct(s),
        0 <= i < s.len(),
        s[i].who == who,
    ensures
        holds(s, who),
        index_of(s, who) == i,
{
    let j = index_of(s, who);
    assert(0 <= j < s.len() && s[j].who == who);
    if j < i {
        assert(s[j].who != s[i].who);
    } else if i < j {
        assert(s[i].who != s[j].who);
    }
}

/// With distinct keys, the approval of a pair is where one finds it.
pub proof fn lemma_grant_index(s: Seq<Grant>, owner: AccountId, delegate: AccountId, i: int)
    requires
        distinct_grants(s),
        0 <= i < s.len(),
        s[i].owner == owner,
        s[i].delegate == delegate,
    ensures
        granted(s, owner, delegate),
        grant_index(s, owner, delegate) == i,
{
    let j = grant_index(s, owner, delegate);
    assert(0 <= j < s.len() && s[j].owner == owner && s[j].delegate == delegate);
    if j < i {
        assert(!(s[j].owner == s[i].owner && s[j].delegate == s[i].delegate));
    } else if i < j {
        assert(!(s[i].owner == s[j].owner && s[i].delegate == s[j].delegate));
    }
}

/// Changing the record at `i` leaves keys distinct and every other record as it was.
pub proof fn lemma_update_record(s: Seq<Holding>, i: int, account: AssetAccount)
    requires
        distinct(s),
        0 <= i < s.len(),
    ensures
        distinct(s.update(i, Holding { who: s[i].who, account })),
        lookup(s.update(i, Holding { who: s[i].who, account }), s[i].who) == Some(account),
        index_of(s.update(i, Holding { who: s[i].who, account }), s[i].who) == i,
        forall|w: AccountId|
            w != s[i].who ==> #[trigger] lookup(s.update(i, Holding { who: s[i].who, account }), w)
                == lookup(s, w),
        forall|w: AccountId|
            holds(s, w) ==> #[trigger] index_of(s.update(i, Holding { who: s[i].who, account }), w)
                == index_of(s, w),
{
    let t = s.update(i, Holding { who: s[i].who, account });
    assert(distinct(t)) by {
        assert forall|a: int, b: int| 0 <= a < b < t.len() implies #[trigger] t[a].who
            != #[trigger] t[b].who by {
            assert(t[a].who == s[a].who && t[b].who == s[b].who);
        }
    }
    lemma_index_of(t, s[i].who, i);
    assert forall|w: AccountId| holds(s, w) implies #[trigger] index_of(t, w) == index_of(s, w) by {
        let j = index_of(s, w);
        assert(t[j].who == s[j].who);
        lemma_index_of(t, w, j);
    }
    assert forall|w: AccountId| w != s[i].who implies #[trigger] lookup(t, w) == lookup(s, w) by {
        if holds(s, w) {
            let j = index_of(s, w);
            assert(t[j].who == s[j].who);
            lemma_index_of(t, w, j);
        } else if holds(t, w) {
            let k = index_of(t, w);
            assert(t[k].who == s[k].who);
        }
    }
}

/// Adding a record for an account that has none leaves keys distinct and
/// every other record as it was.
pub proof fn lemma_push_record(s: Seq<Holding>, h: Holding)
    requires
        distinct(s),
        !holds(s, h.who),
    ensures
        distinct(s.push(h)),
        lookup(s.push(h), h.who) == Some(h.account),
        index_of(s.push(h), h.who) == s.len(),
        forall|w: AccountId| w != h.who ==> #[trigger] lookup(s.push(h), w) == lookup(s, w),
        forall|w: AccountId| holds(s, w) ==> #[trigger] index_of(s.push(h), w) == index_of(s, w),
{
    let t = s.push(h);
    assert(distinct(t)) by {
        assert forall|a: int, b: int| 0 <= a < b < t.len() implies #[trigger] t[a].who
            != #[trigger] t[b].who by {
            if b == s.len() {
                assert(t[a].who == s[a].who);
            } else {
                assert(t[a].who == s[a].who && t[b].who == s[b].who);
            }
        }
    }
    lemma_index_of(t, h.who, s.len() as int);
    assert forall|w: AccountId| holds(s, w) implies #[trigger] index_of(t, w) == index_of(s, w) by {
        let j = index_of(s, w);
        assert(t[j].who == s[j].who);
        lemma_index_of(t, w, j);
    }
    assert forall|w: AccountId| w != h.who implies #[trigger] lookup(t, w) == lookup(s, w) by {
        if holds(s, w) {
            let j = index_of(s, w);
            assert(t[j].who == s[j].who);
            lemma_index_of(t, w, j);
        } else if holds(t, w) {
            let k = index_of(t, w);
            assert(t[k].who == s[k].who);
        }
    }
}

/// Removing the record at `i` leaves keys distinct, the account without a
/// record and every other record as it was.
pub proof fn lemma_remove_record(s: Seq<Holding>, i: int)
    requires
        distinct(s),
        0 <= i < s.len(),
    ensures
        distinct(s.remove(i)),
        lookup(s.remove(i), s[i].who) is None,
        forall|w: AccountId| w != s[i].who ==> #[trigger] lookup(s.remove(i), w) == lookup(s, w),
{
    let t = s.remove(i);
    assert forall|k: int| 0 <= k < t.len() implies #[trigger] t[k] == s[if k < i {
        k
    } else {
        k + 1
    }] by {}
    assert(distinct(t)) by {
        assert forall|a: int, b: int| 0 <= a < b < t.len() implies #[trigger] t[a].who
            != #[trigger] t[b].who by {
            let a2 = if a < i { a } else { a + 1 };
            let b2 = if b < i { b } else { b + 1 };
            assert(t[a] == s[a2] && t[b] == s[b2]);
            assert(s[a2].who != s[b2].who);
        }
    }
    if holds(t, s[i].who) {
        let k = index_of(t, s[i].who);
        let k2 = if k < i { k } else { k + 1 };
        assert(t[k] == s[k2]);
        if k2 < i {
            assert(s[k2].who != s[i].who);
        } else {
            assert(s[i].who != s[k2].who);
        }
    }
    assert forall|w: AccountId| w != s[i].who implies #[trigger] lookup(t, w) == lookup(s, w) by {
        if holds(s, w) {
            let j = index_of(s, w);
            let j2 = if j < i { j } else { j - 1 };
            assert(t[j2] == s[j]);
            lemma_index_of(t, w, j2);
        } else if holds(t, w) {
            let k = index_of(t, w);
            let k2 = if k < i { k } else { k + 1 };
            assert(t[k] == s[k2]);
            assert(s[k2].who == w);
        }
    }
}

/// Dropping the newest records leaves keys distinct.
pub proof fn lemma_take_distinct(s: Seq<Holding>, n: int)
    requires
        distinct(s),
        0 <= n <= s.len(),
    ensures
        distinct(s.take(n)),
{
    let t = s.take(n);
    assert forall|a: int, b: int| 0 <= a < b < t.len() implies #[trigger] t[a].who
        != #[trigger] t[b].who by {
        assert(t[a] == s[a] && t[b] == s[b]);
    }
}

/// Changing the approval at `i` leaves keys distinct and the record where it was.
pub proof fn lemma_update_grant(s: Seq<Grant>, i: int, g: Grant)
    requires
        distinct_grants(s),
        0 <= i < s.len(),
        g.owner == s[i].owner,
        g.delegate == s[i].delegate,
    ensures
        distinct_grants(s.update(i, g)),
{
    let t = s.update(i, g);
    assert forall|a: int, b: int| 0 <= a < b < t.len() implies !((#[trigger] t[a]).owner == (
    #[trigger] t[b]).owner && t[a].delegate == t[b].delegate) by {
        assert(t[a].owner == s[a].owner && t[a].delegate == s[a].delegate);
        assert(t[b].owner == s[b].owner && t[b].delegate == s[b].delegate);
    }
}

/// Adding an approval for a pair that has none leaves keys distinct.
pub proof fn lemma_push_grant(s: Seq<Grant>, g: Grant)
    requires
        distinct_grants(s),
        !granted(s, g.owner, g.delegate),
    ensures
        distinct_grants(s.push(g)),
{
    let t = s.push(g);
    assert forall|a: int, b: int| 0 <= a < b < t.len() implies !((#[trigger] t[a]).owner == (
    #[trigger] t[b]).owner && t[a].delegate == t[b].delegate) by {
        if b == s.len() {
            assert(t[a] == s[a]);
            if s[a].owner == g.owner && s[a].delegate == g.delegate {
                assert(granted(s, g.owner, g.delegate));
            }
        } else {
            assert(t[a] == s[a] && t[b] == s[b]);
        }
    }
}

/// Removing the approval at `i` leaves keys distinct.
pub proof fn lemma_remove_grant(s: Seq<Grant>, i: int)
    requires
        distinct_grants(s),
        0 <= i < s.len(),
    ensures
        distinct_grants(s.remove(i)),
{
    let t = s.remove(i);
    assert forall|a: int, b: int| 0 <= a < b < t.len() implies !((#[trigger] t[a]).owner == (
    #[trigger] t[b]).owner && t[a].delegate == t[b].delegate) by {
        let a2 = if a < i { a } else { a + 1 };
        let b2 = if b < i { b } else { b + 1 };
        assert(t[a] == s[a2] && t[b] == s[b2]);
        assert(!(s[a2].owner == s[b2].owner && s[a2].delegate == s[b2].delegate));
    }
}

/// Dropping the newest approvals leaves keys distinct.
pub proof fn lemma_take_distinct_grants(s: Seq<Grant>, n: int)
    requires
        distinct_grants(s),
        0 <= n <= s.len(),
    ensures
        distinct_grants(s.take(n)),
{
    let t = s.take(n);
    assert forall|a: int, b: int| 0 <= a < b < t.len() implies !((#[trigger] t[a]).owner == (
    #[trigger] t[b]).owner && t[a].delegate == t[b].delegate) by {
        assert(t[a] == s[a] && t[b] == s[b]);
    }
}

} // verus!
