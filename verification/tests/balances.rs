use asset_ledger::pallet::Pallet;
use asset_ledger::types::{
    Action, Authority, Config, DebitFlags, Error, ExistenceReason, Origin, TransferFlags,
};

fn config() -> Config {
    Config {
        remove_keys_limit: 2,
        asset_deposit: 100,
        asset_account_deposit: 10,
        metadata_deposit_base: 5,
        metadata_deposit_per_byte: 1,
        approval_deposit: 3,
        string_limit: 8,
    }
}

fn ledger(is_sufficient: bool) -> Pallet {
    let mut p = Pallet::new(config());
    p.force_create(Origin::Root, 1, 1, is_sufficient, 10).unwrap();
    p
}

fn sum_of_balances(p: &Pallet, id: u32, accounts: &[u64]) -> u128 {
    accounts.iter().map(|who| p.balance(id, *who)).sum()
}

#[test]
fn mint_checks_issuer_floor_provider_and_overflow() {
    let mut p = ledger(false);
    assert_eq!(p.mint(Origin::Root, 1, 20, 50, true), Err(Error::BadOrigin));
    assert_eq!(p.mint(Origin::Signed(2), 1, 20, 50, true), Err(Error::NoPermission));
    assert_eq!(p.mint(Origin::Signed(1), 2, 20, 50, true), Err(Error::Unknown));
    assert_eq!(p.mint(Origin::Signed(1), 1, 20, 9, true), Err(Error::BelowMinimum));
    assert_eq!(p.mint(Origin::Signed(1), 1, 20, 0, true), Err(Error::BelowMinimum));
    assert_eq!(p.mint(Origin::Signed(1), 1, 20, 50, false), Err(Error::NoProvider));
    assert_eq!(p.account(1, 20), None);
    assert_eq!(
        p.mint(Origin::Signed(1), 1, 20, 50, true),
        Ok(vec![Action::IncConsumers { who: 20 }])
    );
    assert_eq!(p.mint(Origin::Signed(1), 1, 20, 0, false), Ok(vec![]));
    assert_eq!(p.mint(Origin::Signed(1), 1, 20, 1, false), Ok(vec![]));
    assert_eq!(p.balance(1, 20), 51);
    assert_eq!(p.maybe_balance(1, 21), None);
    assert_eq!(p.total_supply(1), 51);
    assert_eq!(p.mint(Origin::Signed(1), 1, 21, u128::MAX - 50, true), Err(Error::Overflow));
    assert_eq!(p.mint(Origin::Signed(1), 1, 20, u128::MAX - 50, true), Err(Error::Overflow));
    assert_eq!(p.mint(Origin::Signed(1), 1, 21, u128::MAX - 51, true).map(|_| ()), Ok(()));
    assert_eq!(p.total_supply(1), u128::MAX);
    assert_eq!(p.asset(1).unwrap().accounts, 2);
    assert_eq!(p.asset(1).unwrap().sufficients, 0);
}

#[test]
fn mint_into_a_sufficient_asset_counts_sufficients() {
    let mut p = ledger(true);
    assert_eq!(
        p.mint(Origin::Signed(1), 1, 20, 50, false),
        Ok(vec![Action::IncSufficients { who: 20 }])
    );
    assert_eq!(p.account(1, 20).unwrap().reason, ExistenceReason::Sufficient);
    let d = p.asset(1).unwrap();
    assert_eq!((d.accounts, d.sufficients, d.supply), (1, 1, 50));
}

#[test]
fn burn_takes_what_there_is_and_sweeps_dust() {
    let mut p = ledger(true);
    p.mint(Origin::Signed(1), 1, 20, 100, true).unwrap();
    p.mint(Origin::Signed(1), 1, 21, 100, true).unwrap();
    assert_eq!(p.burn(Origin::Root, 1, 20, 5), Err(Error::BadOrigin));
    assert_eq!(p.burn(Origin::Signed(2), 1, 20, 5), Err(Error::NoPermission));
    assert_eq!(p.burn(Origin::Signed(1), 2, 20, 5), Err(Error::Unknown));
    assert_eq!(p.burn(Origin::Signed(1), 1, 22, 5), Err(Error::NoAccount));
    assert_eq!(p.burn(Origin::Signed(1), 1, 20, 0), Ok((0, vec![])));
    assert_eq!(p.burn(Origin::Signed(1), 1, 20, 5), Ok((5, vec![])));
    assert_eq!(p.balance(1, 20), 95);
    assert_eq!(p.total_supply(1), 195);
    // 95 - 90 = 5 is dust under the floor of 10: it goes as well
    assert_eq!(
        p.burn(Origin::Signed(1), 1, 20, 90),
        Ok((95, vec![Action::DecSufficients { who: 20 }, Action::Died { asset: 1, who: 20 }]))
    );
    assert_eq!(p.account(1, 20), None);
    assert_eq!(p.total_supply(1), 100);
    // more than there is: all of it
    assert_eq!(
        p.burn(Origin::Signed(1), 1, 21, 1000),
        Ok((100, vec![Action::DecSufficients { who: 21 }, Action::Died { asset: 1, who: 21 }]))
    );
    let d = p.asset(1).unwrap();
    assert_eq!((d.accounts, d.sufficients, d.supply), (0, 0, 0));
}

#[test]
fn decrease_balance_follows_the_flags() {
    let exact = DebitFlags { keep_alive: false, best_effort: false };
    let alive = DebitFlags { keep_alive: true, best_effort: false };
    let alive_best = DebitFlags { keep_alive: true, best_effort: true };
    let mut p = ledger(true);
    p.mint(Origin::Signed(1), 1, 20, 100, true).unwrap();
    assert_eq!(p.decrease_balance(1, 20, 101, exact), Err(Error::BalanceLow));
    assert_eq!(p.decrease_balance(1, 20, 91, alive), Err(Error::BalanceLow));
    assert_eq!(p.decrease_balance(1, 21, 0, exact), Err(Error::NoAccount));
    assert_eq!(p.decrease_balance(2, 20, 1, exact), Err(Error::Unknown));
    assert_eq!(p.balance(1, 20), 100);
    assert_eq!(p.decrease_balance(1, 20, 95, alive_best), Ok((90, vec![])));
    assert_eq!(p.balance(1, 20), 10);
    assert_eq!(p.decrease_balance(1, 20, 1, alive_best), Ok((0, vec![])));
    assert_eq!(p.decrease_balance(1, 20, 1, alive), Err(Error::BalanceLow));
    assert_eq!(
        p.decrease_balance(1, 20, 1, exact),
        Ok((10, vec![Action::DecSufficients { who: 20 }, Action::Died { asset: 1, who: 20 }]))
    );
    assert_eq!(p.total_supply(1), 0);
}

#[test]
fn transfer_moves_exactly_what_it_reports() {
    let mut p = ledger(false);
    p.mint(Origin::Signed(1), 1, 20, 100, true).unwrap();
    assert_eq!(p.transfer(Origin::Root, 1, 21, 50, true), Err(Error::BadOrigin));
    assert_eq!(p.transfer(Origin::Signed(20), 2, 21, 50, true), Err(Error::Unknown));
    assert_eq!(p.transfer(Origin::Signed(22), 1, 21, 50, true), Err(Error::NoAccount));
    assert_eq!(p.transfer(Origin::Signed(20), 1, 21, 101, true), Err(Error::BalanceLow));
    assert_eq!(p.transfer(Origin::Signed(20), 1, 21, 9, true), Err(Error::BelowMinimum));
    assert_eq!(p.transfer(Origin::Signed(20), 1, 21, 50, false), Err(Error::NoProvider));
    assert_eq!(p.balance(1, 20), 100);
    assert_eq!(
        p.transfer(Origin::Signed(20), 1, 21, 50, true),
        Ok((50, vec![Action::IncConsumers { who: 21 }]))
    );
    assert_eq!(p.transfer(Origin::Signed(20), 1, 21, 9, false), Ok((9, vec![])));
    assert_eq!(p.transfer(Origin::Signed(20), 1, 20, 9, false), Ok((9, vec![])));
    assert_eq!((p.balance(1, 20), p.balance(1, 21)), (41, 59));
    assert_eq!(p.total_supply(1), sum_of_balances(&p, 1, &[20, 21]));
    assert_eq!(p.asset(1).unwrap().accounts, 2);
}

#[test]
fn force_transfer_needs_the_admin_and_passes_an_account_freeze() {
    let mut p = ledger(true);
    p.set_team(Origin::Signed(1), 1, 2, 3, 4).unwrap();
    p.mint(Origin::Signed(2), 1, 20, 100, true).unwrap();
    p.freeze(Origin::Signed(4), 1, 20).unwrap();
    assert_eq!(p.force_transfer(Origin::Root, 1, 20, 21, 50, true), Err(Error::BadOrigin));
    assert_eq!(p.force_transfer(Origin::Signed(1), 1, 20, 21, 50, true), Err(Error::NoPermission));
    assert_eq!(p.transfer(Origin::Signed(20), 1, 21, 50, true), Err(Error::Frozen));
    assert_eq!(
        p.force_transfer(Origin::Signed(3), 1, 20, 21, 50, true),
        Ok((50, vec![Action::IncSufficients { who: 21 }]))
    );
    // a frozen destination takes nothing
    p.freeze(Origin::Signed(4), 1, 21).unwrap();
    assert_eq!(p.force_transfer(Origin::Signed(3), 1, 20, 21, 10, true), Err(Error::Frozen));
    p.thaw(Origin::Signed(3), 1, 21).unwrap();
    // the asset-wide freeze holds for the admin too
    p.freeze_asset(Origin::Signed(4), 1).unwrap();
    assert_eq!(p.force_transfer(Origin::Signed(3), 1, 20, 21, 10, true), Err(Error::Frozen));
    let plain = TransferFlags { keep_alive: false, best_effort: false, burn_dust: false };
    assert_eq!(
        p.do_transfer(1, 20, 21, 10, Authority::Privileged, plain, true),
        Err(Error::Frozen)
    );
    // the privileged origin passes it while the asset is being destroyed
    p.start_destroy(Origin::Root, 1).unwrap();
    assert_eq!(p.do_transfer(1, 20, 21, 10, Authority::Admin(3), plain, true), Err(Error::Frozen));
    assert_eq!(p.do_transfer(1, 20, 21, 10, Authority::Holder, plain, true), Err(Error::Frozen));
    assert_eq!(p.do_transfer(1, 20, 21, 10, Authority::Privileged, plain, true), Ok((10, vec![])));
    assert_eq!((p.balance(1, 20), p.balance(1, 21)), (40, 60));
}

#[test]
fn best_effort_transfer_moves_what_there_is() {
    let mut p = ledger(true);
    p.mint(Origin::Signed(1), 1, 20, 100, true).unwrap();
    let f = TransferFlags { keep_alive: true, best_effort: true, burn_dust: true };
    assert_eq!(
        p.do_transfer(1, 20, 21, 500, Authority::Holder, f, true),
        Ok((90, vec![Action::IncSufficients { who: 21 }]))
    );
    assert_eq!((p.balance(1, 20), p.balance(1, 21), p.total_supply(1)), (10, 90, 100));
}
