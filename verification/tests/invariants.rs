use asset_ledger::pallet::Pallet;
use asset_ledger::types::{Authority, Config, DebitFlags, Error, Origin, TransferFlags};

fn config() -> Config {
    Config {
        remove_keys_limit: 2,
        asset_deposit: 100,
        asset_account_deposit: 10,
        metadata_deposit_base: 5,
        metadata_deposit_per_byte: 1,
        approval_deposit: 3,
        string_limit: 8,
    }
}

const HOLDERS: [u64; 6] = [20, 21, 22, 23, 24, 25];

fn sum(p: &Pallet, id: u32) -> u128 {
    HOLDERS.iter().map(|who| p.balance(id, *who)).sum()
}

fn records(p: &Pallet, id: u32) -> u32 {
    HOLDERS.iter().filter(|who| p.account(id, **who).is_some()).count() as u32
}

fn holds(p: &Pallet, id: u32, floor: u128) {
    let d = p.asset(id).unwrap();
    assert_eq!(d.supply, sum(p, id));
    assert_eq!(d.accounts, records(p, id));
    for who in HOLDERS {
        let b = p.balance(id, who);
        assert!(b == 0 || b >= floor);
    }
}

#[test]
fn supply_equals_the_sum_of_balances_after_every_step() {
    let mut p = Pallet::new(config());
    p.force_create(Origin::Root, 1, 1, true, 10).unwrap();
    holds(&p, 1, 10);
    let amounts = [1000u128, 10, 15, 999, 500, 9, 0, 11];
    let mut step = 0usize;
    for round in 0..40u64 {
        let a = HOLDERS[(round as usize) % 6];
        let b = HOLDERS[(round as usize * 5 + 1) % 6];
        let amount = amounts[step % amounts.len()];
        step += 1;
        match round % 7 {
            0 | 1 => {
                let _ = p.mint(Origin::Signed(1), 1, a, amount, true);
            }
            2 => {
                let _ = p.transfer(Origin::Signed(a), 1, b, amount, true);
            }
            3 => {
                let _ = p.transfer_keep_alive(Origin::Signed(a), 1, b, amount, true);
            }
            4 => {
                let f = TransferFlags { keep_alive: false, best_effort: true, burn_dust: true };
                let _ = p.do_transfer(1, a, b, amount, Authority::Admin(1), f, true);
            }
            5 => {
                let _ = p.burn(Origin::Signed(1), 1, a, amount);
            }
            _ => {
                let f = DebitFlags { keep_alive: true, best_effort: true };
                let _ = p.decrease_balance(1, a, amount, f);
                let _ = p.touch(Origin::Signed(b), 1, true);
                let _ = p.refund(Origin::Signed(a), 1, true);
            }
        }
        holds(&p, 1, 10);
    }
    assert!(p.total_supply(1) > 0);
}

#[test]
fn a_refused_operation_changes_nothing() {
    let mut p = Pallet::new(config());
    p.force_create(Origin::Root, 1, 1, false, 10).unwrap();
    p.mint(Origin::Signed(1), 1, 20, 100, true).unwrap();
    let before = (p.asset(1), p.account(1, 20), p.account(1, 21));
    assert_eq!(p.transfer(Origin::Signed(20), 1, 21, 95, false), Err(Error::NoProvider));
    assert_eq!(p.transfer(Origin::Signed(20), 1, 21, 5, true), Err(Error::BelowMinimum));
    assert_eq!(p.transfer(Origin::Signed(20), 1, 21, 500, true), Err(Error::BalanceLow));
    assert_eq!(p.burn(Origin::Signed(2), 1, 20, 5), Err(Error::NoPermission));
    assert_eq!(p.touch(Origin::Signed(21), 1, false), Err(Error::Currency));
    assert_eq!(p.start_destroy(Origin::Signed(1), 1), Err(Error::BadWitness));
    assert_eq!((p.asset(1), p.account(1, 20), p.account(1, 21)), before);
}

#[test]
fn the_floor_holds_when_the_minimum_balance_changes() {
    let mut p = Pallet::new(config());
    p.force_create(Origin::Root, 1, 1, true, 10).unwrap();
    p.mint(Origin::Signed(1), 1, 20, 15, true).unwrap();
    assert_eq!(
        p.force_asset_status(Origin::Root, 1, 1, 1, 1, 1, 20, true, false),
        Err(Error::BelowMinimum)
    );
    holds(&p, 1, 10);
    p.force_asset_status(Origin::Root, 1, 1, 1, 1, 1, 12, true, false).unwrap();
    holds(&p, 1, 12);
    // 15 - 5 would be under the new floor: the holding leaves as a whole
    assert_eq!(p.can_decrease(1, 20, 5, false), Ok(10));
    assert_eq!(p.transfer_keep_alive(Origin::Signed(20), 1, 21, 5, true), Err(Error::BalanceLow));
    assert_eq!(p.transfer(Origin::Signed(20), 1, 21, 5, true).map(|r| r.0), Ok(15));
    holds(&p, 1, 12);
}

#[test]
fn cleanup_keeps_the_supply_equal_to_the_sum() {
    let mut p = Pallet::new(config());
    p.force_create(Origin::Root, 1, 1, true, 10).unwrap();
    for (i, who) in HOLDERS.iter().enumerate() {
        p.mint(Origin::Signed(1), 1, *who, 100 * (i as u128 + 1), true).unwrap();
    }
    p.freeze_asset(Origin::Signed(1), 1).unwrap();
    p.start_destroy(Origin::Root, 1).unwrap();
    holds(&p, 1, 10);
    assert_eq!(p.total_supply(1), 2100);
    let mut remaining = 6;
    while remaining > 0 {
        let (destroyed, left, _) = p.destroy_accounts(Origin::Root, 1).unwrap();
        assert_eq!(destroyed, 2);
        assert_eq!(left, remaining - 2);
        remaining = left;
        holds(&p, 1, 10);
    }
    assert_eq!(p.total_supply(1), 0);
}

#[test]
fn ownership_deposit_must_fit_the_balance_type() {
    let mut p = Pallet::new(Config { asset_deposit: u128::MAX, ..config() });
    p.create(Origin::Signed(1), 1, 1, 10, true).unwrap();
    p.set_metadata(Origin::Signed(1), 1, vec![], vec![], 0, true).unwrap();
    assert_eq!(p.transfer_ownership(Origin::Signed(1), 1, 2, true), Err(Error::Overflow));
    assert_eq!(p.asset(1).unwrap().owner, 1);
    // finishing frees what fits
    p.freeze_asset(Origin::Signed(1), 1).unwrap();
    p.start_destroy(Origin::Signed(1), 1).unwrap();
    assert_eq!(
        p.finish_destroy(Origin::Signed(1), 1),
        Ok(vec![asset_ledger::types::Action::Unreserve { who: 1, amount: u128::MAX }])
    );
}
