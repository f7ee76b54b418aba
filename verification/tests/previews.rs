use asset_ledger::pallet::Pallet;
use asset_ledger::types::{Action, Config, DebitFlags, Error, Origin};

fn config() -> Config {
    Config {
        remove_keys_limit: 2,
        asset_deposit: 100,
        asset_account_deposit: 10,
        metadata_deposit_base: 5,
        metadata_deposit_per_byte: 1,
        approval_deposit: 3,
        string_limit: 8,
    }
}

fn ledger() -> Pallet {
    let mut p = Pallet::new(config());
    p.create(Origin::Signed(1), 1, 1, 10, true).unwrap();
    p.mint(Origin::Signed(1), 1, 20, 100, true).unwrap();
    p
}

#[test]
fn reducible_balance_keeps_the_floor_for_the_living() {
    let mut p = ledger();
    assert_eq!(p.reducible_balance(2, 20, false), Err(Error::Unknown));
    assert_eq!(p.reducible_balance(1, 21, false), Err(Error::NoAccount));
    assert_eq!(p.reducible_balance(1, 20, false), Ok(100));
    assert_eq!(p.reducible_balance(1, 20, true), Ok(90));
    p.freeze(Origin::Signed(1), 1, 20).unwrap();
    assert_eq!(p.reducible_balance(1, 20, false), Err(Error::Frozen));
    p.thaw(Origin::Signed(1), 1, 20).unwrap();
    p.freeze_asset(Origin::Signed(1), 1).unwrap();
    assert_eq!(p.reducible_balance(1, 20, true), Err(Error::Frozen));
}

#[test]
fn can_decrease_tells_dust_and_death() {
    let mut p = ledger();
    assert_eq!(p.can_decrease(2, 20, 1, false), Err(Error::Unknown));
    assert_eq!(p.can_decrease(1, 21, 1, false), Err(Error::NoAccount));
    assert_eq!(p.can_decrease(1, 21, 0, false), Ok(0));
    assert_eq!(p.can_decrease(1, 20, 101, false), Err(Error::BalanceLow));
    assert_eq!(p.can_decrease(1, 20, 90, true), Ok(0));
    assert_eq!(p.can_decrease(1, 20, 95, true), Err(Error::WouldDie));
    assert_eq!(p.can_decrease(1, 20, 95, false), Ok(5));
    assert_eq!(p.can_decrease(1, 20, 100, false), Ok(0));
    // the debit takes the amount and the dust
    let exact = DebitFlags { keep_alive: false, best_effort: false };
    assert_eq!(p.decrease_balance(1, 20, 95, exact).map(|r| r.0), Ok(100));
    p.mint(Origin::Signed(1), 1, 20, 100, true).unwrap();
    p.freeze(Origin::Signed(1), 1, 20).unwrap();
    assert_eq!(p.can_decrease(1, 20, 1, false), Err(Error::Frozen));
}

#[test]
fn can_increase_tells_what_a_credit_needs() {
    let mut p = ledger();
    assert_eq!(p.can_increase(2, 20, 1, true, true), Err(Error::Unknown));
    assert_eq!(p.can_increase(1, 20, 1, true, false), Ok(()));
    assert_eq!(p.can_increase(1, 21, 9, true, true), Err(Error::BelowMinimum));
    assert_eq!(p.can_increase(1, 21, 10, true, false), Err(Error::NoProvider));
    assert_eq!(p.can_increase(1, 21, 10, true, true), Ok(()));
    assert_eq!(p.can_increase(1, 21, u128::MAX, true, true), Err(Error::Overflow));
    assert_eq!(p.can_increase(1, 21, u128::MAX, false, true), Ok(()));
    assert_eq!(p.can_increase(1, 20, u128::MAX, false, true), Err(Error::Overflow));
    p.freeze(Origin::Signed(1), 1, 20).unwrap();
    assert_eq!(p.can_increase(1, 20, 1, false, true), Err(Error::Frozen));
}

#[test]
fn approval_due_is_the_shortfall_of_the_deposit() {
    let mut p = ledger();
    assert_eq!(p.approval_due(2, 20, 30), 0);
    assert_eq!(p.approval_due(1, 20, 30), 3);
    assert_eq!(
        p.approve_transfer(Origin::Signed(20), 1, 30, 5, true),
        Ok(vec![Action::Reserve { who: 20, amount: 3 }])
    );
    assert_eq!(p.approval_due(1, 20, 30), 0);
    assert_eq!(p.approval_due(1, 20, 31), 3);
}

#[test]
fn metadata_due_is_the_shortfall_of_the_deposit() {
    let mut p = ledger();
    assert_eq!(p.metadata_due(2, 3, 1), 0);
    // 5 + 1 * (3 + 1)
    assert_eq!(p.metadata_due(1, 3, 1), 9);
    p.set_metadata(Origin::Signed(1), 1, vec![1, 2, 3], vec![4], 0, true).unwrap();
    assert_eq!(p.metadata_due(1, 3, 1), 0);
    assert_eq!(p.metadata_due(1, 1, 1), 0);
    assert_eq!(p.metadata_due(1, 8, 8), 12);
}

#[test]
fn metadata_deposit_saturates() {
    let mut p = Pallet::new(Config { metadata_deposit_per_byte: u128::MAX, ..config() });
    p.create(Origin::Signed(1), 1, 1, 10, true).unwrap();
    assert_eq!(p.metadata_due(1, 1, 1), u128::MAX);
    assert_eq!(p.metadata_due(1, 0, 0), 5);
    assert_eq!(
        p.set_metadata(Origin::Signed(1), 1, vec![1], vec![], 0, true),
        Ok(vec![Action::Reserve { who: 1, amount: u128::MAX }])
    );
    assert_eq!(p.metadata(1).unwrap().deposit, u128::MAX);
}
