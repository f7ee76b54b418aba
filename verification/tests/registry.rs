use asset_ledger::pallet::Pallet;
use asset_ledger::types::{
    Action, AssetDetails, AssetStatus, Config, Error, ExistenceReason, Origin,
};

fn config() -> Config {
    Config {
        remove_keys_limit: 2,
        asset_deposit: 100,
        asset_account_deposit: 10,
        metadata_deposit_base: 5,
        metadata_deposit_per_byte: 1,
        approval_deposit: 3,
        string_limit: 8,
    }
}

#[test]
fn create_reserves_the_deposit_and_sets_the_roles() {
    let mut p = Pallet::new(config());
    let actions = p.create(Origin::Signed(1), 7, 2, 10, true).unwrap();
    assert_eq!(actions, vec![Action::Reserve { who: 1, amount: 100 }]);
    assert_eq!(
        p.asset(7),
        Some(AssetDetails {
            owner: 1,
            issuer: 2,
            admin: 2,
            freezer: 2,
            supply: 0,
            deposit: 100,
            min_balance: 10,
            is_sufficient: false,
            accounts: 0,
            sufficients: 0,
            approvals: 0,
            is_frozen: false,
            status: AssetStatus::Live,
        })
    );
    assert_eq!(p.total_supply(7), 0);
    assert_eq!(p.maybe_total_supply(8), None);
}

#[test]
fn create_refuses_taken_id_zero_floor_wrong_origin_and_unfunded() {
    let mut p = Pallet::new(config());
    assert_eq!(p.create(Origin::Root, 7, 2, 10, true), Err(Error::BadOrigin));
    assert_eq!(p.create(Origin::Signed(1), 7, 2, 0, true), Err(Error::MinBalanceZero));
    assert_eq!(p.create(Origin::Signed(1), 7, 2, 10, false), Err(Error::Currency));
    assert_eq!(p.asset(7), None);
    assert_eq!(p.create(Origin::Signed(1), 7, 2, 10, true).map(|_| ()), Ok(()));
    assert_eq!(p.create(Origin::Signed(3), 7, 3, 10, true), Err(Error::InUse));
    assert_eq!(p.asset(7).unwrap().owner, 1);
}

#[test]
fn force_create_takes_no_deposit() {
    let mut p = Pallet::new(config());
    assert_eq!(p.force_create(Origin::Signed(1), 7, 1, true, 10), Err(Error::BadOrigin));
    assert_eq!(p.force_create(Origin::Root, 7, 1, true, 0), Err(Error::MinBalanceZero));
    assert_eq!(p.force_create(Origin::Root, 7, 1, true, 10), Ok(vec![]));
    assert_eq!(p.force_create(Origin::Root, 7, 1, true, 10), Err(Error::InUse));
    let d = p.asset(7).unwrap();
    assert_eq!((d.owner, d.issuer, d.admin, d.freezer), (1, 1, 1, 1));
    assert_eq!(d.deposit, 0);
    assert!(d.is_sufficient);
}

#[test]
fn set_team_and_transfer_ownership() {
    let mut p = Pallet::new(config());
    p.create(Origin::Signed(1), 7, 1, 10, true).unwrap();
    assert_eq!(p.set_team(Origin::Signed(2), 7, 3, 4, 5), Err(Error::NoPermission));
    assert_eq!(p.set_team(Origin::Root, 7, 3, 4, 5), Err(Error::BadOrigin));
    assert_eq!(p.set_team(Origin::Signed(1), 8, 3, 4, 5), Err(Error::Unknown));
    assert_eq!(p.set_team(Origin::Signed(1), 7, 3, 4, 5), Ok(vec![]));
    let d = p.asset(7).unwrap();
    assert_eq!((d.owner, d.issuer, d.admin, d.freezer), (1, 3, 4, 5));

    p.set_metadata(Origin::Signed(1), 7, vec![b'a', b'b'], vec![b'c'], 2, true).unwrap();
    assert_eq!(p.transfer_ownership(Origin::Signed(2), 7, 9, true), Err(Error::NoPermission));
    assert_eq!(p.transfer_ownership(Origin::Signed(1), 7, 9, false), Err(Error::Currency));
    assert_eq!(p.transfer_ownership(Origin::Signed(1), 7, 1, false), Ok(vec![]));
    assert_eq!(
        p.transfer_ownership(Origin::Signed(1), 7, 9, true),
        Ok(vec![Action::Repatriate { from: 1, to: 9, amount: 108 }])
    );
    assert_eq!(p.asset(7).unwrap().owner, 9);
}

#[test]
fn freeze_and_thaw_take_the_right_roles() {
    let mut p = Pallet::new(config());
    p.force_create(Origin::Root, 7, 1, true, 10).unwrap();
    p.set_team(Origin::Signed(1), 7, 3, 4, 5).unwrap();
    p.mint(Origin::Signed(3), 7, 20, 50, true).unwrap();

    assert_eq!(p.freeze(Origin::Signed(4), 7, 20), Err(Error::NoPermission));
    assert_eq!(p.freeze(Origin::Signed(5), 7, 21), Err(Error::NoAccount));
    assert_eq!(p.freeze(Origin::Signed(5), 8, 20), Err(Error::Unknown));
    assert_eq!(p.freeze(Origin::Root, 7, 20), Err(Error::BadOrigin));
    assert_eq!(p.freeze(Origin::Signed(5), 7, 20), Ok(vec![]));
    assert!(p.account(7, 20).unwrap().is_frozen);
    assert_eq!(p.transfer(Origin::Signed(20), 7, 21, 20, true), Err(Error::Frozen));
    assert_eq!(p.mint(Origin::Signed(3), 7, 20, 1, true), Err(Error::Frozen));

    assert_eq!(p.thaw(Origin::Signed(5), 7, 20), Err(Error::NoPermission));
    assert_eq!(p.thaw(Origin::Signed(4), 7, 20), Ok(vec![]));
    assert!(!p.account(7, 20).unwrap().is_frozen);

    assert_eq!(p.freeze_asset(Origin::Signed(4), 7), Err(Error::NoPermission));
    assert_eq!(p.freeze_asset(Origin::Signed(5), 7), Ok(vec![]));
    assert!(p.asset(7).unwrap().is_frozen);
    assert_eq!(p.transfer(Origin::Signed(20), 7, 21, 20, true), Err(Error::Frozen));
    assert_eq!(p.mint(Origin::Signed(3), 7, 20, 1, true), Err(Error::Frozen));
    assert_eq!(p.burn(Origin::Signed(4), 7, 20, 1), Err(Error::Frozen));
    assert_eq!(p.increase_balance(7, 20, 1, None, true), Ok(vec![]));
    assert_eq!(p.thaw_asset(Origin::Signed(5), 7), Err(Error::NoPermission));
    assert_eq!(p.thaw_asset(Origin::Signed(4), 7), Ok(vec![]));
    assert!(!p.asset(7).unwrap().is_frozen);
    assert_eq!(p.balance(7, 20), 51);
}

#[test]
fn force_asset_status_overwrites_attributes() {
    let mut p = Pallet::new(config());
    p.create(Origin::Signed(1), 7, 1, 10, true).unwrap();
    assert_eq!(
        p.force_asset_status(Origin::Signed(1), 7, 2, 3, 4, 5, 20, true, true),
        Err(Error::BadOrigin)
    );
    assert_eq!(
        p.force_asset_status(Origin::Root, 8, 2, 3, 4, 5, 20, true, true),
        Err(Error::Unknown)
    );
    assert_eq!(p.force_asset_status(Origin::Root, 7, 2, 3, 4, 5, 20, true, true), Ok(vec![]));
    let d = p.asset(7).unwrap();
    assert_eq!((d.owner, d.issuer, d.admin, d.freezer), (2, 3, 4, 5));
    assert_eq!(d.min_balance, 20);
    assert!(d.is_sufficient && d.is_frozen);
    assert_eq!(d.deposit, 100);
    assert_eq!(d.status, AssetStatus::Live);
}

#[test]
fn force_asset_status_keeps_the_floor() {
    let mut p = Pallet::new(config());
    p.create(Origin::Signed(1), 7, 1, 10, true).unwrap();
    p.touch(Origin::Signed(20), 7, true).unwrap();
    p.mint(Origin::Signed(1), 7, 21, 15, true).unwrap();
    p.mint(Origin::Signed(1), 7, 22, 30, true).unwrap();
    let before = p.asset(7);
    assert_eq!(
        p.force_asset_status(Origin::Root, 7, 2, 3, 4, 5, 0, true, true),
        Err(Error::MinBalanceZero)
    );
    assert_eq!(
        p.force_asset_status(Origin::Root, 7, 2, 3, 4, 5, 16, true, true),
        Err(Error::BelowMinimum)
    );
    assert_eq!(p.asset(7), before);
    // the smallest holding that is not zero is the most the floor can be
    assert_eq!(p.force_asset_status(Origin::Root, 7, 1, 1, 1, 1, 15, false, false), Ok(vec![]));
    assert_eq!(p.asset(7).unwrap().min_balance, 15);
    assert_eq!(p.force_asset_status(Origin::Root, 7, 1, 1, 1, 1, 1, false, false), Ok(vec![]));
    assert_eq!(p.asset(7).unwrap().min_balance, 1);
}

#[test]
fn metadata_deposit_follows_the_length() {
    let mut p = Pallet::new(config());
    p.create(Origin::Signed(1), 7, 1, 10, true).unwrap();
    let name = vec![b'n'; 4];
    let symbol = vec![b's'; 2];
    assert_eq!(
        p.set_metadata(Origin::Signed(1), 7, vec![0; 9], symbol.clone(), 2, true),
        Err(Error::BadMetadata)
    );
    assert_eq!(
        p.set_metadata(Origin::Signed(1), 7, name.clone(), vec![0; 9], 2, true),
        Err(Error::BadMetadata)
    );
    assert_eq!(
        p.set_metadata(Origin::Signed(1), 8, name.clone(), symbol.clone(), 2, true),
        Err(Error::Unknown)
    );
    assert_eq!(
        p.set_metadata(Origin::Signed(2), 7, name.clone(), symbol.clone(), 2, true),
        Err(Error::NoPermission)
    );
    assert_eq!(
        p.set_metadata(Origin::Signed(1), 7, name.clone(), symbol.clone(), 2, false),
        Err(Error::Currency)
    );
    assert_eq!(p.metadata(7).map(|m| m.deposit), None);
    // 5 + 1 * (4 + 2)
    assert_eq!(
        p.set_metadata(Origin::Signed(1), 7, name.clone(), symbol.clone(), 2, true),
        Ok(vec![Action::Reserve { who: 1, amount: 11 }])
    );
    let m = p.metadata(7).unwrap();
    assert_eq!(
        (m.deposit, m.name, m.symbol, m.decimals, m.is_frozen),
        (11, name, symbol, 2, false)
    );
    // a shorter name frees the difference, and needs no funds
    assert_eq!(
        p.set_metadata(Origin::Signed(1), 7, vec![b'n'], vec![], 3, false),
        Ok(vec![Action::Unreserve { who: 1, amount: 5 }])
    );
    assert_eq!(p.metadata(7).unwrap().deposit, 6);
    assert_eq!(p.clear_metadata(Origin::Signed(2), 7), Err(Error::NoPermission));
    assert_eq!(p.clear_metadata(Origin::Root, 7), Err(Error::BadOrigin));
    assert_eq!(
        p.clear_metadata(Origin::Signed(1), 7),
        Ok(vec![Action::Unreserve { who: 1, amount: 6 }])
    );
    assert_eq!(p.clear_metadata(Origin::Signed(1), 7), Err(Error::Unknown));
    assert!(p.metadata(7).is_none());
}

#[test]
fn forced_metadata_keeps_the_deposit_and_may_freeze() {
    let mut p = Pallet::new(config());
    p.create(Origin::Signed(1), 7, 1, 10, true).unwrap();
    p.set_metadata(Origin::Signed(1), 7, vec![1, 2], vec![3], 2, true).unwrap();
    assert_eq!(
        p.force_set_metadata(Origin::Signed(1), 7, vec![9], vec![9], 1, true),
        Err(Error::BadOrigin)
    );
    assert_eq!(
        p.force_set_metadata(Origin::Root, 7, vec![0; 9], vec![9], 1, true),
        Err(Error::BadMetadata)
    );
    assert_eq!(
        p.force_set_metadata(Origin::Root, 8, vec![9], vec![9], 1, true),
        Err(Error::Unknown)
    );
    assert_eq!(p.force_set_metadata(Origin::Root, 7, vec![9; 8], vec![9], 1, true), Ok(vec![]));
    let m = p.metadata(7).unwrap();
    assert_eq!((m.deposit, m.name.len(), m.decimals, m.is_frozen), (8, 8, 1, true));
    assert_eq!(
        p.set_metadata(Origin::Signed(1), 7, vec![1], vec![1], 2, true),
        Err(Error::NoPermission)
    );
    assert_eq!(p.force_clear_metadata(Origin::Signed(1), 7), Err(Error::BadOrigin));
    assert_eq!(p.force_clear_metadata(Origin::Root, 8), Err(Error::Unknown));
    assert_eq!(
        p.force_clear_metadata(Origin::Root, 7),
        Ok(vec![Action::Unreserve { who: 1, amount: 8 }])
    );
    assert_eq!(p.force_clear_metadata(Origin::Root, 7), Err(Error::Unknown));
}

#[test]
fn touch_and_refund_hold_and_return_the_account_deposit() {
    let mut p = Pallet::new(config());
    p.create(Origin::Signed(1), 7, 1, 10, true).unwrap();
    assert_eq!(p.touch(Origin::Root, 7, true), Err(Error::BadOrigin));
    assert_eq!(p.touch(Origin::Signed(20), 8, true), Err(Error::Unknown));
    assert_eq!(p.touch(Origin::Signed(20), 7, false), Err(Error::Currency));
    assert_eq!(
        p.touch(Origin::Signed(20), 7, true),
        Ok(vec![Action::Reserve { who: 20, amount: 10 }])
    );
    assert_eq!(p.touch(Origin::Signed(20), 7, true), Err(Error::AlreadyExists));
    let a = p.account(7, 20).unwrap();
    assert_eq!((a.balance, a.is_frozen, a.reason), (0, false, ExistenceReason::DepositHeld(10)));
    assert_eq!(p.asset(7).unwrap().accounts, 1);

    // no provider is needed for a record that exists
    assert_eq!(p.mint(Origin::Signed(1), 7, 20, 5, false), Err(Error::BelowMinimum));
    assert_eq!(p.mint(Origin::Signed(1), 7, 20, 30, false), Ok(vec![]));
    assert_eq!(p.refund(Origin::Signed(21), 7, true), Err(Error::NoDeposit));
    assert_eq!(p.refund(Origin::Signed(20), 8, true), Err(Error::NoDeposit));
    assert_eq!(p.refund(Origin::Root, 7, true), Err(Error::BadOrigin));
    assert_eq!(p.refund(Origin::Signed(20), 7, false), Err(Error::WouldBurn));
    p.freeze(Origin::Signed(1), 7, 20).unwrap();
    assert_eq!(p.refund(Origin::Signed(20), 7, true), Err(Error::Frozen));
    p.thaw(Origin::Signed(1), 7, 20).unwrap();
    assert_eq!(
        p.refund(Origin::Signed(20), 7, true),
        Ok(vec![Action::Unreserve { who: 20, amount: 10 }, Action::Died { asset: 7, who: 20 }])
    );
    assert_eq!(p.account(7, 20), None);
    assert_eq!(p.total_supply(7), 0);
    assert_eq!(p.asset(7).unwrap().accounts, 0);

    // a record that a consumer reference keeps holds no deposit
    p.mint(Origin::Signed(1), 7, 21, 30, true).unwrap();
    assert_eq!(p.refund(Origin::Signed(21), 7, true), Err(Error::NoDeposit));
}

#[test]
fn a_debit_to_zero_keeps_a_record_with_a_deposit() {
    let mut p = Pallet::new(config());
    p.create(Origin::Signed(1), 7, 1, 10, true).unwrap();
    p.touch(Origin::Signed(20), 7, true).unwrap();
    p.mint(Origin::Signed(1), 7, 20, 30, true).unwrap();
    assert_eq!(p.burn(Origin::Signed(1), 7, 20, 100), Ok((30, vec![])));
    let a = p.account(7, 20).unwrap();
    assert_eq!((a.balance, a.reason), (0, ExistenceReason::DepositHeld(10)));
    assert_eq!(p.asset(7).unwrap().accounts, 1);
    assert_eq!(p.total_supply(7), 0);
    assert_eq!(
        p.refund(Origin::Signed(20), 7, false),
        Ok(vec![Action::Unreserve { who: 20, amount: 10 }, Action::Died { asset: 7, who: 20 }])
    );
}

#[test]
fn take_deposit_marks_the_reason_refunded() {
    let mut held = ExistenceReason::DepositHeld(10);
    assert_eq!(held.take_deposit(), Some(10));
    assert_eq!(held, ExistenceReason::DepositRefunded);
    assert_eq!(held.take_deposit(), None);
    assert_eq!(held, ExistenceReason::DepositRefunded);
    let mut consumer = ExistenceReason::Consumer;
    assert_eq!(consumer.take_deposit(), None);
    assert_eq!(consumer, ExistenceReason::Consumer);
    let mut sufficient = ExistenceReason::Sufficient;
    assert_eq!(sufficient.take_deposit(), None);
    assert_eq!(sufficient, ExistenceReason::Sufficient);
}

#[test]
fn operations_by_account_need_no_origin() {
    let mut p = Pallet::new(config());
    assert_eq!(p.do_force_create(7, 1, false, 10), Ok(vec![]));
    assert_eq!(p.do_touch(7, 20, true), Ok(vec![Action::Reserve { who: 20, amount: 10 }]));
    assert_eq!(p.increase_balance(7, 20, 50, Some(2), true), Err(Error::NoPermission));
    assert_eq!(p.increase_balance(7, 20, 50, Some(1), true), Ok(vec![]));
    assert_eq!(
        p.do_approve_transfer(7, 20, 30, 40, true),
        Ok(vec![Action::Reserve { who: 20, amount: 3 }])
    );
    assert_eq!(
        p.do_transfer_approved(7, 20, 30, 21, 40, true),
        Ok((40, vec![Action::IncConsumers { who: 21 }, Action::Unreserve { who: 20, amount: 3 }]))
    );
    assert_eq!(
        p.do_set_metadata(7, 1, vec![b'a'], vec![b'b'], 1, true),
        Ok(vec![Action::Reserve { who: 1, amount: 7 }])
    );
    let exact = asset_ledger::types::DebitFlags { keep_alive: false, best_effort: false };
    assert_eq!(p.do_burn(7, 21, 40, Some(2), exact), Err(Error::NoPermission));
    assert_eq!(
        p.do_refund(7, 20, true),
        Ok(vec![Action::Unreserve { who: 20, amount: 10 }, Action::Died { asset: 7, who: 20 }])
    );
    assert_eq!(p.total_supply(7), 40);
    assert_eq!(p.balance(7, 21), 40);
}
