use asset_ledger::pallet::Pallet;
use asset_ledger::types::{Action, AssetStatus, Config, Error, Origin};

fn config(limit: u32) -> Config {
    Config {
        remove_keys_limit: limit,
        asset_deposit: 100,
        asset_account_deposit: 10,
        metadata_deposit_base: 5,
        metadata_deposit_per_byte: 1,
        approval_deposit: 3,
        string_limit: 8,
    }
}

/// An asset owned by 1 with five records: 20 and 21 by sufficiency, 22 by a
/// deposit, and two approvals.
fn populated(limit: u32) -> Pallet {
    let mut p = Pallet::new(config(limit));
    p.create(Origin::Signed(1), 1, 1, 10, true).unwrap();
    p.mint(Origin::Signed(1), 1, 20, 100, true).unwrap();
    p.force_asset_status(Origin::Root, 1, 1, 1, 1, 1, 10, true, false).unwrap();
    p.mint(Origin::Signed(1), 1, 21, 100, true).unwrap();
    p.touch(Origin::Signed(22), 1, true).unwrap();
    p.approve_transfer(Origin::Signed(20), 1, 30, 50, true).unwrap();
    p.approve_transfer(Origin::Signed(21), 1, 31, 50, true).unwrap();
    p.set_metadata(Origin::Signed(1), 1, vec![b'x'], vec![b'y'], 0, true).unwrap();
    p
}

#[test]
fn start_destroy_needs_a_frozen_asset() {
    let mut p = populated(2);
    assert_eq!(p.start_destroy(Origin::Signed(1), 2), Err(Error::Unknown));
    assert_eq!(p.start_destroy(Origin::Signed(2), 1), Err(Error::NoPermission));
    assert_eq!(p.start_destroy(Origin::Signed(1), 1), Err(Error::BadWitness));
    assert_eq!(p.asset(1).unwrap().status, AssetStatus::Live);
    p.freeze_asset(Origin::Signed(1), 1).unwrap();
    assert_eq!(p.start_destroy(Origin::Signed(1), 1), Ok(vec![]));
    assert_eq!(p.asset(1).unwrap().status, AssetStatus::Destroying);
    assert_eq!(p.transfer(Origin::Signed(20), 1, 21, 50, true), Err(Error::Frozen));
    assert_eq!(p.transfer_keep_alive(Origin::Signed(20), 1, 21, 50, true), Err(Error::Frozen));
    assert_eq!(p.force_transfer(Origin::Signed(1), 1, 20, 21, 50, true), Err(Error::Frozen));
    assert_eq!(p.transfer_approved(Origin::Signed(30), 1, 20, 21, 50, true), Err(Error::Frozen));
    assert_eq!(p.mint(Origin::Signed(1), 1, 20, 50, true), Err(Error::Frozen));
    assert_eq!(p.burn(Origin::Signed(1), 1, 20, 50), Err(Error::Frozen));
    assert_eq!(p.balance(1, 20), 100);
}

#[test]
fn cleanup_is_refused_before_destruction_started() {
    let mut p = populated(2);
    assert_eq!(p.destroy_accounts(Origin::Root, 2), Err(Error::Unknown));
    assert_eq!(p.destroy_accounts(Origin::Signed(2), 1), Err(Error::NoPermission));
    assert_eq!(p.destroy_accounts(Origin::Root, 1), Err(Error::BadWitness));
    assert_eq!(p.destroy_approvals(Origin::Root, 2), Err(Error::Unknown));
    assert_eq!(p.destroy_approvals(Origin::Signed(2), 1), Err(Error::NoPermission));
    assert_eq!(p.destroy_approvals(Origin::Root, 1), Err(Error::BadWitness));
    p.freeze_asset(Origin::Signed(1), 1).unwrap();
    assert_eq!(p.destroy_accounts(Origin::Root, 1), Err(Error::LiveAsset));
    assert_eq!(p.destroy_approvals(Origin::Root, 1), Err(Error::LiveAsset));
    assert_eq!(p.asset(1).unwrap().accounts, 3);
    assert_eq!(p.asset(1).unwrap().approvals, 2);
}

#[test]
fn destruction_drains_in_chunks_and_then_finishes() {
    let mut p = populated(2);
    assert_eq!(p.finish_destroy(Origin::Signed(1), 1), Err(Error::InUse));
    p.freeze_asset(Origin::Signed(1), 1).unwrap();
    assert_eq!(p.finish_destroy(Origin::Signed(1), 1), Err(Error::InUse));
    p.start_destroy(Origin::Signed(1), 1).unwrap();
    assert_eq!(p.finish_destroy(Origin::Signed(1), 1), Err(Error::InUse));
    assert_eq!(p.total_supply(1), 200);

    assert_eq!(
        p.destroy_accounts(Origin::Signed(1), 1),
        Ok((
            2,
            1,
            vec![
                Action::Unreserve { who: 22, amount: 10 },
                Action::Died { asset: 1, who: 22 },
                Action::DecSufficients { who: 21 },
                Action::Died { asset: 1, who: 21 },
            ]
        ))
    );
    let d = p.asset(1).unwrap();
    assert_eq!((d.accounts, d.sufficients), (1, 0));
    // what the removed records held has left the supply
    assert_eq!((d.supply, p.balance(1, 20), p.balance(1, 21)), (100, 100, 0));
    assert_eq!(p.finish_destroy(Origin::Signed(1), 1), Err(Error::InUse));
    assert_eq!(
        p.destroy_accounts(Origin::Root, 1),
        Ok((1, 0, vec![Action::DecConsumers { who: 20 }, Action::Died { asset: 1, who: 20 }]))
    );
    assert_eq!(p.total_supply(1), 0);
    assert_eq!(p.destroy_accounts(Origin::Root, 1), Ok((0, 0, vec![])));
    // two approvals still hang on the asset
    assert_eq!(p.finish_destroy(Origin::Signed(1), 1), Err(Error::InUse));

    assert_eq!(
        p.destroy_approvals(Origin::Signed(1), 1),
        Ok((
            2,
            0,
            vec![
                Action::Unreserve { who: 21, amount: 3 },
                Action::Unreserve { who: 20, amount: 3 },
            ]
        ))
    );
    assert_eq!(p.destroy_approvals(Origin::Signed(1), 1), Ok((0, 0, vec![])));

    assert_eq!(p.finish_destroy(Origin::Signed(2), 1), Err(Error::NoPermission));
    assert_eq!(p.finish_destroy(Origin::Signed(1), 2), Err(Error::Unknown));
    // 100 for the asset and 5 + 2 for the metadata
    assert_eq!(
        p.finish_destroy(Origin::Signed(1), 1),
        Ok(vec![Action::Unreserve { who: 1, amount: 107 }])
    );
    assert_eq!(p.asset(1), None);
    assert!(p.metadata(1).is_none());
    assert_eq!(p.finish_destroy(Origin::Signed(1), 1), Err(Error::Unknown));
    // the identifier is free again
    assert_eq!(p.create(Origin::Signed(5), 1, 5, 1, true).map(|_| ()), Ok(()));
    assert_eq!(p.balance(1, 20), 0);
}

#[test]
fn a_limit_of_zero_removes_nothing() {
    let mut p = populated(0);
    p.freeze_asset(Origin::Signed(1), 1).unwrap();
    p.start_destroy(Origin::Root, 1).unwrap();
    assert_eq!(p.destroy_accounts(Origin::Root, 1), Ok((0, 3, vec![])));
    assert_eq!(p.destroy_approvals(Origin::Root, 1), Ok((0, 2, vec![])));
    let d = p.asset(1).unwrap();
    assert_eq!((d.accounts, d.approvals, d.supply), (3, 2, 200));
    assert_eq!(p.finish_destroy(Origin::Root, 1), Err(Error::InUse));
}

#[test]
fn a_limit_of_one_removes_one_record_per_call() {
    let mut p = populated(1);
    p.freeze_asset(Origin::Signed(1), 1).unwrap();
    p.start_destroy(Origin::Root, 1).unwrap();
    let mut calls = 0;
    loop {
        let (destroyed, remaining, _) = p.destroy_accounts(Origin::Root, 1).unwrap();
        calls += 1;
        assert_eq!(destroyed, 1);
        assert_eq!(remaining, 3 - calls);
        if remaining == 0 {
            break;
        }
    }
    assert_eq!(calls, 3);
    assert_eq!(p.destroy_approvals(Origin::Root, 1).map(|r| (r.0, r.1)), Ok((1, 1)));
    assert_eq!(p.destroy_approvals(Origin::Root, 1).map(|r| (r.0, r.1)), Ok((1, 0)));
    assert_eq!(p.destroy_approvals(Origin::Root, 1).map(|r| (r.0, r.1)), Ok((0, 0)));
}

#[test]
fn finish_destroy_needs_an_opened_destruction() {
    let mut p = Pallet::new(config(2));
    p.create(Origin::Signed(1), 1, 1, 10, true).unwrap();
    assert_eq!(p.finish_destroy(Origin::Root, 1), Err(Error::BadWitness));
    p.freeze_asset(Origin::Signed(1), 1).unwrap();
    assert_eq!(p.finish_destroy(Origin::Root, 1), Err(Error::LiveAsset));
    assert_eq!(p.asset(1).unwrap().status, AssetStatus::Live);
    p.start_destroy(Origin::Signed(1), 1).unwrap();
    assert_eq!(
        p.finish_destroy(Origin::Root, 1),
        Ok(vec![Action::Unreserve { who: 1, amount: 100 }])
    );
    assert_eq!(p.asset(1), None);
}

#[test]
fn finish_destroy_is_in_use_while_records_hang_on_the_asset() {
    // an account record, asset not frozen
    let mut p = Pallet::new(config(2));
    p.create(Origin::Signed(1), 1, 1, 10, true).unwrap();
    p.mint(Origin::Signed(1), 1, 20, 100, true).unwrap();
    assert_eq!(p.finish_destroy(Origin::Signed(1), 1), Err(Error::InUse));
    // an approval only, asset not frozen
    let mut p = Pallet::new(config(2));
    p.create(Origin::Signed(1), 1, 1, 10, true).unwrap();
    p.approve_transfer(Origin::Signed(20), 1, 30, 5, true).unwrap();
    assert_eq!(p.asset(1).unwrap().accounts, 0);
    assert_eq!(p.finish_destroy(Origin::Signed(1), 1), Err(Error::InUse));
    assert_eq!(p.finish_destroy(Origin::Signed(2), 1), Err(Error::NoPermission));
    assert_eq!(p.asset(1).unwrap().approvals, 1);
}

#[test]
fn an_asset_that_is_being_destroyed_stays_frozen() {
    let mut p = populated(2);
    p.freeze_asset(Origin::Signed(1), 1).unwrap();
    p.start_destroy(Origin::Root, 1).unwrap();
    assert_eq!(p.thaw_asset(Origin::Signed(2), 1), Err(Error::NoPermission));
    assert_eq!(p.thaw_asset(Origin::Signed(1), 1), Err(Error::AssetNotLive));
    assert_eq!(
        p.force_asset_status(Origin::Root, 1, 1, 1, 1, 1, 10, true, false),
        Err(Error::AssetNotLive)
    );
    assert_eq!(p.force_asset_status(Origin::Root, 1, 1, 2, 3, 4, 10, true, true), Ok(vec![]));
    let d = p.asset(1).unwrap();
    assert!(d.is_frozen);
    assert_eq!(d.status, AssetStatus::Destroying);
    assert_eq!(p.transfer(Origin::Signed(20), 1, 21, 50, true), Err(Error::Frozen));
    assert_eq!(p.force_transfer(Origin::Signed(3), 1, 20, 21, 50, true), Err(Error::Frozen));
    assert_eq!(p.destroy_accounts(Origin::Root, 1).map(|r| (r.0, r.1)), Ok((2, 1)));
}
