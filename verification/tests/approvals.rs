use asset_ledger::pallet::Pallet;
use asset_ledger::types::{Action, Approval, Config, Error, Origin};

fn config() -> Config {
    Config {
        remove_keys_limit: 2,
        asset_deposit: 100,
        asset_account_deposit: 10,
        metadata_deposit_base: 5,
        metadata_deposit_per_byte: 1,
        approval_deposit: 3,
        string_limit: 8,
    }
}

fn ledger() -> Pallet {
    let mut p = Pallet::new(config());
    p.force_create(Origin::Root, 1, 1, true, 10).unwrap();
    p.mint(Origin::Signed(1), 1, 20, 1000, true).unwrap();
    p
}

#[test]
fn approving_twice_adds_up_and_charges_one_deposit() {
    let mut p = ledger();
    assert_eq!(
        p.approve_transfer(Origin::Signed(20), 1, 30, 100, true),
        Ok(vec![Action::Reserve { who: 20, amount: 3 }])
    );
    assert_eq!(p.approve_transfer(Origin::Signed(20), 1, 30, 50, false), Ok(vec![]));
    assert_eq!(p.approval(1, 20, 30), Some(Approval { amount: 150, deposit: 3 }));
    assert_eq!(p.asset(1).unwrap().approvals, 1);
}

#[test]
fn approving_is_refused_without_funds_asset_or_thaw() {
    let mut p = ledger();
    assert_eq!(p.approve_transfer(Origin::Root, 1, 30, 100, true), Err(Error::BadOrigin));
    assert_eq!(p.approve_transfer(Origin::Signed(20), 2, 30, 100, true), Err(Error::Unknown));
    assert_eq!(p.approve_transfer(Origin::Signed(20), 1, 30, 100, false), Err(Error::Currency));
    p.freeze_asset(Origin::Signed(1), 1).unwrap();
    assert_eq!(p.approve_transfer(Origin::Signed(20), 1, 30, 100, true), Err(Error::Frozen));
    assert_eq!(p.approval(1, 20, 30), None);
    assert_eq!(p.asset(1).unwrap().approvals, 0);
}

#[test]
fn approved_amount_saturates() {
    let mut p = ledger();
    p.approve_transfer(Origin::Signed(20), 1, 30, u128::MAX - 1, true).unwrap();
    p.approve_transfer(Origin::Signed(20), 1, 30, 5, true).unwrap();
    assert_eq!(p.approval(1, 20, 30).unwrap().amount, u128::MAX);
}

#[test]
fn delegate_spends_the_approval() {
    let mut p = ledger();
    p.approve_transfer(Origin::Signed(20), 1, 30, 100, true).unwrap();
    assert_eq!(p.transfer_approved(Origin::Root, 1, 20, 40, 60, true), Err(Error::BadOrigin));
    assert_eq!(
        p.transfer_approved(Origin::Signed(31), 1, 20, 40, 60, true),
        Err(Error::Unapproved)
    );
    assert_eq!(
        p.transfer_approved(Origin::Signed(30), 2, 20, 40, 60, true),
        Err(Error::Unapproved)
    );
    assert_eq!(
        p.transfer_approved(Origin::Signed(30), 1, 20, 40, 101, true),
        Err(Error::Unapproved)
    );
    assert_eq!(
        p.transfer_approved(Origin::Signed(30), 1, 20, 40, 5, true),
        Err(Error::BelowMinimum)
    );
    assert_eq!(p.approval(1, 20, 30), Some(Approval { amount: 100, deposit: 3 }));
    assert_eq!(
        p.transfer_approved(Origin::Signed(30), 1, 20, 40, 60, true),
        Ok((60, vec![Action::IncSufficients { who: 40 }]))
    );
    assert_eq!(p.approval(1, 20, 30), Some(Approval { amount: 40, deposit: 3 }));
    assert_eq!(
        p.transfer_approved(Origin::Signed(30), 1, 20, 40, 40, true),
        Ok((40, vec![Action::Unreserve { who: 20, amount: 3 }]))
    );
    assert_eq!(p.approval(1, 20, 30), None);
    assert_eq!(p.asset(1).unwrap().approvals, 0);
    assert_eq!((p.balance(1, 20), p.balance(1, 40)), (900, 100));
}

#[test]
fn delegate_may_empty_the_owner() {
    let mut p = ledger();
    p.approve_transfer(Origin::Signed(20), 1, 30, 2000, true).unwrap();
    assert_eq!(
        p.transfer_approved(Origin::Signed(30), 1, 20, 40, 1001, true),
        Err(Error::BalanceLow)
    );
    assert_eq!(
        p.transfer_approved(Origin::Signed(30), 1, 20, 40, 995, true),
        Ok((
            1000,
            vec![
                Action::IncSufficients { who: 40 },
                Action::DecSufficients { who: 20 },
                Action::Died { asset: 1, who: 20 },
            ]
        ))
    );
    assert_eq!(p.approval(1, 20, 30), Some(Approval { amount: 1005, deposit: 3 }));
    assert_eq!(p.account(1, 20), None);
}

#[test]
fn cancelling_frees_the_deposit() {
    let mut p = ledger();
    p.set_team(Origin::Signed(1), 1, 2, 3, 4).unwrap();
    p.approve_transfer(Origin::Signed(20), 1, 30, 100, true).unwrap();
    p.approve_transfer(Origin::Signed(20), 1, 31, 100, true).unwrap();
    p.approve_transfer(Origin::Signed(21), 1, 30, 100, true).unwrap();
    assert_eq!(p.asset(1).unwrap().approvals, 3);
    assert_eq!(p.cancel_approval(Origin::Root, 1, 30), Err(Error::BadOrigin));
    assert_eq!(p.cancel_approval(Origin::Signed(20), 2, 30), Err(Error::Unknown));
    assert_eq!(p.cancel_approval(Origin::Signed(20), 1, 32), Err(Error::Unknown));
    assert_eq!(
        p.cancel_approval(Origin::Signed(20), 1, 30),
        Ok(vec![Action::Unreserve { who: 20, amount: 3 }])
    );
    assert_eq!(p.approval(1, 20, 30), None);
    assert_eq!(p.approval(1, 20, 31), Some(Approval { amount: 100, deposit: 3 }));
    assert_eq!(p.approval(1, 21, 30), Some(Approval { amount: 100, deposit: 3 }));

    assert_eq!(p.force_cancel_approval(Origin::Signed(1), 1, 20, 31), Err(Error::NoPermission));
    assert_eq!(p.force_cancel_approval(Origin::Root, 2, 20, 31), Err(Error::Unknown));
    assert_eq!(p.force_cancel_approval(Origin::Signed(3), 1, 20, 30), Err(Error::Unknown));
    assert_eq!(
        p.force_cancel_approval(Origin::Signed(3), 1, 20, 31),
        Ok(vec![Action::Unreserve { who: 20, amount: 3 }])
    );
    assert_eq!(
        p.force_cancel_approval(Origin::Root, 1, 21, 30),
        Ok(vec![Action::Unreserve { who: 21, amount: 3 }])
    );
    assert_eq!(p.asset(1).unwrap().approvals, 0);
}
