use asset_ledger::pallet::Pallet;
use asset_ledger::types::{
    Action, AssetStatus, Authority, Config, Error, ExistenceReason, Origin, TransferFlags,
};

fn config() -> Config {
    Config {
        remove_keys_limit: 2,
        asset_deposit: 100,
        asset_account_deposit: 10,
        metadata_deposit_base: 5,
        metadata_deposit_per_byte: 1,
        approval_deposit: 3,
        string_limit: 8,
    }
}

const OWNER: u64 = 1;
const A: u64 = 10;
const B: u64 = 11;

fn minted(burn_dust_asset_sufficient: bool) -> Pallet {
    let mut p = Pallet::new(config());
    assert_eq!(p.force_create(Origin::Root, 1, OWNER, burn_dust_asset_sufficient, 10), Ok(vec![]));
    let actions = p.mint(Origin::Signed(OWNER), 1, A, 1000, true).unwrap();
    if burn_dust_asset_sufficient {
        assert_eq!(actions, vec![Action::IncSufficients { who: A }]);
    } else {
        assert_eq!(actions, vec![Action::IncConsumers { who: A }]);
    }
    p
}

#[test]
fn transfer_sweeps_dust_into_destination() {
    let mut p = minted(true);
    let (moved, actions) = p.transfer(Origin::Signed(A), 1, B, 995, true).unwrap();
    assert_eq!(moved, 1000);
    assert_eq!(
        actions,
        vec![
            Action::IncSufficients { who: B },
            Action::DecSufficients { who: A },
            Action::Died { asset: 1, who: A },
        ]
    );
    assert_eq!(p.balance(1, A), 0);
    assert_eq!(p.account(1, A), None);
    assert_eq!(p.balance(1, B), 1000);
    assert_eq!(p.total_supply(1), 1000);
    let d = p.asset(1).unwrap();
    assert_eq!(d.accounts, 1);
    assert_eq!(d.sufficients, 1);
}

#[test]
fn transfer_burns_dust_when_asked() {
    let mut p = minted(false);
    let flags = TransferFlags { keep_alive: false, best_effort: false, burn_dust: true };
    let (moved, actions) = p.do_transfer(1, A, B, 995, Authority::Holder, flags, true).unwrap();
    assert_eq!(moved, 995);
    assert_eq!(
        actions,
        vec![
            Action::IncConsumers { who: B },
            Action::DecConsumers { who: A },
            Action::Died { asset: 1, who: A },
        ]
    );
    assert_eq!(p.account(1, A), None);
    assert_eq!(p.balance(1, B), 995);
    assert_eq!(p.total_supply(1), 995);
    assert_eq!(p.asset(1).unwrap().accounts, 1);
    assert_eq!(p.account(1, B).unwrap().reason, ExistenceReason::Consumer);
}

#[test]
fn keep_alive_transfer_below_floor_is_balance_low() {
    let mut p = minted(true);
    assert_eq!(p.transfer_keep_alive(Origin::Signed(A), 1, B, 995, true), Err(Error::BalanceLow));
    assert_eq!(p.balance(1, A), 1000);
    assert_eq!(p.balance(1, B), 0);
    let (moved, _) = p.transfer_keep_alive(Origin::Signed(A), 1, B, 990, true).unwrap();
    assert_eq!(moved, 990);
    assert_eq!(p.balance(1, A), 10);
    assert_eq!(p.asset(1).unwrap().status, AssetStatus::Live);
}
