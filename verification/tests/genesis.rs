use asset_ledger::genesis::GenesisConfig;
use asset_ledger::mock::StakingMock;
use asset_ledger::types::{Action, Config, Error};

fn config() -> Config {
    Config {
        remove_keys_limit: 2,
        asset_deposit: 100,
        asset_account_deposit: 10,
        metadata_deposit_base: 5,
        metadata_deposit_per_byte: 1,
        approval_deposit: 3,
        string_limit: 8,
    }
}

#[test]
fn genesis_builds_assets_metadata_and_holdings() {
    let g = GenesisConfig {
        assets: vec![(1, 10, true, 5), (2, 11, false, 1)],
        metadata: vec![(1, vec![b'o', b'n', b'e'], vec![b'1'], 6)],
        accounts: vec![(1, 20, 50), (2, 20, 7), (1, 21, 5), (1, 20, 1)],
    };
    let (p, actions) = g.build(config()).unwrap();
    assert_eq!(
        actions,
        vec![
            Action::IncSufficients { who: 20 },
            Action::IncConsumers { who: 20 },
            Action::IncSufficients { who: 21 },
        ]
    );
    assert_eq!(p.balance(1, 20), 51);
    assert_eq!(p.balance(1, 21), 5);
    assert_eq!(p.balance(2, 20), 7);
    assert_eq!(p.total_supply(1), 56);
    assert_eq!(p.total_supply(2), 7);
    let d = p.asset(1).unwrap();
    assert_eq!((d.owner, d.issuer, d.admin, d.freezer), (10, 10, 10, 10));
    assert_eq!((d.accounts, d.sufficients, d.deposit), (2, 2, 0));
    let m = p.metadata(1).unwrap();
    assert_eq!(
        (m.deposit, m.name, m.symbol, m.decimals, m.is_frozen),
        (0, vec![b'o', b'n', b'e'], vec![b'1'], 6, false)
    );
    assert!(p.metadata(2).is_none());
}

#[test]
fn genesis_refuses_what_cannot_be_applied() {
    let base = || GenesisConfig::default();
    let mut g = base();
    g.assets = vec![(1, 10, true, 5), (1, 11, true, 5)];
    assert_eq!(g.build(config()).map(|_| ()), Err(Error::InUse));
    let mut g = base();
    g.assets = vec![(1, 10, true, 0)];
    assert_eq!(g.build(config()).map(|_| ()), Err(Error::MinBalanceZero));
    let mut g = base();
    g.metadata = vec![(1, vec![], vec![], 0)];
    assert_eq!(g.build(config()).map(|_| ()), Err(Error::Unknown));
    let mut g = base();
    g.assets = vec![(1, 10, true, 5)];
    g.metadata = vec![(1, vec![0; 9], vec![], 0)];
    assert_eq!(g.build(config()).map(|_| ()), Err(Error::BadMetadata));
    let mut g = base();
    g.assets = vec![(1, 10, true, 5)];
    g.accounts = vec![(1, 20, 4)];
    assert_eq!(g.build(config()).map(|_| ()), Err(Error::BelowMinimum));
    let mut g = base();
    g.accounts = vec![(1, 20, 4)];
    assert_eq!(g.build(config()).map(|_| ()), Err(Error::Unknown));
    let (p, actions) = base().build(config()).unwrap();
    assert!(actions.is_empty());
    assert_eq!(p.asset(1), None);
    assert_eq!(p.config(), config());
}

#[test]
fn staking_stand_in_scores_zero() {
    assert_eq!(StakingMock::score(&5), 0);
}
