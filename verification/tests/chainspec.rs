use qrdx::chainspec::{
    qrdx_dev_chain_spec, qrdx_dev_genesis, qrdx_mainnet_chain_spec, qrdx_mainnet_genesis, BaseFeeParams,
    ChainSpecBuilder, QrdxChainSpec, QrdxChainSpecBuilder,
};
use qrdx::genesis::{ChainConfig, Genesis};
use qrdx::hardforks::{EthereumHardfork, ForkCondition};

const ALL_FORKS: [EthereumHardfork; 18] = [
    EthereumHardfork::Frontier,
    EthereumHardfork::Homestead,
    EthereumHardfork::Dao,
    EthereumHardfork::Tangerine,
    EthereumHardfork::SpuriousDragon,
    EthereumHardfork::Byzantium,
    EthereumHardfork::Constantinople,
    EthereumHardfork::Petersburg,
    EthereumHardfork::Istanbul,
    EthereumHardfork::MuirGlacier,
    EthereumHardfork::Berlin,
    EthereumHardfork::London,
    EthereumHardfork::ArrowGlacier,
    EthereumHardfork::GrayGlacier,
    EthereumHardfork::Paris,
    EthereumHardfork::Shanghai,
    EthereumHardfork::Cancun,
    EthereumHardfork::Prague,
];

fn empty_config(chain_id: u64) -> ChainConfig {
    ChainConfig {
        chain_id,
        homestead_block: None,
        dao_fork_block: None,
        eip150_block: None,
        eip155_block: None,
        byzantium_block: None,
        constantinople_block: None,
        petersburg_block: None,
        istanbul_block: None,
        muir_glacier_block: None,
        berlin_block: None,
        london_block: None,
        arrow_glacier_block: None,
        gray_glacier_block: None,
        merge_netsplit_block: None,
        shanghai_time: None,
        cancun_time: None,
        prague_time: None,
    }
}

fn genesis_with(config: ChainConfig) -> Genesis {
    Genesis { config, timestamp: 7, gas_limit: 1000, base_fee_per_gas: None, extra_data: vec![1, 2], alloc: Vec::new() }
}

#[test]
fn mainnet_spec_values() {
    let spec = qrdx_mainnet_chain_spec();
    assert_eq!(spec.chain(), 10000);
    assert_eq!(spec.prune_delete_limit(), 10000);
    assert_eq!(spec.final_paris_total_difficulty(), Some(0));
    assert!(!spec.is_optimism());
    assert!(spec.deposit_contract().is_none());
    assert_eq!(
        spec.base_fee_params_at_timestamp(123),
        BaseFeeParams { max_change_denominator: 8, elasticity_multiplier: 2 }
    );
    let genesis = spec.genesis();
    assert_eq!(genesis.config.chain_id, 10000);
    assert_eq!(genesis.timestamp, 1694304256);
    assert_eq!(genesis.gas_limit, 30_000_000);
    assert_eq!(genesis.base_fee_per_gas, Some(1_000_000_000));
    assert_eq!(genesis.extra_data, b"QRDX-MAINNET".to_vec());
    assert!(genesis.alloc.is_empty());
    assert_eq!(spec.forks_iter().len(), 18);
}

#[test]
fn dev_spec_values() {
    let spec = qrdx_dev_chain_spec();
    assert_eq!(spec.chain(), 9999);
    assert_eq!(spec.prune_delete_limit(), 20000);
    assert_eq!(spec.final_paris_total_difficulty(), Some(0));
    let genesis = spec.genesis();
    assert_eq!(genesis.timestamp, 1687277010);
    assert_eq!(genesis.gas_limit, 30_000_000);
    assert_eq!(genesis.base_fee_per_gas, Some(1_000_000_000));
    assert_eq!(genesis.extra_data, b"QRDX".to_vec());
    assert_eq!(genesis.alloc.len(), 20);
    let ten_thousand_eth: u128 = 10_000 * 1_000_000_000_000_000_000;
    for account in &genesis.alloc {
        let [l0, l1, l2, l3] = account.balance;
        assert_eq!((l0 as u128) | ((l1 as u128) << 64), ten_thousand_eth);
        assert_eq!((l2, l3), (0, 0));
    }
    let first: [u8; 20] = [
        0xf3, 0x9f, 0xd6, 0xe5, 0x1a, 0xad, 0x88, 0xf6, 0xf4, 0xce, 0x6a, 0xb8, 0x82, 0x72, 0x79, 0xcf, 0xff, 0xb9, 0x22,
        0x66,
    ];
    assert!(genesis.alloc.iter().any(|a| a.address == first));
    for pair in genesis.alloc.windows(2) {
        assert!(pair[0].address < pair[1].address);
    }
}

#[test]
fn builtin_forks_active_at_genesis() {
    for spec in [qrdx_mainnet_chain_spec(), qrdx_dev_chain_spec()] {
        for (i, h) in ALL_FORKS.iter().enumerate() {
            let cond = spec.fork(*h);
            assert!(cond.active_at_block(0) || cond.active_at_timestamp(0), "{h:?}");
            assert_eq!(spec.forks_iter()[i].0, *h);
        }
        assert_eq!(
            spec.fork(EthereumHardfork::Paris),
            ForkCondition::TTD { activation_block_number: 0, fork_block: Some(0), total_difficulty: 0 }
        );
        assert!(spec.is_shanghai_active_at_timestamp(0));
        assert!(spec.is_cancun_active_at_timestamp(0));
        assert!(spec.is_ethereum_fork_active_at_block(EthereumHardfork::London, 0));
        assert!(!spec.is_ethereum_fork_active_at_timestamp(EthereumHardfork::London, 5));
    }
}

#[test]
fn from_genesis_schedules_only_configured_forks() {
    let mut config = empty_config(4242);
    config.homestead_block = Some(3);
    config.eip150_block = Some(4);
    config.eip155_block = Some(5);
    config.london_block = Some(9);
    config.merge_netsplit_block = Some(11);
    config.cancun_time = Some(500);
    let spec = QrdxChainSpec::from_genesis(genesis_with(config));
    assert_eq!(spec.chain(), 4242);
    assert_eq!(
        spec.forks_iter().clone(),
        vec![
            (EthereumHardfork::Frontier, ForkCondition::Block(0)),
            (EthereumHardfork::Homestead, ForkCondition::Block(3)),
            (EthereumHardfork::Tangerine, ForkCondition::Block(4)),
            (EthereumHardfork::SpuriousDragon, ForkCondition::Block(5)),
            (EthereumHardfork::London, ForkCondition::Block(9)),
            (
                EthereumHardfork::Paris,
                ForkCondition::TTD { activation_block_number: 0, fork_block: Some(11), total_difficulty: 0 }
            ),
            (EthereumHardfork::Cancun, ForkCondition::Timestamp(500)),
        ]
    );
    assert_eq!(spec.fork(EthereumHardfork::Shanghai), ForkCondition::Never);
    assert_eq!(spec.fork(EthereumHardfork::Dao), ForkCondition::Never);
    assert_eq!(spec.ethereum_fork_activation(EthereumHardfork::London), ForkCondition::Block(9));
    assert_eq!(spec.prune_delete_limit(), 20000);
    assert_eq!(spec.final_paris_total_difficulty(), Some(0));
    assert_eq!(spec.genesis().timestamp, 7);
    assert!(!spec.is_cancun_active_at_timestamp(499));
    assert!(spec.is_cancun_active_at_timestamp(500));
}

#[test]
fn from_genesis_with_nothing_configured() {
    let spec = QrdxChainSpec::from_genesis(genesis_with(empty_config(1)));
    assert_eq!(
        spec.forks_iter().clone(),
        vec![
            (EthereumHardfork::Frontier, ForkCondition::Block(0)),
            (
                EthereumHardfork::Paris,
                ForkCondition::TTD { activation_block_number: 0, fork_block: None, total_difficulty: 0 }
            ),
        ]
    );
}

#[test]
fn from_builtin_genesis_gives_builtin_schedule() {
    let from_mainnet = QrdxChainSpec::from_genesis(qrdx_mainnet_genesis());
    let mainnet = qrdx_mainnet_chain_spec();
    assert_eq!(from_mainnet.forks_iter(), mainnet.forks_iter());
    assert_eq!(from_mainnet.chain(), mainnet.chain());
    let from_dev = QrdxChainSpec::from_genesis(qrdx_dev_genesis());
    assert_eq!(from_dev, qrdx_dev_chain_spec());
}

#[test]
fn mainnet_builder_builds_mainnet_schedule() {
    let built = QrdxChainSpecBuilder::qrdx_mainnet().build();
    let mainnet = qrdx_mainnet_chain_spec();
    assert_eq!(built.chain(), 10000);
    assert_eq!(built.genesis(), mainnet.genesis());
    assert_eq!(built.forks_iter(), mainnet.forks_iter());
    assert_eq!(built.final_paris_total_difficulty(), Some(0));
    assert_eq!(built.prune_delete_limit(), 20000);
}

#[test]
fn builder_keeps_last_chain_and_genesis() {
    let built = QrdxChainSpecBuilder::qrdx_mainnet()
        .chain(1)
        .chain(77)
        .genesis(genesis_with(empty_config(5)))
        .build();
    assert_eq!(built.chain(), 77);
    assert_eq!(built.genesis().config.chain_id, 5);
    assert_eq!(built.forks_iter().len(), 18);
}

#[test]
fn default_builder_has_no_merge() {
    let built = QrdxChainSpecBuilder::default().chain(3).genesis(genesis_with(empty_config(3))).build();
    assert_eq!(built.final_paris_total_difficulty(), None);
    assert!(built.forks_iter().is_empty());
    assert_eq!(built.fork(EthereumHardfork::Frontier), ForkCondition::Never);
    let inner = ChainSpecBuilder::new().chain(8).genesis(genesis_with(empty_config(8))).build();
    assert_eq!(QrdxChainSpec::new(inner).chain(), 8);
}
