use qrdx::hardforks::{qrdx_dev_hardforks, qrdx_mainnet_hardforks, ChainHardforks, EthereumHardfork, ForkCondition};

#[test]
fn block_condition_activation() {
    let c = ForkCondition::Block(10);
    assert!(!c.active_at_block(9));
    assert!(c.active_at_block(10));
    assert!(c.active_at_block(11));
    assert!(!c.active_at_timestamp(u64::MAX));
}

#[test]
fn ttd_condition_activates_at_its_block() {
    let c = ForkCondition::TTD { activation_block_number: 5, fork_block: None, total_difficulty: 0 };
    assert!(!c.active_at_block(4));
    assert!(c.active_at_block(5));
    assert!(!c.active_at_timestamp(5));
}

#[test]
fn timestamp_and_never_conditions() {
    let c = ForkCondition::Timestamp(1000);
    assert!(!c.active_at_timestamp(999));
    assert!(c.active_at_timestamp(1000));
    assert!(!c.active_at_block(u64::MAX));
    assert!(!ForkCondition::Never.active_at_block(u64::MAX));
    assert!(!ForkCondition::Never.active_at_timestamp(u64::MAX));
}

#[test]
fn lookup_takes_last_entry_and_defaults_to_never() {
    let forks = ChainHardforks::new(vec![
        (EthereumHardfork::London, ForkCondition::Block(1)),
        (EthereumHardfork::Berlin, ForkCondition::Block(2)),
        (EthereumHardfork::London, ForkCondition::Block(3)),
    ]);
    assert_eq!(forks.get(EthereumHardfork::London), Some(ForkCondition::Block(3)));
    assert_eq!(forks.fork(EthereumHardfork::Berlin), ForkCondition::Block(2));
    assert_eq!(forks.get(EthereumHardfork::Cancun), None);
    assert_eq!(forks.fork(EthereumHardfork::Cancun), ForkCondition::Never);
    assert_eq!(ChainHardforks::empty().fork(EthereumHardfork::Frontier), ForkCondition::Never);
}

#[test]
fn qrdx_schedules_match_and_start_at_genesis() {
    let mainnet = qrdx_mainnet_hardforks();
    assert_eq!(mainnet, qrdx_dev_hardforks());
    assert_eq!(mainnet.forks_iter().len(), 18);
    assert_eq!(mainnet.fork(EthereumHardfork::MuirGlacier), ForkCondition::Block(0));
    assert_eq!(mainnet.fork(EthereumHardfork::Prague), ForkCondition::Timestamp(0));
}
