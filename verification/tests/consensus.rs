use qrdx::chainspec::{qrdx_dev_chain_spec, qrdx_mainnet_chain_spec, QrdxChainSpec};
use qrdx::hardforks::{ChainHardforks, EthereumHardfork, ForkCondition};
use qrdx::consensus::{HeaderCheck, QrdxBeaconConsensus};
use qrdx::genesis::{ChainConfig, Genesis};
use qrdx::node::QrdxConsensusBuilder;
use std::sync::Arc;

fn spec_with_times(shanghai: Option<u64>, cancun: Option<u64>) -> QrdxChainSpec {
    let config = ChainConfig {
        chain_id: 77,
        homestead_block: None,
        dao_fork_block: None,
        eip150_block: None,
        eip155_block: None,
        byzantium_block: None,
        constantinople_block: None,
        petersburg_block: None,
        istanbul_block: None,
        muir_glacier_block: None,
        berlin_block: None,
        london_block: Some(0),
        arrow_glacier_block: None,
        gray_glacier_block: None,
        merge_netsplit_block: None,
        shanghai_time: shanghai,
        cancun_time: cancun,
        prague_time: None,
    };
    QrdxChainSpec::from_genesis(Genesis {
        config,
        timestamp: 0,
        gas_limit: 30_000_000,
        base_fee_per_gas: None,
        extra_data: Vec::new(),
        alloc: Vec::new(),
    })
}

const BASE: [HeaderCheck; 5] = [
    HeaderCheck::ParentHashNumber,
    HeaderCheck::HeaderBaseFee,
    HeaderCheck::HeaderExtraData,
    HeaderCheck::ParentTimestamp,
    HeaderCheck::ParentGasLimit,
];

#[test]
fn builtin_chains_check_all_post_merge_rules() {
    for spec in [qrdx_mainnet_chain_spec(), qrdx_dev_chain_spec()] {
        let consensus = QrdxBeaconConsensus::new(Arc::new(spec));
        for (number, ts) in [(0, 0), (1, 1), (12, 1694304256), (u64::MAX, u64::MAX)] {
            let mut expected = BASE.to_vec();
            expected.extend([
                HeaderCheck::UnsetDifficulty,
                HeaderCheck::ParentWithdrawalsRoot,
                HeaderCheck::ParentEip4844,
                HeaderCheck::ParentBlobGasUsed,
                HeaderCheck::ParentExcessBlobGas,
            ]);
            assert_eq!(consensus.checks_against_parent(number, ts), expected);
            assert_eq!(
                consensus.checks_with_total_difficulty(number),
                vec![HeaderCheck::HeaderExtraData, HeaderCheck::UnsetDifficulty]
            );
        }
    }
}

#[test]
fn checks_follow_fork_times() {
    let consensus = QrdxConsensusBuilder::default().build_consensus(Arc::new(spec_with_times(Some(100), Some(200))));
    let mut base = BASE.to_vec();
    base.push(HeaderCheck::UnsetDifficulty);
    assert_eq!(consensus.checks_against_parent(3, 99), base);
    let mut shanghai = base.clone();
    shanghai.push(HeaderCheck::ParentWithdrawalsRoot);
    assert_eq!(consensus.checks_against_parent(3, 100), shanghai);
    assert_eq!(consensus.checks_against_parent(3, 199), shanghai);
    let mut cancun = shanghai.clone();
    cancun.extend([HeaderCheck::ParentEip4844, HeaderCheck::ParentBlobGasUsed, HeaderCheck::ParentExcessBlobGas]);
    assert_eq!(consensus.checks_against_parent(3, 200), cancun);
}

#[test]
fn difficulty_checked_from_merge_block() {
    let mut spec = spec_with_times(None, None);
    spec.inner.hardforks = ChainHardforks::new(vec![
        (EthereumHardfork::Frontier, ForkCondition::Block(0)),
        (
            EthereumHardfork::Paris,
            ForkCondition::TTD { activation_block_number: 10, fork_block: None, total_difficulty: 0 },
        ),
    ]);
    let consensus = QrdxBeaconConsensus::new(Arc::new(spec));
    assert_eq!(consensus.checks_against_parent(9, 1_000_000), BASE.to_vec());
    let mut merged = BASE.to_vec();
    merged.push(HeaderCheck::UnsetDifficulty);
    assert_eq!(consensus.checks_against_parent(10, 0), merged);
    assert_eq!(consensus.checks_with_total_difficulty(9), vec![HeaderCheck::HeaderExtraData]);
    assert_eq!(
        consensus.checks_with_total_difficulty(10),
        vec![HeaderCheck::HeaderExtraData, HeaderCheck::UnsetDifficulty]
    );
}

#[test]
fn no_merge_and_no_time_forks_means_base_checks_only() {
    let mut spec = spec_with_times(None, None);
    spec.inner.hardforks = ChainHardforks::empty();
    let consensus = QrdxBeaconConsensus::new(Arc::new(spec));
    assert_eq!(consensus.checks_against_parent(5, 1_000_000), BASE.to_vec());
}
