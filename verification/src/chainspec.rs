//! QRDX chain specifications: building one from a genesis, the built-in mainnet
//! and dev specifications, the specification builder, and what a specification
//! answers about the chain.

use vstd::prelude::*;
use crate::genesis::{ChainConfig, Genesis, GenesisView};
use crate::dev_alloc::{qrdx_dev_alloc, qrdx_dev_alloc_view};
use crate::hardforks::{
    EthereumHardfork, ForkCondition, ChainHardforks, lookup_fork, condition_of, present_forks,
    candidate_condition, candidates_in_history_order, in_history_order, collect_present,
    lemma_lookup_present, lemma_present_in_history_order, qrdx_schedule, qrdx_mainnet_hardforks,
    qrdx_dev_hardforks,
};

verus! {

/// Chain id of QRDX mainnet.
pub const QRDX_MAINNET_CHAIN_ID: u64 = 10000;

/// Chain id of the QRDX dev network.
pub const QRDX_DEV_CHAIN_ID: u64 = 9999;

/// How many rows the pruner deletes per run unless a chain says otherwise.
pub const DEFAULT_PRUNE_DELETE_LIMIT: usize = 20000;

/// How many rows the pruner deletes per run on QRDX mainnet.
pub const QRDX_MAINNET_PRUNE_DELETE_LIMIT: usize = 10000;

/// Gas limit of the QRDX genesis blocks.
pub const QRDX_GENESIS_GAS_LIMIT: u64 = 30000000;

/// Base fee of the QRDX genesis blocks: 1 gwei.
pub const QRDX_GENESIS_BASE_FEE: u128 = 1000000000;

/// The EIP-1559 base fee parameters.
#[derive(Clone, Copy, Debug, PartialEq, Eq)]
pub struct BaseFeeParams {
    pub max_change_denominator: u128,
    pub elasticity_multiplier: u128,
}

/// Ethereum's base fee parameters: the base fee changes by at most 1/8 per block,
/// and the gas limit is twice the gas target.
pub open spec fn ethereum_base_fee_params() -> BaseFeeParams {
    BaseFeeParams { max_change_denominator: 8, elasticity_multiplier: 2 }
}

impl BaseFeeParams {
    /// Ethereum's base fee parameters.
    pub fn ethereum() -> (r: BaseFeeParams)
        ensures
            r == ethereum_base_fee_params(),
    {
        BaseFeeParams { max_change_denominator: 8, elasticity_multiplier: 2 }
    }
}

/// A deposit contract: its address, deployment block and event topic.
#[derive(Clone, Copy, Debug, PartialEq, Eq)]
pub struct DepositContract {
    pub address: [u8; 20],
    pub block: u64,
    pub topic: [u8; 32],
}

/// A chain specification: the chain id, the genesis, the hardfork schedule, the
/// merge block with the final total difficulty, the base fee parameters, the
/// prune delete limit and the deposit contract.
#[derive(Clone, Debug, PartialEq, Eq)]
pub struct ChainSpec {
    pub chain: u64,
    pub genesis: Genesis,
    pub hardforks: ChainHardforks,
    pub paris_block_and_final_difficulty: Option<(u64, u128)>,
    pub base_fee_params: BaseFeeParams,
    pub prune_delete_limit: usize,
    pub deposit_contract: Option<DepositContract>,
}

/// The mathematical value of a chain specification.
pub struct ChainSpecView {
    pub chain: u64,
    pub genesis: GenesisView,
    pub hardforks: Seq<(EthereumHardfork, ForkCondition)>,
    pub paris_block_and_final_difficulty: Option<(u64, u128)>,
    pub base_fee_params: BaseFeeParams,
    pub prune_delete_limit: usize,
    pub deposit_contract: Option<DepositContract>,
}

impl View for ChainSpec {
    type V = ChainSpecView;

    open spec fn view(&self) -> ChainSpecView {
        ChainSpecView {
            chain: self.chain,
            genesis: self.genesis@,
            hardforks: self.hardforks@,
            paris_block_and_final_difficulty: self.paris_block_and_final_difficulty,
            base_fee_params: self.base_fee_params,
            prune_delete_limit: self.prune_delete_limit,
            deposit_contract: self.deposit_contract,
        }
    }
}

/// QRDX chain spec type.
#[derive(Clone, Debug, PartialEq, Eq)]
pub struct QrdxChainSpec {
    pub inner: ChainSpec,
}

impl View for QrdxChainSpec {
    type V = ChainSpecView;

    open spec fn view(&self) -> ChainSpecView {
        self.inner@
    }
}

/// A block condition at the given block, if there is one.
pub open spec fn block_at(block: Option<u64>) -> Option<ForkCondition> {
    match block {
        Some(b) => Some(ForkCondition::Block(b)),
        None => None,
    }
}

/// A timestamp condition at the given time, if there is one.
pub open spec fn time_at(time: Option<u64>) -> Option<ForkCondition> {
    match time {
        Some(t) => Some(ForkCondition::Timestamp(t)),
        None => None,
    }
}

/// The merge condition of a QRDX chain: reached at block 0 with a terminal total
/// difficulty of 0, advertised at the genesis' merge netsplit block.
pub open spec fn merge_condition(config: ChainConfig) -> ForkCondition {
    ForkCondition::TTD {
        activation_block_number: 0,
        fork_block: config.merge_netsplit_block,
        total_difficulty: 0,
    }
}

#[verifier::when_used_as_spec(block_at)]
fn block_condition(block: Option<u64>) -> (r: Option<ForkCondition>)
    ensures
        r == block_at(block),
{
    match block {
        Some(b) => Some(ForkCondition::Block(b)),
        None => None,
    }
}

#[verifier::when_used_as_spec(time_at)]
fn time_condition(time: Option<u64>) -> (r: Option<ForkCondition>)
    ensures
        r == time_at(time),
{
    match time {
        Some(t) => Some(ForkCondition::Timestamp(t)),
        None => None,
    }
}

/// The hardforks that a genesis configuration may schedule, in history order:
/// Frontier at block 0; Homestead to Gray Glacier at their configured blocks
/// (Tangerine at the EIP-150 block, Spurious Dragon at the EIP-155 block); the
/// merge; and Shanghai, Cancun and Prague at their configured times.
pub open spec fn genesis_fork_candidates(c: ChainConfig) -> Seq<(EthereumHardfork, Option<ForkCondition>)> {
    seq![
        (EthereumHardfork::Frontier, Some(ForkCondition::Block(0))),
        (EthereumHardfork::Homestead, block_at(c.homestead_block)),
        (EthereumHardfork::Dao, block_at(c.dao_fork_block)),
        (EthereumHardfork::Tangerine, block_at(c.eip150_block)),
        (EthereumHardfork::SpuriousDragon, block_at(c.eip155_block)),
        (EthereumHardfork::Byzantium, block_at(c.byzantium_block)),
        (EthereumHardfork::Constantinople, block_at(c.constantinople_block)),
        (EthereumHardfork::Petersburg, block_at(c.petersburg_block)),
        (EthereumHardfork::Istanbul, block_at(c.istanbul_block)),
        (EthereumHardfork::MuirGlacier, block_at(c.muir_glacier_block)),
        (EthereumHardfork::Berlin, block_at(c.berlin_block)),
        (EthereumHardfork::London, block_at(c.london_block)),
        (EthereumHardfork::ArrowGlacier, block_at(c.arrow_glacier_block)),
        (EthereumHardfork::GrayGlacier, block_at(c.gray_glacier_block)),
        (EthereumHardfork::Paris, Some(merge_condition(c))),
        (EthereumHardfork::Shanghai, time_at(c.shanghai_time)),
        (EthereumHardfork::Cancun, time_at(c.cancun_time)),
        (EthereumHardfork::Prague, time_at(c.prague_time)),
    ]
}

/// The hardfork schedule of a genesis configuration: the candidates that it sets.
pub open spec fn genesis_hardforks(c: ChainConfig) -> Seq<(EthereumHardfork, ForkCondition)> {
    present_forks(genesis_fork_candidates(c))
}

/// The chain specification of a genesis: its chain id, the genesis itself, its
/// hardfork schedule, the merge at block 0 with final difficulty 0, Ethereum's
/// base fee parameters, the default prune delete limit and no deposit contract.
pub open spec fn chain_spec_from_genesis(g: GenesisView) -> ChainSpecView {
    ChainSpecView {
        chain: g.config.chain_id,
        genesis: g,
        hardforks: genesis_hardforks(g.config),
        paris_block_and_final_difficulty: Some((0, 0)),
        base_fee_params: ethereum_base_fee_params(),
        prune_delete_limit: DEFAULT_PRUNE_DELETE_LIMIT,
        deposit_contract: None,
    }
}

/// What a genesis configuration schedules for a hardfork: Frontier at block 0,
/// the merge always, the other hardforks at their configured block or time.
pub open spec fn configured_condition(c: ChainConfig, h: EthereumHardfork) -> Option<ForkCondition> {
    match h {
        EthereumHardfork::Frontier => Some(ForkCondition::Block(0)),
        EthereumHardfork::Homestead => block_at(c.homestead_block),
        EthereumHardfork::Dao => block_at(c.dao_fork_block),
        EthereumHardfork::Tangerine => block_at(c.eip150_block),
        EthereumHardfork::SpuriousDragon => block_at(c.eip155_block),
        EthereumHardfork::Byzantium => block_at(c.byzantium_block),
        EthereumHardfork::Constantinople => block_at(c.constantinople_block),
        EthereumHardfork::Petersburg => block_at(c.petersburg_block),
        EthereumHardfork::Istanbul => block_at(c.istanbul_block),
        EthereumHardfork::MuirGlacier => block_at(c.muir_glacier_block),
        EthereumHardfork::Berlin => block_at(c.berlin_block),
        EthereumHardfork::London => block_at(c.london_block),
        EthereumHardfork::ArrowGlacier => block_at(c.arrow_glacier_block),
        EthereumHardfork::GrayGlacier => block_at(c.gray_glacier_block),
        EthereumHardfork::Paris => Some(merge_condition(c)),
        EthereumHardfork::Shanghai => time_at(c.shanghai_time),
        EthereumHardfork::Cancun => time_at(c.cancun_time),
        EthereumHardfork::Prague => time_at(c.prague_time),
    }
}

/// A chain specification built from a genesis schedules each hardfork exactly
/// as the genesis configuration says, and no other: Frontier at block 0 and the
/// merge are always there, a hardfork whose block or time is not set is not
/// scheduled (its condition is `Never`); and the hardforks come in the order of
/// Ethereum's history, each once.
pub proof fn from_genesis_follows_config(g: GenesisView, h: EthereumHardfork)
    ensures
        lookup_fork(chain_spec_from_genesis(g).hardforks, h) == configured_condition(g.config, h),
        condition_of(chain_spec_from_genesis(g).hardforks, h) == match configured_condition(g.config, h) {
            Some(c) => c,
            None => ForkCondition::Never,
        },
        in_history_order(chain_spec_from_genesis(g).hardforks),
{
    let candidates = genesis_fork_candidates(g.config);
    lemma_lookup_present(candidates, h);
    lemma_candidate_condition(g.config, h);
    assert(candidates_in_history_order(candidates));
    lemma_present_in_history_order(candidates);
}

#[verifier::spinoff_prover]
#[verifier::rlimit(50)]
proof fn lemma_candidate_condition(c: ChainConfig, h: EthereumHardfork)
    ensures
        candidate_condition(genesis_fork_candidates(c), h) == configured_condition(c, h),
{
    reveal_with_fuel(candidate_condition, 19);
    match h {
        EthereumHardfork::Frontier => {},
        EthereumHardfork::Homestead => {},
        EthereumHardfork::Dao => {},
        EthereumHardfork::Tangerine => {},
        EthereumHardfork::SpuriousDragon => {},
        EthereumHardfork::Byzantium => {},
        EthereumHardfork::Constantinople => {},
        EthereumHardfork::Petersburg => {},
        EthereumHardfork::Istanbul => {},
        EthereumHardfork::MuirGlacier => {},
        EthereumHardfork::Berlin => {},
        EthereumHardfork::London => {},
        EthereumHardfork::ArrowGlacier => {},
        EthereumHardfork::GrayGlacier => {},
        EthereumHardfork::Paris => {},
        EthereumHardfork::Shanghai => {},
        EthereumHardfork::Cancun => {},
        EthereumHardfork::Prague => {},
    }
}

impl QrdxChainSpec {
    /// Wraps a chain specification.
    pub fn new(inner: ChainSpec) -> (r: Self)
        ensures
            r@ == inner@,
    {
        QrdxChainSpec { inner }
    }

    /// Converts the given [`Genesis`] into a [`QrdxChainSpec`].
    pub fn from_genesis(genesis: Genesis) -> (r: Self)
        ensures
            r@ == chain_spec_from_genesis(genesis@),
    {
        let c = genesis.config;
        let candidates = vec![
            (EthereumHardfork::Frontier, Some(ForkCondition::Block(0))),
            (EthereumHardfork::Homestead, block_condition(c.homestead_block)),
            (EthereumHardfork::Dao, block_condition(c.dao_fork_block)),
            (EthereumHardfork::Tangerine, block_condition(c.eip150_block)),
            (EthereumHardfork::SpuriousDragon, block_condition(c.eip155_block)),
            (EthereumHardfork::Byzantium, block_condition(c.byzantium_block)),
            (EthereumHardfork::Constantinople, block_condition(c.constantinople_block)),
            (EthereumHardfork::Petersburg, block_condition(c.petersburg_block)),
            (EthereumHardfork::Istanbul, block_condition(c.istanbul_block)),
            (EthereumHardfork::MuirGlacier, block_condition(c.muir_glacier_block)),
            (EthereumHardfork::Berlin, block_condition(c.berlin_block)),
            (EthereumHardfork::London, block_condition(c.london_block)),
            (EthereumHardfork::ArrowGlacier, block_condition(c.arrow_glacier_block)),
            (EthereumHardfork::GrayGlacier, block_condition(c.gray_glacier_block)),
            (
                EthereumHardfork::Paris,
                Some(ForkCondition::TTD {
                    activation_block_number: 0,
                    fork_block: c.merge_netsplit_block,
                    total_difficulty: 0,
                }),
            ),
            (EthereumHardfork::Shanghai, time_condition(c.shanghai_time)),
            (EthereumHardfork::Cancun, time_condition(c.cancun_time)),
            (EthereumHardfork::Prague, time_condition(c.prague_time)),
        ];
        assert(candidates@ =~= genesis_fork_candidates(c));
        let forks = collect_present(&candidates);
        QrdxChainSpec {
            inner: ChainSpec {
                chain: c.chain_id,
                genesis,
                hardforks: ChainHardforks::new(forks),
                paris_block_and_final_difficulty: Some((0, 0)),
                base_fee_params: BaseFeeParams::ethereum(),
                prune_delete_limit: DEFAULT_PRUNE_DELETE_LIMIT,
                deposit_contract: None,
            },
        }
    }
}


impl QrdxChainSpec {
    /// The chain id.
    pub fn chain(&self) -> (r: u64)
        ensures
            r == self@.chain,
    {
        self.inner.chain
    }

    /// The base fee parameters in force at a timestamp: the chain's constant ones.
    pub fn base_fee_params_at_timestamp(&self, timestamp: u64) -> (r: BaseFeeParams)
        ensures
            r == self@.base_fee_params,
    {
        self.inner.base_fee_params
    }

    /// The deposit contract, if the chain has one.
    pub fn deposit_contract(&self) -> (r: Option<&DepositContract>)
        ensures
            match r {
                Some(d) => self@.deposit_contract == Some(*d),
                None => self@.deposit_contract is None,
            },
    {
        match &self.inner.deposit_contract {
            Some(d) => Some(d),
            None => None,
        }
    }

    /// How many rows the pruner deletes per run.
    pub fn prune_delete_limit(&self) -> (r: usize)
        ensures
            r == self@.prune_delete_limit,
    {
        self.inner.prune_delete_limit
    }

    /// The genesis.
    pub fn genesis(&self) -> (r: &Genesis)
        ensures
            r@ == self@.genesis,
    {
        &self.inner.genesis
    }

    /// QRDX is not an Optimism chain.
    pub fn is_optimism(&self) -> (r: bool)
        ensures
            !r,
    {
        false
    }

    /// The total difficulty at which the merge completed, if the chain merged.
    pub fn final_paris_total_difficulty(&self) -> (r: Option<u128>)
        ensures
            r == match self@.paris_block_and_final_difficulty {
                Some((_, d)) => Some(d),
                None => None,
            },
    {
        match self.inner.paris_block_and_final_difficulty {
            Some((_, d)) => Some(d),
            None => None,
        }
    }

    /// The condition of a hardfork, `Never` when the chain does not schedule it.
    pub fn fork(&self, fork: EthereumHardfork) -> (r: ForkCondition)
        ensures
            r == condition_of(self@.hardforks, fork),
    {
        self.inner.hardforks.fork(fork)
    }

    /// The scheduled (hardfork, condition) pairs, in order.
    pub fn forks_iter(&self) -> (r: &Vec<(EthereumHardfork, ForkCondition)>)
        ensures
            r@ == self@.hardforks,
    {
        self.inner.hardforks.forks_iter()
    }

    /// The activation condition of an Ethereum hardfork.
    pub fn ethereum_fork_activation(&self, fork: EthereumHardfork) -> (r: ForkCondition)
        ensures
            r == condition_of(self@.hardforks, fork),
    {
        self.fork(fork)
    }

    /// Whether a hardfork is active at a timestamp.
    pub fn is_ethereum_fork_active_at_timestamp(&self, fork: EthereumHardfork, timestamp: u64) -> (r: bool)
        ensures
            r == condition_of(self@.hardforks, fork).spec_active_at_timestamp(timestamp),
    {
        self.ethereum_fork_activation(fork).active_at_timestamp(timestamp)
    }

    /// Whether a hardfork is active at a block.
    pub fn is_ethereum_fork_active_at_block(&self, fork: EthereumHardfork, block: u64) -> (r: bool)
        ensures
            r == condition_of(self@.hardforks, fork).spec_active_at_block(block),
    {
        self.ethereum_fork_activation(fork).active_at_block(block)
    }

    /// Whether Shanghai is active at a timestamp.
    pub fn is_shanghai_active_at_timestamp(&self, timestamp: u64) -> (r: bool)
        ensures
            r == condition_of(self@.hardforks, EthereumHardfork::Shanghai).spec_active_at_timestamp(timestamp),
    {
        self.is_ethereum_fork_active_at_timestamp(EthereumHardfork::Shanghai, timestamp)
    }

    /// Whether Cancun is active at a timestamp.
    pub fn is_cancun_active_at_timestamp(&self, timestamp: u64) -> (r: bool)
        ensures
            r == condition_of(self@.hardforks, EthereumHardfork::Cancun).spec_active_at_timestamp(timestamp),
    {
        self.is_ethereum_fork_active_at_timestamp(EthereumHardfork::Cancun, timestamp)
    }
}

/// The chain configuration of the QRDX genesis files: the given chain id, every
/// hardfork up to Gray Glacier and the merge netsplit at block 0, and Shanghai,
/// Cancun and Prague at timestamp 0.
pub open spec fn qrdx_genesis_config(chain_id: u64) -> ChainConfig {
    ChainConfig {
        chain_id,
        homestead_block: Some(0),
        dao_fork_block: Some(0),
        eip150_block: Some(0),
        eip155_block: Some(0),
        byzantium_block: Some(0),
        constantinople_block: Some(0),
        petersburg_block: Some(0),
        istanbul_block: Some(0),
        muir_glacier_block: Some(0),
        berlin_block: Some(0),
        london_block: Some(0),
        arrow_glacier_block: Some(0),
        gray_glacier_block: Some(0),
        merge_netsplit_block: Some(0),
        shanghai_time: Some(0),
        cancun_time: Some(0),
        prague_time: Some(0),
    }
}

fn qrdx_genesis_config_exec(chain_id: u64) -> (r: ChainConfig)
    ensures
        r == qrdx_genesis_config(chain_id),
{
    ChainConfig {
        chain_id,
        homestead_block: Some(0),
        dao_fork_block: Some(0),
        eip150_block: Some(0),
        eip155_block: Some(0),
        byzantium_block: Some(0),
        constantinople_block: Some(0),
        petersburg_block: Some(0),
        istanbul_block: Some(0),
        muir_glacier_block: Some(0),
        berlin_block: Some(0),
        london_block: Some(0),
        arrow_glacier_block: Some(0),
        gray_glacier_block: Some(0),
        merge_netsplit_block: Some(0),
        shanghai_time: Some(0),
        cancun_time: Some(0),
        prague_time: Some(0),
    }
}

/// The QRDX mainnet genesis: chain id 10000, timestamp 1694304256, a gas limit of
/// 30,000,000, a base fee of 1 gwei, the extra data "QRDX-MAINNET" and no
/// funded account.
pub open spec fn qrdx_mainnet_genesis_view() -> GenesisView {
    GenesisView {
        config: qrdx_genesis_config(QRDX_MAINNET_CHAIN_ID),
        timestamp: 1694304256,
        gas_limit: QRDX_GENESIS_GAS_LIMIT,
        base_fee_per_gas: Some(QRDX_GENESIS_BASE_FEE),
        extra_data: seq![0x51u8, 0x52, 0x44, 0x58, 0x2d, 0x4d, 0x41, 0x49, 0x4e, 0x4e, 0x45, 0x54],
        alloc: Seq::empty(),
    }
}

/// The QRDX dev genesis: chain id 9999, timestamp 1687277010, a gas limit of
/// 30,000,000, a base fee of 1 gwei, the extra data "QRDX" and the 20 funded
/// dev accounts.
pub open spec fn qrdx_dev_genesis_view() -> GenesisView {
    GenesisView {
        config: qrdx_genesis_config(QRDX_DEV_CHAIN_ID),
        timestamp: 1687277010,
        gas_limit: QRDX_GENESIS_GAS_LIMIT,
        base_fee_per_gas: Some(QRDX_GENESIS_BASE_FEE),
        extra_data: seq![0x51u8, 0x52, 0x44, 0x58],
        alloc: qrdx_dev_alloc_view(),
    }
}

/// The QRDX mainnet genesis.
pub fn qrdx_mainnet_genesis() -> (r: Genesis)
    ensures
        r@ == qrdx_mainnet_genesis_view(),
{
    let extra_data: Vec<u8> = vec![0x51u8, 0x52, 0x44, 0x58, 0x2d, 0x4d, 0x41, 0x49, 0x4e, 0x4e, 0x45, 0x54];
    let r = Genesis {
        config: qrdx_genesis_config_exec(QRDX_MAINNET_CHAIN_ID),
        timestamp: 1694304256,
        gas_limit: QRDX_GENESIS_GAS_LIMIT,
        base_fee_per_gas: Some(QRDX_GENESIS_BASE_FEE),
        extra_data,
        alloc: Vec::new(),
    };
    assert(r@.extra_data =~= qrdx_mainnet_genesis_view().extra_data);
    assert(r@.alloc =~= qrdx_mainnet_genesis_view().alloc);
    r
}

/// The QRDX dev genesis.
pub fn qrdx_dev_genesis() -> (r: Genesis)
    ensures
        r@ == qrdx_dev_genesis_view(),
{
    let extra_data: Vec<u8> = vec![0x51u8, 0x52, 0x44, 0x58];
    let r = Genesis {
        config: qrdx_genesis_config_exec(QRDX_DEV_CHAIN_ID),
        timestamp: 1687277010,
        gas_limit: QRDX_GENESIS_GAS_LIMIT,
        base_fee_per_gas: Some(QRDX_GENESIS_BASE_FEE),
        extra_data,
        alloc: qrdx_dev_alloc(),
    };
    assert(r@.extra_data =~= qrdx_dev_genesis_view().extra_data);
    r
}

/// The QRDX mainnet specification: chain id 10000, the mainnet genesis, the QRDX
/// hardfork schedule, the merge at block 0 with final difficulty 0, Ethereum's
/// base fee parameters, a prune delete limit of 10000 and no deposit contract.
pub open spec fn qrdx_mainnet_spec() -> ChainSpecView {
    ChainSpecView {
        chain: QRDX_MAINNET_CHAIN_ID,
        genesis: qrdx_mainnet_genesis_view(),
        hardforks: qrdx_schedule(),
        paris_block_and_final_difficulty: Some((0, 0)),
        base_fee_params: ethereum_base_fee_params(),
        prune_delete_limit: QRDX_MAINNET_PRUNE_DELETE_LIMIT,
        deposit_contract: None,
    }
}

/// The QRDX dev specification: chain id 9999, the dev genesis, the QRDX hardfork
/// schedule, the merge at block 0 with final difficulty 0, Ethereum's base fee
/// parameters, the default prune delete limit and no deposit contract.
pub open spec fn qrdx_dev_spec() -> ChainSpecView {
    ChainSpecView {
        chain: QRDX_DEV_CHAIN_ID,
        genesis: qrdx_dev_genesis_view(),
        hardforks: qrdx_schedule(),
        paris_block_and_final_difficulty: Some((0, 0)),
        base_fee_params: ethereum_base_fee_params(),
        prune_delete_limit: DEFAULT_PRUNE_DELETE_LIMIT,
        deposit_contract: None,
    }
}

/// The QRDX mainnet specification.
pub fn qrdx_mainnet_chain_spec() -> (r: QrdxChainSpec)
    ensures
        r@ == qrdx_mainnet_spec(),
{
    QrdxChainSpec {
        inner: ChainSpec {
            chain: QRDX_MAINNET_CHAIN_ID,
            genesis: qrdx_mainnet_genesis(),
            hardforks: qrdx_mainnet_hardforks(),
            paris_block_and_final_difficulty: Some((0, 0)),
            base_fee_params: BaseFeeParams::ethereum(),
            prune_delete_limit: QRDX_MAINNET_PRUNE_DELETE_LIMIT,
            deposit_contract: None,
        },
    }
}

/// The QRDX dev specification.
pub fn qrdx_dev_chain_spec() -> (r: QrdxChainSpec)
    ensures
        r@ == qrdx_dev_spec(),
{
    QrdxChainSpec {
        inner: ChainSpec {
            chain: QRDX_DEV_CHAIN_ID,
            genesis: qrdx_dev_genesis(),
            hardforks: qrdx_dev_hardforks(),
            paris_block_and_final_difficulty: Some((0, 0)),
            base_fee_params: BaseFeeParams::ethereum(),
            prune_delete_limit: DEFAULT_PRUNE_DELETE_LIMIT,
            deposit_contract: None,
        },
    }
}

/// Every QRDX chain specification, built-in or built from a genesis, records the
/// merge at block 0 with a final total difficulty of 0, uses Ethereum's base fee
/// parameters and has no deposit contract.
pub proof fn qrdx_specs_merged_at_genesis(g: GenesisView)
    ensures
        chain_spec_from_genesis(g).paris_block_and_final_difficulty == Some((0u64, 0u128)),
        qrdx_mainnet_spec().paris_block_and_final_difficulty == Some((0u64, 0u128)),
        qrdx_dev_spec().paris_block_and_final_difficulty == Some((0u64, 0u128)),
        chain_spec_from_genesis(g).base_fee_params == ethereum_base_fee_params(),
        qrdx_mainnet_spec().base_fee_params == ethereum_base_fee_params(),
        qrdx_dev_spec().base_fee_params == ethereum_base_fee_params(),
        chain_spec_from_genesis(g).deposit_contract is None,
        qrdx_mainnet_spec().deposit_contract is None,
        qrdx_dev_spec().deposit_contract is None,
{
}

/// The mainnet and dev genesis files schedule exactly the built-in QRDX hardfork
/// schedule: a specification built from either genesis has the built-in
/// specification's chain id, genesis and hardforks.
pub proof fn builtin_genesis_gives_builtin_schedule()
    ensures
        genesis_hardforks(qrdx_mainnet_genesis_view().config) == qrdx_schedule(),
        genesis_hardforks(qrdx_dev_genesis_view().config) == qrdx_schedule(),
        chain_spec_from_genesis(qrdx_mainnet_genesis_view()).chain == qrdx_mainnet_spec().chain,
        chain_spec_from_genesis(qrdx_mainnet_genesis_view()).hardforks == qrdx_mainnet_spec().hardforks,
        chain_spec_from_genesis(qrdx_dev_genesis_view()).chain == qrdx_dev_spec().chain,
        chain_spec_from_genesis(qrdx_dev_genesis_view()).hardforks == qrdx_dev_spec().hardforks,
        chain_spec_from_genesis(qrdx_dev_genesis_view()) == qrdx_dev_spec(),
{
    reveal_with_fuel(present_forks, 19);
    assert(genesis_hardforks(qrdx_genesis_config(QRDX_MAINNET_CHAIN_ID)) =~= qrdx_schedule());
    assert(genesis_hardforks(qrdx_genesis_config(QRDX_DEV_CHAIN_ID)) =~= qrdx_schedule());
}


/// The merge block and final total difficulty that a schedule records: those of
/// its merge condition when that is a TTD condition.
pub open spec fn paris_from_schedule(forks: Seq<(EthereumHardfork, ForkCondition)>) -> Option<(u64, u128)> {
    match lookup_fork(forks, EthereumHardfork::Paris) {
        Some(ForkCondition::TTD { activation_block_number, total_difficulty, .. }) => Some(
            (activation_block_number, total_difficulty),
        ),
        _ => None,
    }
}

/// A chain specification under construction: the chain id and genesis, once set,
/// and the hardfork schedule.
pub struct ChainSpecBuilder {
    pub chain: Option<u64>,
    pub genesis: Option<Genesis>,
    pub hardforks: ChainHardforks,
}

/// The mathematical value of a specification under construction.
pub struct BuilderView {
    pub chain: Option<u64>,
    pub genesis: Option<GenesisView>,
    pub hardforks: Seq<(EthereumHardfork, ForkCondition)>,
}

impl View for ChainSpecBuilder {
    type V = BuilderView;

    open spec fn view(&self) -> BuilderView {
        BuilderView {
            chain: self.chain,
            genesis: match self.genesis {
                Some(g) => Some(g@),
                None => None,
            },
            hardforks: self.hardforks@,
        }
    }
}

/// A builder with nothing set and no hardfork.
pub open spec fn empty_builder() -> BuilderView {
    BuilderView { chain: None, genesis: None, hardforks: Seq::empty() }
}

/// The builder with its chain id set.
pub open spec fn builder_with_chain(b: BuilderView, chain: u64) -> BuilderView {
    BuilderView { chain: Some(chain), ..b }
}

/// The builder with its genesis set.
pub open spec fn builder_with_genesis(b: BuilderView, genesis: GenesisView) -> BuilderView {
    BuilderView { genesis: Some(genesis), ..b }
}

/// The builder with its hardfork schedule replaced.
pub open spec fn builder_with_forks(b: BuilderView, forks: Seq<(EthereumHardfork, ForkCondition)>) -> BuilderView {
    BuilderView { hardforks: forks, ..b }
}

/// What a builder whose chain id and genesis are set builds: them, its
/// schedule, the merge block and final difficulty that the schedule records,
/// Ethereum's base fee parameters, the default prune delete limit and no
/// deposit contract.
pub open spec fn built_spec(b: BuilderView) -> ChainSpecView {
    ChainSpecView {
        chain: b.chain.unwrap(),
        genesis: b.genesis.unwrap(),
        hardforks: b.hardforks,
        paris_block_and_final_difficulty: paris_from_schedule(b.hardforks),
        base_fee_params: ethereum_base_fee_params(),
        prune_delete_limit: DEFAULT_PRUNE_DELETE_LIMIT,
        deposit_contract: None,
    }
}

impl ChainSpecBuilder {
    /// A builder with nothing set and no hardfork.
    pub fn new() -> (r: Self)
        ensures
            r@ == empty_builder(),
    {
        ChainSpecBuilder { chain: None, genesis: None, hardforks: ChainHardforks::empty() }
    }

    /// Sets the chain id.
    pub fn chain(self, chain: u64) -> (r: Self)
        ensures
            r@ == builder_with_chain(self@, chain),
    {
        ChainSpecBuilder { chain: Some(chain), ..self }
    }

    /// Sets the genesis.
    pub fn genesis(self, genesis: Genesis) -> (r: Self)
        ensures
            r@ == builder_with_genesis(self@, genesis@),
    {
        ChainSpecBuilder { genesis: Some(genesis), ..self }
    }

    /// Replaces the hardfork schedule.
    pub fn with_forks(self, forks: ChainHardforks) -> (r: Self)
        ensures
            r@ == builder_with_forks(self@, forks@),
    {
        ChainSpecBuilder { hardforks: forks, ..self }
    }

    /// Builds the specification; the chain id and the genesis must be set.
    pub fn build(self) -> (r: ChainSpec)
        requires
            self@.chain is Some,
            self@.genesis is Some,
        ensures
            r@ == built_spec(self@),
    {
        let paris = match self.hardforks.get(EthereumHardfork::Paris) {
            Some(ForkCondition::TTD { activation_block_number, total_difficulty, .. }) => Some(
                (activation_block_number, total_difficulty),
            ),
            _ => None,
        };
        let chain = self.chain.unwrap();
        let genesis = self.genesis.unwrap();
        ChainSpec {
            chain,
            genesis,
            hardforks: self.hardforks,
            paris_block_and_final_difficulty: paris,
            base_fee_params: BaseFeeParams::ethereum(),
            prune_delete_limit: DEFAULT_PRUNE_DELETE_LIMIT,
            deposit_contract: None,
        }
    }
}

/// Chain spec builder for QRDX chain.
pub struct QrdxChainSpecBuilder {
    inner: ChainSpecBuilder,
}

impl View for QrdxChainSpecBuilder {
    type V = BuilderView;

    closed spec fn view(&self) -> BuilderView {
        self.inner@
    }
}

/// The builder that starts from QRDX mainnet: its chain id, genesis and schedule.
pub open spec fn qrdx_mainnet_builder() -> BuilderView {
    BuilderView {
        chain: Some(QRDX_MAINNET_CHAIN_ID),
        genesis: Some(qrdx_mainnet_genesis_view()),
        hardforks: qrdx_schedule(),
    }
}

impl Default for QrdxChainSpecBuilder {
    fn default() -> (r: Self)
        ensures
            r@ == empty_builder(),
    {
        QrdxChainSpecBuilder { inner: ChainSpecBuilder::new() }
    }
}

impl QrdxChainSpecBuilder {
    /// A builder from a chain spec builder.
    pub fn from_builder(inner: ChainSpecBuilder) -> (r: Self)
        ensures
            r@ == inner@,
    {
        QrdxChainSpecBuilder { inner }
    }

    /// Construct a new builder from the qrdx mainnet chain spec.
    pub fn qrdx_mainnet() -> (r: Self)
        ensures
            r@ == qrdx_mainnet_builder(),
    {
        let mainnet = qrdx_mainnet_chain_spec();
        let inner = ChainSpecBuilder::new().chain(mainnet.inner.chain).genesis(mainnet.inner.genesis);
        let inner = inner.with_forks(mainnet.inner.hardforks);
        QrdxChainSpecBuilder { inner }
    }

    /// Set the chain ID
    pub fn chain(self, chain: u64) -> (r: Self)
        ensures
            r@ == builder_with_chain(self@, chain),
    {
        QrdxChainSpecBuilder { inner: self.inner.chain(chain) }
    }

    /// Set the genesis block.
    pub fn genesis(self, genesis: Genesis) -> (r: Self)
        ensures
            r@ == builder_with_genesis(self@, genesis@),
    {
        QrdxChainSpecBuilder { inner: self.inner.genesis(genesis) }
    }

    /// Build the resulting [`QrdxChainSpec`]; the chain ID and the genesis must
    /// be set.
    pub fn build(self) -> (r: QrdxChainSpec)
        requires
            self@.chain is Some,
            self@.genesis is Some,
        ensures
            r@ == built_spec(self@),
    {
        QrdxChainSpec { inner: self.inner.build() }
    }
}

/// Building from a builder gives the chain id and the genesis that were set last,
/// and the schedule it holds.
pub proof fn builder_keeps_last_settings(b: BuilderView, c1: u64, c2: u64, g1: GenesisView, g2: GenesisView)
    ensures
        built_spec(builder_with_genesis(builder_with_chain(builder_with_chain(b, c1), c2), g1)).chain == c2,
        built_spec(builder_with_chain(builder_with_genesis(builder_with_genesis(b, g1), g2), c1)).genesis == g2,
        built_spec(builder_with_genesis(builder_with_chain(b, c1), g1)).hardforks == b.hardforks,
{
}

/// Building the QRDX mainnet builder gives QRDX mainnet's chain id, genesis,
/// hardforks, merge block and final difficulty, base fee parameters and deposit
/// contract.
pub proof fn mainnet_builder_builds_mainnet()
    ensures
        built_spec(qrdx_mainnet_builder()).chain == qrdx_mainnet_spec().chain,
        built_spec(qrdx_mainnet_builder()).genesis == qrdx_mainnet_spec().genesis,
        built_spec(qrdx_mainnet_builder()).hardforks == qrdx_mainnet_spec().hardforks,
        built_spec(qrdx_mainnet_builder()).paris_block_and_final_difficulty
            == qrdx_mainnet_spec().paris_block_and_final_difficulty,
        built_spec(qrdx_mainnet_builder()).base_fee_params == qrdx_mainnet_spec().base_fee_params,
        built_spec(qrdx_mainnet_builder()).deposit_contract == qrdx_mainnet_spec().deposit_contract,
{
    reveal_with_fuel(lookup_fork, 19);
}


/// Setting the schedule replaces it: the builder then holds exactly the given
/// schedule, its chain id and genesis unchanged, and setting it twice keeps only
/// the second; a spec built from it has exactly that schedule.
pub proof fn builder_forks_replace(b: BuilderView, f1: Seq<(EthereumHardfork, ForkCondition)>, f2: Seq<(EthereumHardfork, ForkCondition)>)
    ensures
        builder_with_forks(b, f1).hardforks == f1,
        builder_with_forks(b, f1).chain == b.chain,
        builder_with_forks(b, f1).genesis == b.genesis,
        builder_with_forks(builder_with_forks(b, f1), f2) == builder_with_forks(b, f2),
        built_spec(builder_with_forks(b, f2)).hardforks == f2,
        builder_with_chain(b, 1).hardforks == b.hardforks,
        builder_with_genesis(b, qrdx_mainnet_genesis_view()).hardforks == b.hardforks,
{
}

/// A spec built from a genesis keeps that genesis exactly, every field as given,
/// and takes its chain id from it; and its merge is active at every block.
pub proof fn from_genesis_keeps_genesis(g: GenesisView, block: u64)
    ensures
        chain_spec_from_genesis(g).genesis == g,
        chain_spec_from_genesis(g).genesis.base_fee_per_gas == g.base_fee_per_gas,
        chain_spec_from_genesis(g).chain == g.config.chain_id,
        condition_of(chain_spec_from_genesis(g).hardforks, EthereumHardfork::Paris).spec_active_at_block(block),
{
    from_genesis_follows_config(g, EthereumHardfork::Paris);
}

/// A builder whose chain id and genesis are set builds a spec with exactly them.
pub proof fn builder_keeps_genesis(b: BuilderView, g: GenesisView, c: u64)
    ensures
        built_spec(builder_with_genesis(builder_with_chain(b, c), g)).genesis == g,
        built_spec(builder_with_genesis(builder_with_chain(b, c), g)).chain == c,
{
}

} // verus!
