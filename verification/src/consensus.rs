//! QRDX consensus: which of the standard Ethereum header checks apply to a
//! header, given the chain specification and the header's number and timestamp.

use vstd::prelude::*;
use std::sync::Arc;
use crate::chainspec::{QrdxChainSpec, ChainSpecView, qrdx_mainnet_spec, qrdx_dev_spec};
use crate::hardforks::{EthereumHardfork, condition_of, lookup_fork};

verus! {

/// A standard Ethereum header check.
#[derive(Clone, Copy, Debug, PartialEq, Eq)]
pub enum HeaderCheck {
    /// The header's parent hash is its parent's hash and its number is one past
    /// its parent's.
    ParentHashNumber,
    /// The header's base fee follows from its parent's (EIP-1559).
    HeaderBaseFee,
    /// The header's extra data is at most 32 bytes long.
    HeaderExtraData,
    /// The header's timestamp is after its parent's.
    ParentTimestamp,
    /// The header's gas limit differs from its parent's by less than the
    /// allowed fraction and stays above the minimum.
    ParentGasLimit,
    /// The header's difficulty is zero (proof of stake).
    UnsetDifficulty,
    /// The header carries a withdrawals root (Shanghai).
    ParentWithdrawalsRoot,
    /// The header carries the EIP-4844 blob gas fields.
    ParentEip4844,
    /// The header's blob gas used is consistent with its parent.
    ParentBlobGasUsed,
    /// The header's excess blob gas follows from its parent's.
    ParentExcessBlobGas,
}

/// Whether the merge is active at a block: its condition (a TTD condition on
/// QRDX chains) is active at the block number. The merge is tested by block and
/// not by timestamp: a merge reached by total difficulty is never active by a
/// timestamp test, and proof-of-stake rules require a zero difficulty on every
/// block from the merge on.
pub open spec fn paris_active_at_block(spec: ChainSpecView, number: u64) -> bool {
    condition_of(spec.hardforks, EthereumHardfork::Paris).spec_active_at_block(number)
}

/// Whether Shanghai is active at a timestamp.
pub open spec fn shanghai_active_at_timestamp(spec: ChainSpecView, timestamp: u64) -> bool {
    condition_of(spec.hardforks, EthereumHardfork::Shanghai).spec_active_at_timestamp(timestamp)
}

/// Whether Cancun is active at a timestamp.
pub open spec fn cancun_active_at_timestamp(spec: ChainSpecView, timestamp: u64) -> bool {
    condition_of(spec.hardforks, EthereumHardfork::Cancun).spec_active_at_timestamp(timestamp)
}

/// The checks of a header with the given number and timestamp against its
/// parent, in order: parent hash and number, base fee, extra data, timestamp and
/// gas limit always; unset difficulty once the merge is active at the header's
/// block (by number, not by timestamp); the withdrawals root once Shanghai is
/// active at its timestamp; the blob gas fields once Cancun is.
pub open spec fn checks_against_parent_plan(spec: ChainSpecView, number: u64, timestamp: u64) -> Seq<HeaderCheck> {
    seq![
        HeaderCheck::ParentHashNumber,
        HeaderCheck::HeaderBaseFee,
        HeaderCheck::HeaderExtraData,
        HeaderCheck::ParentTimestamp,
        HeaderCheck::ParentGasLimit,
    ]
        + (if paris_active_at_block(spec, number) {
            seq![HeaderCheck::UnsetDifficulty]
        } else {
            Seq::empty()
        })
        + (if shanghai_active_at_timestamp(spec, timestamp) {
            seq![HeaderCheck::ParentWithdrawalsRoot]
        } else {
            Seq::empty()
        })
        + (if cancun_active_at_timestamp(spec, timestamp) {
            seq![HeaderCheck::ParentEip4844, HeaderCheck::ParentBlobGasUsed, HeaderCheck::ParentExcessBlobGas]
        } else {
            Seq::empty()
        })
}

/// The checks of a header with the given number given the total difficulty, in
/// order: extra data always, unset difficulty once the merge is active at the
/// header's block.
pub open spec fn checks_with_total_difficulty_plan(spec: ChainSpecView, number: u64) -> Seq<HeaderCheck> {
    seq![HeaderCheck::HeaderExtraData] + (if paris_active_at_block(spec, number) {
        seq![HeaderCheck::UnsetDifficulty]
    } else {
        Seq::empty()
    })
}

/// QRDX consensus implementation.
///
/// Uses standard Ethereum consensus rules.
#[derive(Debug, Clone)]
#[non_exhaustive]
pub struct QrdxBeaconConsensus {
    chain_spec: Arc<QrdxChainSpec>,
}

impl QrdxBeaconConsensus {
    /// The chain specification that the consensus follows.
    pub closed spec fn spec(&self) -> ChainSpecView {
        (*self.chain_spec)@
    }

    /// Create a new instance of [`QrdxBeaconConsensus`]
    pub fn new(chain_spec: Arc<QrdxChainSpec>) -> (r: Self)
        ensures
            r.spec() == (*chain_spec)@,
    {
        QrdxBeaconConsensus { chain_spec }
    }

    /// The checks that validating a header with the given number and timestamp
    /// against its parent runs, in order; validation stops at the first that
    /// fails.
    pub fn checks_against_parent(&self, number: u64, timestamp: u64) -> (r: Vec<HeaderCheck>)
        ensures
            r@ == checks_against_parent_plan(self.spec(), number, timestamp),
    {
        let spec: &QrdxChainSpec = &*self.chain_spec;
        let mut checks: Vec<HeaderCheck> = vec![
            HeaderCheck::ParentHashNumber,
            HeaderCheck::HeaderBaseFee,
            HeaderCheck::HeaderExtraData,
            HeaderCheck::ParentTimestamp,
            HeaderCheck::ParentGasLimit,
        ];
        if spec.is_ethereum_fork_active_at_block(EthereumHardfork::Paris, number) {
            checks.push(HeaderCheck::UnsetDifficulty);
        }
        if spec.is_shanghai_active_at_timestamp(timestamp) {
            checks.push(HeaderCheck::ParentWithdrawalsRoot);
        }
        if spec.is_cancun_active_at_timestamp(timestamp) {
            checks.push(HeaderCheck::ParentEip4844);
            checks.push(HeaderCheck::ParentBlobGasUsed);
            checks.push(HeaderCheck::ParentExcessBlobGas);
        }
        assert(checks@ =~= checks_against_parent_plan(self.spec(), number, timestamp));
        checks
    }

    /// The checks that validating a header with the given number and a total
    /// difficulty runs, in order; validation stops at the first that fails.
    pub fn checks_with_total_difficulty(&self, number: u64) -> (r: Vec<HeaderCheck>)
        ensures
            r@ == checks_with_total_difficulty_plan(self.spec(), number),
    {
        let spec: &QrdxChainSpec = &*self.chain_spec;
        let mut checks: Vec<HeaderCheck> = vec![HeaderCheck::HeaderExtraData];
        if spec.is_ethereum_fork_active_at_block(EthereumHardfork::Paris, number) {
            checks.push(HeaderCheck::UnsetDifficulty);
        }
        assert(checks@ =~= checks_with_total_difficulty_plan(self.spec(), number));
        checks
    }
}

/// On the built-in QRDX chains every header, whatever its number and timestamp,
/// is checked against its parent for parent hash and number, base fee, extra
/// data, timestamp, gas limit, zero difficulty, withdrawals root and the blob gas
/// fields, and with a total difficulty for extra data and zero difficulty: the
/// merge is active from block 0, Shanghai and Cancun from timestamp 0.
pub proof fn builtin_chains_check_post_merge_rules(number: u64, timestamp: u64)
    ensures
        checks_against_parent_plan(qrdx_mainnet_spec(), number, timestamp) == seq![
            HeaderCheck::ParentHashNumber,
            HeaderCheck::HeaderBaseFee,
            HeaderCheck::HeaderExtraData,
            HeaderCheck::ParentTimestamp,
            HeaderCheck::ParentGasLimit,
            HeaderCheck::UnsetDifficulty,
            HeaderCheck::ParentWithdrawalsRoot,
            HeaderCheck::ParentEip4844,
            HeaderCheck::ParentBlobGasUsed,
            HeaderCheck::ParentExcessBlobGas,
        ],
        checks_against_parent_plan(qrdx_dev_spec(), number, timestamp) == checks_against_parent_plan(
            qrdx_mainnet_spec(),
            number,
            timestamp,
        ),
        checks_with_total_difficulty_plan(qrdx_mainnet_spec(), number) == seq![
            HeaderCheck::HeaderExtraData,
            HeaderCheck::UnsetDifficulty,
        ],
        checks_with_total_difficulty_plan(qrdx_dev_spec(), number) == seq![
            HeaderCheck::HeaderExtraData,
            HeaderCheck::UnsetDifficulty,
        ],
{
    reveal_with_fuel(lookup_fork, 19);
    assert(checks_against_parent_plan(qrdx_mainnet_spec(), number, timestamp) =~= seq![
        HeaderCheck::ParentHashNumber,
        HeaderCheck::HeaderBaseFee,
        HeaderCheck::HeaderExtraData,
        HeaderCheck::ParentTimestamp,
        HeaderCheck::ParentGasLimit,
        HeaderCheck::UnsetDifficulty,
        HeaderCheck::ParentWithdrawalsRoot,
        HeaderCheck::ParentEip4844,
        HeaderCheck::ParentBlobGasUsed,
        HeaderCheck::ParentExcessBlobGas,
    ]);
    assert(checks_with_total_difficulty_plan(qrdx_mainnet_spec(), number) =~= seq![
        HeaderCheck::HeaderExtraData,
        HeaderCheck::UnsetDifficulty,
    ]);
}


/// Whatever the chain, the header number and the timestamp, the checks against
/// the parent always include parent hash and number, base fee, extra data,
/// timestamp and gas limit; they include the zero-difficulty check exactly when
/// the merge condition is active at the header's block, the withdrawals-root
/// check exactly when Shanghai's condition is active at its timestamp, and the
/// blob gas checks exactly when Cancun's condition is, whatever Shanghai's.
pub proof fn checks_against_parent_follow_forks(spec: ChainSpecView, number: u64, timestamp: u64)
    ensures
        ({
            let plan = checks_against_parent_plan(spec, number, timestamp);
            let paris = condition_of(spec.hardforks, EthereumHardfork::Paris).spec_active_at_block(number);
            let shanghai = condition_of(spec.hardforks, EthereumHardfork::Shanghai).spec_active_at_timestamp(timestamp);
            let cancun = condition_of(spec.hardforks, EthereumHardfork::Cancun).spec_active_at_timestamp(timestamp);
            &&& plan.contains(HeaderCheck::ParentHashNumber)
            &&& plan.contains(HeaderCheck::HeaderBaseFee)
            &&& plan.contains(HeaderCheck::HeaderExtraData)
            &&& plan.contains(HeaderCheck::ParentTimestamp)
            &&& plan.contains(HeaderCheck::ParentGasLimit)
            &&& plan.contains(HeaderCheck::UnsetDifficulty) == paris
            &&& plan.contains(HeaderCheck::ParentWithdrawalsRoot) == shanghai
            &&& plan.contains(HeaderCheck::ParentEip4844) == cancun
            &&& plan.contains(HeaderCheck::ParentBlobGasUsed) == cancun
            &&& plan.contains(HeaderCheck::ParentExcessBlobGas) == cancun
            &&& plan.len() == 5 + (if paris { 1int } else { 0 }) + (if shanghai { 1int } else { 0 }) + (
            if cancun { 3int } else { 0 })
        }),
{
    let plan = checks_against_parent_plan(spec, number, timestamp);
    assert(plan[0] == HeaderCheck::ParentHashNumber);
    assert(plan[1] == HeaderCheck::HeaderBaseFee);
    assert(plan[2] == HeaderCheck::HeaderExtraData);
    assert(plan[3] == HeaderCheck::ParentTimestamp);
    assert(plan[4] == HeaderCheck::ParentGasLimit);
    let paris = condition_of(spec.hardforks, EthereumHardfork::Paris).spec_active_at_block(number);
    let shanghai = condition_of(spec.hardforks, EthereumHardfork::Shanghai).spec_active_at_timestamp(timestamp);
    let cancun = condition_of(spec.hardforks, EthereumHardfork::Cancun).spec_active_at_timestamp(timestamp);
    let k: int = 5 + (if paris { 1int } else { 0 });
    let m: int = k + (if shanghai { 1int } else { 0 });
    if paris {
        assert(plan[5] == HeaderCheck::UnsetDifficulty);
    }
    if shanghai {
        assert(plan[k] == HeaderCheck::ParentWithdrawalsRoot);
    }
    if cancun {
        assert(plan[m] == HeaderCheck::ParentEip4844);
        assert(plan[m + 1] == HeaderCheck::ParentBlobGasUsed);
        assert(plan[m + 2] == HeaderCheck::ParentExcessBlobGas);
    }
}

/// Whatever the chain and the header number, the checks with a total
/// difficulty include the extra-data check, and the zero-difficulty check exactly
/// when the merge condition is active at the header's block.
pub proof fn checks_with_total_difficulty_follow_merge(spec: ChainSpecView, number: u64)
    ensures
        checks_with_total_difficulty_plan(spec, number).contains(HeaderCheck::HeaderExtraData),
        checks_with_total_difficulty_plan(spec, number).contains(HeaderCheck::UnsetDifficulty)
            == condition_of(spec.hardforks, EthereumHardfork::Paris).spec_active_at_block(number),
{
    let plan = checks_with_total_difficulty_plan(spec, number);
    assert(plan[0] == HeaderCheck::HeaderExtraData);
    if condition_of(spec.hardforks, EthereumHardfork::Paris).spec_active_at_block(number) {
        assert(plan[1] == HeaderCheck::UnsetDifficulty);
    }
}

} // verus!
