//! The genesis of a chain: the fork configuration and the genesis block
//! parameters that the chain specification reads, and reading them from JSON.

use vstd::prelude::*;

verus! {

/// The chain configuration of a genesis: the chain id and the block numbers and
/// timestamps at which the hardforks activate (`None` when they are not set).
#[derive(Clone, Copy, Debug, PartialEq, Eq)]
pub struct ChainConfig {
    pub chain_id: u64,
    pub homestead_block: Option<u64>,
    pub dao_fork_block: Option<u64>,
    pub eip150_block: Option<u64>,
    pub eip155_block: Option<u64>,
    pub byzantium_block: Option<u64>,
    pub constantinople_block: Option<u64>,
    pub petersburg_block: Option<u64>,
    pub istanbul_block: Option<u64>,
    pub muir_glacier_block: Option<u64>,
    pub berlin_block: Option<u64>,
    pub london_block: Option<u64>,
    pub arrow_glacier_block: Option<u64>,
    pub gray_glacier_block: Option<u64>,
    pub merge_netsplit_block: Option<u64>,
    pub shanghai_time: Option<u64>,
    pub cancun_time: Option<u64>,
    pub prague_time: Option<u64>,
}

/// An account funded at genesis: its address and its balance in wei, as the
/// four 64-bit limbs of a 256-bit number, least significant first.
#[derive(Clone, Copy, Debug, PartialEq, Eq)]
pub struct GenesisAccount {
    pub address: [u8; 20],
    pub balance: [u64; 4],
}

/// The number that four 64-bit limbs, least significant first, stand for.
pub open spec fn balance_value(limbs: [u64; 4]) -> nat {
    (limbs@[0] + limbs@[1] * 0x1_0000_0000_0000_0000nat + limbs@[2] * 0x1_0000_0000_0000_0000_0000_0000_0000_0000nat
        + limbs@[3] * 0x1_0000_0000_0000_0000_0000_0000_0000_0000_0000_0000_0000_0000nat) as nat
}

/// A genesis: its chain configuration, the parameters of its genesis block and
/// the accounts it funds, in increasing order of address.
#[derive(Clone, Debug, PartialEq, Eq)]
pub struct Genesis {
    pub config: ChainConfig,
    pub timestamp: u64,
    pub gas_limit: u64,
    pub base_fee_per_gas: Option<u128>,
    pub extra_data: Vec<u8>,
    pub alloc: Vec<GenesisAccount>,
}

/// The mathematical value of a [`Genesis`].
pub struct GenesisView {
    pub config: ChainConfig,
    pub timestamp: u64,
    pub gas_limit: u64,
    pub base_fee_per_gas: Option<u128>,
    pub extra_data: Seq<u8>,
    pub alloc: Seq<GenesisAccount>,
}

impl View for Genesis {
    type V = GenesisView;

    open spec fn view(&self) -> GenesisView {
        GenesisView {
            config: self.config,
            timestamp: self.timestamp,
            gas_limit: self.gas_limit,
            base_fee_per_gas: self.base_fee_per_gas,
            extra_data: self.extra_data@,
            alloc: self.alloc@,
        }
    }
}

#[verifier::external_type_specification]
#[verifier::external_body]
pub struct ExJsonError(serde_json::Error);

/// What `serde_json` reads from a genesis JSON document into an
/// `alloy_genesis::Genesis`, restricted to the fields a [`Genesis`] holds;
/// `None` when the document is refused.
pub uninterp spec fn genesis_json(json: Seq<char>) -> Option<GenesisView>;

/// Calls `serde_json::from_str::<alloy_genesis::Genesis>` and copies the chain
/// id, the hardfork blocks and times, the timestamp, the gas limit, the base fee,
/// the extra data and the address and balance of each funded account into a
/// [`Genesis`]. The contract claims only that the
/// outcome depends on the text alone (it is named `genesis_json`); which texts
/// serde and alloy accept, and what they read from them, is left unsaid.
#[verifier::external_body]
pub(crate) fn parse_genesis_json(json: &str) -> (res: Result<Genesis, serde_json::Error>)
    ensures
        match res {
            Ok(g) => genesis_json(json@) == Some(g@),
            Err(_) => genesis_json(json@) is None,
        },
{
    let g: alloy_genesis::Genesis = serde_json::from_str(json)?;
    let alloy_genesis::ChainConfig { chain_id, homestead_block, dao_fork_block, eip150_block,
        eip155_block, byzantium_block, constantinople_block, petersburg_block, istanbul_block,
        muir_glacier_block, berlin_block, london_block, arrow_glacier_block, gray_glacier_block,
        merge_netsplit_block, shanghai_time, cancun_time, prague_time, .. } = g.config;
    let config = ChainConfig { chain_id, homestead_block, dao_fork_block, eip150_block,
        eip155_block, byzantium_block, constantinople_block, petersburg_block, istanbul_block,
        muir_glacier_block, berlin_block, london_block, arrow_glacier_block, gray_glacier_block,
        merge_netsplit_block, shanghai_time, cancun_time, prague_time };
    let alloc = g.alloc.iter().map(|(a, acc)| GenesisAccount { address: a.0.0, balance: acc.balance.into_limbs() }).collect();
    Ok(Genesis { config, timestamp: g.timestamp, gas_limit: g.gas_limit, base_fee_per_gas: g.base_fee_per_gas, extra_data: g.extra_data.to_vec(), alloc })
}

/// The message of a JSON error.
#[verifier::external_body]
pub(crate) fn json_error_message(e: &serde_json::Error) -> String {
    e.to_string()
}

} // verus!
