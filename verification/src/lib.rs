//! QRDX network: chain specifications, hardfork schedules, chain-spec selection,
//! the consensus validation plan and the node component types.

pub mod chainspec;
pub mod cli;
pub mod consensus;
pub mod dev_alloc;
pub mod evm;
pub mod genesis;
pub mod hardforks;
pub mod node;
