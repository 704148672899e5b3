//! QRDX EVM configuration: the standard Ethereum EVM rules under a QRDX chain
//! specification.

use vstd::prelude::*;
use std::sync::Arc;
use crate::chainspec::QrdxChainSpec;

verus! {

/// QRDX EVM configuration.
#[derive(Debug, Clone)]
pub struct QrdxEvmConfig {
    chain_spec: Arc<QrdxChainSpec>,
}

impl QrdxEvmConfig {
    /// The chain specification that the configuration was made with.
    pub closed spec fn spec_chain_spec(&self) -> Arc<QrdxChainSpec> {
        self.chain_spec
    }

    /// Creates a new QRDX EVM configuration with the given chain spec.
    pub fn new(chain_spec: Arc<QrdxChainSpec>) -> (r: Self)
        ensures
            r.spec_chain_spec() == chain_spec,
    {
        QrdxEvmConfig { chain_spec }
    }

    /// Returns the chain spec.
    pub fn chain_spec(&self) -> (r: &Arc<QrdxChainSpec>)
        ensures
            *r == self.spec_chain_spec(),
    {
        &self.chain_spec
    }
}

} // verus!
