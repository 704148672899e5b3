//! The QRDX node type and the builders of its components.

use vstd::prelude::*;
use std::sync::Arc;
use core::marker::PhantomData;
use crate::chainspec::QrdxChainSpec;
use crate::consensus::QrdxBeaconConsensus;
use crate::evm::QrdxEvmConfig;

verus! {

/// Type configuration for a QRDX node.
#[derive(Debug, Default, Clone, Copy)]
#[non_exhaustive]
pub struct QrdxNode;

impl QrdxNode {
    /// Creates a new instance of [`QrdxNode`].
    pub fn new() -> (r: Self)
        ensures
            r == (QrdxNode {}),
    {
        QrdxNode
    }
}

/// Add-ons w.r.t. QRDX.
#[derive(Debug, Clone)]
pub struct QrdxAddOns;

/// A basic QRDX transaction pool.
#[derive(Debug, Default, Clone, Copy)]
#[non_exhaustive]
pub struct QrdxPoolBuilder;

/// A basic QRDX payload service.
#[derive(Debug, Default)]
pub struct QrdxPayloadBuilder<Types> {
    _marker: PhantomData<Types>,
}

impl<Types> Clone for QrdxPayloadBuilder<Types> {
    fn clone(&self) -> (r: Self) {
        QrdxPayloadBuilder { _marker: PhantomData }
    }
}

/// A basic QRDX network builder.
#[derive(Debug, Default, Clone)]
#[non_exhaustive]
pub struct QrdxNetworkBuilder;

/// A basic QRDX executor builder.
#[derive(Debug, Default, Copy)]
pub struct QrdxExecutorBuilder<Types> {
    _marker: PhantomData<Types>,
}

impl<Types> Clone for QrdxExecutorBuilder<Types> {
    fn clone(&self) -> (r: Self) {
        QrdxExecutorBuilder { _marker: PhantomData }
    }
}

impl<Types> QrdxExecutorBuilder<Types> {
    /// The EVM configuration of a node whose chain specification is the given one.
    pub fn build_evm(self, chain_spec: Arc<QrdxChainSpec>) -> (r: QrdxEvmConfig)
        ensures
            r.spec_chain_spec() == chain_spec,
    {
        QrdxEvmConfig::new(chain_spec)
    }
}

/// A basic QRDX consensus builder.
#[derive(Debug, Default, Clone, Copy)]
#[non_exhaustive]
pub struct QrdxConsensusBuilder;

impl QrdxConsensusBuilder {
    /// The consensus of a node whose chain specification is the given one.
    pub fn build_consensus(self, chain_spec: Arc<QrdxChainSpec>) -> (r: Arc<QrdxBeaconConsensus>)
        ensures
            r.spec() == (*chain_spec)@,
    {
        Arc::new(QrdxBeaconConsensus::new(chain_spec))
    }
}

/// Builder for the engine validator.
#[derive(Debug, Default, Clone)]
#[non_exhaustive]
pub struct QrdxEngineValidatorBuilder;

} // verus!
