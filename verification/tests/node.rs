use qrdx::chainspec::qrdx_mainnet_chain_spec;
use qrdx::evm::QrdxEvmConfig;
use qrdx::node::{QrdxExecutorBuilder, QrdxNode};
use std::sync::Arc;

#[test]
fn node_new() {
    let node = QrdxNode::new();
    assert_eq!(format!("{node:?}"), "QrdxNode");
}

#[test]
fn evm_config_keeps_chain_spec() {
    let spec = Arc::new(qrdx_mainnet_chain_spec());
    let config = QrdxEvmConfig::new(spec.clone());
    assert!(Arc::ptr_eq(config.chain_spec(), &spec));
    let built = QrdxExecutorBuilder::<()>::default().build_evm(spec.clone());
    assert_eq!(built.chain_spec().chain(), 10000);
}
