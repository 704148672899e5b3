use qrdx::cli::{ChainSpecError, QrdxChainSpecParser};
use qrdx::genesis::GenesisAccount;
use qrdx::hardforks::{EthereumHardfork, ForkCondition};

#[test]
fn parses_mainnet_names() {
    for name in ["qrdx", "qrdx-mainnet"] {
        let spec = QrdxChainSpecParser::parse(name).expect("built-in chain");
        assert_eq!(spec.chain(), 10000);
        assert_eq!(spec.prune_delete_limit(), 10000);
    }
}

#[test]
fn parses_dev_names() {
    for name in ["qrdx-dev", "dev"] {
        let spec = QrdxChainSpecParser::parse(name).expect("built-in chain");
        assert_eq!(spec.chain(), 9999);
    }
}

#[test]
fn other_names_are_genesis_files() {
    for name in ["mainnet", "QRDX", "qrdx ", "", "/tmp/genesis.json"] {
        assert!(QrdxChainSpecParser::parse(name).is_none(), "{name:?}");
    }
}

#[test]
fn supported_chains_parse() {
    let names = QrdxChainSpecParser::supported_chains();
    assert_eq!(names, vec!["qrdx", "qrdx-dev"]);
    for name in names {
        assert!(QrdxChainSpecParser::parse(name).is_some());
    }
}

#[test]
fn genesis_json_builds_spec() {
    let json = r#"{
        "config": {
            "chainId": 4242,
            "homesteadBlock": 0,
            "daoForkBlock": 1,
            "londonBlock": 5,
            "mergeNetsplitBlock": 6,
            "shanghaiTime": 100,
            "pragueTime": 300
        },
        "timestamp": "0x10",
        "gasLimit": "0x1c9c380",
        "extraData": "0x51524458",
        "baseFeePerGas": "0x3b9aca00",
        "alloc": {
            "0x0000000000000000000000000000000000000002": { "balance": "0x2" },
            "0x0000000000000000000000000000000000000001": { "balance": "0x10000000000000000" }
        }
    }"#;
    let spec = QrdxChainSpecParser::parse_genesis(json).expect("valid genesis");
    assert_eq!(spec.chain(), 4242);
    assert_eq!(spec.genesis().timestamp, 16);
    assert_eq!(spec.genesis().gas_limit, 30_000_000);
    assert_eq!(spec.genesis().base_fee_per_gas, Some(1_000_000_000));
    assert_eq!(spec.genesis().extra_data, b"QRDX".to_vec());
    let alloc = &spec.genesis().alloc;
    assert_eq!(alloc.len(), 2);
    let mut one = [0u8; 20];
    one[19] = 1;
    let mut two = [0u8; 20];
    two[19] = 2;
    assert_eq!(alloc[0], GenesisAccount { address: one, balance: [0, 1, 0, 0] });
    assert_eq!(alloc[1], GenesisAccount { address: two, balance: [2, 0, 0, 0] });
    assert_eq!(
        spec.forks_iter().clone(),
        vec![
            (EthereumHardfork::Frontier, ForkCondition::Block(0)),
            (EthereumHardfork::Homestead, ForkCondition::Block(0)),
            (EthereumHardfork::Dao, ForkCondition::Block(1)),
            (EthereumHardfork::London, ForkCondition::Block(5)),
            (
                EthereumHardfork::Paris,
                ForkCondition::TTD { activation_block_number: 0, fork_block: Some(6), total_difficulty: 0 }
            ),
            (EthereumHardfork::Shanghai, ForkCondition::Timestamp(100)),
            (EthereumHardfork::Prague, ForkCondition::Timestamp(300)),
        ]
    );
}

#[test]
fn invalid_genesis_json_is_an_error() {
    let r = QrdxChainSpecParser::parse_genesis("{ not json");
    assert!(matches!(r, Err(ChainSpecError::InvalidGenesisJson(ref m)) if !m.is_empty()));
    assert!(QrdxChainSpecParser::parse_genesis("[1, 2]").is_err());
}
