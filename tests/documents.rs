use tendermint_node::config::{update_tendermint_config, EngineConfig, MempoolConfig};
use tendermint_node::error::GenesisError;
use tendermint_node::genesis::{
    from_engine_time, patch_genesis, to_engine_time, to_rfc3339, BlockSize, DateTimeUtc, EngineTime, GenesisDoc,
};

fn sample_config() -> EngineConfig {
    EngineConfig {
        moniker: "node".to_string(),
        create_empty_blocks: false,
        mempool: MempoolConfig { keep_invalid_txs_in_cache: true, max_tx_bytes: 7, max_txs_bytes: 9, size: 123 },
        rpc_max_body_bytes: 1_000_000,
    }
}

#[test]
fn config_patch_sets_required_values() {
    let mut c = sample_config();
    update_tendermint_config(&mut c, "v0.28.1");
    assert_eq!(c.moniker, "node-v0.28.1");
    assert!(c.create_empty_blocks);
    assert!(!c.mempool.keep_invalid_txs_in_cache);
    assert_eq!(c.mempool.max_tx_bytes, 1_048_576);
    assert_eq!(c.mempool.max_txs_bytes, 50 * 6 * 1024 * 1024);
    assert_eq!(c.mempool.size, 4000);
    assert_eq!(c.rpc_max_body_bytes, 2_000_000);
}

#[test]
fn config_patch_ignores_previous_values() {
    let mut c = sample_config();
    c.mempool = MempoolConfig { keep_invalid_txs_in_cache: false, max_tx_bytes: u64::MAX, max_txs_bytes: 0, size: 0 };
    update_tendermint_config(&mut c, "");
    assert_eq!(c.moniker, "node-");
    assert_eq!(c.mempool.size, 4000);
    assert_eq!(c.mempool.max_tx_bytes, 1_048_576);
}

fn time(year: i32) -> DateTimeUtc {
    DateTimeUtc { year, month: 2, day: 29, hour: 13, minute: 5, second: 59, nanos: 123_456_789 }
}

fn sample_genesis() -> GenesisDoc {
    GenesisDoc {
        chain_id: "old".to_string(),
        genesis_time: EngineTime { year: 2000, month: 1, day: 1, hour: 0, minute: 0, second: 0, nanos: 0 },
        block: BlockSize { max_bytes: 22020096, max_gas: 1000, time_iota_ms: 1000 },
    }
}

#[test]
fn genesis_patch_sets_fields() {
    let mut g = sample_genesis();
    assert_eq!(patch_genesis(&mut g, "namada-test.0123abc", &time(2024)), Ok(()));
    assert_eq!(g.chain_id, "namada-test.0123abc");
    assert_eq!(g.block.max_bytes, 16_777_216);
    assert_eq!(g.block.max_gas, -1);
    assert_eq!(g.block.time_iota_ms, 1000);
    assert_eq!(from_engine_time(&g.genesis_time), time(2024));
}

#[test]
fn genesis_patch_rejects_bad_input() {
    let mut g = sample_genesis();
    assert_eq!(patch_genesis(&mut g, "", &time(2024)), Err(GenesisError::InvalidChainId));
    let long = "x".repeat(51);
    assert_eq!(patch_genesis(&mut g, &long, &time(2024)), Err(GenesisError::InvalidChainId));
    assert_eq!(patch_genesis(&mut g, "chain", &time(10000)), Err(GenesisError::TimeOutOfRange));
    assert_eq!(patch_genesis(&mut g, "chain", &time(0)), Err(GenesisError::TimeOutOfRange));
    assert_eq!(g.chain_id, "old");
    assert_eq!(g.block.max_gas, 1000);
    let fifty = "y".repeat(50);
    assert_eq!(patch_genesis(&mut g, &fifty, &time(9999)), Ok(()));
}

#[test]
fn genesis_time_round_trips() {
    for year in [1, 1970, 2024, 9999] {
        let t = time(year);
        let e = to_engine_time(&t).unwrap();
        assert_eq!(from_engine_time(&e), t);
    }
    assert_eq!(to_engine_time(&time(-5)), Err(GenesisError::TimeOutOfRange));
}

#[test]
fn genesis_time_renders_rfc3339() {
    let e = to_engine_time(&time(2024)).unwrap();
    assert_eq!(to_rfc3339(&e), "2024-02-29T13:05:59.123456789Z");
    let early = EngineTime { year: 7, month: 1, day: 2, hour: 3, minute: 4, second: 5, nanos: 6 };
    assert_eq!(to_rfc3339(&early), "0007-01-02T03:04:05.000000006Z");
}
