use vstd::prelude::*;
use vstd::string::*;

verus! {

/// Largest transaction that the mempool takes: 1 MiB.
pub const MEMPOOL_MAX_TX_BYTES: u64 = 1048576;

/// Bytes that the mempool holds in all: 50 times a 6 MiB block.
pub const MEMPOOL_MAX_TXS_BYTES: u64 = 314572800;

/// Transactions that the mempool holds.
pub const MEMPOOL_SIZE: u64 = 4000;

/// Largest RPC request body, raised because some transactions carry large
/// code.
pub const RPC_MAX_BODY_BYTES: u64 = 2000000;

/// The mempool settings of the engine's configuration.
#[derive(Debug, Clone, Copy, PartialEq, Eq, Structural)]
pub struct MempoolConfig {
    pub keep_invalid_txs_in_cache: bool,
    pub max_tx_bytes: u64,
    pub max_txs_bytes: u64,
    pub size: u64,
}

/// The fields of the engine's configuration document that this node sets.
#[derive(Debug, Clone)]
pub struct EngineConfig {
    pub moniker: String,
    pub create_empty_blocks: bool,
    pub mempool: MempoolConfig,
    pub rpc_max_body_bytes: u64,
}

/// The mempool settings that this node requires.
pub open spec fn required_mempool() -> MempoolConfig {
    MempoolConfig {
        keep_invalid_txs_in_cache: false,
        max_tx_bytes: MEMPOOL_MAX_TX_BYTES,
        max_txs_bytes: MEMPOOL_MAX_TXS_BYTES,
        size: MEMPOOL_SIZE,
    }
}

/// The moniker with the node software's version appended.
pub open spec fn versioned_moniker(moniker: Seq<char>, version: Seq<char>) -> Seq<char> {
    moniker + "-"@ + version
}

/// Applies the settings that this node requires to the engine's
/// configuration; whatever they were before, afterwards they are the same.
pub fn update_tendermint_config(config: &mut EngineConfig, version: &str)
    ensures
        final(config).moniker@ == versioned_moniker(old(config).moniker@, version@),
        final(config).create_empty_blocks,
        final(config).mempool == required_mempool(),
        final(config).mempool.size == 4000,
        final(config).mempool.max_tx_bytes == 1048576,
        final(config).rpc_max_body_bytes == RPC_MAX_BODY_BYTES,
{
    config.moniker.append("-");
    config.moniker.append(version);
    config.create_empty_blocks = true;
    config.mempool = MempoolConfig {
        keep_invalid_txs_in_cache: false,
        max_tx_bytes: MEMPOOL_MAX_TX_BYTES,
        max_txs_bytes: MEMPOOL_MAX_TXS_BYTES,
        size: MEMPOOL_SIZE,
    };
    config.rpc_max_body_bytes = RPC_MAX_BODY_BYTES;
}

} // verus!
