//! Static defaults of the schema, each a pure constant declared beside the
//! field it belongs to, and the base ports of the three dynamic
//! (probe-for-a-free-port) defaults.

use vstd::prelude::*;

verus! {

/// Base port of the peer-to-peer listen address probe.
pub const BASE_PORT_P2P: u16 = 1337;

/// Base port of the public-API listen address probe.
pub const BASE_PORT_API: u16 = 8080;

/// Base port of the telemetry listen address probe.
pub const BASE_PORT_TELEMETRY: u16 = 8180;

/// Blocks stored per file segment: 1000.
pub fn default_blocks_per_storage() -> (r: u64)
    ensures
        r == 1000,
{
    1000
}

/// Greatest number of transactions in one block: 2^9.
pub fn default_max_txs_in_block() -> (r: u32)
    ensures
        r == 512,
{
    512
}

/// Greatest transaction wire size in bytes: 2^15.
pub fn default_max_transaction_size() -> (r: u32)
    ensures
        r == 32768,
{
    32768
}

/// Greatest request body size in bytes: 2^12 * 4000.
pub fn default_max_content_len() -> (r: u32)
    ensures
        r == 16384000,
{
    16384000
}

/// Transaction queue capacity: 2^16.
pub fn default_max_txs_in_queue() -> (r: u32)
    ensures
        r == 65536,
{
    65536
}

/// Signature-buffer capacity: 2^16.
pub fn default_max_txs_in_signature_buffer() -> (r: u32)
    ensures
        r == 65536,
{
    65536
}

/// Transaction time-to-live: one day, in milliseconds.
pub fn default_tx_ttl() -> (r: u64)
    ensures
        r == 86400000,
{
    86400000
}

/// Greatest WASM linear memory: 500 MiB, in bytes.
pub fn default_wasm_max_memory() -> (r: u32)
    ensures
        r == 524288000,
{
    524288000
}

/// Metadata capacity defaults: 2^20 entries, 2^12 bytes per entry.
pub const DEFAULT_METADATA_MAX_LEN: u32 = 1048576;

/// See [`DEFAULT_METADATA_MAX_LEN`].
pub const DEFAULT_METADATA_MAX_ENTRY_BYTE_SIZE: u32 = 4096;

/// Identifier length limits: at least 1, at most 2^7 characters.
pub const DEFAULT_IDENT_MIN: u32 = 1;

/// See [`DEFAULT_IDENT_MIN`].
pub const DEFAULT_IDENT_MAX: u32 = 128;

/// Greatest number of instructions in one transaction: 2^12.
pub const DEFAULT_TX_MAX_INSTRUCTIONS: u64 = 4096;

/// Greatest WASM blob size in one transaction: 4 MiB, in bytes.
pub const DEFAULT_TX_MAX_WASM_SIZE: u64 = 4194304;

} // verus!
