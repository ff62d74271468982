//! The fully resolved configuration tree: every field present and typed,
//! limit fields positive, required key material in place.

use vstd::prelude::*;
use crate::value::{Peer, PeerV, LogLevel, KuraInitMode};

verus! {

/// Size limits on one entity's metadata store.
#[derive(Clone, Copy, PartialEq, Eq, Debug)]
pub struct MetadataLimits {
    pub max_len: u32,
    pub max_entry_byte_size: u32,
}

/// Length bounds on identifiers.
#[derive(Clone, Copy, PartialEq, Eq, Debug)]
pub struct LengthLimits {
    pub min: u32,
    pub max: u32,
}

/// Size limits on one transaction.
#[derive(Clone, Copy, PartialEq, Eq, Debug)]
pub struct TransactionLimits {
    pub max_instruction_number: u64,
    pub max_wasm_size_bytes: u64,
}

/// Block storage settings.
#[derive(Clone, PartialEq, Eq, Debug)]
pub struct Kura {
    pub init_mode: KuraInitMode,
    pub block_store_path: String,
    pub blocks_per_storage: u64,
    pub actor_channel_capacity: u32,
    pub debug_output_new_blocks: bool,
}

/// View of [`Kura`].
pub struct KuraV {
    pub init_mode: KuraInitMode,
    pub block_store_path: Seq<char>,
    pub blocks_per_storage: u64,
    pub actor_channel_capacity: u32,
    pub debug_output_new_blocks: bool,
}

impl View for Kura {
    type V = KuraV;

    open spec fn view(&self) -> KuraV {
        KuraV {
            init_mode: self.init_mode,
            block_store_path: self.block_store_path@,
            blocks_per_storage: self.blocks_per_storage,
            actor_channel_capacity: self.actor_channel_capacity,
            debug_output_new_blocks: self.debug_output_new_blocks,
        }
    }
}

/// Consensus settings.
#[derive(Clone, PartialEq, Eq, Debug)]
pub struct Sumeragi {
    pub block_time_ms: u64,
    pub trusted_peers: Vec<Peer>,
    pub commit_time_limit_ms: u64,
    pub max_transactions_in_block: u32,
    pub actor_channel_capacity: u32,
    pub gossip_batch_size: u32,
    pub gossip_period_ms: u64,
    pub debug_force_soft_fork: bool,
}

/// View of [`Sumeragi`].
pub struct SumeragiV {
    pub block_time_ms: u64,
    pub trusted_peers: Seq<PeerV>,
    pub commit_time_limit_ms: u64,
    pub max_transactions_in_block: u32,
    pub actor_channel_capacity: u32,
    pub gossip_batch_size: u32,
    pub gossip_period_ms: u64,
    pub debug_force_soft_fork: bool,
}

impl View for Sumeragi {
    type V = SumeragiV;

    open spec fn view(&self) -> SumeragiV {
        SumeragiV {
            block_time_ms: self.block_time_ms,
            trusted_peers: self.trusted_peers@.map_values(|p: Peer| p@),
            commit_time_limit_ms: self.commit_time_limit_ms,
            max_transactions_in_block: self.max_transactions_in_block,
            actor_channel_capacity: self.actor_channel_capacity,
            gossip_batch_size: self.gossip_batch_size,
            gossip_period_ms: self.gossip_period_ms,
            debug_force_soft_fork: self.debug_force_soft_fork,
        }
    }
}

/// The genesis account's key pair: required, never defaulted.
#[derive(Clone, PartialEq, Eq, Debug)]
pub struct Genesis {
    pub account_public_key: String,
    pub account_private_key: String,
}

/// View of [`Genesis`].
pub struct GenesisV {
    pub account_public_key: Seq<char>,
    pub account_private_key: Seq<char>,
}

impl View for Genesis {
    type V = GenesisV;

    open spec fn view(&self) -> GenesisV {
        GenesisV {
            account_public_key: self.account_public_key@,
            account_private_key: self.account_private_key@,
        }
    }
}

/// Listen addresses and request-size caps of the gateway.
#[derive(Clone, PartialEq, Eq, Debug)]
pub struct Torii {
    pub addr_p2p: String,
    pub addr_api: String,
    pub addr_telemetry: String,
    pub max_transaction_size: u32,
    pub max_content_len: u32,
}

/// View of [`Torii`].
pub struct ToriiV {
    pub addr_p2p: Seq<char>,
    pub addr_api: Seq<char>,
    pub addr_telemetry: Seq<char>,
    pub max_transaction_size: u32,
    pub max_content_len: u32,
}

impl View for Torii {
    type V = ToriiV;

    open spec fn view(&self) -> ToriiV {
        ToriiV {
            addr_p2p: self.addr_p2p@,
            addr_api: self.addr_api@,
            addr_telemetry: self.addr_telemetry@,
            max_transaction_size: self.max_transaction_size,
            max_content_len: self.max_content_len,
        }
    }
}

/// Block-synchronisation settings.
#[derive(Clone, Copy, PartialEq, Eq, Debug)]
pub struct BlockSync {
    pub gossip_period_ms: u64,
    pub block_batch_size: u32,
    pub actor_channel_capacity: u32,
}

/// Transaction-queue settings.
#[derive(Clone, Copy, PartialEq, Eq, Debug)]
pub struct Queue {
    pub max_transactions_in_queue: u32,
    pub max_transactions_in_signature_buffer: u32,
    pub transaction_time_to_live_ms: u64,
    pub future_threshold_ms: u64,
}

/// Logging settings.
#[derive(Clone, PartialEq, Eq, Debug)]
pub struct Logger {
    pub log_level: LogLevel,
    pub telemetry_capacity: u32,
    pub compact_mode: bool,
    pub log_file_path: Option<String>,
    pub terminal_colors: bool,
    pub tokio_console_addr: Option<String>,
}

/// View of [`Logger`].
pub struct LoggerV {
    pub log_level: LogLevel,
    pub telemetry_capacity: u32,
    pub compact_mode: bool,
    pub log_file_path: Option<Seq<char>>,
    pub terminal_colors: bool,
    pub tokio_console_addr: Option<Seq<char>>,
}

/// View of an optional string.
pub open spec fn opt_str_view(s: Option<String>) -> Option<Seq<char>> {
    match s {
        Some(x) => Some(x@),
        None => None,
    }
}

impl View for Logger {
    type V = LoggerV;

    open spec fn view(&self) -> LoggerV {
        LoggerV {
            log_level: self.log_level,
            telemetry_capacity: self.telemetry_capacity,
            compact_mode: self.compact_mode,
            log_file_path: opt_str_view(self.log_file_path),
            terminal_colors: self.terminal_colors,
            tokio_console_addr: opt_str_view(self.tokio_console_addr),
        }
    }
}

/// World-state-view limits.
#[derive(Clone, Copy, PartialEq, Eq, Debug)]
pub struct Wsv {
    pub asset_metadata_limits: MetadataLimits,
    pub asset_definition_metadata_limits: MetadataLimits,
    pub account_metadata_limits: MetadataLimits,
    pub domain_metadata_limits: MetadataLimits,
    pub ident_length_limits: LengthLimits,
    pub transaction_limits: TransactionLimits,
    pub wasm_runtime: Wasm,
}

/// WASM runtime limits.
#[derive(Clone, Copy, PartialEq, Eq, Debug)]
pub struct Wasm {
    pub fuel_limit: u64,
    pub max_memory: u32,
}

/// Network actor settings.
#[derive(Clone, Copy, PartialEq, Eq, Debug)]
pub struct Network {
    pub actor_channel_capacity: u32,
}

/// Telemetry reporting settings.
#[derive(Clone, PartialEq, Eq, Debug)]
pub struct Telemetry {
    pub name: Option<String>,
    pub url: Option<String>,
    pub min_retry_period: u64,
    pub max_retry_delay_exponent: u8,
    pub file: Option<String>,
}

/// View of [`Telemetry`].
pub struct TelemetryV {
    pub name: Option<Seq<char>>,
    pub url: Option<Seq<char>>,
    pub min_retry_period: u64,
    pub max_retry_delay_exponent: u8,
    pub file: Option<Seq<char>>,
}

impl View for Telemetry {
    type V = TelemetryV;

    open spec fn view(&self) -> TelemetryV {
        TelemetryV {
            name: opt_str_view(self.name),
            url: opt_str_view(self.url),
            min_retry_period: self.min_retry_period,
            max_retry_delay_exponent: self.max_retry_delay_exponent,
            file: opt_str_view(self.file),
        }
    }
}

/// The whole resolved configuration.
#[derive(Clone, PartialEq, Eq, Debug)]
pub struct Iroha {
    pub public_key: String,
    pub private_key: String,
    pub disable_panic_terminal_colors: bool,
    pub kura: Kura,
    pub sumeragi: Sumeragi,
    pub genesis: Genesis,
    pub torii: Torii,
    pub block_sync: BlockSync,
    pub queue: Queue,
    pub logger: Logger,
    pub wsv: Wsv,
    pub network: Network,
    pub telemetry: Telemetry,
}

/// View of [`Iroha`].
pub struct IrohaV {
    pub public_key: Seq<char>,
    pub private_key: Seq<char>,
    pub disable_panic_terminal_colors: bool,
    pub kura: KuraV,
    pub sumeragi: SumeragiV,
    pub genesis: GenesisV,
    pub torii: ToriiV,
    pub block_sync: BlockSync,
    pub queue: Queue,
    pub logger: LoggerV,
    pub wsv: Wsv,
    pub network: Network,
    pub telemetry: TelemetryV,
}

impl View for Iroha {
    type V = IrohaV;

    open spec fn view(&self) -> IrohaV {
        IrohaV {
            public_key: self.public_key@,
            private_key: self.private_key@,
            disable_panic_terminal_colors: self.disable_panic_terminal_colors,
            kura: self.kura@,
            sumeragi: self.sumeragi@,
            genesis: self.genesis@,
            torii: self.torii@,
            block_sync: self.block_sync,
            queue: self.queue,
            logger: self.logger@,
            wsv: self.wsv,
            network: self.network,
            telemetry: self.telemetry@,
        }
    }
}

/// The invariant of a successfully resolved tree: every limit field is a
/// positive bound and every unsigned count is within the range a document
/// integer can carry.
pub open spec fn wf(cv: IrohaV) -> bool {
    &&& 1 <= cv.kura.blocks_per_storage <= 0x7fff_ffff_ffff_ffff
    &&& cv.sumeragi.block_time_ms <= 0x7fff_ffff_ffff_ffff
    &&& cv.sumeragi.commit_time_limit_ms <= 0x7fff_ffff_ffff_ffff
    &&& cv.sumeragi.gossip_period_ms <= 0x7fff_ffff_ffff_ffff
    &&& 1 <= cv.sumeragi.max_transactions_in_block
    &&& 1 <= cv.torii.max_transaction_size
    &&& 1 <= cv.torii.max_content_len
    &&& cv.block_sync.gossip_period_ms <= 0x7fff_ffff_ffff_ffff
    &&& 1 <= cv.queue.max_transactions_in_queue
    &&& 1 <= cv.queue.max_transactions_in_signature_buffer
    &&& cv.queue.transaction_time_to_live_ms <= 0x7fff_ffff_ffff_ffff
    &&& cv.queue.future_threshold_ms <= 0x7fff_ffff_ffff_ffff
    &&& 1 <= cv.wsv.asset_metadata_limits.max_len
    &&& 1 <= cv.wsv.asset_metadata_limits.max_entry_byte_size
    &&& 1 <= cv.wsv.asset_definition_metadata_limits.max_len
    &&& 1 <= cv.wsv.asset_definition_metadata_limits.max_entry_byte_size
    &&& 1 <= cv.wsv.account_metadata_limits.max_len
    &&& 1 <= cv.wsv.account_metadata_limits.max_entry_byte_size
    &&& 1 <= cv.wsv.domain_metadata_limits.max_len
    &&& 1 <= cv.wsv.domain_metadata_limits.max_entry_byte_size
    &&& 1 <= cv.wsv.ident_length_limits.min
    &&& 1 <= cv.wsv.ident_length_limits.max
    &&& 1 <= cv.wsv.transaction_limits.max_instruction_number <= 0x7fff_ffff_ffff_ffff
    &&& 1 <= cv.wsv.transaction_limits.max_wasm_size_bytes <= 0x7fff_ffff_ffff_ffff
    &&& 1 <= cv.wsv.wasm_runtime.fuel_limit <= 0x7fff_ffff_ffff_ffff
    &&& 1 <= cv.wsv.wasm_runtime.max_memory
    &&& cv.telemetry.min_retry_period <= 0x7fff_ffff_ffff_ffff
}

} // verus!
