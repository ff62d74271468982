//! The input document, bound against the schema.
//!
//! A parsed document arrives as a flat list of dotted-path entries.
//! `bind` matches every entry against the schema's known paths, rejecting
//! any unrecognized key outright (a strict schema: typos are never silently
//! ignored), and collects each field's explicit value, the last occurrence
//! of a path winning.

use vstd::prelude::*;
use crate::value::{Value, ValueV, ConfigError, ErrV, opt_view, s_eq, clone_value};

verus! {

/// One entry of a parsed configuration document: a dotted field path and
/// the value written there.
#[derive(Clone, PartialEq, Eq, Debug)]
pub struct Entry {
    pub path: String,
    pub value: Value,
}

/// One binding of the process environment.
#[derive(Clone, PartialEq, Eq, Debug)]
pub struct EnvEntry {
    pub key: String,
    pub value: String,
}

/// The first environment value bound to `key`, if any.
pub open spec fn env_lookup(env: Seq<EnvEntry>, key: Seq<char>) -> Option<Seq<char>>
    decreases env.len(),
{
    if env.len() == 0 {
        None
    } else if env[0].key@ == key {
        Some(env[0].value@)
    } else {
        env_lookup(env.skip(1), key)
    }
}

/// Looks `key` up in the environment.
pub fn env_get(env: &Vec<EnvEntry>, key: &str) -> (r: Option<String>)
    ensures
        match r {
            Some(s) => env_lookup(env@, key@) == Some(s@),
            None => env_lookup(env@, key@) is None,
        },
{
    proof {
        assert(env@.skip(0) =~= env@);
    }
    let mut i: usize = 0;
    while i < env.len()
        invariant
            i <= env.len(),
            env_lookup(env@, key@) == env_lookup(env@.skip(i as int), key@),
        decreases env.len() - i,
    {
        proof {
            assert(env@.skip(i as int)[0] == env@[i as int]);
            assert(env@.skip(i as int).skip(1) =~= env@.skip(i as int + 1));
        }
        if s_eq(&env[i].key, key) {
            return Some(env[i].value.clone());
        }
        i = i + 1;
    }
    None
}

/// Every schema field's explicit document value, if one was written.
pub struct BoundDoc {
    pub public_key: Option<Value>,
    pub private_key: Option<Value>,
    pub disable_panic_terminal_colors: Option<Value>,
    pub kura_init_mode: Option<Value>,
    pub kura_block_store_path: Option<Value>,
    pub kura_blocks_per_storage: Option<Value>,
    pub kura_actor_channel_capacity: Option<Value>,
    pub kura_debug_output_new_blocks: Option<Value>,
    pub sumeragi_block_time_ms: Option<Value>,
    pub sumeragi_trusted_peers: Option<Value>,
    pub sumeragi_commit_time_limit_ms: Option<Value>,
    pub sumeragi_max_transactions_in_block: Option<Value>,
    pub sumeragi_actor_channel_capacity: Option<Value>,
    pub sumeragi_gossip_batch_size: Option<Value>,
    pub sumeragi_gossip_period_ms: Option<Value>,
    pub sumeragi_debug_force_soft_fork: Option<Value>,
    pub genesis_account_public_key: Option<Value>,
    pub genesis_account_private_key: Option<Value>,
    pub torii_addr_p2p: Option<Value>,
    pub torii_addr_api: Option<Value>,
    pub torii_addr_telemetry: Option<Value>,
    pub torii_max_transaction_size: Option<Value>,
    pub torii_max_content_len: Option<Value>,
    pub block_sync_gossip_period_ms: Option<Value>,
    pub block_sync_block_batch_size: Option<Value>,
    pub block_sync_actor_channel_capacity: Option<Value>,
    pub queue_max_transactions_in_queue: Option<Value>,
    pub queue_max_transactions_in_signature_buffer: Option<Value>,
    pub queue_transaction_time_to_live_ms: Option<Value>,
    pub queue_future_threshold_ms: Option<Value>,
    pub logger_log_level: Option<Value>,
    pub logger_telemetry_capacity: Option<Value>,
    pub logger_compact_mode: Option<Value>,
    pub logger_log_file_path: Option<Value>,
    pub logger_terminal_colors: Option<Value>,
    pub logger_tokio_console_addr: Option<Value>,
    pub wsv_asset_metadata_max_len: Option<Value>,
    pub wsv_asset_metadata_max_entry_byte_size: Option<Value>,
    pub wsv_asset_definition_metadata_max_len: Option<Value>,
    pub wsv_asset_definition_metadata_max_entry_byte_size: Option<Value>,
    pub wsv_account_metadata_max_len: Option<Value>,
    pub wsv_account_metadata_max_entry_byte_size: Option<Value>,
    pub wsv_domain_metadata_max_len: Option<Value>,
    pub wsv_domain_metadata_max_entry_byte_size: Option<Value>,
    pub wsv_ident_length_min: Option<Value>,
    pub wsv_ident_length_max: Option<Value>,
    pub wsv_tx_max_instruction_number: Option<Value>,
    pub wsv_tx_max_wasm_size_bytes: Option<Value>,
    pub wsv_wasm_fuel_limit: Option<Value>,
    pub wsv_wasm_max_memory: Option<Value>,
    pub network_actor_channel_capacity: Option<Value>,
    pub telemetry_name: Option<Value>,
    pub telemetry_url: Option<Value>,
    pub telemetry_min_retry_period: Option<Value>,
    pub telemetry_max_retry_delay_exponent: Option<Value>,
    pub telemetry_file: Option<Value>,
}

/// Mathematical view of a [`BoundDoc`].
pub struct BoundDocV {
    pub public_key: Option<ValueV>,
    pub private_key: Option<ValueV>,
    pub disable_panic_terminal_colors: Option<ValueV>,
    pub kura_init_mode: Option<ValueV>,
    pub kura_block_store_path: Option<ValueV>,
    pub kura_blocks_per_storage: Option<ValueV>,
    pub kura_actor_channel_capacity: Option<ValueV>,
    pub kura_debug_output_new_blocks: Option<ValueV>,
    pub sumeragi_block_time_ms: Option<ValueV>,
    pub sumeragi_trusted_peers: Option<ValueV>,
    pub sumeragi_commit_time_limit_ms: Option<ValueV>,
    pub sumeragi_max_transactions_in_block: Option<ValueV>,
    pub sumeragi_actor_channel_capacity: Option<ValueV>,
    pub sumeragi_gossip_batch_size: Option<ValueV>,
    pub sumeragi_gossip_period_ms: Option<ValueV>,
    pub sumeragi_debug_force_soft_fork: Option<ValueV>,
    pub genesis_account_public_key: Option<ValueV>,
    pub genesis_account_private_key: Option<ValueV>,
    pub torii_addr_p2p: Option<ValueV>,
    pub torii_addr_api: Option<ValueV>,
    pub torii_addr_telemetry: Option<ValueV>,
    pub torii_max_transaction_size: Option<ValueV>,
    pub torii_max_content_len: Option<ValueV>,
    pub block_sync_gossip_period_ms: Option<ValueV>,
    pub block_sync_block_batch_size: Option<ValueV>,
    pub block_sync_actor_channel_capacity: Option<ValueV>,
    pub queue_max_transactions_in_queue: Option<ValueV>,
    pub queue_max_transactions_in_signature_buffer: Option<ValueV>,
    pub queue_transaction_time_to_live_ms: Option<ValueV>,
    pub queue_future_threshold_ms: Option<ValueV>,
    pub logger_log_level: Option<ValueV>,
    pub logger_telemetry_capacity: Option<ValueV>,
    pub logger_compact_mode: Option<ValueV>,
    pub logger_log_file_path: Option<ValueV>,
    pub logger_terminal_colors: Option<ValueV>,
    pub logger_tokio_console_addr: Option<ValueV>,
    pub wsv_asset_metadata_max_len: Option<ValueV>,
    pub wsv_asset_metadata_max_entry_byte_size: Option<ValueV>,
    pub wsv_asset_definition_metadata_max_len: Option<ValueV>,
    pub wsv_asset_definition_metadata_max_entry_byte_size: Option<ValueV>,
    pub wsv_account_metadata_max_len: Option<ValueV>,
    pub wsv_account_metadata_max_entry_byte_size: Option<ValueV>,
    pub wsv_domain_metadata_max_len: Option<ValueV>,
    pub wsv_domain_metadata_max_entry_byte_size: Option<ValueV>,
    pub wsv_ident_length_min: Option<ValueV>,
    pub wsv_ident_length_max: Option<ValueV>,
    pub wsv_tx_max_instruction_number: Option<ValueV>,
    pub wsv_tx_max_wasm_size_bytes: Option<ValueV>,
    pub wsv_wasm_fuel_limit: Option<ValueV>,
    pub wsv_wasm_max_memory: Option<ValueV>,
    pub network_actor_channel_capacity: Option<ValueV>,
    pub telemetry_name: Option<ValueV>,
    pub telemetry_url: Option<ValueV>,
    pub telemetry_min_retry_period: Option<ValueV>,
    pub telemetry_max_retry_delay_exponent: Option<ValueV>,
    pub telemetry_file: Option<ValueV>,
}

impl View for BoundDoc {
    type V = BoundDocV;

    open spec fn view(&self) -> BoundDocV {
        BoundDocV {
            public_key: opt_view(self.public_key),
            private_key: opt_view(self.private_key),
            disable_panic_terminal_colors: opt_view(self.disable_panic_terminal_colors),
            kura_init_mode: opt_view(self.kura_init_mode),
            kura_block_store_path: opt_view(self.kura_block_store_path),
            kura_blocks_per_storage: opt_view(self.kura_blocks_per_storage),
            kura_actor_channel_capacity: opt_view(self.kura_actor_channel_capacity),
            kura_debug_output_new_blocks: opt_view(self.kura_debug_output_new_blocks),
            sumeragi_block_time_ms: opt_view(self.sumeragi_block_time_ms),
            sumeragi_trusted_peers: opt_view(self.sumeragi_trusted_peers),
            sumeragi_commit_time_limit_ms: opt_view(self.sumeragi_commit_time_limit_ms),
            sumeragi_max_transactions_in_block: opt_view(self.sumeragi_max_transactions_in_block),
            sumeragi_actor_channel_capacity: opt_view(self.sumeragi_actor_channel_capacity),
            sumeragi_gossip_batch_size: opt_view(self.sumeragi_gossip_batch_size),
            sumeragi_gossip_period_ms: opt_view(self.sumeragi_gossip_period_ms),
            sumeragi_debug_force_soft_fork: opt_view(self.sumeragi_debug_force_soft_fork),
            genesis_account_public_key: opt_view(self.genesis_account_public_key),
            genesis_account_private_key: opt_view(self.genesis_account_private_key),
            torii_addr_p2p: opt_view(self.torii_addr_p2p),
            torii_addr_api: opt_view(self.torii_addr_api),
            torii_addr_telemetry: opt_view(self.torii_addr_telemetry),
            torii_max_transaction_size: opt_view(self.torii_max_transaction_size),
            torii_max_content_len: opt_view(self.torii_max_content_len),
            block_sync_gossip_period_ms: opt_view(self.block_sync_gossip_period_ms),
            block_sync_block_batch_size: opt_view(self.block_sync_block_batch_size),
            block_sync_actor_channel_capacity: opt_view(self.block_sync_actor_channel_capacity),
            queue_max_transactions_in_queue: opt_view(self.queue_max_transactions_in_queue),
            queue_max_transactions_in_signature_buffer: opt_view(self.queue_max_transactions_in_signature_buffer),
            queue_transaction_time_to_live_ms: opt_view(self.queue_transaction_time_to_live_ms),
            queue_future_threshold_ms: opt_view(self.queue_future_threshold_ms),
            logger_log_level: opt_view(self.logger_log_level),
            logger_telemetry_capacity: opt_view(self.logger_telemetry_capacity),
            logger_compact_mode: opt_view(self.logger_compact_mode),
            logger_log_file_path: opt_view(self.logger_log_file_path),
            logger_terminal_colors: opt_view(self.logger_terminal_colors),
            logger_tokio_console_addr: opt_view(self.logger_tokio_console_addr),
            wsv_asset_metadata_max_len: opt_view(self.wsv_asset_metadata_max_len),
            wsv_asset_metadata_max_entry_byte_size: opt_view(self.wsv_asset_metadata_max_entry_byte_size),
            wsv_asset_definition_metadata_max_len: opt_view(self.wsv_asset_definition_metadata_max_len),
            wsv_asset_definition_metadata_max_entry_byte_size: opt_view(self.wsv_asset_definition_metadata_max_entry_byte_size),
            wsv_account_metadata_max_len: opt_view(self.wsv_account_metadata_max_len),
            wsv_account_metadata_max_entry_byte_size: opt_view(self.wsv_account_metadata_max_entry_byte_size),
            wsv_domain_metadata_max_len: opt_view(self.wsv_domain_metadata_max_len),
            wsv_domain_metadata_max_entry_byte_size: opt_view(self.wsv_domain_metadata_max_entry_byte_size),
            wsv_ident_length_min: opt_view(self.wsv_ident_length_min),
            wsv_ident_length_max: opt_view(self.wsv_ident_length_max),
            wsv_tx_max_instruction_number: opt_view(self.wsv_tx_max_instruction_number),
            wsv_tx_max_wasm_size_bytes: opt_view(self.wsv_tx_max_wasm_size_bytes),
            wsv_wasm_fuel_limit: opt_view(self.wsv_wasm_fuel_limit),
            wsv_wasm_max_memory: opt_view(self.wsv_wasm_max_memory),
            network_actor_channel_capacity: opt_view(self.network_actor_channel_capacity),
            telemetry_name: opt_view(self.telemetry_name),
            telemetry_url: opt_view(self.telemetry_url),
            telemetry_min_retry_period: opt_view(self.telemetry_min_retry_period),
            telemetry_max_retry_delay_exponent: opt_view(self.telemetry_max_retry_delay_exponent),
            telemetry_file: opt_view(self.telemetry_file),
        }
    }
}

/// The document that sets nothing.
pub open spec fn bound_none() -> BoundDocV {
    BoundDocV {
        public_key: None,
        private_key: None,
        disable_panic_terminal_colors: None,
        kura_init_mode: None,
        kura_block_store_path: None,
        kura_blocks_per_storage: None,
        kura_actor_channel_capacity: None,
        kura_debug_output_new_blocks: None,
        sumeragi_block_time_ms: None,
        sumeragi_trusted_peers: None,
        sumeragi_commit_time_limit_ms: None,
        sumeragi_max_transactions_in_block: None,
        sumeragi_actor_channel_capacity: None,
        sumeragi_gossip_batch_size: None,
        sumeragi_gossip_period_ms: None,
        sumeragi_debug_force_soft_fork: None,
        genesis_account_public_key: None,
        genesis_account_private_key: None,
        torii_addr_p2p: None,
        torii_addr_api: None,
        torii_addr_telemetry: None,
        torii_max_transaction_size: None,
        torii_max_content_len: None,
        block_sync_gossip_period_ms: None,
        block_sync_block_batch_size: None,
        block_sync_actor_channel_capacity: None,
        queue_max_transactions_in_queue: None,
        queue_max_transactions_in_signature_buffer: None,
        queue_transaction_time_to_live_ms: None,
        queue_future_threshold_ms: None,
        logger_log_level: None,
        logger_telemetry_capacity: None,
        logger_compact_mode: None,
        logger_log_file_path: None,
        logger_terminal_colors: None,
        logger_tokio_console_addr: None,
        wsv_asset_metadata_max_len: None,
        wsv_asset_metadata_max_entry_byte_size: None,
        wsv_asset_definition_metadata_max_len: None,
        wsv_asset_definition_metadata_max_entry_byte_size: None,
        wsv_account_metadata_max_len: None,
        wsv_account_metadata_max_entry_byte_size: None,
        wsv_domain_metadata_max_len: None,
        wsv_domain_metadata_max_entry_byte_size: None,
        wsv_ident_length_min: None,
        wsv_ident_length_max: None,
        wsv_tx_max_instruction_number: None,
        wsv_tx_max_wasm_size_bytes: None,
        wsv_wasm_fuel_limit: None,
        wsv_wasm_max_memory: None,
        network_actor_channel_capacity: None,
        telemetry_name: None,
        telemetry_url: None,
        telemetry_min_retry_period: None,
        telemetry_max_retry_delay_exponent: None,
        telemetry_file: None,
    }
}

impl BoundDoc {
    /// A document that sets nothing.
    pub fn empty() -> (b: BoundDoc)
        ensures
            b@ == bound_none(),
    {
        BoundDoc {
            public_key: None,
            private_key: None,
            disable_panic_terminal_colors: None,
            kura_init_mode: None,
            kura_block_store_path: None,
            kura_blocks_per_storage: None,
            kura_actor_channel_capacity: None,
            kura_debug_output_new_blocks: None,
            sumeragi_block_time_ms: None,
            sumeragi_trusted_peers: None,
            sumeragi_commit_time_limit_ms: None,
            sumeragi_max_transactions_in_block: None,
            sumeragi_actor_channel_capacity: None,
            sumeragi_gossip_batch_size: None,
            sumeragi_gossip_period_ms: None,
            sumeragi_debug_force_soft_fork: None,
            genesis_account_public_key: None,
            genesis_account_private_key: None,
            torii_addr_p2p: None,
            torii_addr_api: None,
            torii_addr_telemetry: None,
            torii_max_transaction_size: None,
            torii_max_content_len: None,
            block_sync_gossip_period_ms: None,
            block_sync_block_batch_size: None,
            block_sync_actor_channel_capacity: None,
            queue_max_transactions_in_queue: None,
            queue_max_transactions_in_signature_buffer: None,
            queue_transaction_time_to_live_ms: None,
            queue_future_threshold_ms: None,
            logger_log_level: None,
            logger_telemetry_capacity: None,
            logger_compact_mode: None,
            logger_log_file_path: None,
            logger_terminal_colors: None,
            logger_tokio_console_addr: None,
            wsv_asset_metadata_max_len: None,
            wsv_asset_metadata_max_entry_byte_size: None,
            wsv_asset_definition_metadata_max_len: None,
            wsv_asset_definition_metadata_max_entry_byte_size: None,
            wsv_account_metadata_max_len: None,
            wsv_account_metadata_max_entry_byte_size: None,
            wsv_domain_metadata_max_len: None,
            wsv_domain_metadata_max_entry_byte_size: None,
            wsv_ident_length_min: None,
            wsv_ident_length_max: None,
            wsv_tx_max_instruction_number: None,
            wsv_tx_max_wasm_size_bytes: None,
            wsv_wasm_fuel_limit: None,
            wsv_wasm_max_memory: None,
            network_actor_channel_capacity: None,
            telemetry_name: None,
            telemetry_url: None,
            telemetry_min_retry_period: None,
            telemetry_max_retry_delay_exponent: None,
            telemetry_file: None,
        }
    }
}

/// True when `p` addresses a field of this schema section.
pub open spec fn known_top(p: Seq<char>) -> bool {
    p == "public_key"@
        || p == "private_key"@
        || p == "disable_panic_terminal_colors"@
}

/// `b` with the section field addressed by `e.path`, if any, set to `e.value`.
pub open spec fn apply_top(b: BoundDocV, e: Entry) -> BoundDocV {
    BoundDocV {
        public_key: if e.path@ == "public_key"@ { Some(e.value@) } else { b.public_key },
        private_key: if e.path@ == "private_key"@ { Some(e.value@) } else { b.private_key },
        disable_panic_terminal_colors: if e.path@ == "disable_panic_terminal_colors"@ { Some(e.value@) } else { b.disable_panic_terminal_colors },
        ..b
    }
}

fn bind_top(b: &mut BoundDoc, e: &Entry) -> (known: bool)
    ensures
        final(b)@ == apply_top(old(b)@, *e),
        known == known_top(e.path@),
{
    let mut known: bool = false;
    if s_eq(&e.path, "public_key") {
        b.public_key = Some(clone_value(&e.value));
        known = true;
    }
    if s_eq(&e.path, "private_key") {
        b.private_key = Some(clone_value(&e.value));
        known = true;
    }
    if s_eq(&e.path, "disable_panic_terminal_colors") {
        b.disable_panic_terminal_colors = Some(clone_value(&e.value));
        known = true;
    }
    known
}

/// True when `p` addresses a field of this schema section.
pub open spec fn known_kura(p: Seq<char>) -> bool {
    p == "kura.init_mode"@
        || p == "kura.block_store_path"@
        || p == "kura.blocks_per_storage"@
        || p == "kura.actor_channel_capacity"@
        || p == "kura.debug_output_new_blocks"@
}

/// `b` with the section field addressed by `e.path`, if any, set to `e.value`.
pub open spec fn apply_kura(b: BoundDocV, e: Entry) -> BoundDocV {
    BoundDocV {
        kura_init_mode: if e.path@ == "kura.init_mode"@ { Some(e.value@) } else { b.kura_init_mode },
        kura_block_store_path: if e.path@ == "kura.block_store_path"@ { Some(e.value@) } else { b.kura_block_store_path },
        kura_blocks_per_storage: if e.path@ == "kura.blocks_per_storage"@ { Some(e.value@) } else { b.kura_blocks_per_storage },
        kura_actor_channel_capacity: if e.path@ == "kura.actor_channel_capacity"@ { Some(e.value@) } else { b.kura_actor_channel_capacity },
        kura_debug_output_new_blocks: if e.path@ == "kura.debug_output_new_blocks"@ { Some(e.value@) } else { b.kura_debug_output_new_blocks },
        ..b
    }
}

fn bind_kura(b: &mut BoundDoc, e: &Entry) -> (known: bool)
    ensures
        final(b)@ == apply_kura(old(b)@, *e),
        known == known_kura(e.path@),
{
    let mut known: bool = false;
    if s_eq(&e.path, "kura.init_mode") {
        b.kura_init_mode = Some(clone_value(&e.value));
        known = true;
    }
    if s_eq(&e.path, "kura.block_store_path") {
        b.kura_block_store_path = Some(clone_value(&e.value));
        known = true;
    }
    if s_eq(&e.path, "kura.blocks_per_storage") {
        b.kura_blocks_per_storage = Some(clone_value(&e.value));
        known = true;
    }
    if s_eq(&e.path, "kura.actor_channel_capacity") {
        b.kura_actor_channel_capacity = Some(clone_value(&e.value));
        known = true;
    }
    if s_eq(&e.path, "kura.debug_output_new_blocks") {
        b.kura_debug_output_new_blocks = Some(clone_value(&e.value));
        known = true;
    }
    known
}

/// True when `p` addresses a field of this schema section.
pub open spec fn known_sumeragi(p: Seq<char>) -> bool {
    p == "sumeragi.block_time_ms"@
        || p == "sumeragi.trusted_peers"@
        || p == "sumeragi.commit_time_limit_ms"@
        || p == "sumeragi.max_transactions_in_block"@
        || p == "sumeragi.actor_channel_capacity"@
        || p == "sumeragi.gossip_batch_size"@
        || p == "sumeragi.gossip_period_ms"@
        || p == "sumeragi.debug_force_soft_fork"@
}

/// `b` with the section field addressed by `e.path`, if any, set to `e.value`.
pub open spec fn apply_sumeragi(b: BoundDocV, e: Entry) -> BoundDocV {
    BoundDocV {
        sumeragi_block_time_ms: if e.path@ == "sumeragi.block_time_ms"@ { Some(e.value@) } else { b.sumeragi_block_time_ms },
        sumeragi_trusted_peers: if e.path@ == "sumeragi.trusted_peers"@ { Some(e.value@) } else { b.sumeragi_trusted_peers },
        sumeragi_commit_time_limit_ms: if e.path@ == "sumeragi.commit_time_limit_ms"@ { Some(e.value@) } else { b.sumeragi_commit_time_limit_ms },
        sumeragi_max_transactions_in_block: if e.path@ == "sumeragi.max_transactions_in_block"@ { Some(e.value@) } else { b.sumeragi_max_transactions_in_block },
        sumeragi_actor_channel_capacity: if e.path@ == "sumeragi.actor_channel_capacity"@ { Some(e.value@) } else { b.sumeragi_actor_channel_capacity },
        sumeragi_gossip_batch_size: if e.path@ == "sumeragi.gossip_batch_size"@ { Some(e.value@) } else { b.sumeragi_gossip_batch_size },
        sumeragi_gossip_period_ms: if e.path@ == "sumeragi.gossip_period_ms"@ { Some(e.value@) } else { b.sumeragi_gossip_period_ms },
        sumeragi_debug_force_soft_fork: if e.path@ == "sumeragi.debug_force_soft_fork"@ { Some(e.value@) } else { b.sumeragi_debug_force_soft_fork },
        ..b
    }
}

fn bind_sumeragi(b: &mut BoundDoc, e: &Entry) -> (known: bool)
    ensures
        final(b)@ == apply_sumeragi(old(b)@, *e),
        known == known_sumeragi(e.path@),
{
    let mut known: bool = false;
    if s_eq(&e.path, "sumeragi.block_time_ms") {
        b.sumeragi_block_time_ms = Some(clone_value(&e.value));
        known = true;
    }
    if s_eq(&e.path, "sumeragi.trusted_peers") {
        b.sumeragi_trusted_peers = Some(clone_value(&e.value));
        known = true;
    }
    if s_eq(&e.path, "sumeragi.commit_time_limit_ms") {
        b.sumeragi_commit_time_limit_ms = Some(clone_value(&e.value));
        known = true;
    }
    if s_eq(&e.path, "sumeragi.max_transactions_in_block") {
        b.sumeragi_max_transactions_in_block = Some(clone_value(&e.value));
        known = true;
    }
    if s_eq(&e.path, "sumeragi.actor_channel_capacity") {
        b.sumeragi_actor_channel_capacity = Some(clone_value(&e.value));
        known = true;
    }
    if s_eq(&e.path, "sumeragi.gossip_batch_size") {
        b.sumeragi_gossip_batch_size = Some(clone_value(&e.value));
        known = true;
    }
    if s_eq(&e.path, "sumeragi.gossip_period_ms") {
        b.sumeragi_gossip_period_ms = Some(clone_value(&e.value));
        known = true;
    }
    if s_eq(&e.path, "sumeragi.debug_force_soft_fork") {
        b.sumeragi_debug_force_soft_fork = Some(clone_value(&e.value));
        known = true;
    }
    known
}

/// True when `p` addresses a field of this schema section.
pub open spec fn known_genesis(p: Seq<char>) -> bool {
    p == "genesis.account_public_key"@
        || p == "genesis.account_private_key"@
}

/// `b` with the section field addressed by `e.path`, if any, set to `e.value`.
pub open spec fn apply_genesis(b: BoundDocV, e: Entry) -> BoundDocV {
    BoundDocV {
        genesis_account_public_key: if e.path@ == "genesis.account_public_key"@ { Some(e.value@) } else { b.genesis_account_public_key },
        genesis_account_private_key: if e.path@ == "genesis.account_private_key"@ { Some(e.value@) } else { b.genesis_account_private_key },
        ..b
    }
}

fn bind_genesis(b: &mut BoundDoc, e: &Entry) -> (known: bool)
    ensures
        final(b)@ == apply_genesis(old(b)@, *e),
        known == known_genesis(e.path@),
{
    let mut known: bool = false;
    if s_eq(&e.path, "genesis.account_public_key") {
        b.genesis_account_public_key = Some(clone_value(&e.value));
        known = true;
    }
    if s_eq(&e.path, "genesis.account_private_key") {
        b.genesis_account_private_key = Some(clone_value(&e.value));
        known = true;
    }
    known
}

/// True when `p` addresses a field of this schema section.
pub open spec fn known_torii(p: Seq<char>) -> bool {
    p == "torii.addr_p2p"@
        || p == "torii.addr_api"@
        || p == "torii.addr_telemetry"@
        || p == "torii.max_transaction_size"@
        || p == "torii.max_content_len"@
}

/// `b` with the section field addressed by `e.path`, if any, set to `e.value`.
pub open spec fn apply_torii(b: BoundDocV, e: Entry) -> BoundDocV {
    BoundDocV {
        torii_addr_p2p: if e.path@ == "torii.addr_p2p"@ { Some(e.value@) } else { b.torii_addr_p2p },
        torii_addr_api: if e.path@ == "torii.addr_api"@ { Some(e.value@) } else { b.torii_addr_api },
        torii_addr_telemetry: if e.path@ == "torii.addr_telemetry"@ { Some(e.value@) } else { b.torii_addr_telemetry },
        torii_max_transaction_size: if e.path@ == "torii.max_transaction_size"@ { Some(e.value@) } else { b.torii_max_transaction_size },
        torii_max_content_len: if e.path@ == "torii.max_content_len"@ { Some(e.value@) } else { b.torii_max_content_len },
        ..b
    }
}

fn bind_torii(b: &mut BoundDoc, e: &Entry) -> (known: bool)
    ensures
        final(b)@ == apply_torii(old(b)@, *e),
        known == known_torii(e.path@),
{
    let mut known: bool = false;
    if s_eq(&e.path, "torii.addr_p2p") {
        b.torii_addr_p2p = Some(clone_value(&e.value));
        known = true;
    }
    if s_eq(&e.path, "torii.addr_api") {
        b.torii_addr_api = Some(clone_value(&e.value));
        known = true;
    }
    if s_eq(&e.path, "torii.addr_telemetry") {
        b.torii_addr_telemetry = Some(clone_value(&e.value));
        known = true;
    }
    if s_eq(&e.path, "torii.max_transaction_size") {
        b.torii_max_transaction_size = Some(clone_value(&e.value));
        known = true;
    }
    if s_eq(&e.path, "torii.max_content_len") {
        b.torii_max_content_len = Some(clone_value(&e.value));
        known = true;
    }
    known
}

/// True when `p` addresses a field of this schema section.
pub open spec fn known_block_sync(p: Seq<char>) -> bool {
    p == "block_sync.gossip_period_ms"@
        || p == "block_sync.block_batch_size"@
        || p == "block_sync.actor_channel_capacity"@
}

/// `b` with the section field addressed by `e.path`, if any, set to `e.value`.
pub open spec fn apply_block_sync(b: BoundDocV, e: Entry) -> BoundDocV {
    BoundDocV {
        block_sync_gossip_period_ms: if e.path@ == "block_sync.gossip_period_ms"@ { Some(e.value@) } else { b.block_sync_gossip_period_ms },
        block_sync_block_batch_size: if e.path@ == "block_sync.block_batch_size"@ { Some(e.value@) } else { b.block_sync_block_batch_size },
        block_sync_actor_channel_capacity: if e.path@ == "block_sync.actor_channel_capacity"@ { Some(e.value@) } else { b.block_sync_actor_channel_capacity },
        ..b
    }
}

fn bind_block_sync(b: &mut BoundDoc, e: &Entry) -> (known: bool)
    ensures
        final(b)@ == apply_block_sync(old(b)@, *e),
        known == known_block_sync(e.path@),
{
    let mut known: bool = false;
    if s_eq(&e.path, "block_sync.gossip_period_ms") {
        b.block_sync_gossip_period_ms = Some(clone_value(&e.value));
        known = true;
    }
    if s_eq(&e.path, "block_sync.block_batch_size") {
        b.block_sync_block_batch_size = Some(clone_value(&e.value));
        known = true;
    }
    if s_eq(&e.path, "block_sync.actor_channel_capacity") {
        b.block_sync_actor_channel_capacity = Some(clone_value(&e.value));
        known = true;
    }
    known
}

/// True when `p` addresses a field of this schema section.
pub open spec fn known_queue(p: Seq<char>) -> bool {
    p == "queue.max_transactions_in_queue"@
        || p == "queue.max_transactions_in_signature_buffer"@
        || p == "queue.transaction_time_to_live_ms"@
        || p == "queue.future_threshold_ms"@
}

/// `b` with the section field addressed by `e.path`, if any, set to `e.value`.
pub open spec fn apply_queue(b: BoundDocV, e: Entry) -> BoundDocV {
    BoundDocV {
        queue_max_transactions_in_queue: if e.path@ == "queue.max_transactions_in_queue"@ { Some(e.value@) } else { b.queue_max_transactions_in_queue },
        queue_max_transactions_in_signature_buffer: if e.path@ == "queue.max_transactions_in_signature_buffer"@ { Some(e.value@) } else { b.queue_max_transactions_in_signature_buffer },
        queue_transaction_time_to_live_ms: if e.path@ == "queue.transaction_time_to_live_ms"@ { Some(e.value@) } else { b.queue_transaction_time_to_live_ms },
        queue_future_threshold_ms: if e.path@ == "queue.future_threshold_ms"@ { Some(e.value@) } else { b.queue_future_threshold_ms },
        ..b
    }
}

fn bind_queue(b: &mut BoundDoc, e: &Entry) -> (known: bool)
    ensures
        final(b)@ == apply_queue(old(b)@, *e),
        known == known_queue(e.path@),
{
    let mut known: bool = false;
    if s_eq(&e.path, "queue.max_transactions_in_queue") {
        b.queue_max_transactions_in_queue = Some(clone_value(&e.value));
        known = true;
    }
    if s_eq(&e.path, "queue.max_transactions_in_signature_buffer") {
        b.queue_max_transactions_in_signature_buffer = Some(clone_value(&e.value));
        known = true;
    }
    if s_eq(&e.path, "queue.transaction_time_to_live_ms") {
        b.queue_transaction_time_to_live_ms = Some(clone_value(&e.value));
        known = true;
    }
    if s_eq(&e.path, "queue.future_threshold_ms") {
        b.queue_future_threshold_ms = Some(clone_value(&e.value));
        known = true;
    }
    known
}

/// True when `p` addresses a field of this schema section.
pub open spec fn known_logger(p: Seq<char>) -> bool {
    p == "logger.log_level"@
        || p == "logger.telemetry_capacity"@
        || p == "logger.compact_mode"@
        || p == "logger.log_file_path"@
        || p == "logger.terminal_colors"@
        || p == "logger.tokio_console_addr"@
}

/// `b` with the section field addressed by `e.path`, if any, set to `e.value`.
pub open spec fn apply_logger(b: BoundDocV, e: Entry) -> BoundDocV {
    BoundDocV {
        logger_log_level: if e.path@ == "logger.log_level"@ { Some(e.value@) } else { b.logger_log_level },
        logger_telemetry_capacity: if e.path@ == "logger.telemetry_capacity"@ { Some(e.value@) } else { b.logger_telemetry_capacity },
        logger_compact_mode: if e.path@ == "logger.compact_mode"@ { Some(e.value@) } else { b.logger_compact_mode },
        logger_log_file_path: if e.path@ == "logger.log_file_path"@ { Some(e.value@) } else { b.logger_log_file_path },
        logger_terminal_colors: if e.path@ == "logger.terminal_colors"@ { Some(e.value@) } else { b.logger_terminal_colors },
        logger_tokio_console_addr: if e.path@ == "logger.tokio_console_addr"@ { Some(e.value@) } else { b.logger_tokio_console_addr },
        ..b
    }
}

fn bind_logger(b: &mut BoundDoc, e: &Entry) -> (known: bool)
    ensures
        final(b)@ == apply_logger(old(b)@, *e),
        known == known_logger(e.path@),
{
    let mut known: bool = false;
    if s_eq(&e.path, "logger.log_level") {
        b.logger_log_level = Some(clone_value(&e.value));
        known = true;
    }
    if s_eq(&e.path, "logger.telemetry_capacity") {
        b.logger_telemetry_capacity = Some(clone_value(&e.value));
        known = true;
    }
    if s_eq(&e.path, "logger.compact_mode") {
        b.logger_compact_mode = Some(clone_value(&e.value));
        known = true;
    }
    if s_eq(&e.path, "logger.log_file_path") {
        b.logger_log_file_path = Some(clone_value(&e.value));
        known = true;
    }
    if s_eq(&e.path, "logger.terminal_colors") {
        b.logger_terminal_colors = Some(clone_value(&e.value));
        known = true;
    }
    if s_eq(&e.path, "logger.tokio_console_addr") {
        b.logger_tokio_console_addr = Some(clone_value(&e.value));
        known = true;
    }
    known
}

/// True when `p` addresses a field of this schema section.
pub open spec fn known_wsv_meta(p: Seq<char>) -> bool {
    p == "wsv.asset_metadata_limits.max_len"@
        || p == "wsv.asset_metadata_limits.max_entry_byte_size"@
        || p == "wsv.asset_definition_metadata_limits.max_len"@
        || p == "wsv.asset_definition_metadata_limits.max_entry_byte_size"@
        || p == "wsv.account_metadata_limits.max_len"@
        || p == "wsv.account_metadata_limits.max_entry_byte_size"@
        || p == "wsv.domain_metadata_limits.max_len"@
        || p == "wsv.domain_metadata_limits.max_entry_byte_size"@
}

/// `b` with the section field addressed by `e.path`, if any, set to `e.value`.
pub open spec fn apply_wsv_meta(b: BoundDocV, e: Entry) -> BoundDocV {
    BoundDocV {
        wsv_asset_metadata_max_len: if e.path@ == "wsv.asset_metadata_limits.max_len"@ { Some(e.value@) } else { b.wsv_asset_metadata_max_len },
        wsv_asset_metadata_max_entry_byte_size: if e.path@ == "wsv.asset_metadata_limits.max_entry_byte_size"@ { Some(e.value@) } else { b.wsv_asset_metadata_max_entry_byte_size },
        wsv_asset_definition_metadata_max_len: if e.path@ == "wsv.asset_definition_metadata_limits.max_len"@ { Some(e.value@) } else { b.wsv_asset_definition_metadata_max_len },
        wsv_asset_definition_metadata_max_entry_byte_size: if e.path@ == "wsv.asset_definition_metadata_limits.max_entry_byte_size"@ { Some(e.value@) } else { b.wsv_asset_definition_metadata_max_entry_byte_size },
        wsv_account_metadata_max_len: if e.path@ == "wsv.account_metadata_limits.max_len"@ { Some(e.value@) } else { b.wsv_account_metadata_max_len },
        wsv_account_metadata_max_entry_byte_size: if e.path@ == "wsv.account_metadata_limits.max_entry_byte_size"@ { Some(e.value@) } else { b.wsv_account_metadata_max_entry_byte_size },
        wsv_domain_metadata_max_len: if e.path@ == "wsv.domain_metadata_limits.max_len"@ { Some(e.value@) } else { b.wsv_domain_metadata_max_len },
        wsv_domain_metadata_max_entry_byte_size: if e.path@ == "wsv.domain_metadata_limits.max_entry_byte_size"@ { Some(e.value@) } else { b.wsv_domain_metadata_max_entry_byte_size },
        ..b
    }
}

fn bind_wsv_meta(b: &mut BoundDoc, e: &Entry) -> (known: bool)
    ensures
        final(b)@ == apply_wsv_meta(old(b)@, *e),
        known == known_wsv_meta(e.path@),
{
    let mut known: bool = false;
    if s_eq(&e.path, "wsv.asset_metadata_limits.max_len") {
        b.wsv_asset_metadata_max_len = Some(clone_value(&e.value));
        known = true;
    }
    if s_eq(&e.path, "wsv.asset_metadata_limits.max_entry_byte_size") {
        b.wsv_asset_metadata_max_entry_byte_size = Some(clone_value(&e.value));
        known = true;
    }
    if s_eq(&e.path, "wsv.asset_definition_metadata_limits.max_len") {
        b.wsv_asset_definition_metadata_max_len = Some(clone_value(&e.value));
        known = true;
    }
    if s_eq(&e.path, "wsv.asset_definition_metadata_limits.max_entry_byte_size") {
        b.wsv_asset_definition_metadata_max_entry_byte_size = Some(clone_value(&e.value));
        known = true;
    }
    if s_eq(&e.path, "wsv.account_metadata_limits.max_len") {
        b.wsv_account_metadata_max_len = Some(clone_value(&e.value));
        known = true;
    }
    if s_eq(&e.path, "wsv.account_metadata_limits.max_entry_byte_size") {
        b.wsv_account_metadata_max_entry_byte_size = Some(clone_value(&e.value));
        known = true;
    }
    if s_eq(&e.path, "wsv.domain_metadata_limits.max_len") {
        b.wsv_domain_metadata_max_len = Some(clone_value(&e.value));
        known = true;
    }
    if s_eq(&e.path, "wsv.domain_metadata_limits.max_entry_byte_size") {
        b.wsv_domain_metadata_max_entry_byte_size = Some(clone_value(&e.value));
        known = true;
    }
    known
}

/// True when `p` addresses a field of this schema section.
pub open spec fn known_wsv_limits(p: Seq<char>) -> bool {
    p == "wsv.ident_length_limits.min"@
        || p == "wsv.ident_length_limits.max"@
        || p == "wsv.transaction_limits.max_instruction_number"@
        || p == "wsv.transaction_limits.max_wasm_size_bytes"@
        || p == "wsv.wasm_runtime.fuel_limit"@
        || p == "wsv.wasm_runtime.max_memory"@
}

/// `b` with the section field addressed by `e.path`, if any, set to `e.value`.
pub open spec fn apply_wsv_limits(b: BoundDocV, e: Entry) -> BoundDocV {
    BoundDocV {
        wsv_ident_length_min: if e.path@ == "wsv.ident_length_limits.min"@ { Some(e.value@) } else { b.wsv_ident_length_min },
        wsv_ident_length_max: if e.path@ == "wsv.ident_length_limits.max"@ { Some(e.value@) } else { b.wsv_ident_length_max },
        wsv_tx_max_instruction_number: if e.path@ == "wsv.transaction_limits.max_instruction_number"@ { Some(e.value@) } else { b.wsv_tx_max_instruction_number },
        wsv_tx_max_wasm_size_bytes: if e.path@ == "wsv.transaction_limits.max_wasm_size_bytes"@ { Some(e.value@) } else { b.wsv_tx_max_wasm_size_bytes },
        wsv_wasm_fuel_limit: if e.path@ == "wsv.wasm_runtime.fuel_limit"@ { Some(e.value@) } else { b.wsv_wasm_fuel_limit },
        wsv_wasm_max_memory: if e.path@ == "wsv.wasm_runtime.max_memory"@ { Some(e.value@) } else { b.wsv_wasm_max_memory },
        ..b
    }
}

fn bind_wsv_limits(b: &mut BoundDoc, e: &Entry) -> (known: bool)
    ensures
        final(b)@ == apply_wsv_limits(old(b)@, *e),
        known == known_wsv_limits(e.path@),
{
    let mut known: bool = false;
    if s_eq(&e.path, "wsv.ident_length_limits.min") {
        b.wsv_ident_length_min = Some(clone_value(&e.value));
        known = true;
    }
    if s_eq(&e.path, "wsv.ident_length_limits.max") {
        b.wsv_ident_length_max = Some(clone_value(&e.value));
        known = true;
    }
    if s_eq(&e.path, "wsv.transaction_limits.max_instruction_number") {
        b.wsv_tx_max_instruction_number = Some(clone_value(&e.value));
        known = true;
    }
    if s_eq(&e.path, "wsv.transaction_limits.max_wasm_size_bytes") {
        b.wsv_tx_max_wasm_size_bytes = Some(clone_value(&e.value));
        known = true;
    }
    if s_eq(&e.path, "wsv.wasm_runtime.fuel_limit") {
        b.wsv_wasm_fuel_limit = Some(clone_value(&e.value));
        known = true;
    }
    if s_eq(&e.path, "wsv.wasm_runtime.max_memory") {
        b.wsv_wasm_max_memory = Some(clone_value(&e.value));
        known = true;
    }
    known
}

/// True when `p` addresses a field of this schema section.
pub open spec fn known_network(p: Seq<char>) -> bool {
    p == "network.actor_channel_capacity"@
}

/// `b` with the section field addressed by `e.path`, if any, set to `e.value`.
pub open spec fn apply_network(b: BoundDocV, e: Entry) -> BoundDocV {
    BoundDocV {
        network_actor_channel_capacity: if e.path@ == "network.actor_channel_capacity"@ { Some(e.value@) } else { b.network_actor_channel_capacity },
        ..b
    }
}

fn bind_network(b: &mut BoundDoc, e: &Entry) -> (known: bool)
    ensures
        final(b)@ == apply_network(old(b)@, *e),
        known == known_network(e.path@),
{
    let mut known: bool = false;
    if s_eq(&e.path, "network.actor_channel_capacity") {
        b.network_actor_channel_capacity = Some(clone_value(&e.value));
        known = true;
    }
    known
}

/// True when `p` addresses a field of this schema section.
pub open spec fn known_telemetry(p: Seq<char>) -> bool {
    p == "telemetry.name"@
        || p == "telemetry.url"@
        || p == "telemetry.min_retry_period"@
        || p == "telemetry.max_retry_delay_exponent"@
        || p == "telemetry.file"@
}

/// `b` with the section field addressed by `e.path`, if any, set to `e.value`.
pub open spec fn apply_telemetry(b: BoundDocV, e: Entry) -> BoundDocV {
    BoundDocV {
        telemetry_name: if e.path@ == "telemetry.name"@ { Some(e.value@) } else { b.telemetry_name },
        telemetry_url: if e.path@ == "telemetry.url"@ { Some(e.value@) } else { b.telemetry_url },
        telemetry_min_retry_period: if e.path@ == "telemetry.min_retry_period"@ { Some(e.value@) } else { b.telemetry_min_retry_period },
        telemetry_max_retry_delay_exponent: if e.path@ == "telemetry.max_retry_delay_exponent"@ { Some(e.value@) } else { b.telemetry_max_retry_delay_exponent },
        telemetry_file: if e.path@ == "telemetry.file"@ { Some(e.value@) } else { b.telemetry_file },
        ..b
    }
}

fn bind_telemetry(b: &mut BoundDoc, e: &Entry) -> (known: bool)
    ensures
        final(b)@ == apply_telemetry(old(b)@, *e),
        known == known_telemetry(e.path@),
{
    let mut known: bool = false;
    if s_eq(&e.path, "telemetry.name") {
        b.telemetry_name = Some(clone_value(&e.value));
        known = true;
    }
    if s_eq(&e.path, "telemetry.url") {
        b.telemetry_url = Some(clone_value(&e.value));
        known = true;
    }
    if s_eq(&e.path, "telemetry.min_retry_period") {
        b.telemetry_min_retry_period = Some(clone_value(&e.value));
        known = true;
    }
    if s_eq(&e.path, "telemetry.max_retry_delay_exponent") {
        b.telemetry_max_retry_delay_exponent = Some(clone_value(&e.value));
        known = true;
    }
    if s_eq(&e.path, "telemetry.file") {
        b.telemetry_file = Some(clone_value(&e.value));
        known = true;
    }
    known
}

/// True when `p` is the dotted path of a schema field.
pub open spec fn known_path(p: Seq<char>) -> bool {
    known_top(p)
        || known_kura(p)
        || known_sumeragi(p)
        || known_genesis(p)
        || known_torii(p)
        || known_block_sync(p)
        || known_queue(p)
        || known_logger(p)
        || known_wsv_meta(p)
        || known_wsv_limits(p)
        || known_network(p)
        || known_telemetry(p)
}

/// `b` with the field addressed by `e.path` set to `e.value`; an entry
/// whose path matches no field leaves `b` unchanged.
pub open spec fn apply_entry(b: BoundDocV, e: Entry) -> BoundDocV {
    apply_telemetry(apply_network(apply_wsv_limits(apply_wsv_meta(apply_logger(apply_queue(apply_block_sync(apply_torii(apply_genesis(apply_sumeragi(apply_kura(apply_top(b, e), e), e), e), e), e), e), e), e), e), e), e)
}

/// Binds one entry, returning whether its path is a known schema path.
fn bind_entry(b: &mut BoundDoc, e: &Entry) -> (known: bool)
    ensures
        final(b)@ == apply_entry(old(b)@, *e),
        known == known_path(e.path@),
{
    let mut known: bool = false;
    if bind_top(b, e) {
        known = true;
    }
    if bind_kura(b, e) {
        known = true;
    }
    if bind_sumeragi(b, e) {
        known = true;
    }
    if bind_genesis(b, e) {
        known = true;
    }
    if bind_torii(b, e) {
        known = true;
    }
    if bind_block_sync(b, e) {
        known = true;
    }
    if bind_queue(b, e) {
        known = true;
    }
    if bind_logger(b, e) {
        known = true;
    }
    if bind_wsv_meta(b, e) {
        known = true;
    }
    if bind_wsv_limits(b, e) {
        known = true;
    }
    if bind_network(b, e) {
        known = true;
    }
    if bind_telemetry(b, e) {
        known = true;
    }
    known
}

/// The document that results from applying every entry in order to the
/// empty document; later occurrences of a path overwrite earlier ones.
pub open spec fn bind_fold(doc: Seq<Entry>) -> BoundDocV
    decreases doc.len(),
{
    if doc.len() == 0 {
        bound_none()
    } else {
        apply_entry(bind_fold(doc.drop_last()), doc.last())
    }
}

/// Binds a parsed document against the schema. Fails with `UnknownField`
/// on the first entry whose path matches no schema node; otherwise the
/// result holds, for every field, the last value the document wrote to it.
pub fn bind(doc: &Vec<Entry>) -> (r: Result<BoundDoc, ConfigError>)
    ensures
        match r {
            Ok(b) => b@ == bind_fold(doc@) && (forall|j: int|
                0 <= j < doc@.len() ==> known_path(#[trigger] doc@[j].path@)),
            Err(e) => exists|j: int|
                0 <= j < doc@.len() && !known_path(#[trigger] doc@[j].path@) && e@
                    == ErrV::UnknownField(doc@[j].path@) && (forall|k: int|
                    0 <= k < j ==> known_path(#[trigger] doc@[k].path@)),
        },
{
    let mut b = BoundDoc::empty();
    let mut i: usize = 0;
    while i < doc.len()
        invariant
            i <= doc.len(),
            b@ == bind_fold(doc@.take(i as int)),
            forall|k: int| 0 <= k < i ==> known_path(#[trigger] doc@[k].path@),
        decreases doc.len() - i,
    {
        let known = bind_entry(&mut b, &doc[i]);
        if !known {
            return Err(ConfigError::UnknownField { path: doc[i].path.clone() });
        }
        proof {
            assert(doc@.take(i as int + 1).drop_last() =~= doc@.take(i as int));
            assert(doc@.take(i as int + 1).last() == doc@[i as int]);
        }
        i = i + 1;
    }
    proof {
        assert(doc@.take(doc@.len() as int) =~= doc@);
    }
    Ok(b)
}

} // verus!
