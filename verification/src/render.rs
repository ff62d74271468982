//! The canonical serializer: renders a resolved tree back into the
//! canonical document (for re-resolution) and into deterministic text, in
//! the schema's declared field order. The deprecated terminal-colours flag
//! is omitted from both, as are optional fields that resolved to nothing.

use vstd::prelude::*;
use vstd::string::StringExecFns;
use crate::value::{Value, ValueV, Peer, PeerV, LogLevel, KuraInitMode, log_level_str,
    init_mode_str, log_level_name, init_mode_name, clone_peers};
use crate::ports::{dec_of, dec_u64};
use crate::doc::{BoundDoc, BoundDocV};
use crate::tree::{Iroha, IrohaV, wf};

verus! {

/// The canonical document of a resolved tree: every field explicit.
pub open spec fn render_doc_spec(cv: IrohaV) -> BoundDocV {
    BoundDocV {
        public_key: Some(ValueV::S(cv.public_key)),
        private_key: Some(ValueV::S(cv.private_key)),
        disable_panic_terminal_colors: None,
        kura_init_mode: Some(ValueV::S(init_mode_str(cv.kura.init_mode))),
        kura_block_store_path: Some(ValueV::S(cv.kura.block_store_path)),
        kura_blocks_per_storage: Some(ValueV::I(cv.kura.blocks_per_storage as int)),
        kura_actor_channel_capacity: Some(ValueV::I(cv.kura.actor_channel_capacity as int)),
        kura_debug_output_new_blocks: Some(ValueV::B(cv.kura.debug_output_new_blocks)),
        sumeragi_block_time_ms: Some(ValueV::I(cv.sumeragi.block_time_ms as int)),
        sumeragi_trusted_peers: Some(ValueV::Peers(cv.sumeragi.trusted_peers)),
        sumeragi_commit_time_limit_ms: Some(ValueV::I(cv.sumeragi.commit_time_limit_ms as int)),
        sumeragi_max_transactions_in_block: Some(ValueV::I(cv.sumeragi.max_transactions_in_block as int)),
        sumeragi_actor_channel_capacity: Some(ValueV::I(cv.sumeragi.actor_channel_capacity as int)),
        sumeragi_gossip_batch_size: Some(ValueV::I(cv.sumeragi.gossip_batch_size as int)),
        sumeragi_gossip_period_ms: Some(ValueV::I(cv.sumeragi.gossip_period_ms as int)),
        sumeragi_debug_force_soft_fork: Some(ValueV::B(cv.sumeragi.debug_force_soft_fork)),
        genesis_account_public_key: Some(ValueV::S(cv.genesis.account_public_key)),
        genesis_account_private_key: Some(ValueV::S(cv.genesis.account_private_key)),
        torii_addr_p2p: Some(ValueV::S(cv.torii.addr_p2p)),
        torii_addr_api: Some(ValueV::S(cv.torii.addr_api)),
        torii_addr_telemetry: Some(ValueV::S(cv.torii.addr_telemetry)),
        torii_max_transaction_size: Some(ValueV::I(cv.torii.max_transaction_size as int)),
        torii_max_content_len: Some(ValueV::I(cv.torii.max_content_len as int)),
        block_sync_gossip_period_ms: Some(ValueV::I(cv.block_sync.gossip_period_ms as int)),
        block_sync_block_batch_size: Some(ValueV::I(cv.block_sync.block_batch_size as int)),
        block_sync_actor_channel_capacity: Some(ValueV::I(cv.block_sync.actor_channel_capacity as int)),
        queue_max_transactions_in_queue: Some(ValueV::I(cv.queue.max_transactions_in_queue as int)),
        queue_max_transactions_in_signature_buffer: Some(ValueV::I(cv.queue.max_transactions_in_signature_buffer as int)),
        queue_transaction_time_to_live_ms: Some(ValueV::I(cv.queue.transaction_time_to_live_ms as int)),
        queue_future_threshold_ms: Some(ValueV::I(cv.queue.future_threshold_ms as int)),
        logger_log_level: Some(ValueV::S(log_level_str(cv.logger.log_level))),
        logger_telemetry_capacity: Some(ValueV::I(cv.logger.telemetry_capacity as int)),
        logger_compact_mode: Some(ValueV::B(cv.logger.compact_mode)),
        logger_log_file_path: match cv.logger.log_file_path { Some(s) => Some(ValueV::S(s)), None => None },
        logger_terminal_colors: Some(ValueV::B(cv.logger.terminal_colors)),
        logger_tokio_console_addr: match cv.logger.tokio_console_addr { Some(s) => Some(ValueV::S(s)), None => None },
        wsv_asset_metadata_max_len: Some(ValueV::I(cv.wsv.asset_metadata_limits.max_len as int)),
        wsv_asset_metadata_max_entry_byte_size: Some(ValueV::I(cv.wsv.asset_metadata_limits.max_entry_byte_size as int)),
        wsv_asset_definition_metadata_max_len: Some(ValueV::I(cv.wsv.asset_definition_metadata_limits.max_len as int)),
        wsv_asset_definition_metadata_max_entry_byte_size: Some(ValueV::I(cv.wsv.asset_definition_metadata_limits.max_entry_byte_size as int)),
        wsv_account_metadata_max_len: Some(ValueV::I(cv.wsv.account_metadata_limits.max_len as int)),
        wsv_account_metadata_max_entry_byte_size: Some(ValueV::I(cv.wsv.account_metadata_limits.max_entry_byte_size as int)),
        wsv_domain_metadata_max_len: Some(ValueV::I(cv.wsv.domain_metadata_limits.max_len as int)),
        wsv_domain_metadata_max_entry_byte_size: Some(ValueV::I(cv.wsv.domain_metadata_limits.max_entry_byte_size as int)),
        wsv_ident_length_min: Some(ValueV::I(cv.wsv.ident_length_limits.min as int)),
        wsv_ident_length_max: Some(ValueV::I(cv.wsv.ident_length_limits.max as int)),
        wsv_tx_max_instruction_number: Some(ValueV::I(cv.wsv.transaction_limits.max_instruction_number as int)),
        wsv_tx_max_wasm_size_bytes: Some(ValueV::I(cv.wsv.transaction_limits.max_wasm_size_bytes as int)),
        wsv_wasm_fuel_limit: Some(ValueV::I(cv.wsv.wasm_runtime.fuel_limit as int)),
        wsv_wasm_max_memory: Some(ValueV::I(cv.wsv.wasm_runtime.max_memory as int)),
        network_actor_channel_capacity: Some(ValueV::I(cv.network.actor_channel_capacity as int)),
        telemetry_name: match cv.telemetry.name { Some(s) => Some(ValueV::S(s)), None => None },
        telemetry_url: match cv.telemetry.url { Some(s) => Some(ValueV::S(s)), None => None },
        telemetry_min_retry_period: Some(ValueV::I(cv.telemetry.min_retry_period as int)),
        telemetry_max_retry_delay_exponent: Some(ValueV::I(cv.telemetry.max_retry_delay_exponent as int)),
        telemetry_file: match cv.telemetry.file { Some(s) => Some(ValueV::S(s)), None => None },
    }
}

/// Renders a resolved tree as the canonical document.
#[verifier::rlimit(100)]
pub fn render_doc(c: &Iroha) -> (b: BoundDoc)
    requires
        wf(c@),
    ensures
        b@ == render_doc_spec(c@),
{
    BoundDoc {
        public_key: Some(Value::S(c.public_key.clone())),
        private_key: Some(Value::S(c.private_key.clone())),
        disable_panic_terminal_colors: None,
        kura_init_mode: Some(Value::S(init_mode_name(c.kura.init_mode).to_owned())),
        kura_block_store_path: Some(Value::S(c.kura.block_store_path.clone())),
        kura_blocks_per_storage: Some(Value::I(c.kura.blocks_per_storage as i64)),
        kura_actor_channel_capacity: Some(Value::I(c.kura.actor_channel_capacity as i64)),
        kura_debug_output_new_blocks: Some(Value::B(c.kura.debug_output_new_blocks)),
        sumeragi_block_time_ms: Some(Value::I(c.sumeragi.block_time_ms as i64)),
        sumeragi_trusted_peers: Some(Value::Peers(clone_peers(&c.sumeragi.trusted_peers))),
        sumeragi_commit_time_limit_ms: Some(Value::I(c.sumeragi.commit_time_limit_ms as i64)),
        sumeragi_max_transactions_in_block: Some(Value::I(c.sumeragi.max_transactions_in_block as i64)),
        sumeragi_actor_channel_capacity: Some(Value::I(c.sumeragi.actor_channel_capacity as i64)),
        sumeragi_gossip_batch_size: Some(Value::I(c.sumeragi.gossip_batch_size as i64)),
        sumeragi_gossip_period_ms: Some(Value::I(c.sumeragi.gossip_period_ms as i64)),
        sumeragi_debug_force_soft_fork: Some(Value::B(c.sumeragi.debug_force_soft_fork)),
        genesis_account_public_key: Some(Value::S(c.genesis.account_public_key.clone())),
        genesis_account_private_key: Some(Value::S(c.genesis.account_private_key.clone())),
        torii_addr_p2p: Some(Value::S(c.torii.addr_p2p.clone())),
        torii_addr_api: Some(Value::S(c.torii.addr_api.clone())),
        torii_addr_telemetry: Some(Value::S(c.torii.addr_telemetry.clone())),
        torii_max_transaction_size: Some(Value::I(c.torii.max_transaction_size as i64)),
        torii_max_content_len: Some(Value::I(c.torii.max_content_len as i64)),
        block_sync_gossip_period_ms: Some(Value::I(c.block_sync.gossip_period_ms as i64)),
        block_sync_block_batch_size: Some(Value::I(c.block_sync.block_batch_size as i64)),
        block_sync_actor_channel_capacity: Some(Value::I(c.block_sync.actor_channel_capacity as i64)),
        queue_max_transactions_in_queue: Some(Value::I(c.queue.max_transactions_in_queue as i64)),
        queue_max_transactions_in_signature_buffer: Some(Value::I(c.queue.max_transactions_in_signature_buffer as i64)),
        queue_transaction_time_to_live_ms: Some(Value::I(c.queue.transaction_time_to_live_ms as i64)),
        queue_future_threshold_ms: Some(Value::I(c.queue.future_threshold_ms as i64)),
        logger_log_level: Some(Value::S(log_level_name(c.logger.log_level).to_owned())),
        logger_telemetry_capacity: Some(Value::I(c.logger.telemetry_capacity as i64)),
        logger_compact_mode: Some(Value::B(c.logger.compact_mode)),
        logger_log_file_path: match &c.logger.log_file_path {
            Some(s) => Some(Value::S(s.clone())),
            None => None,
        },
        logger_terminal_colors: Some(Value::B(c.logger.terminal_colors)),
        logger_tokio_console_addr: match &c.logger.tokio_console_addr {
            Some(s) => Some(Value::S(s.clone())),
            None => None,
        },
        wsv_asset_metadata_max_len: Some(Value::I(c.wsv.asset_metadata_limits.max_len as i64)),
        wsv_asset_metadata_max_entry_byte_size: Some(Value::I(c.wsv.asset_metadata_limits.max_entry_byte_size as i64)),
        wsv_asset_definition_metadata_max_len: Some(Value::I(c.wsv.asset_definition_metadata_limits.max_len as i64)),
        wsv_asset_definition_metadata_max_entry_byte_size: Some(Value::I(c.wsv.asset_definition_metadata_limits.max_entry_byte_size as i64)),
        wsv_account_metadata_max_len: Some(Value::I(c.wsv.account_metadata_limits.max_len as i64)),
        wsv_account_metadata_max_entry_byte_size: Some(Value::I(c.wsv.account_metadata_limits.max_entry_byte_size as i64)),
        wsv_domain_metadata_max_len: Some(Value::I(c.wsv.domain_metadata_limits.max_len as i64)),
        wsv_domain_metadata_max_entry_byte_size: Some(Value::I(c.wsv.domain_metadata_limits.max_entry_byte_size as i64)),
        wsv_ident_length_min: Some(Value::I(c.wsv.ident_length_limits.min as i64)),
        wsv_ident_length_max: Some(Value::I(c.wsv.ident_length_limits.max as i64)),
        wsv_tx_max_instruction_number: Some(Value::I(c.wsv.transaction_limits.max_instruction_number as i64)),
        wsv_tx_max_wasm_size_bytes: Some(Value::I(c.wsv.transaction_limits.max_wasm_size_bytes as i64)),
        wsv_wasm_fuel_limit: Some(Value::I(c.wsv.wasm_runtime.fuel_limit as i64)),
        wsv_wasm_max_memory: Some(Value::I(c.wsv.wasm_runtime.max_memory as i64)),
        network_actor_channel_capacity: Some(Value::I(c.network.actor_channel_capacity as i64)),
        telemetry_name: match &c.telemetry.name {
            Some(s) => Some(Value::S(s.clone())),
            None => None,
        },
        telemetry_url: match &c.telemetry.url {
            Some(s) => Some(Value::S(s.clone())),
            None => None,
        },
        telemetry_min_retry_period: Some(Value::I(c.telemetry.min_retry_period as i64)),
        telemetry_max_retry_delay_exponent: Some(Value::I(c.telemetry.max_retry_delay_exponent as i64)),
        telemetry_file: match &c.telemetry.file {
            Some(s) => Some(Value::S(s.clone())),
            None => None,
        },
    }
}

/// One `key = <integer>` line.
pub open spec fn kv_int(key: Seq<char>, v: int) -> Seq<char> {
    key + " = "@ + dec_of(v as nat) + "\n"@
}

/// One `key = "text"` line.
pub open spec fn kv_str(key: Seq<char>, s: Seq<char>) -> Seq<char> {
    key + " = \""@ + s + "\"\n"@
}

/// One `key = true|false` line.
pub open spec fn kv_bool(key: Seq<char>, b: bool) -> Seq<char> {
    key + " = "@ + (if b { "true"@ } else { "false"@ }) + "\n"@
}

/// A line for a set optional field; nothing for an absent one.
pub open spec fn kv_opt(key: Seq<char>, o: Option<Seq<char>>) -> Seq<char> {
    match o {
        Some(s) => kv_str(key, s),
        None => Seq::empty(),
    }
}

/// One peer as an inline table.
pub open spec fn peer_text(p: PeerV) -> Seq<char> {
    "{ address = \""@ + p.address + "\", public_key = \""@ + p.public_key + "\" }"@
}

/// The peers joined with commas.
pub open spec fn peers_items(ps: Seq<PeerV>) -> Seq<char>
    decreases ps.len(),
{
    if ps.len() == 0 {
        Seq::empty()
    } else if ps.len() == 1 {
        peer_text(ps[0])
    } else {
        peers_items(ps.drop_last()) + ", "@ + peer_text(ps.last())
    }
}

/// One `key = [peers]` line.
pub open spec fn kv_peers(key: Seq<char>, ps: Seq<PeerV>) -> Seq<char> {
    key + " = ["@ + peers_items(ps) + "]\n"@
}

/// Appends `key = <integer>` to `out`.
fn push_kv_int(out: &mut String, key: &str, v: u64)
    ensures
        final(out)@ == old(out)@ + kv_int(key@, v as int),
{
    out.append(key);
    out.append(" = ");
    let d = dec_u64(v);
    out.append(d.as_str());
    out.append("\n");
    proof {
        assert(out@ =~= old(out)@ + kv_int(key@, v as int));
    }
}

/// Appends `key = "text"` to `out`.
fn push_kv_str(out: &mut String, key: &str, s: &str)
    ensures
        final(out)@ == old(out)@ + kv_str(key@, s@),
{
    out.append(key);
    out.append(" = \"");
    out.append(s);
    out.append("\"\n");
    proof {
        assert(out@ =~= old(out)@ + kv_str(key@, s@));
    }
}

/// Appends `key = true|false` to `out`.
fn push_kv_bool(out: &mut String, key: &str, b: bool)
    ensures
        final(out)@ == old(out)@ + kv_bool(key@, b),
{
    out.append(key);
    out.append(" = ");
    if b {
        out.append("true");
    } else {
        out.append("false");
    }
    out.append("\n");
    proof {
        assert(out@ =~= old(out)@ + kv_bool(key@, b));
    }
}

/// Appends a line for a set optional field, nothing for an absent one.
fn push_kv_opt(out: &mut String, key: &str, o: &Option<String>)
    ensures
        final(out)@ == old(out)@ + kv_opt(
            key@,
            match *o {
                Some(s) => Some(s@),
                None => None,
            },
        ),
{
    match o {
        Some(s) => {
            push_kv_str(out, key, s.as_str());
        },
        None => {
            proof {
                assert(out@ =~= old(out)@ + Seq::<char>::empty());
            }
        },
    }
}

/// Appends `key = [peers]` to `out`.
fn push_kv_peers(out: &mut String, key: &str, ps: &Vec<Peer>)
    ensures
        final(out)@ == old(out)@ + kv_peers(key@, ps@.map_values(|p: Peer| p@)),
{
    out.append(key);
    out.append(" = [");
    let ghost base = out@;
    let mut i: usize = 0;
    while i < ps.len()
        invariant
            i <= ps.len(),
            out@ == base + peers_items(ps@.take(i as int).map_values(|p: Peer| p@)),
        decreases ps.len() - i,
    {
        if i > 0 {
            out.append(", ");
        }
        out.append("{ address = \"");
        out.append(ps[i].address.as_str());
        out.append("\", public_key = \"");
        out.append(ps[i].public_key.as_str());
        out.append("\" }");
        proof {
            let m = ps@.take(i as int + 1).map_values(|p: Peer| p@);
            assert(ps@.take(i as int + 1).drop_last() =~= ps@.take(i as int));
            assert(m.drop_last() =~= ps@.take(i as int).map_values(|p: Peer| p@));
            assert(m.last() == ps@[i as int]@);
            if i == 0 {
                assert(out@ =~= base + peers_items(m));
            } else {
                assert(out@ =~= base + peers_items(m));
            }
        }
        i = i + 1;
    }
    out.append("]\n");
    proof {
        assert(ps@.take(ps@.len() as int) =~= ps@);
        assert(out@ =~= old(out)@ + kv_peers(key@, ps@.map_values(|p: Peer| p@)));
    }
}

/// The canonical text of a resolved tree.
pub open spec fn render_text_spec(cv: IrohaV) -> Seq<char> {
    kv_str("public_key"@, cv.public_key)
        + kv_str("private_key"@, cv.private_key)
        + "\n[kura]\n"@
        + kv_str("init_mode"@, init_mode_str(cv.kura.init_mode))
        + kv_str("block_store_path"@, cv.kura.block_store_path)
        + kv_int("blocks_per_storage"@, cv.kura.blocks_per_storage as int)
        + kv_int("actor_channel_capacity"@, cv.kura.actor_channel_capacity as int)
        + kv_bool("debug_output_new_blocks"@, cv.kura.debug_output_new_blocks)
        + "\n[sumeragi]\n"@
        + kv_int("block_time_ms"@, cv.sumeragi.block_time_ms as int)
        + kv_peers("trusted_peers"@, cv.sumeragi.trusted_peers)
        + kv_int("commit_time_limit_ms"@, cv.sumeragi.commit_time_limit_ms as int)
        + kv_int("max_transactions_in_block"@, cv.sumeragi.max_transactions_in_block as int)
        + kv_int("actor_channel_capacity"@, cv.sumeragi.actor_channel_capacity as int)
        + kv_int("gossip_batch_size"@, cv.sumeragi.gossip_batch_size as int)
        + kv_int("gossip_period_ms"@, cv.sumeragi.gossip_period_ms as int)
        + kv_bool("debug_force_soft_fork"@, cv.sumeragi.debug_force_soft_fork)
        + "\n[genesis]\n"@
        + kv_str("account_public_key"@, cv.genesis.account_public_key)
        + kv_str("account_private_key"@, cv.genesis.account_private_key)
        + "\n[torii]\n"@
        + kv_str("addr_p2p"@, cv.torii.addr_p2p)
        + kv_str("addr_api"@, cv.torii.addr_api)
        + kv_str("addr_telemetry"@, cv.torii.addr_telemetry)
        + kv_int("max_transaction_size"@, cv.torii.max_transaction_size as int)
        + kv_int("max_content_len"@, cv.torii.max_content_len as int)
        + "\n[block_sync]\n"@
        + kv_int("gossip_period_ms"@, cv.block_sync.gossip_period_ms as int)
        + kv_int("block_batch_size"@, cv.block_sync.block_batch_size as int)
        + kv_int("actor_channel_capacity"@, cv.block_sync.actor_channel_capacity as int)
        + "\n[queue]\n"@
        + kv_int("max_transactions_in_queue"@, cv.queue.max_transactions_in_queue as int)
        + kv_int("max_transactions_in_signature_buffer"@, cv.queue.max_transactions_in_signature_buffer as int)
        + kv_int("transaction_time_to_live_ms"@, cv.queue.transaction_time_to_live_ms as int)
        + kv_int("future_threshold_ms"@, cv.queue.future_threshold_ms as int)
        + "\n[logger]\n"@
        + kv_str("log_level"@, log_level_str(cv.logger.log_level))
        + kv_int("telemetry_capacity"@, cv.logger.telemetry_capacity as int)
        + kv_bool("compact_mode"@, cv.logger.compact_mode)
        + kv_opt("log_file_path"@, cv.logger.log_file_path)
        + kv_bool("terminal_colors"@, cv.logger.terminal_colors)
        + kv_opt("tokio_console_addr"@, cv.logger.tokio_console_addr)
        + "\n[wsv.asset_metadata_limits]\n"@
        + kv_int("max_len"@, cv.wsv.asset_metadata_limits.max_len as int)
        + kv_int("max_entry_byte_size"@, cv.wsv.asset_metadata_limits.max_entry_byte_size as int)
        + "\n[wsv.asset_definition_metadata_limits]\n"@
        + kv_int("max_len"@, cv.wsv.asset_definition_metadata_limits.max_len as int)
        + kv_int("max_entry_byte_size"@, cv.wsv.asset_definition_metadata_limits.max_entry_byte_size as int)
        + "\n[wsv.account_metadata_limits]\n"@
        + kv_int("max_len"@, cv.wsv.account_metadata_limits.max_len as int)
        + kv_int("max_entry_byte_size"@, cv.wsv.account_metadata_limits.max_entry_byte_size as int)
        + "\n[wsv.domain_metadata_limits]\n"@
        + kv_int("max_len"@, cv.wsv.domain_metadata_limits.max_len as int)
        + kv_int("max_entry_byte_size"@, cv.wsv.domain_metadata_limits.max_entry_byte_size as int)
        + "\n[wsv.ident_length_limits]\n"@
        + kv_int("min"@, cv.wsv.ident_length_limits.min as int)
        + kv_int("max"@, cv.wsv.ident_length_limits.max as int)
        + "\n[wsv.transaction_limits]\n"@
        + kv_int("max_instruction_number"@, cv.wsv.transaction_limits.max_instruction_number as int)
        + kv_int("max_wasm_size_bytes"@, cv.wsv.transaction_limits.max_wasm_size_bytes as int)
        + "\n[wsv.wasm_runtime]\n"@
        + kv_int("fuel_limit"@, cv.wsv.wasm_runtime.fuel_limit as int)
        + kv_int("max_memory"@, cv.wsv.wasm_runtime.max_memory as int)
        + "\n[network]\n"@
        + kv_int("actor_channel_capacity"@, cv.network.actor_channel_capacity as int)
        + "\n[telemetry]\n"@
        + kv_opt("name"@, cv.telemetry.name)
        + kv_opt("url"@, cv.telemetry.url)
        + kv_int("min_retry_period"@, cv.telemetry.min_retry_period as int)
        + kv_int("max_retry_delay_exponent"@, cv.telemetry.max_retry_delay_exponent as int)
        + kv_opt("file"@, cv.telemetry.file)
}

/// Renders a resolved tree as canonical text.
#[verifier::rlimit(100)]
pub fn render(c: &Iroha) -> (r: String)
    ensures
        r@ == render_text_spec(c@),
{
    let mut out = String::new();
    push_kv_str(&mut out, "public_key", c.public_key.as_str());
    push_kv_str(&mut out, "private_key", c.private_key.as_str());
    out.append("\n[kura]\n");
    push_kv_str(&mut out, "init_mode", init_mode_name(c.kura.init_mode));
    push_kv_str(&mut out, "block_store_path", c.kura.block_store_path.as_str());
    push_kv_int(&mut out, "blocks_per_storage", c.kura.blocks_per_storage as u64);
    push_kv_int(&mut out, "actor_channel_capacity", c.kura.actor_channel_capacity as u64);
    push_kv_bool(&mut out, "debug_output_new_blocks", c.kura.debug_output_new_blocks);
    out.append("\n[sumeragi]\n");
    push_kv_int(&mut out, "block_time_ms", c.sumeragi.block_time_ms as u64);
    push_kv_peers(&mut out, "trusted_peers", &c.sumeragi.trusted_peers);
    push_kv_int(&mut out, "commit_time_limit_ms", c.sumeragi.commit_time_limit_ms as u64);
    push_kv_int(&mut out, "max_transactions_in_block", c.sumeragi.max_transactions_in_block as u64);
    push_kv_int(&mut out, "actor_channel_capacity", c.sumeragi.actor_channel_capacity as u64);
    push_kv_int(&mut out, "gossip_batch_size", c.sumeragi.gossip_batch_size as u64);
    push_kv_int(&mut out, "gossip_period_ms", c.sumeragi.gossip_period_ms as u64);
    push_kv_bool(&mut out, "debug_force_soft_fork", c.sumeragi.debug_force_soft_fork);
    out.append("\n[genesis]\n");
    push_kv_str(&mut out, "account_public_key", c.genesis.account_public_key.as_str());
    push_kv_str(&mut out, "account_private_key", c.genesis.account_private_key.as_str());
    out.append("\n[torii]\n");
    push_kv_str(&mut out, "addr_p2p", c.torii.addr_p2p.as_str());
    push_kv_str(&mut out, "addr_api", c.torii.addr_api.as_str());
    push_kv_str(&mut out, "addr_telemetry", c.torii.addr_telemetry.as_str());
    push_kv_int(&mut out, "max_transaction_size", c.torii.max_transaction_size as u64);
    push_kv_int(&mut out, "max_content_len", c.torii.max_content_len as u64);
    out.append("\n[block_sync]\n");
    push_kv_int(&mut out, "gossip_period_ms", c.block_sync.gossip_period_ms as u64);
    push_kv_int(&mut out, "block_batch_size", c.block_sync.block_batch_size as u64);
    push_kv_int(&mut out, "actor_channel_capacity", c.block_sync.actor_channel_capacity as u64);
    out.append("\n[queue]\n");
    push_kv_int(&mut out, "max_transactions_in_queue", c.queue.max_transactions_in_queue as u64);
    push_kv_int(&mut out, "max_transactions_in_signature_buffer", c.queue.max_transactions_in_signature_buffer as u64);
    push_kv_int(&mut out, "transaction_time_to_live_ms", c.queue.transaction_time_to_live_ms as u64);
    push_kv_int(&mut out, "future_threshold_ms", c.queue.future_threshold_ms as u64);
    out.append("\n[logger]\n");
    push_kv_str(&mut out, "log_level", log_level_name(c.logger.log_level));
    push_kv_int(&mut out, "telemetry_capacity", c.logger.telemetry_capacity as u64);
    push_kv_bool(&mut out, "compact_mode", c.logger.compact_mode);
    push_kv_opt(&mut out, "log_file_path", &c.logger.log_file_path);
    push_kv_bool(&mut out, "terminal_colors", c.logger.terminal_colors);
    push_kv_opt(&mut out, "tokio_console_addr", &c.logger.tokio_console_addr);
    out.append("\n[wsv.asset_metadata_limits]\n");
    push_kv_int(&mut out, "max_len", c.wsv.asset_metadata_limits.max_len as u64);
    push_kv_int(&mut out, "max_entry_byte_size", c.wsv.asset_metadata_limits.max_entry_byte_size as u64);
    out.append("\n[wsv.asset_definition_metadata_limits]\n");
    push_kv_int(&mut out, "max_len", c.wsv.asset_definition_metadata_limits.max_len as u64);
    push_kv_int(&mut out, "max_entry_byte_size", c.wsv.asset_definition_metadata_limits.max_entry_byte_size as u64);
    out.append("\n[wsv.account_metadata_limits]\n");
    push_kv_int(&mut out, "max_len", c.wsv.account_metadata_limits.max_len as u64);
    push_kv_int(&mut out, "max_entry_byte_size", c.wsv.account_metadata_limits.max_entry_byte_size as u64);
    out.append("\n[wsv.domain_metadata_limits]\n");
    push_kv_int(&mut out, "max_len", c.wsv.domain_metadata_limits.max_len as u64);
    push_kv_int(&mut out, "max_entry_byte_size", c.wsv.domain_metadata_limits.max_entry_byte_size as u64);
    out.append("\n[wsv.ident_length_limits]\n");
    push_kv_int(&mut out, "min", c.wsv.ident_length_limits.min as u64);
    push_kv_int(&mut out, "max", c.wsv.ident_length_limits.max as u64);
    out.append("\n[wsv.transaction_limits]\n");
    push_kv_int(&mut out, "max_instruction_number", c.wsv.transaction_limits.max_instruction_number as u64);
    push_kv_int(&mut out, "max_wasm_size_bytes", c.wsv.transaction_limits.max_wasm_size_bytes as u64);
    out.append("\n[wsv.wasm_runtime]\n");
    push_kv_int(&mut out, "fuel_limit", c.wsv.wasm_runtime.fuel_limit as u64);
    push_kv_int(&mut out, "max_memory", c.wsv.wasm_runtime.max_memory as u64);
    out.append("\n[network]\n");
    push_kv_int(&mut out, "actor_channel_capacity", c.network.actor_channel_capacity as u64);
    out.append("\n[telemetry]\n");
    push_kv_opt(&mut out, "name", &c.telemetry.name);
    push_kv_opt(&mut out, "url", &c.telemetry.url);
    push_kv_int(&mut out, "min_retry_period", c.telemetry.min_retry_period as u64);
    push_kv_int(&mut out, "max_retry_delay_exponent", c.telemetry.max_retry_delay_exponent as u64);
    push_kv_opt(&mut out, "file", &c.telemetry.file);
    proof {
        assert(out@ =~= render_text_spec(c@));
    }
    out
}

} // verus!
