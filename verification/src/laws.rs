//! Laws of the resolution engine, each proved against the specification
//! functions that the executable functions' contracts are stated over.

use vstd::prelude::*;
use crate::value::{ValueV, PeerV, ErrV, LogLevel, KuraInitMode, log_level_of, log_level_str,
    init_mode_of, init_mode_str};
use crate::ports::{find_free_spec, addr_of, lemma_find_free_sound, lemma_addr_injective};
use crate::doc::{EnvEntry, env_lookup, BoundDocV, bound_none};
use crate::tree::{IrohaV, KuraV, SumeragiV, GenesisV, ToriiV, LoggerV, TelemetryV, wf};
use crate::resolve::{resolve_spec, rs_kura, rs_sumeragi, rs_genesis, rs_torii, rs_block_sync,
    rs_queue, rs_logger, rs_wsv, rs_network, rs_telemetry};
use crate::render::render_doc_spec;

verus! {

/// A level's canonical name parses back to the level itself.
pub proof fn lemma_level_roundtrip(l: LogLevel)
    ensures
        log_level_of(log_level_str(l)) == Some(l),
{
    reveal_strlit("TRACE");
    reveal_strlit("DEBUG");
    reveal_strlit("INFO");
    reveal_strlit("WARN");
    reveal_strlit("ERROR");
    match l {
        LogLevel::TRACE => {
            assert(log_level_of("TRACE"@) == Some(LogLevel::TRACE));
        },
        LogLevel::DEBUG => {
            assert("DEBUG"@[0] != "TRACE"@[0]);
            assert(log_level_of("DEBUG"@) == Some(LogLevel::DEBUG));
        },
        LogLevel::INFO => {
            assert("INFO"@.len() != "TRACE"@.len());
            assert("INFO"@[0] != "DEBUG"@[0]);
            assert(log_level_of("INFO"@) == Some(LogLevel::INFO));
        },
        LogLevel::WARN => {
            assert("WARN"@[0] != "TRACE"@[0]);
            assert("WARN"@[0] != "DEBUG"@[0]);
            assert("WARN"@[0] != "INFO"@[0]);
            assert(log_level_of("WARN"@) == Some(LogLevel::WARN));
        },
        LogLevel::ERROR => {
            assert("ERROR"@[0] != "TRACE"@[0]);
            assert("ERROR"@[0] != "DEBUG"@[0]);
            assert("ERROR"@.len() != "INFO"@.len());
            assert("ERROR"@.len() != "WARN"@.len());
            assert(log_level_of("ERROR"@) == Some(LogLevel::ERROR));
        },
    }
}

/// An init mode's canonical name parses back to the mode itself.
pub proof fn lemma_init_mode_roundtrip(m: KuraInitMode)
    ensures
        init_mode_of(init_mode_str(m)) == Some(m),
{
    reveal_strlit("strict");
    reveal_strlit("fast");
    match m {
        KuraInitMode::Strict => {
            assert(init_mode_of("strict"@) == Some(KuraInitMode::Strict));
        },
        KuraInitMode::Fast => {
            assert("fast"@.len() != "strict"@.len());
            assert(init_mode_of("fast"@) == Some(KuraInitMode::Fast));
        },
    }
}

/// Membership in a concatenation is membership in either part.
pub proof fn lemma_contains_concat(a: Seq<u16>, b: Seq<u16>, x: u16)
    ensures
        (a + b).contains(x) <==> a.contains(x) || b.contains(x),
{
    if a.contains(x) {
        let i = choose|i: int| 0 <= i < a.len() && a[i] == x;
        assert((a + b)[i] == x);
    }
    if b.contains(x) {
        let i = choose|i: int| 0 <= i < b.len() && b[i] == x;
        assert((a + b)[a.len() + i] == x);
    }
    if (a + b).contains(x) {
        let i = choose|i: int| 0 <= i < (a + b).len() && (a + b)[i] == x;
        if i < a.len() {
            assert(a[i] == x);
        } else {
            assert(b[i - a.len()] == x);
        }
    }
}

/// Resolving the canonical document of a well-formed resolved tree, with no
/// overriding environment variable set, reproduces the tree exactly; no
/// port is probed, so the claimed set is unchanged. (The deprecated
/// terminal-colours flag is omitted from the canonical document, so a tree
/// that set it is the one input on which re-resolution would differ.)
#[verifier::rlimit(100)]
pub proof fn lemma_round_trip(cv: IrohaV, env: Seq<EnvEntry>, unavail: Seq<u16>, claimed0: Seq<
    u16,
>)
    requires
        wf(cv),
        !cv.disable_panic_terminal_colors,
        env_lookup(env, "PUBLIC_KEY"@) is None,
        env_lookup(env, "PRIVATE_KEY"@) is None,
        env_lookup(env, "GENESIS_ACCOUNT_PUBLIC_KEY"@) is None,
        env_lookup(env, "GENESIS_ACCOUNT_PRIVATE_KEY"@) is None,
        env_lookup(env, "LOG_LEVEL"@) is None,
    ensures
        resolve_spec(render_doc_spec(cv), env, unavail, claimed0) == Ok::<
            (IrohaV, Seq<u16>),
            ErrV,
        >((cv, claimed0)),
{
    let b = render_doc_spec(cv);
    lemma_level_roundtrip(cv.logger.log_level);
    lemma_init_mode_roundtrip(cv.kura.init_mode);
    assert(rs_kura(b) == Ok::<KuraV, ErrV>(cv.kura));
    assert(rs_sumeragi(b) == Ok::<SumeragiV, ErrV>(cv.sumeragi));
    assert(rs_genesis(b, env) == Ok::<GenesisV, ErrV>(cv.genesis));
    assert(rs_torii(b, unavail, claimed0) == Ok::<(ToriiV, Seq<u16>), ErrV>(
        (cv.torii, claimed0),
    ));
    assert(rs_block_sync(b) == Ok::<crate::tree::BlockSync, ErrV>(cv.block_sync));
    assert(rs_queue(b) == Ok::<crate::tree::Queue, ErrV>(cv.queue));
    assert(rs_logger(b, env) == Ok::<LoggerV, ErrV>(cv.logger));
    assert(rs_wsv(b) == Ok::<crate::tree::Wsv, ErrV>(cv.wsv));
    assert(rs_network(b) == Ok::<crate::tree::Network, ErrV>(cv.network));
    assert(rs_telemetry(b) == Ok::<TelemetryV, ErrV>(cv.telemetry));
}

/// A successfully resolved tree is well-formed: every limit field is
/// positive and every unsigned count fits a document integer.
#[verifier::rlimit(100)]
pub proof fn lemma_resolve_wf(
    b: BoundDocV,
    env: Seq<EnvEntry>,
    unavail: Seq<u16>,
    claimed0: Seq<u16>,
    cv: IrohaV,
    cl: Seq<u16>,
)
    requires
        resolve_spec(b, env, unavail, claimed0) == Ok::<(IrohaV, Seq<u16>), ErrV>((cv, cl)),
    ensures
        wf(cv),
{
}

/// Every optional field omitted from the document, with no environment
/// override, resolves to its declared static default exactly; only the
/// probed listen addresses depend on the port environment, and the only
/// possible failure is port exhaustion.
#[verifier::rlimit(100)]
pub proof fn lemma_defaulting(
    pk: Seq<char>,
    sk: Seq<char>,
    gpk: Seq<char>,
    gsk: Seq<char>,
    unavail: Seq<u16>,
    claimed0: Seq<u16>,
)
    ensures
        ({
            let b = BoundDocV {
                public_key: Some(ValueV::S(pk)),
                private_key: Some(ValueV::S(sk)),
                genesis_account_public_key: Some(ValueV::S(gpk)),
                genesis_account_private_key: Some(ValueV::S(gsk)),
                ..bound_none()
            };
            match resolve_spec(b, Seq::empty(), unavail, claimed0) {
                Ok((cv, _)) => {
                    &&& cv.public_key == pk
                    &&& cv.private_key == sk
                    &&& !cv.disable_panic_terminal_colors
                    &&& cv.kura.init_mode == KuraInitMode::Strict
                    &&& cv.kura.block_store_path == "./storage"@
                    &&& cv.kura.blocks_per_storage == 1000
                    &&& cv.kura.actor_channel_capacity == 100
                    &&& !cv.kura.debug_output_new_blocks
                    &&& cv.sumeragi.block_time_ms == 2000
                    &&& cv.sumeragi.trusted_peers == Seq::<PeerV>::empty()
                    &&& cv.sumeragi.commit_time_limit_ms == 4000
                    &&& cv.sumeragi.max_transactions_in_block == 512
                    &&& cv.sumeragi.actor_channel_capacity == 100
                    &&& cv.sumeragi.gossip_batch_size == 500
                    &&& cv.sumeragi.gossip_period_ms == 1000
                    &&& !cv.sumeragi.debug_force_soft_fork
                    &&& cv.genesis.account_public_key == gpk
                    &&& cv.genesis.account_private_key == gsk
                    &&& cv.torii.max_transaction_size == 32768
                    &&& cv.torii.max_content_len == 16384000
                    &&& cv.block_sync.gossip_period_ms == 10000
                    &&& cv.block_sync.block_batch_size == 4
                    &&& cv.block_sync.actor_channel_capacity == 100
                    &&& cv.queue.max_transactions_in_queue == 65536
                    &&& cv.queue.max_transactions_in_signature_buffer == 65536
                    &&& cv.queue.transaction_time_to_live_ms == 86400000
                    &&& cv.queue.future_threshold_ms == 1000
                    &&& cv.logger.log_level == LogLevel::INFO
                    &&& cv.logger.telemetry_capacity == 1000
                    &&& !cv.logger.compact_mode
                    &&& cv.logger.log_file_path is None
                    &&& cv.logger.terminal_colors
                    &&& cv.logger.tokio_console_addr is None
                    &&& cv.wsv.asset_metadata_limits.max_len == 1048576
                    &&& cv.wsv.asset_metadata_limits.max_entry_byte_size == 4096
                    &&& cv.wsv.asset_definition_metadata_limits.max_len == 1048576
                    &&& cv.wsv.asset_definition_metadata_limits.max_entry_byte_size == 4096
                    &&& cv.wsv.account_metadata_limits.max_len == 1048576
                    &&& cv.wsv.account_metadata_limits.max_entry_byte_size == 4096
                    &&& cv.wsv.domain_metadata_limits.max_len == 1048576
                    &&& cv.wsv.domain_metadata_limits.max_entry_byte_size == 4096
                    &&& cv.wsv.ident_length_limits.min == 1
                    &&& cv.wsv.ident_length_limits.max == 128
                    &&& cv.wsv.transaction_limits.max_instruction_number == 4096
                    &&& cv.wsv.transaction_limits.max_wasm_size_bytes == 4194304
                    &&& cv.wsv.wasm_runtime.fuel_limit == 23000000
                    &&& cv.wsv.wasm_runtime.max_memory == 524288000
                    &&& cv.network.actor_channel_capacity == 100
                    &&& cv.telemetry.name is None
                    &&& cv.telemetry.url is None
                    &&& cv.telemetry.min_retry_period == 1
                    &&& cv.telemetry.max_retry_delay_exponent == 4
                    &&& cv.telemetry.file is None
                },
                Err(e) => e is PortsExhausted,
            }
        }),
{
    lemma_level_roundtrip(LogLevel::INFO);
}

/// A document and environment that both lack the genesis account public key
/// never resolve: the field is required and is never silently defaulted.
pub proof fn lemma_required_never_defaults(
    b: BoundDocV,
    env: Seq<EnvEntry>,
    unavail: Seq<u16>,
    claimed0: Seq<u16>,
)
    requires
        b.genesis_account_public_key is None,
        env_lookup(env, "GENESIS_ACCOUNT_PUBLIC_KEY"@) is None,
    ensures
        resolve_spec(b, env, unavail, claimed0) is Err,
{
}

/// A document that sets the node keys but nothing else, under an
/// environment without the genesis keys, fails precisely with
/// `MissingRequired` naming the genesis account public key.
pub proof fn lemma_missing_genesis(
    b: BoundDocV,
    env: Seq<EnvEntry>,
    unavail: Seq<u16>,
    claimed0: Seq<u16>,
)
    requires
        b.public_key matches Some(ValueV::S(_)),
        b.private_key matches Some(ValueV::S(_)),
        b.disable_panic_terminal_colors is None,
        b.kura_init_mode is None,
        b.kura_block_store_path is None,
        b.kura_blocks_per_storage is None,
        b.kura_actor_channel_capacity is None,
        b.kura_debug_output_new_blocks is None,
        b.sumeragi_block_time_ms is None,
        b.sumeragi_trusted_peers is None,
        b.sumeragi_commit_time_limit_ms is None,
        b.sumeragi_max_transactions_in_block is None,
        b.sumeragi_actor_channel_capacity is None,
        b.sumeragi_gossip_batch_size is None,
        b.sumeragi_gossip_period_ms is None,
        b.sumeragi_debug_force_soft_fork is None,
        b.genesis_account_public_key is None,
        env_lookup(env, "GENESIS_ACCOUNT_PUBLIC_KEY"@) is None,
    ensures
        resolve_spec(b, env, unavail, claimed0) == Err::<(IrohaV, Seq<u16>), ErrV>(
            ErrV::MissingRequired("genesis.account_public_key"@),
        ),
{
}

/// When the log-level environment variable is set to a valid level name, a
/// successful resolution carries that level, whatever the document says:
/// the override wins on the one field flagged env-overridable.
pub proof fn lemma_env_overrides_level(
    b: BoundDocV,
    env: Seq<EnvEntry>,
    unavail: Seq<u16>,
    claimed0: Seq<u16>,
    s: Seq<char>,
    l: LogLevel,
    cv: IrohaV,
    cl: Seq<u16>,
)
    requires
        env_lookup(env, "LOG_LEVEL"@) == Some(s),
        log_level_of(s) == Some(l),
        resolve_spec(b, env, unavail, claimed0) == Ok::<(IrohaV, Seq<u16>), ErrV>((cv, cl)),
    ensures
        cv.logger.log_level == l,
{
}

/// Without the environment variable, the document's explicit level is used;
/// and fields that declare no override (every other field) never read the
/// environment, as their resolution functions take no environment at all.
pub proof fn lemma_file_level_when_env_unset(
    b: BoundDocV,
    env: Seq<EnvEntry>,
    unavail: Seq<u16>,
    claimed0: Seq<u16>,
    t: Seq<char>,
    l: LogLevel,
    cv: IrohaV,
    cl: Seq<u16>,
)
    requires
        env_lookup(env, "LOG_LEVEL"@) is None,
        b.logger_log_level == Some(ValueV::S(t)),
        log_level_of(t) == Some(l),
        resolve_spec(b, env, unavail, claimed0) == Ok::<(IrohaV, Seq<u16>), ErrV>((cv, cl)),
    ensures
        cv.logger.log_level == l,
{
}

/// When all three listen addresses are left to their dynamic defaults, the
/// probes claim three ports that are pairwise distinct, free, and distinct
/// from everything claimed before: the addresses never collide.
pub proof fn lemma_probed_ports_distinct(b: BoundDocV, unavail: Seq<u16>, claimed0: Seq<u16>, t: ToriiV, cl: Seq<u16>)
    requires
        b.torii_addr_p2p is None,
        b.torii_addr_api is None,
        b.torii_addr_telemetry is None,
        rs_torii(b, unavail, claimed0) == Ok::<(ToriiV, Seq<u16>), ErrV>((t, cl)),
    ensures
        cl.len() == claimed0.len() + 3,
        t.addr_p2p == addr_of(cl[claimed0.len() as int]),
        t.addr_api == addr_of(cl[claimed0.len() as int + 1]),
        t.addr_telemetry == addr_of(cl[claimed0.len() as int + 2]),
        cl[claimed0.len() as int] != cl[claimed0.len() as int + 1],
        cl[claimed0.len() as int] != cl[claimed0.len() as int + 2],
        cl[claimed0.len() as int + 1] != cl[claimed0.len() as int + 2],
        !unavail.contains(cl[claimed0.len() as int]),
        !unavail.contains(cl[claimed0.len() as int + 1]),
        !unavail.contains(cl[claimed0.len() as int + 2]),
        t.addr_p2p != t.addr_api,
        t.addr_p2p != t.addr_telemetry,
        t.addr_api != t.addr_telemetry,
{
    let p1 = find_free_spec(unavail + claimed0, 1337).unwrap();
    let c1 = claimed0.push(p1);
    let p2 = find_free_spec(unavail + c1, 8080).unwrap();
    let c2 = c1.push(p2);
    let p3 = find_free_spec(unavail + c2, 8180).unwrap();
    lemma_find_free_sound(unavail + claimed0, 1337, p1);
    lemma_find_free_sound(unavail + c1, 8080, p2);
    lemma_find_free_sound(unavail + c2, 8180, p3);
    lemma_contains_concat(unavail, claimed0, p1);
    lemma_contains_concat(unavail, c1, p2);
    lemma_contains_concat(unavail, c2, p3);
    assert(c1.contains(p1)) by {
        assert(c1[claimed0.len() as int] == p1);
    }
    assert(c2.contains(p1)) by {
        assert(c2[claimed0.len() as int] == p1);
    }
    assert(c2.contains(p2)) by {
        assert(c2[claimed0.len() as int + 1] == p2);
    }
    assert(cl == c2.push(p3));
    if t.addr_p2p == t.addr_api {
        lemma_addr_injective(p1, p2);
    }
    if t.addr_p2p == t.addr_telemetry {
        lemma_addr_injective(p1, p3);
    }
    if t.addr_api == t.addr_telemetry {
        lemma_addr_injective(p2, p3);
    }
}

/// Any successfully resolved tree that did not set the deprecated
/// terminal-colours flag is reproduced exactly by re-resolving its
/// canonical document under an environment without override variables.
pub proof fn lemma_resolved_round_trip(
    b: BoundDocV,
    env: Seq<EnvEntry>,
    unavail: Seq<u16>,
    claimed0: Seq<u16>,
    cv: IrohaV,
    cl: Seq<u16>,
    env2: Seq<EnvEntry>,
    unavail2: Seq<u16>,
    claimed2: Seq<u16>,
)
    requires
        resolve_spec(b, env, unavail, claimed0) == Ok::<(IrohaV, Seq<u16>), ErrV>((cv, cl)),
        !cv.disable_panic_terminal_colors,
        env_lookup(env2, "PUBLIC_KEY"@) is None,
        env_lookup(env2, "PRIVATE_KEY"@) is None,
        env_lookup(env2, "GENESIS_ACCOUNT_PUBLIC_KEY"@) is None,
        env_lookup(env2, "GENESIS_ACCOUNT_PRIVATE_KEY"@) is None,
        env_lookup(env2, "LOG_LEVEL"@) is None,
    ensures
        resolve_spec(render_doc_spec(cv), env2, unavail2, claimed2) == Ok::<
            (IrohaV, Seq<u16>),
            ErrV,
        >((cv, claimed2)),
{
    lemma_resolve_wf(b, env, unavail, claimed0, cv, cl);
    lemma_round_trip(cv, env2, unavail2, claimed2);
}

} // verus!
