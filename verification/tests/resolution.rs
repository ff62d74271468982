use iroha_config::doc::{Entry, EnvEntry, bind};
use iroha_config::ports::{find_free_port, dec_u64, make_addr};
use iroha_config::render::{render, render_doc};
use iroha_config::resolve::{resolve, resolve_document, ResolutionContext};
use iroha_config::tree::Iroha;
use iroha_config::value::{ConfigError, KuraInitMode, LogLevel, Value};

fn e(path: &str, value: Value) -> Entry {
    Entry { path: path.to_string(), value }
}

fn ev(key: &str, value: &str) -> EnvEntry {
    EnvEntry { key: key.to_string(), value: value.to_string() }
}

fn keys_doc() -> Vec<Entry> {
    vec![
        e("public_key", Value::S("ed0120AAA".to_string())),
        e("private_key", Value::S("ed25519BBB".to_string())),
        e("genesis.account_public_key", Value::S("ed0120CCC".to_string())),
        e("genesis.account_private_key", Value::S("ed25519DDD".to_string())),
    ]
}

fn key_env() -> Vec<EnvEntry> {
    vec![
        ev("PUBLIC_KEY", "ed0120AAA"),
        ev("PRIVATE_KEY", "ed25519BBB"),
        ev("GENESIS_ACCOUNT_PUBLIC_KEY", "ed0120CCC"),
        ev("GENESIS_ACCOUNT_PRIVATE_KEY", "ed25519DDD"),
    ]
}

fn run(doc: Vec<Entry>, env: Vec<EnvEntry>, unavail: Vec<u16>) -> Result<Iroha, ConfigError> {
    let mut ctx = ResolutionContext::new();
    resolve_document(&doc, &env, &unavail, &mut ctx)
}

#[test]
fn defaults_fill_every_omitted_field() {
    let c = run(keys_doc(), vec![], vec![]).unwrap();
    assert_eq!(c.kura.init_mode, KuraInitMode::Strict);
    assert_eq!(c.kura.block_store_path, "./storage");
    assert_eq!(c.kura.blocks_per_storage, 1000);
    assert_eq!(c.kura.actor_channel_capacity, 100);
    assert!(!c.kura.debug_output_new_blocks);
    assert_eq!(c.sumeragi.block_time_ms, 2000);
    assert!(c.sumeragi.trusted_peers.is_empty());
    assert_eq!(c.sumeragi.commit_time_limit_ms, 4000);
    assert_eq!(c.sumeragi.max_transactions_in_block, 512);
    assert_eq!(c.sumeragi.gossip_batch_size, 500);
    assert_eq!(c.sumeragi.gossip_period_ms, 1000);
    assert_eq!(c.block_sync.gossip_period_ms, 10000);
    assert_eq!(c.block_sync.block_batch_size, 4);
    assert_eq!(c.queue.max_transactions_in_queue, 65536);
    assert_eq!(c.queue.max_transactions_in_signature_buffer, 65536);
    assert_eq!(c.queue.transaction_time_to_live_ms, 86_400_000);
    assert_eq!(c.queue.future_threshold_ms, 1000);
    assert_eq!(c.logger.log_level, LogLevel::INFO);
    assert_eq!(c.logger.telemetry_capacity, 1000);
    assert!(!c.logger.compact_mode);
    assert_eq!(c.logger.log_file_path, None);
    assert!(c.logger.terminal_colors);
    assert_eq!(c.logger.tokio_console_addr, None);
    assert_eq!(c.wsv.asset_metadata_limits.max_len, 1_048_576);
    assert_eq!(c.wsv.asset_metadata_limits.max_entry_byte_size, 4096);
    assert_eq!(c.wsv.domain_metadata_limits.max_len, 1_048_576);
    assert_eq!(c.wsv.ident_length_limits.min, 1);
    assert_eq!(c.wsv.ident_length_limits.max, 128);
    assert_eq!(c.wsv.transaction_limits.max_instruction_number, 4096);
    assert_eq!(c.wsv.transaction_limits.max_wasm_size_bytes, 4_194_304);
    assert_eq!(c.wsv.wasm_runtime.fuel_limit, 23_000_000);
    assert_eq!(c.wsv.wasm_runtime.max_memory, 524_288_000);
    assert_eq!(c.network.actor_channel_capacity, 100);
    assert_eq!(c.telemetry.name, None);
    assert_eq!(c.telemetry.url, None);
    assert_eq!(c.telemetry.min_retry_period, 1);
    assert_eq!(c.telemetry.max_retry_delay_exponent, 4);
    assert_eq!(c.telemetry.file, None);
}

#[test]
fn missing_genesis_key_is_a_hard_error() {
    let doc = vec![
        e("public_key", Value::S("pk".to_string())),
        e("private_key", Value::S("sk".to_string())),
    ];
    let err = run(doc, vec![], vec![]).unwrap_err();
    match &err {
        ConfigError::MissingRequired { path } => {
            assert_eq!(path, "genesis.account_public_key");
        },
        other => panic!("expected MissingRequired, got {:?}", other.message()),
    }
    assert_eq!(err.message(), "missing required field `genesis.account_public_key`");
}

#[test]
fn missing_node_key_is_a_hard_error() {
    let err = run(vec![], vec![], vec![]).unwrap_err();
    match &err {
        ConfigError::MissingRequired { path } => {
            assert_eq!(path, "public_key");
        },
        other => panic!("expected MissingRequired, got {:?}", other.message()),
    }
}

#[test]
fn env_overrides_document_log_level() {
    let mut doc = keys_doc();
    doc.push(e("logger.log_level", Value::S("INFO".to_string())));
    let mut env = vec![ev("LOG_LEVEL", "DEBUG")];
    let c = run(doc.clone(), env.clone(), vec![]).unwrap();
    assert_eq!(c.logger.log_level, LogLevel::DEBUG);

    // Without the variable, the document's explicit value is used.
    env.clear();
    let c = run(doc, env, vec![]).unwrap();
    assert_eq!(c.logger.log_level, LogLevel::INFO);
}

#[test]
fn env_never_touches_a_field_without_an_override_key() {
    let mut doc = keys_doc();
    doc.push(e("sumeragi.block_time_ms", Value::I(123)));
    let env = vec![ev("SUMERAGI_BLOCK_TIME_MS", "999"), ev("BLOCK_TIME_MS", "999")];
    let c = run(doc, env, vec![]).unwrap();
    assert_eq!(c.sumeragi.block_time_ms, 123);
}

#[test]
fn invalid_env_log_level_is_a_parse_error() {
    let err = run(keys_doc(), vec![ev("LOG_LEVEL", "LOUD")], vec![]).unwrap_err();
    match &err {
        ConfigError::ParseError { path } => {
            assert_eq!(path, "logger.log_level");
        },
        other => panic!("expected ParseError, got {:?}", other.message()),
    }
}

#[test]
fn unknown_key_is_rejected() {
    let mut doc = keys_doc();
    doc.push(e("sumeragi.not_a_real_field", Value::I(1)));
    let err = run(doc, vec![], vec![]).unwrap_err();
    match &err {
        ConfigError::UnknownField { path } => {
            assert_eq!(path, "sumeragi.not_a_real_field");
        },
        other => panic!("expected UnknownField, got {:?}", other.message()),
    }
    assert_eq!(err.message(), "unknown configuration key `sumeragi.not_a_real_field`");
}

#[test]
fn bind_lets_the_last_occurrence_win() {
    let mut doc = keys_doc();
    doc.push(e("queue.future_threshold_ms", Value::I(5)));
    doc.push(e("queue.future_threshold_ms", Value::I(7)));
    let c = run(doc, vec![], vec![]).unwrap();
    assert_eq!(c.queue.future_threshold_ms, 7);
}

#[test]
fn find_free_port_skips_a_bound_base() {
    // The base itself is unavailable: the next higher port is chosen,
    // never the bound one.
    let r = find_free_port(1337, &vec![1337]).unwrap();
    assert_eq!(r, 1338);
    let r = find_free_port(8080, &vec![8081]).unwrap();
    assert_eq!(r, 8080);
}

#[test]
fn find_free_port_fails_when_the_range_is_exhausted() {
    let unavail: Vec<u16> = (65530u16..65535).collect();
    match find_free_port(65530, &unavail) {
        Err(ConfigError::PortsExhausted { base }) => assert_eq!(base, 65530),
        other => panic!("expected PortsExhausted, got {:?}", other.map(|_| ())),
    }
    let err = find_free_port(65530, &unavail).unwrap_err();
    assert_eq!(err.message(), "no free port at or above 65530");
}

#[test]
fn probed_addresses_avoid_unavailable_ports_and_each_other() {
    let c = run(keys_doc(), vec![], vec![1337, 1338, 8080]).unwrap();
    assert_eq!(c.torii.addr_p2p, "127.0.0.1:1339");
    assert_eq!(c.torii.addr_api, "127.0.0.1:8081");
    assert_eq!(c.torii.addr_telemetry, "127.0.0.1:8180");
}

#[test]
fn overlapping_probe_ranges_never_collide() {
    // Make every port from the API base up to the telemetry base busy, so
    // the API probe lands on 8180: the telemetry probe must not reuse it.
    let unavail: Vec<u16> = (8080u16..8180).collect();
    let c = run(keys_doc(), vec![], unavail).unwrap();
    assert_eq!(c.torii.addr_api, "127.0.0.1:8180");
    assert_eq!(c.torii.addr_telemetry, "127.0.0.1:8181");
    assert_ne!(c.torii.addr_api, c.torii.addr_telemetry);
}

#[test]
fn round_trip_reproduces_the_resolved_tree() {
    let mut doc = keys_doc();
    doc.push(e("logger.log_level", Value::S("WARN".to_string())));
    doc.push(e("kura.init_mode", Value::S("fast".to_string())));
    doc.push(e("telemetry.name", Value::S("node-7".to_string())));
    doc.push(e("wsv.wasm_runtime.fuel_limit", Value::I(999)));
    let c = run(doc, vec![], vec![]).unwrap();
    let canonical = render_doc(&c);
    let mut ctx = ResolutionContext::new();
    let c2 = resolve(&canonical, &vec![], &vec![], &mut ctx).unwrap();
    assert_eq!(c, c2);
    // No dynamic default re-ran: the canonical document pins the addresses.
    assert!(ctx.claimed.is_empty());
}

#[test]
fn end_to_end_empty_document_with_keys_from_the_environment() {
    let mut ctx = ResolutionContext::new();
    let c = resolve_document(&vec![], &key_env(), &vec![], &mut ctx).unwrap();
    assert_eq!(c.public_key, "ed0120AAA");
    assert_eq!(c.genesis.account_private_key, "ed25519DDD");
    assert_eq!(c.kura.block_store_path, "./storage");
    assert_eq!(c.wsv.wasm_runtime.fuel_limit, 23_000_000);
    let a = &c.torii.addr_p2p;
    let b = &c.torii.addr_api;
    let t = &c.torii.addr_telemetry;
    assert_eq!(a, "127.0.0.1:1337");
    assert_eq!(b, "127.0.0.1:8080");
    assert_eq!(t, "127.0.0.1:8180");
    assert!(a != b && a != t && b != t);
    assert_eq!(ctx.claimed, vec![1337, 8080, 8180]);
}

#[test]
fn wrong_value_types_are_parse_errors() {
    let mut doc = keys_doc();
    doc.push(e("sumeragi.block_time_ms", Value::S("soon".to_string())));
    let err = run(doc, vec![], vec![]).unwrap_err();
    match &err {
        ConfigError::ParseError { path } => assert_eq!(path, "sumeragi.block_time_ms"),
        other => panic!("expected ParseError, got {:?}", other.message()),
    }

    let mut doc = keys_doc();
    doc.push(e("public_key", Value::I(42)));
    let err = run(doc, vec![], vec![]).unwrap_err();
    match &err {
        ConfigError::ParseError { path } => assert_eq!(path, "public_key"),
        other => panic!("expected ParseError, got {:?}", other.message()),
    }
}

#[test]
fn limit_fields_reject_zero_and_negatives() {
    let mut doc = keys_doc();
    doc.push(e("wsv.wasm_runtime.fuel_limit", Value::I(0)));
    let err = run(doc, vec![], vec![]).unwrap_err();
    match &err {
        ConfigError::ParseError { path } => assert_eq!(path, "wsv.wasm_runtime.fuel_limit"),
        other => panic!("expected ParseError, got {:?}", other.message()),
    }

    let mut doc = keys_doc();
    doc.push(e("queue.max_transactions_in_queue", Value::I(-3)));
    assert!(run(doc, vec![], vec![]).is_err());

    // A non-limit count may be zero.
    let mut doc = keys_doc();
    doc.push(e("sumeragi.gossip_batch_size", Value::I(0)));
    assert_eq!(run(doc, vec![], vec![]).unwrap().sumeragi.gossip_batch_size, 0);
}

#[test]
fn out_of_width_integers_are_parse_errors() {
    let mut doc = keys_doc();
    doc.push(e("kura.actor_channel_capacity", Value::I(5_000_000_000)));
    let err = run(doc, vec![], vec![]).unwrap_err();
    match &err {
        ConfigError::ParseError { path } => assert_eq!(path, "kura.actor_channel_capacity"),
        other => panic!("expected ParseError, got {:?}", other.message()),
    }
    let mut doc = keys_doc();
    doc.push(e("telemetry.max_retry_delay_exponent", Value::I(256)));
    assert!(run(doc, vec![], vec![]).is_err());
}

#[test]
fn decimal_rendering_is_exact() {
    assert_eq!(dec_u64(0), "0");
    assert_eq!(dec_u64(7), "7");
    assert_eq!(dec_u64(65535), "65535");
    assert_eq!(dec_u64(23_000_000), "23000000");
    assert_eq!(make_addr(8080), "127.0.0.1:8080");
}

#[test]
fn rendered_text_is_canonical() {
    let c = run(keys_doc(), vec![], vec![]).unwrap();
    let text = render(&c);
    assert!(text.starts_with("public_key = \"ed0120AAA\"\nprivate_key = \"ed25519BBB\"\n"));
    assert!(text.contains("\n[kura]\ninit_mode = \"strict\"\nblock_store_path = \"./storage\"\n"));
    assert!(text.contains("\n[sumeragi]\nblock_time_ms = 2000\ntrusted_peers = []\n"));
    assert!(text.contains("\n[torii]\naddr_p2p = \"127.0.0.1:1337\"\n"));
    assert!(text.contains("\n[wsv.wasm_runtime]\nfuel_limit = 23000000\nmax_memory = 524288000\n"));
    assert!(text.contains("\n[telemetry]\nmin_retry_period = 1\nmax_retry_delay_exponent = 4\n"));
    // The deprecated flag and unset optionals are omitted.
    assert!(!text.contains("disable_panic_terminal_colors"));
    assert!(!text.contains("log_file_path"));
}

#[test]
fn rendered_peers_are_inline_tables() {
    let mut doc = keys_doc();
    doc.push(e(
        "sumeragi.trusted_peers",
        Value::Peers(vec![
            iroha_config::value::Peer {
                address: "10.0.0.1:1337".to_string(),
                public_key: "ed0120EEE".to_string(),
            },
            iroha_config::value::Peer {
                address: "10.0.0.2:1337".to_string(),
                public_key: "ed0120FFF".to_string(),
            },
        ]),
    ));
    let c = run(doc, vec![], vec![]).unwrap();
    let text = render(&c);
    assert!(text.contains(
        "trusted_peers = [{ address = \"10.0.0.1:1337\", public_key = \"ed0120EEE\" }, \
         { address = \"10.0.0.2:1337\", public_key = \"ed0120FFF\" }]\n"
    ));
}

#[test]
fn bind_collects_explicit_values() {
    let doc = vec![e("kura.blocks_per_storage", Value::I(5))];
    let b = bind(&doc).unwrap();
    match b.kura_blocks_per_storage {
        Some(Value::I(5)) => {},
        _ => panic!("value not bound"),
    }
    assert!(b.kura_init_mode.is_none());
}

#[test]
fn parse_error_message_names_the_field() {
    let mut doc = keys_doc();
    doc.push(e("sumeragi.block_time_ms", Value::S("soon".to_string())));
    let err = run(doc, vec![], vec![]).unwrap_err();
    assert_eq!(err.message(), "invalid value for `sumeragi.block_time_ms`");
}

#[test]
fn rendered_text_of_a_default_tree_is_exact() {
    let c = run(keys_doc(), vec![], vec![]).unwrap();
    let expected = "public_key = \"ed0120AAA\"
private_key = \"ed25519BBB\"

[kura]
init_mode = \"strict\"
block_store_path = \"./storage\"
blocks_per_storage = 1000
actor_channel_capacity = 100
debug_output_new_blocks = false

[sumeragi]
block_time_ms = 2000
trusted_peers = []
commit_time_limit_ms = 4000
max_transactions_in_block = 512
actor_channel_capacity = 100
gossip_batch_size = 500
gossip_period_ms = 1000
debug_force_soft_fork = false

[genesis]
account_public_key = \"ed0120CCC\"
account_private_key = \"ed25519DDD\"

[torii]
addr_p2p = \"127.0.0.1:1337\"
addr_api = \"127.0.0.1:8080\"
addr_telemetry = \"127.0.0.1:8180\"
max_transaction_size = 32768
max_content_len = 16384000

[block_sync]
gossip_period_ms = 10000
block_batch_size = 4
actor_channel_capacity = 100

[queue]
max_transactions_in_queue = 65536
max_transactions_in_signature_buffer = 65536
transaction_time_to_live_ms = 86400000
future_threshold_ms = 1000

[logger]
log_level = \"INFO\"
telemetry_capacity = 1000
compact_mode = false
terminal_colors = true

[wsv.asset_metadata_limits]
max_len = 1048576
max_entry_byte_size = 4096

[wsv.asset_definition_metadata_limits]
max_len = 1048576
max_entry_byte_size = 4096

[wsv.account_metadata_limits]
max_len = 1048576
max_entry_byte_size = 4096

[wsv.domain_metadata_limits]
max_len = 1048576
max_entry_byte_size = 4096

[wsv.ident_length_limits]
min = 1
max = 128

[wsv.transaction_limits]
max_instruction_number = 4096
max_wasm_size_bytes = 4194304

[wsv.wasm_runtime]
fuel_limit = 23000000
max_memory = 524288000

[network]
actor_channel_capacity = 100

[telemetry]
min_retry_period = 1
max_retry_delay_exponent = 4
";
    assert_eq!(render(&c), expected);
}

#[test]
fn rendered_text_is_well_formed_toml() {
    let mut doc = keys_doc();
    doc.push(e(
        "sumeragi.trusted_peers",
        Value::Peers(vec![iroha_config::value::Peer {
            address: "10.0.0.1:1337".to_string(),
            public_key: "ed0120EEE".to_string(),
        }]),
    ));
    let c = run(doc, vec![], vec![]).unwrap();
    let parsed: toml::Table = render(&c).parse().unwrap();
    assert_eq!(parsed["public_key"].as_str(), Some("ed0120AAA"));
    assert_eq!(parsed["kura"]["blocks_per_storage"].as_integer(), Some(1000));
    assert_eq!(parsed["wsv"]["wasm_runtime"]["fuel_limit"].as_integer(), Some(23_000_000));
    assert_eq!(parsed["logger"]["log_level"].as_str(), Some("INFO"));
    assert_eq!(
        parsed["sumeragi"]["trusted_peers"][0]["address"].as_str(),
        Some("10.0.0.1:1337")
    );
    assert_eq!(parsed["torii"]["addr_p2p"].as_str(), Some("127.0.0.1:1337"));
}
