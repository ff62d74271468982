//! The layered merger: resolves every schema field by, in decreasing
//! precedence, environment override (where the field declares one), explicit
//! document value, dynamic default (a free-port probe), static default; a
//! field with none of these is required, and its absence is a hard error.

use vstd::prelude::*;
use crate::value::{Value, ValueV, Peer, PeerV, ConfigError, ErrV, LogLevel, KuraInitMode,
    opt_view, clone_value, log_level_of, init_mode_of, parse_log_level, parse_init_mode};
use crate::ports::{find_free_spec, find_free_port, addr_of, make_addr, append_ports};
use crate::doc::{EnvEntry, env_lookup, env_get, BoundDoc, BoundDocV, Entry, bind, bind_fold,
    known_path};
use crate::tree::{Iroha, IrohaV, Kura, KuraV, Sumeragi, SumeragiV, Genesis, GenesisV, Torii,
    ToriiV, BlockSync, Queue, Logger, LoggerV, Wsv, Wasm, Network, Telemetry, TelemetryV,
    MetadataLimits, LengthLimits, TransactionLimits};
use crate::defaults::{BASE_PORT_P2P, BASE_PORT_API, BASE_PORT_TELEMETRY,
    default_blocks_per_storage, default_max_txs_in_block, default_max_transaction_size,
    default_max_content_len, default_max_txs_in_queue, default_max_txs_in_signature_buffer,
    default_tx_ttl, default_wasm_max_memory, DEFAULT_METADATA_MAX_LEN,
    DEFAULT_METADATA_MAX_ENTRY_BYTE_SIZE, DEFAULT_IDENT_MIN, DEFAULT_IDENT_MAX,
    DEFAULT_TX_MAX_INSTRUCTIONS, DEFAULT_TX_MAX_WASM_SIZE};

verus! {

/// How a field obtains a value when neither the environment nor the
/// document supplies one. A field tagged `NoDefault` is required: the merge
/// returns a typed error for it, never a substitute.
pub enum DefaultSpec {
    NoDefault,
    StaticDefault(Value),
    DynamicDefault(u16),
}

/// Mathematical view of a [`DefaultSpec`].
pub enum DefaultSpecV {
    NoDefault,
    StaticDefault(ValueV),
    DynamicDefault(u16),
}

impl View for DefaultSpec {
    type V = DefaultSpecV;

    open spec fn view(&self) -> DefaultSpecV {
        match self {
            DefaultSpec::NoDefault => DefaultSpecV::NoDefault,
            DefaultSpec::StaticDefault(v) => DefaultSpecV::StaticDefault(v@),
            DefaultSpec::DynamicDefault(b) => DefaultSpecV::DynamicDefault(*b),
        }
    }
}

/// State threaded through one resolution run: the ports already claimed by
/// earlier dynamic defaults, so that two probes in the same run never
/// collide.
pub struct ResolutionContext {
    pub claimed: Vec<u16>,
}

impl ResolutionContext {
    /// A fresh context: no port claimed yet.
    pub fn new() -> (r: ResolutionContext)
        ensures
            r.claimed@ == Seq::<u16>::empty(),
    {
        ResolutionContext { claimed: Vec::new() }
    }
}

/// The precedence chain for one field, stopping at the first layer that
/// yields a value. Returns the chosen raw value (None only for an optional
/// field that nothing set) and the claimed-port set after the field.
pub open spec fn merge_field_spec(
    file: Option<ValueV>,
    env: Option<ValueV>,
    dflt: DefaultSpecV,
    required: bool,
    path: Seq<char>,
    unavail: Seq<u16>,
    claimed: Seq<u16>,
) -> Result<(Option<ValueV>, Seq<u16>), ErrV> {
    if env is Some {
        Ok((env, claimed))
    } else if file is Some {
        Ok((file, claimed))
    } else {
        match dflt {
            DefaultSpecV::StaticDefault(v) => Ok((Some(v), claimed)),
            DefaultSpecV::DynamicDefault(base) => match find_free_spec(
                unavail + claimed,
                base as int,
            ) {
                Some(p) => Ok((Some(ValueV::S(addr_of(p))), claimed.push(p))),
                None => Err(ErrV::PortsExhausted(base)),
            },
            DefaultSpecV::NoDefault => if required {
                Err(ErrV::MissingRequired(path))
            } else {
                Ok((None, claimed))
            },
        }
    }
}

/// Applies the precedence chain to one field.
pub fn merge_field(
    file: &Option<Value>,
    env: &Option<Value>,
    dflt: DefaultSpec,
    required: bool,
    path: &str,
    unavail: &Vec<u16>,
    ctx: &mut ResolutionContext,
) -> (r: Result<Option<Value>, ConfigError>)
    ensures
        match r {
            Ok(v) => merge_field_spec(
                opt_view(*file),
                opt_view(*env),
                dflt@,
                required,
                path@,
                unavail@,
                old(ctx).claimed@,
            ) == Ok::<_, ErrV>((opt_view(v), final(ctx).claimed@)),
            Err(e) => merge_field_spec(
                opt_view(*file),
                opt_view(*env),
                dflt@,
                required,
                path@,
                unavail@,
                old(ctx).claimed@,
            ) == Err::<(Option<ValueV>, Seq<u16>), _>(e@) && final(ctx).claimed@ == old(
                ctx,
            ).claimed@,
        },
{
    if let Some(ev) = env {
        return Ok(Some(clone_value(ev)));
    }
    if let Some(fv) = file {
        return Ok(Some(clone_value(fv)));
    }
    match dflt {
        DefaultSpec::StaticDefault(v) => Ok(Some(v)),
        DefaultSpec::DynamicDefault(base) => {
            let pool = append_ports(unavail, &ctx.claimed);
            match find_free_port(base, &pool) {
                Ok(p) => {
                    ctx.claimed.push(p);
                    Ok(Some(Value::S(make_addr(p))))
                },
                Err(e) => Err(e),
            }
        },
        DefaultSpec::NoDefault => {
            if required {
                Err(ConfigError::MissingRequired { path: path.to_owned() })
            } else {
                Ok(None)
            }
        },
    }
}

/// An integer field with a static default: an explicit value must be an
/// integer within `[min, max]`, else the field resolves to its default.
pub open spec fn field_int_spec(
    file: Option<ValueV>,
    dflt: int,
    min: int,
    max: int,
    path: Seq<char>,
) -> Result<int, ErrV> {
    match file {
        None => Ok(dflt),
        Some(ValueV::I(i)) => if min <= i && i <= max {
            Ok(i)
        } else {
            Err(ErrV::ParseError(path))
        },
        Some(_) => Err(ErrV::ParseError(path)),
    }
}

/// Resolves an integer field with a static default.
pub fn field_u64(
    file: &Option<Value>,
    dflt: u64,
    min: u64,
    max: u64,
    path: &str,
    unavail: &Vec<u16>,
    ctx: &mut ResolutionContext,
) -> (r: Result<u64, ConfigError>)
    requires
        min <= dflt <= max,
        dflt <= 0x7fff_ffff_ffff_ffff,
    ensures
        final(ctx).claimed@ == old(ctx).claimed@,
        match r {
            Ok(v) => field_int_spec(opt_view(*file), dflt as int, min as int, max as int, path@)
                == Ok::<int, ErrV>(v as int),
            Err(e) => field_int_spec(opt_view(*file), dflt as int, min as int, max as int, path@)
                == Err::<int, ErrV>(e@),
        },
{
    let merged = merge_field(
        file,
        &None,
        DefaultSpec::StaticDefault(Value::I(dflt as i64)),
        false,
        path,
        unavail,
        ctx,
    );
    match merged {
        Ok(Some(Value::I(i))) => {
            if i >= 0 && (i as u64) >= min && (i as u64) <= max {
                Ok(i as u64)
            } else {
                Err(ConfigError::ParseError { path: path.to_owned() })
            }
        },
        Ok(_) => Err(ConfigError::ParseError { path: path.to_owned() }),
        Err(e) => Err(e),
    }
}

/// A boolean field with a static default.
pub open spec fn field_bool_spec(file: Option<ValueV>, dflt: bool, path: Seq<char>) -> Result<
    bool,
    ErrV,
> {
    match file {
        None => Ok(dflt),
        Some(ValueV::B(b)) => Ok(b),
        Some(_) => Err(ErrV::ParseError(path)),
    }
}

/// Resolves a boolean field with a static default.
pub fn field_bool(
    file: &Option<Value>,
    dflt: bool,
    path: &str,
    unavail: &Vec<u16>,
    ctx: &mut ResolutionContext,
) -> (r: Result<bool, ConfigError>)
    ensures
        final(ctx).claimed@ == old(ctx).claimed@,
        match r {
            Ok(v) => field_bool_spec(opt_view(*file), dflt, path@) == Ok::<bool, ErrV>(v),
            Err(e) => field_bool_spec(opt_view(*file), dflt, path@) == Err::<bool, ErrV>(e@),
        },
{
    let merged = merge_field(
        file,
        &None,
        DefaultSpec::StaticDefault(Value::B(dflt)),
        false,
        path,
        unavail,
        ctx,
    );
    match merged {
        Ok(Some(Value::B(b))) => Ok(b),
        Ok(_) => Err(ConfigError::ParseError { path: path.to_owned() }),
        Err(e) => Err(e),
    }
}

/// A text field with a static default.
pub open spec fn field_str_spec(file: Option<ValueV>, dflt: Seq<char>, path: Seq<char>) -> Result<
    Seq<char>,
    ErrV,
> {
    match file {
        None => Ok(dflt),
        Some(ValueV::S(s)) => Ok(s),
        Some(_) => Err(ErrV::ParseError(path)),
    }
}

/// Resolves a text field with a static default.
pub fn field_str(
    file: &Option<Value>,
    dflt: &str,
    path: &str,
    unavail: &Vec<u16>,
    ctx: &mut ResolutionContext,
) -> (r: Result<String, ConfigError>)
    ensures
        final(ctx).claimed@ == old(ctx).claimed@,
        match r {
            Ok(v) => field_str_spec(opt_view(*file), dflt@, path@) == Ok::<Seq<char>, ErrV>(v@),
            Err(e) => field_str_spec(opt_view(*file), dflt@, path@) == Err::<Seq<char>, ErrV>(e@),
        },
{
    let merged = merge_field(
        file,
        &None,
        DefaultSpec::StaticDefault(Value::S(dflt.to_owned())),
        false,
        path,
        unavail,
        ctx,
    );
    match merged {
        Ok(Some(Value::S(s))) => Ok(s),
        Ok(_) => Err(ConfigError::ParseError { path: path.to_owned() }),
        Err(e) => Err(e),
    }
}

/// An optional text field: no default, no enforcement; absent stays absent.
pub open spec fn field_opt_str_spec(file: Option<ValueV>, path: Seq<char>) -> Result<
    Option<Seq<char>>,
    ErrV,
> {
    match file {
        None => Ok(None),
        Some(ValueV::S(s)) => Ok(Some(s)),
        Some(_) => Err(ErrV::ParseError(path)),
    }
}

/// Resolves an optional text field.
pub fn field_opt_str(
    file: &Option<Value>,
    path: &str,
    unavail: &Vec<u16>,
    ctx: &mut ResolutionContext,
) -> (r: Result<Option<String>, ConfigError>)
    ensures
        final(ctx).claimed@ == old(ctx).claimed@,
        match r {
            Ok(None) => field_opt_str_spec(opt_view(*file), path@) == Ok::<Option<Seq<char>>, ErrV>(
                None,
            ),
            Ok(Some(v)) => field_opt_str_spec(opt_view(*file), path@) == Ok::<
                Option<Seq<char>>,
                ErrV,
            >(Some(v@)),
            Err(e) => field_opt_str_spec(opt_view(*file), path@) == Err::<Option<Seq<char>>, ErrV>(
                e@,
            ),
        },
{
    let merged = merge_field(file, &None, DefaultSpec::NoDefault, false, path, unavail, ctx);
    match merged {
        Ok(None) => Ok(None),
        Ok(Some(Value::S(s))) => Ok(Some(s)),
        Ok(Some(_)) => Err(ConfigError::ParseError { path: path.to_owned() }),
        Err(e) => Err(e),
    }
}

/// A required text field: the environment override wins over the document;
/// with neither, resolution fails — a missing key pair is never silently
/// substituted.
pub open spec fn field_req_str_spec(
    file: Option<ValueV>,
    env: Option<ValueV>,
    path: Seq<char>,
) -> Result<Seq<char>, ErrV> {
    match if env is Some {
        env
    } else {
        file
    } {
        None => Err(ErrV::MissingRequired(path)),
        Some(ValueV::S(s)) => Ok(s),
        Some(_) => Err(ErrV::ParseError(path)),
    }
}

/// Resolves a required text field.
pub fn field_req_str(
    file: &Option<Value>,
    env: &Option<Value>,
    path: &str,
    unavail: &Vec<u16>,
    ctx: &mut ResolutionContext,
) -> (r: Result<String, ConfigError>)
    ensures
        final(ctx).claimed@ == old(ctx).claimed@,
        match r {
            Ok(v) => field_req_str_spec(opt_view(*file), opt_view(*env), path@) == Ok::<
                Seq<char>,
                ErrV,
            >(v@),
            Err(e) => field_req_str_spec(opt_view(*file), opt_view(*env), path@) == Err::<
                Seq<char>,
                ErrV,
            >(e@),
        },
{
    let merged = merge_field(file, env, DefaultSpec::NoDefault, true, path, unavail, ctx);
    match merged {
        Ok(Some(Value::S(s))) => Ok(s),
        Ok(_) => Err(ConfigError::ParseError { path: path.to_owned() }),
        Err(e) => Err(e),
    }
}

/// A peer-list field; its static default is the empty list.
pub open spec fn field_peers_spec(file: Option<ValueV>, path: Seq<char>) -> Result<
    Seq<PeerV>,
    ErrV,
> {
    match file {
        None => Ok(Seq::empty()),
        Some(ValueV::Peers(ps)) => Ok(ps),
        Some(_) => Err(ErrV::ParseError(path)),
    }
}

/// Resolves a peer-list field.
pub fn field_peers(
    file: &Option<Value>,
    path: &str,
    unavail: &Vec<u16>,
    ctx: &mut ResolutionContext,
) -> (r: Result<Vec<Peer>, ConfigError>)
    ensures
        final(ctx).claimed@ == old(ctx).claimed@,
        match r {
            Ok(v) => field_peers_spec(opt_view(*file), path@) == Ok::<Seq<PeerV>, ErrV>(
                v@.map_values(|p: Peer| p@),
            ),
            Err(e) => field_peers_spec(opt_view(*file), path@) == Err::<Seq<PeerV>, ErrV>(e@),
        },
{
    let empty: Vec<Peer> = Vec::new();
    proof {
        assert(empty@.map_values(|p: Peer| p@) =~= Seq::<PeerV>::empty());
    }
    let merged = merge_field(
        file,
        &None,
        DefaultSpec::StaticDefault(Value::Peers(empty)),
        false,
        path,
        unavail,
        ctx,
    );
    match merged {
        Ok(Some(Value::Peers(ps))) => Ok(ps),
        Ok(_) => Err(ConfigError::ParseError { path: path.to_owned() }),
        Err(e) => Err(e),
    }
}

/// A listen-address field: an explicit value wins; otherwise the dynamic
/// default probes for the lowest free port at or above the base and claims
/// it for the rest of the run.
pub open spec fn field_addr_spec(
    file: Option<ValueV>,
    base: u16,
    path: Seq<char>,
    unavail: Seq<u16>,
    claimed: Seq<u16>,
) -> Result<(Seq<char>, Seq<u16>), ErrV> {
    match file {
        Some(ValueV::S(s)) => Ok((s, claimed)),
        Some(_) => Err(ErrV::ParseError(path)),
        None => match find_free_spec(unavail + claimed, base as int) {
            Some(p) => Ok((addr_of(p), claimed.push(p))),
            None => Err(ErrV::PortsExhausted(base)),
        },
    }
}

/// Resolves a listen-address field.
pub fn field_addr(
    file: &Option<Value>,
    base: u16,
    path: &str,
    unavail: &Vec<u16>,
    ctx: &mut ResolutionContext,
) -> (r: Result<String, ConfigError>)
    ensures
        match r {
            Ok(s) => field_addr_spec(opt_view(*file), base, path@, unavail@, old(ctx).claimed@)
                == Ok::<(Seq<char>, Seq<u16>), ErrV>((s@, final(ctx).claimed@)),
            Err(e) => field_addr_spec(opt_view(*file), base, path@, unavail@, old(ctx).claimed@)
                == Err::<(Seq<char>, Seq<u16>), ErrV>(e@) && final(ctx).claimed@ == old(
                ctx,
            ).claimed@,
        },
{
    let merged = merge_field(
        file,
        &None,
        DefaultSpec::DynamicDefault(base),
        false,
        path,
        unavail,
        ctx,
    );
    match merged {
        Ok(Some(Value::S(s))) => Ok(s),
        Ok(_) => Err(ConfigError::ParseError { path: path.to_owned() }),
        Err(e) => Err(e),
    }
}

/// The logger's level field: env override first, then the document, then
/// the static default `INFO`; a name that is no level is a parse error.
pub open spec fn field_level_spec(file: Option<ValueV>, env: Option<ValueV>, path: Seq<char>) -> Result<
    LogLevel,
    ErrV,
> {
    match if env is Some {
        env
    } else if file is Some {
        file
    } else {
        Some(ValueV::S("INFO"@))
    } {
        Some(ValueV::S(s)) => match log_level_of(s) {
            Some(l) => Ok(l),
            None => Err(ErrV::ParseError(path)),
        },
        _ => Err(ErrV::ParseError(path)),
    }
}

/// Resolves the log-level field.
pub fn field_level(
    file: &Option<Value>,
    env: &Option<Value>,
    path: &str,
    unavail: &Vec<u16>,
    ctx: &mut ResolutionContext,
) -> (r: Result<LogLevel, ConfigError>)
    ensures
        final(ctx).claimed@ == old(ctx).claimed@,
        match r {
            Ok(v) => field_level_spec(opt_view(*file), opt_view(*env), path@) == Ok::<
                LogLevel,
                ErrV,
            >(v),
            Err(e) => field_level_spec(opt_view(*file), opt_view(*env), path@) == Err::<
                LogLevel,
                ErrV,
            >(e@),
        },
{
    let merged = merge_field(
        file,
        env,
        DefaultSpec::StaticDefault(Value::S("INFO".to_owned())),
        false,
        path,
        unavail,
        ctx,
    );
    match merged {
        Ok(Some(Value::S(s))) => match parse_log_level(&s) {
            Some(l) => Ok(l),
            None => Err(ConfigError::ParseError { path: path.to_owned() }),
        },
        Ok(_) => Err(ConfigError::ParseError { path: path.to_owned() }),
        Err(e) => Err(e),
    }
}

/// The block-store init-mode field, defaulting to `strict`.
pub open spec fn field_init_mode_spec(file: Option<ValueV>, path: Seq<char>) -> Result<
    KuraInitMode,
    ErrV,
> {
    match file {
        None => Ok(KuraInitMode::Strict),
        Some(ValueV::S(s)) => match init_mode_of(s) {
            Some(m) => Ok(m),
            None => Err(ErrV::ParseError(path)),
        },
        Some(_) => Err(ErrV::ParseError(path)),
    }
}

/// Resolves the init-mode field.
pub fn field_init_mode(
    file: &Option<Value>,
    path: &str,
    unavail: &Vec<u16>,
    ctx: &mut ResolutionContext,
) -> (r: Result<KuraInitMode, ConfigError>)
    ensures
        final(ctx).claimed@ == old(ctx).claimed@,
        match r {
            Ok(v) => field_init_mode_spec(opt_view(*file), path@) == Ok::<KuraInitMode, ErrV>(v),
            Err(e) => field_init_mode_spec(opt_view(*file), path@) == Err::<KuraInitMode, ErrV>(
                e@,
            ),
        },
{
    let merged = merge_field(
        file,
        &None,
        DefaultSpec::StaticDefault(Value::S("strict".to_owned())),
        false,
        path,
        unavail,
        ctx,
    );
    proof {
        reveal_strlit("strict");
        reveal_strlit("fast");
    }
    match merged {
        Ok(Some(Value::S(s))) => match parse_init_mode(&s) {
            Some(m) => Ok(m),
            None => Err(ConfigError::ParseError { path: path.to_owned() }),
        },
        Ok(_) => Err(ConfigError::ParseError { path: path.to_owned() }),
        Err(e) => Err(e),
    }
}

/// The environment value for `key`, wrapped as a document value.
pub open spec fn env_val(env: Seq<EnvEntry>, key: Seq<char>) -> Option<ValueV> {
    match env_lookup(env, key) {
        Some(s) => Some(ValueV::S(s)),
        None => None,
    }
}

/// Reads `key` from the environment as a document value.
pub fn env_get_val(env: &Vec<EnvEntry>, key: &str) -> (r: Option<Value>)
    ensures
        opt_view(r) == env_val(env@, key@),
{
    match env_get(env, key) {
        Some(s) => Some(Value::S(s)),
        None => None,
    }
}

/// Resolution of the block-storage section.
pub open spec fn rs_kura(b: BoundDocV) -> Result<KuraV, ErrV> {
    let init_mode = field_init_mode_spec(b.kura_init_mode, "kura.init_mode"@);
    let block_store_path = field_str_spec(b.kura_block_store_path, "./storage"@, "kura.block_store_path"@);
    let blocks_per_storage = field_int_spec(b.kura_blocks_per_storage, 1000, 1, 0x7fff_ffff_ffff_ffff, "kura.blocks_per_storage"@);
    let actor_channel_capacity = field_int_spec(b.kura_actor_channel_capacity, 100, 0, 0xffff_ffff, "kura.actor_channel_capacity"@);
    let debug_output_new_blocks = field_bool_spec(b.kura_debug_output_new_blocks, false, "kura.debug_output_new_blocks"@);
    if init_mode is Err {
        Err(init_mode->Err_0)
    } else
    if block_store_path is Err {
        Err(block_store_path->Err_0)
    } else
    if blocks_per_storage is Err {
        Err(blocks_per_storage->Err_0)
    } else
    if actor_channel_capacity is Err {
        Err(actor_channel_capacity->Err_0)
    } else
    if debug_output_new_blocks is Err {
        Err(debug_output_new_blocks->Err_0)
    } else {
        Ok(
            KuraV {
                init_mode: init_mode->Ok_0,
                block_store_path: block_store_path->Ok_0,
                blocks_per_storage: blocks_per_storage->Ok_0 as u64,
                actor_channel_capacity: actor_channel_capacity->Ok_0 as u32,
                debug_output_new_blocks: debug_output_new_blocks->Ok_0,
            },
        )
    }
}

/// Resolves the block-storage section.
pub fn resolve_kura(b: &BoundDoc, unavail: &Vec<u16>, ctx: &mut ResolutionContext) -> (r: Result<Kura, ConfigError>)
    ensures
        final(ctx).claimed@ == old(ctx).claimed@,
        match r {
            Ok(v) => rs_kura(b@) == Ok::<KuraV, ErrV>(v@),
            Err(e) => rs_kura(b@) == Err::<KuraV, ErrV>(e@),
        },
{
    let init_mode = match field_init_mode(&b.kura_init_mode, "kura.init_mode", unavail, ctx) {
        Ok(v) => v,
        Err(e) => {
            return Err(e);
        },
    };
    let block_store_path = match field_str(&b.kura_block_store_path, "./storage", "kura.block_store_path", unavail, ctx) {
        Ok(v) => v,
        Err(e) => {
            return Err(e);
        },
    };
    let blocks_per_storage = match field_u64(&b.kura_blocks_per_storage, default_blocks_per_storage(), 1, 0x7fff_ffff_ffff_ffff, "kura.blocks_per_storage", unavail, ctx) {
        Ok(v) => v,
        Err(e) => {
            return Err(e);
        },
    };
    let actor_channel_capacity = match field_u64(&b.kura_actor_channel_capacity, 100, 0, 0xffff_ffff, "kura.actor_channel_capacity", unavail, ctx) {
        Ok(v) => v,
        Err(e) => {
            return Err(e);
        },
    };
    let debug_output_new_blocks = match field_bool(&b.kura_debug_output_new_blocks, false, "kura.debug_output_new_blocks", unavail, ctx) {
        Ok(v) => v,
        Err(e) => {
            return Err(e);
        },
    };
    Ok(
        Kura {
            init_mode,
            block_store_path,
            blocks_per_storage,
            actor_channel_capacity: actor_channel_capacity as u32,
            debug_output_new_blocks,
        },
    )
}

/// Resolution of the consensus section.
pub open spec fn rs_sumeragi(b: BoundDocV) -> Result<SumeragiV, ErrV> {
    let block_time_ms = field_int_spec(b.sumeragi_block_time_ms, 2000, 0, 0x7fff_ffff_ffff_ffff, "sumeragi.block_time_ms"@);
    let trusted_peers = field_peers_spec(b.sumeragi_trusted_peers, "sumeragi.trusted_peers"@);
    let commit_time_limit_ms = field_int_spec(b.sumeragi_commit_time_limit_ms, 4000, 0, 0x7fff_ffff_ffff_ffff, "sumeragi.commit_time_limit_ms"@);
    let max_transactions_in_block = field_int_spec(b.sumeragi_max_transactions_in_block, 512, 1, 0xffff_ffff, "sumeragi.max_transactions_in_block"@);
    let actor_channel_capacity = field_int_spec(b.sumeragi_actor_channel_capacity, 100, 0, 0xffff_ffff, "sumeragi.actor_channel_capacity"@);
    let gossip_batch_size = field_int_spec(b.sumeragi_gossip_batch_size, 500, 0, 0xffff_ffff, "sumeragi.gossip_batch_size"@);
    let gossip_period_ms = field_int_spec(b.sumeragi_gossip_period_ms, 1000, 0, 0x7fff_ffff_ffff_ffff, "sumeragi.gossip_period_ms"@);
    let debug_force_soft_fork = field_bool_spec(b.sumeragi_debug_force_soft_fork, false, "sumeragi.debug_force_soft_fork"@);
    if block_time_ms is Err {
        Err(block_time_ms->Err_0)
    } else
    if trusted_peers is Err {
        Err(trusted_peers->Err_0)
    } else
    if commit_time_limit_ms is Err {
        Err(commit_time_limit_ms->Err_0)
    } else
    if max_transactions_in_block is Err {
        Err(max_transactions_in_block->Err_0)
    } else
    if actor_channel_capacity is Err {
        Err(actor_channel_capacity->Err_0)
    } else
    if gossip_batch_size is Err {
        Err(gossip_batch_size->Err_0)
    } else
    if gossip_period_ms is Err {
        Err(gossip_period_ms->Err_0)
    } else
    if debug_force_soft_fork is Err {
        Err(debug_force_soft_fork->Err_0)
    } else {
        Ok(
            SumeragiV {
                block_time_ms: block_time_ms->Ok_0 as u64,
                trusted_peers: trusted_peers->Ok_0,
                commit_time_limit_ms: commit_time_limit_ms->Ok_0 as u64,
                max_transactions_in_block: max_transactions_in_block->Ok_0 as u32,
                actor_channel_capacity: actor_channel_capacity->Ok_0 as u32,
                gossip_batch_size: gossip_batch_size->Ok_0 as u32,
                gossip_period_ms: gossip_period_ms->Ok_0 as u64,
                debug_force_soft_fork: debug_force_soft_fork->Ok_0,
            },
        )
    }
}

/// Resolves the consensus section.
pub fn resolve_sumeragi(b: &BoundDoc, unavail: &Vec<u16>, ctx: &mut ResolutionContext) -> (r: Result<Sumeragi, ConfigError>)
    ensures
        final(ctx).claimed@ == old(ctx).claimed@,
        match r {
            Ok(v) => rs_sumeragi(b@) == Ok::<SumeragiV, ErrV>(v@),
            Err(e) => rs_sumeragi(b@) == Err::<SumeragiV, ErrV>(e@),
        },
{
    let block_time_ms = match field_u64(&b.sumeragi_block_time_ms, 2000, 0, 0x7fff_ffff_ffff_ffff, "sumeragi.block_time_ms", unavail, ctx) {
        Ok(v) => v,
        Err(e) => {
            return Err(e);
        },
    };
    let trusted_peers = match field_peers(&b.sumeragi_trusted_peers, "sumeragi.trusted_peers", unavail, ctx) {
        Ok(v) => v,
        Err(e) => {
            return Err(e);
        },
    };
    let commit_time_limit_ms = match field_u64(&b.sumeragi_commit_time_limit_ms, 4000, 0, 0x7fff_ffff_ffff_ffff, "sumeragi.commit_time_limit_ms", unavail, ctx) {
        Ok(v) => v,
        Err(e) => {
            return Err(e);
        },
    };
    let max_transactions_in_block = match field_u64(&b.sumeragi_max_transactions_in_block, default_max_txs_in_block() as u64, 1, 0xffff_ffff, "sumeragi.max_transactions_in_block", unavail, ctx) {
        Ok(v) => v,
        Err(e) => {
            return Err(e);
        },
    };
    let actor_channel_capacity = match field_u64(&b.sumeragi_actor_channel_capacity, 100, 0, 0xffff_ffff, "sumeragi.actor_channel_capacity", unavail, ctx) {
        Ok(v) => v,
        Err(e) => {
            return Err(e);
        },
    };
    let gossip_batch_size = match field_u64(&b.sumeragi_gossip_batch_size, 500, 0, 0xffff_ffff, "sumeragi.gossip_batch_size", unavail, ctx) {
        Ok(v) => v,
        Err(e) => {
            return Err(e);
        },
    };
    let gossip_period_ms = match field_u64(&b.sumeragi_gossip_period_ms, 1000, 0, 0x7fff_ffff_ffff_ffff, "sumeragi.gossip_period_ms", unavail, ctx) {
        Ok(v) => v,
        Err(e) => {
            return Err(e);
        },
    };
    let debug_force_soft_fork = match field_bool(&b.sumeragi_debug_force_soft_fork, false, "sumeragi.debug_force_soft_fork", unavail, ctx) {
        Ok(v) => v,
        Err(e) => {
            return Err(e);
        },
    };
    Ok(
        Sumeragi {
            block_time_ms,
            trusted_peers,
            commit_time_limit_ms,
            max_transactions_in_block: max_transactions_in_block as u32,
            actor_channel_capacity: actor_channel_capacity as u32,
            gossip_batch_size: gossip_batch_size as u32,
            gossip_period_ms,
            debug_force_soft_fork,
        },
    )
}

/// Resolution of the genesis-account section.
pub open spec fn rs_genesis(b: BoundDocV, env: Seq<EnvEntry>) -> Result<GenesisV, ErrV> {
    let account_public_key = field_req_str_spec(b.genesis_account_public_key, env_val(env, "GENESIS_ACCOUNT_PUBLIC_KEY"@), "genesis.account_public_key"@);
    let account_private_key = field_req_str_spec(b.genesis_account_private_key, env_val(env, "GENESIS_ACCOUNT_PRIVATE_KEY"@), "genesis.account_private_key"@);
    if account_public_key is Err {
        Err(account_public_key->Err_0)
    } else
    if account_private_key is Err {
        Err(account_private_key->Err_0)
    } else {
        Ok(
            GenesisV {
                account_public_key: account_public_key->Ok_0,
                account_private_key: account_private_key->Ok_0,
            },
        )
    }
}

/// Resolves the genesis-account section.
pub fn resolve_genesis(b: &BoundDoc, env: &Vec<EnvEntry>, unavail: &Vec<u16>, ctx: &mut ResolutionContext) -> (r: Result<Genesis, ConfigError>)
    ensures
        final(ctx).claimed@ == old(ctx).claimed@,
        match r {
            Ok(v) => rs_genesis(b@, env@) == Ok::<GenesisV, ErrV>(v@),
            Err(e) => rs_genesis(b@, env@) == Err::<GenesisV, ErrV>(e@),
        },
{
    let account_public_key = match field_req_str(&b.genesis_account_public_key, &env_get_val(env, "GENESIS_ACCOUNT_PUBLIC_KEY"), "genesis.account_public_key", unavail, ctx) {
        Ok(v) => v,
        Err(e) => {
            return Err(e);
        },
    };
    let account_private_key = match field_req_str(&b.genesis_account_private_key, &env_get_val(env, "GENESIS_ACCOUNT_PRIVATE_KEY"), "genesis.account_private_key", unavail, ctx) {
        Ok(v) => v,
        Err(e) => {
            return Err(e);
        },
    };
    Ok(
        Genesis {
            account_public_key,
            account_private_key,
        },
    )
}

/// Resolution of the block-synchronisation section.
pub open spec fn rs_block_sync(b: BoundDocV) -> Result<BlockSync, ErrV> {
    let gossip_period_ms = field_int_spec(b.block_sync_gossip_period_ms, 10000, 0, 0x7fff_ffff_ffff_ffff, "block_sync.gossip_period_ms"@);
    let block_batch_size = field_int_spec(b.block_sync_block_batch_size, 4, 0, 0xffff_ffff, "block_sync.block_batch_size"@);
    let actor_channel_capacity = field_int_spec(b.block_sync_actor_channel_capacity, 100, 0, 0xffff_ffff, "block_sync.actor_channel_capacity"@);
    if gossip_period_ms is Err {
        Err(gossip_period_ms->Err_0)
    } else
    if block_batch_size is Err {
        Err(block_batch_size->Err_0)
    } else
    if actor_channel_capacity is Err {
        Err(actor_channel_capacity->Err_0)
    } else {
        Ok(
            BlockSync {
                gossip_period_ms: gossip_period_ms->Ok_0 as u64,
                block_batch_size: block_batch_size->Ok_0 as u32,
                actor_channel_capacity: actor_channel_capacity->Ok_0 as u32,
            },
        )
    }
}

/// Resolves the block-synchronisation section.
pub fn resolve_block_sync(b: &BoundDoc, unavail: &Vec<u16>, ctx: &mut ResolutionContext) -> (r: Result<BlockSync, ConfigError>)
    ensures
        final(ctx).claimed@ == old(ctx).claimed@,
        match r {
            Ok(v) => rs_block_sync(b@) == Ok::<BlockSync, ErrV>(v),
            Err(e) => rs_block_sync(b@) == Err::<BlockSync, ErrV>(e@),
        },
{
    let gossip_period_ms = match field_u64(&b.block_sync_gossip_period_ms, 10000, 0, 0x7fff_ffff_ffff_ffff, "block_sync.gossip_period_ms", unavail, ctx) {
        Ok(v) => v,
        Err(e) => {
            return Err(e);
        },
    };
    let block_batch_size = match field_u64(&b.block_sync_block_batch_size, 4, 0, 0xffff_ffff, "block_sync.block_batch_size", unavail, ctx) {
        Ok(v) => v,
        Err(e) => {
            return Err(e);
        },
    };
    let actor_channel_capacity = match field_u64(&b.block_sync_actor_channel_capacity, 100, 0, 0xffff_ffff, "block_sync.actor_channel_capacity", unavail, ctx) {
        Ok(v) => v,
        Err(e) => {
            return Err(e);
        },
    };
    Ok(
        BlockSync {
            gossip_period_ms,
            block_batch_size: block_batch_size as u32,
            actor_channel_capacity: actor_channel_capacity as u32,
        },
    )
}

/// Resolution of the transaction-queue section.
pub open spec fn rs_queue(b: BoundDocV) -> Result<Queue, ErrV> {
    let max_transactions_in_queue = field_int_spec(b.queue_max_transactions_in_queue, 65536, 1, 0xffff_ffff, "queue.max_transactions_in_queue"@);
    let max_transactions_in_signature_buffer = field_int_spec(b.queue_max_transactions_in_signature_buffer, 65536, 1, 0xffff_ffff, "queue.max_transactions_in_signature_buffer"@);
    let transaction_time_to_live_ms = field_int_spec(b.queue_transaction_time_to_live_ms, 86400000, 0, 0x7fff_ffff_ffff_ffff, "queue.transaction_time_to_live_ms"@);
    let future_threshold_ms = field_int_spec(b.queue_future_threshold_ms, 1000, 0, 0x7fff_ffff_ffff_ffff, "queue.future_threshold_ms"@);
    if max_transactions_in_queue is Err {
        Err(max_transactions_in_queue->Err_0)
    } else
    if max_transactions_in_signature_buffer is Err {
        Err(max_transactions_in_signature_buffer->Err_0)
    } else
    if transaction_time_to_live_ms is Err {
        Err(transaction_time_to_live_ms->Err_0)
    } else
    if future_threshold_ms is Err {
        Err(future_threshold_ms->Err_0)
    } else {
        Ok(
            Queue {
                max_transactions_in_queue: max_transactions_in_queue->Ok_0 as u32,
                max_transactions_in_signature_buffer: max_transactions_in_signature_buffer->Ok_0 as u32,
                transaction_time_to_live_ms: transaction_time_to_live_ms->Ok_0 as u64,
                future_threshold_ms: future_threshold_ms->Ok_0 as u64,
            },
        )
    }
}

/// Resolves the transaction-queue section.
pub fn resolve_queue(b: &BoundDoc, unavail: &Vec<u16>, ctx: &mut ResolutionContext) -> (r: Result<Queue, ConfigError>)
    ensures
        final(ctx).claimed@ == old(ctx).claimed@,
        match r {
            Ok(v) => rs_queue(b@) == Ok::<Queue, ErrV>(v),
            Err(e) => rs_queue(b@) == Err::<Queue, ErrV>(e@),
        },
{
    let max_transactions_in_queue = match field_u64(&b.queue_max_transactions_in_queue, default_max_txs_in_queue() as u64, 1, 0xffff_ffff, "queue.max_transactions_in_queue", unavail, ctx) {
        Ok(v) => v,
        Err(e) => {
            return Err(e);
        },
    };
    let max_transactions_in_signature_buffer = match field_u64(&b.queue_max_transactions_in_signature_buffer, default_max_txs_in_signature_buffer() as u64, 1, 0xffff_ffff, "queue.max_transactions_in_signature_buffer", unavail, ctx) {
        Ok(v) => v,
        Err(e) => {
            return Err(e);
        },
    };
    let transaction_time_to_live_ms = match field_u64(&b.queue_transaction_time_to_live_ms, default_tx_ttl(), 0, 0x7fff_ffff_ffff_ffff, "queue.transaction_time_to_live_ms", unavail, ctx) {
        Ok(v) => v,
        Err(e) => {
            return Err(e);
        },
    };
    let future_threshold_ms = match field_u64(&b.queue_future_threshold_ms, 1000, 0, 0x7fff_ffff_ffff_ffff, "queue.future_threshold_ms", unavail, ctx) {
        Ok(v) => v,
        Err(e) => {
            return Err(e);
        },
    };
    Ok(
        Queue {
            max_transactions_in_queue: max_transactions_in_queue as u32,
            max_transactions_in_signature_buffer: max_transactions_in_signature_buffer as u32,
            transaction_time_to_live_ms,
            future_threshold_ms,
        },
    )
}

/// Resolution of the logging section.
pub open spec fn rs_logger(b: BoundDocV, env: Seq<EnvEntry>) -> Result<LoggerV, ErrV> {
    let log_level = field_level_spec(b.logger_log_level, env_val(env, "LOG_LEVEL"@), "logger.log_level"@);
    let telemetry_capacity = field_int_spec(b.logger_telemetry_capacity, 1000, 0, 0xffff_ffff, "logger.telemetry_capacity"@);
    let compact_mode = field_bool_spec(b.logger_compact_mode, false, "logger.compact_mode"@);
    let log_file_path = field_opt_str_spec(b.logger_log_file_path, "logger.log_file_path"@);
    let terminal_colors = field_bool_spec(b.logger_terminal_colors, true, "logger.terminal_colors"@);
    let tokio_console_addr = field_opt_str_spec(b.logger_tokio_console_addr, "logger.tokio_console_addr"@);
    if log_level is Err {
        Err(log_level->Err_0)
    } else
    if telemetry_capacity is Err {
        Err(telemetry_capacity->Err_0)
    } else
    if compact_mode is Err {
        Err(compact_mode->Err_0)
    } else
    if log_file_path is Err {
        Err(log_file_path->Err_0)
    } else
    if terminal_colors is Err {
        Err(terminal_colors->Err_0)
    } else
    if tokio_console_addr is Err {
        Err(tokio_console_addr->Err_0)
    } else {
        Ok(
            LoggerV {
                log_level: log_level->Ok_0,
                telemetry_capacity: telemetry_capacity->Ok_0 as u32,
                compact_mode: compact_mode->Ok_0,
                log_file_path: log_file_path->Ok_0,
                terminal_colors: terminal_colors->Ok_0,
                tokio_console_addr: tokio_console_addr->Ok_0,
            },
        )
    }
}

/// Resolves the logging section.
pub fn resolve_logger(b: &BoundDoc, env: &Vec<EnvEntry>, unavail: &Vec<u16>, ctx: &mut ResolutionContext) -> (r: Result<Logger, ConfigError>)
    ensures
        final(ctx).claimed@ == old(ctx).claimed@,
        match r {
            Ok(v) => rs_logger(b@, env@) == Ok::<LoggerV, ErrV>(v@),
            Err(e) => rs_logger(b@, env@) == Err::<LoggerV, ErrV>(e@),
        },
{
    let log_level = match field_level(&b.logger_log_level, &env_get_val(env, "LOG_LEVEL"), "logger.log_level", unavail, ctx) {
        Ok(v) => v,
        Err(e) => {
            return Err(e);
        },
    };
    let telemetry_capacity = match field_u64(&b.logger_telemetry_capacity, 1000, 0, 0xffff_ffff, "logger.telemetry_capacity", unavail, ctx) {
        Ok(v) => v,
        Err(e) => {
            return Err(e);
        },
    };
    let compact_mode = match field_bool(&b.logger_compact_mode, false, "logger.compact_mode", unavail, ctx) {
        Ok(v) => v,
        Err(e) => {
            return Err(e);
        },
    };
    let log_file_path = match field_opt_str(&b.logger_log_file_path, "logger.log_file_path", unavail, ctx) {
        Ok(v) => v,
        Err(e) => {
            return Err(e);
        },
    };
    let terminal_colors = match field_bool(&b.logger_terminal_colors, true, "logger.terminal_colors", unavail, ctx) {
        Ok(v) => v,
        Err(e) => {
            return Err(e);
        },
    };
    let tokio_console_addr = match field_opt_str(&b.logger_tokio_console_addr, "logger.tokio_console_addr", unavail, ctx) {
        Ok(v) => v,
        Err(e) => {
            return Err(e);
        },
    };
    Ok(
        Logger {
            log_level,
            telemetry_capacity: telemetry_capacity as u32,
            compact_mode,
            log_file_path,
            terminal_colors,
            tokio_console_addr,
        },
    )
}

/// Resolution of the network-actor section.
pub open spec fn rs_network(b: BoundDocV) -> Result<Network, ErrV> {
    let actor_channel_capacity = field_int_spec(b.network_actor_channel_capacity, 100, 0, 0xffff_ffff, "network.actor_channel_capacity"@);
    if actor_channel_capacity is Err {
        Err(actor_channel_capacity->Err_0)
    } else {
        Ok(
            Network {
                actor_channel_capacity: actor_channel_capacity->Ok_0 as u32,
            },
        )
    }
}

/// Resolves the network-actor section.
pub fn resolve_network(b: &BoundDoc, unavail: &Vec<u16>, ctx: &mut ResolutionContext) -> (r: Result<Network, ConfigError>)
    ensures
        final(ctx).claimed@ == old(ctx).claimed@,
        match r {
            Ok(v) => rs_network(b@) == Ok::<Network, ErrV>(v),
            Err(e) => rs_network(b@) == Err::<Network, ErrV>(e@),
        },
{
    let actor_channel_capacity = match field_u64(&b.network_actor_channel_capacity, 100, 0, 0xffff_ffff, "network.actor_channel_capacity", unavail, ctx) {
        Ok(v) => v,
        Err(e) => {
            return Err(e);
        },
    };
    Ok(
        Network {
            actor_channel_capacity: actor_channel_capacity as u32,
        },
    )
}

/// Resolution of the telemetry-reporting section.
pub open spec fn rs_telemetry(b: BoundDocV) -> Result<TelemetryV, ErrV> {
    let name = field_opt_str_spec(b.telemetry_name, "telemetry.name"@);
    let url = field_opt_str_spec(b.telemetry_url, "telemetry.url"@);
    let min_retry_period = field_int_spec(b.telemetry_min_retry_period, 1, 0, 0x7fff_ffff_ffff_ffff, "telemetry.min_retry_period"@);
    let max_retry_delay_exponent = field_int_spec(b.telemetry_max_retry_delay_exponent, 4, 0, 0xff, "telemetry.max_retry_delay_exponent"@);
    let file = field_opt_str_spec(b.telemetry_file, "telemetry.file"@);
    if name is Err {
        Err(name->Err_0)
    } else
    if url is Err {
        Err(url->Err_0)
    } else
    if min_retry_period is Err {
        Err(min_retry_period->Err_0)
    } else
    if max_retry_delay_exponent is Err {
        Err(max_retry_delay_exponent->Err_0)
    } else
    if file is Err {
        Err(file->Err_0)
    } else {
        Ok(
            TelemetryV {
                name: name->Ok_0,
                url: url->Ok_0,
                min_retry_period: min_retry_period->Ok_0 as u64,
                max_retry_delay_exponent: max_retry_delay_exponent->Ok_0 as u8,
                file: file->Ok_0,
            },
        )
    }
}

/// Resolves the telemetry-reporting section.
pub fn resolve_telemetry(b: &BoundDoc, unavail: &Vec<u16>, ctx: &mut ResolutionContext) -> (r: Result<Telemetry, ConfigError>)
    ensures
        final(ctx).claimed@ == old(ctx).claimed@,
        match r {
            Ok(v) => rs_telemetry(b@) == Ok::<TelemetryV, ErrV>(v@),
            Err(e) => rs_telemetry(b@) == Err::<TelemetryV, ErrV>(e@),
        },
{
    let name = match field_opt_str(&b.telemetry_name, "telemetry.name", unavail, ctx) {
        Ok(v) => v,
        Err(e) => {
            return Err(e);
        },
    };
    let url = match field_opt_str(&b.telemetry_url, "telemetry.url", unavail, ctx) {
        Ok(v) => v,
        Err(e) => {
            return Err(e);
        },
    };
    let min_retry_period = match field_u64(&b.telemetry_min_retry_period, 1, 0, 0x7fff_ffff_ffff_ffff, "telemetry.min_retry_period", unavail, ctx) {
        Ok(v) => v,
        Err(e) => {
            return Err(e);
        },
    };
    let max_retry_delay_exponent = match field_u64(&b.telemetry_max_retry_delay_exponent, 4, 0, 0xff, "telemetry.max_retry_delay_exponent", unavail, ctx) {
        Ok(v) => v,
        Err(e) => {
            return Err(e);
        },
    };
    let file = match field_opt_str(&b.telemetry_file, "telemetry.file", unavail, ctx) {
        Ok(v) => v,
        Err(e) => {
            return Err(e);
        },
    };
    Ok(
        Telemetry {
            name,
            url,
            min_retry_period,
            max_retry_delay_exponent: max_retry_delay_exponent as u8,
            file,
        },
    )
}

/// Resolution of the world-state-view limits section.
pub open spec fn rs_wsv(b: BoundDocV) -> Result<Wsv, ErrV> {
    let asset_max_len = field_int_spec(b.wsv_asset_metadata_max_len, 1048576, 1, 0xffff_ffff, "wsv.asset_metadata_limits.max_len"@);
    let asset_max_entry = field_int_spec(b.wsv_asset_metadata_max_entry_byte_size, 4096, 1, 0xffff_ffff, "wsv.asset_metadata_limits.max_entry_byte_size"@);
    let asset_def_max_len = field_int_spec(b.wsv_asset_definition_metadata_max_len, 1048576, 1, 0xffff_ffff, "wsv.asset_definition_metadata_limits.max_len"@);
    let asset_def_max_entry = field_int_spec(b.wsv_asset_definition_metadata_max_entry_byte_size, 4096, 1, 0xffff_ffff, "wsv.asset_definition_metadata_limits.max_entry_byte_size"@);
    let account_max_len = field_int_spec(b.wsv_account_metadata_max_len, 1048576, 1, 0xffff_ffff, "wsv.account_metadata_limits.max_len"@);
    let account_max_entry = field_int_spec(b.wsv_account_metadata_max_entry_byte_size, 4096, 1, 0xffff_ffff, "wsv.account_metadata_limits.max_entry_byte_size"@);
    let domain_max_len = field_int_spec(b.wsv_domain_metadata_max_len, 1048576, 1, 0xffff_ffff, "wsv.domain_metadata_limits.max_len"@);
    let domain_max_entry = field_int_spec(b.wsv_domain_metadata_max_entry_byte_size, 4096, 1, 0xffff_ffff, "wsv.domain_metadata_limits.max_entry_byte_size"@);
    let ident_min = field_int_spec(b.wsv_ident_length_min, 1, 1, 0xffff_ffff, "wsv.ident_length_limits.min"@);
    let ident_max = field_int_spec(b.wsv_ident_length_max, 128, 1, 0xffff_ffff, "wsv.ident_length_limits.max"@);
    let tx_max_instr = field_int_spec(b.wsv_tx_max_instruction_number, 4096, 1, 0x7fff_ffff_ffff_ffff, "wsv.transaction_limits.max_instruction_number"@);
    let tx_max_wasm = field_int_spec(b.wsv_tx_max_wasm_size_bytes, 4194304, 1, 0x7fff_ffff_ffff_ffff, "wsv.transaction_limits.max_wasm_size_bytes"@);
    let fuel_limit = field_int_spec(b.wsv_wasm_fuel_limit, 23000000, 1, 0x7fff_ffff_ffff_ffff, "wsv.wasm_runtime.fuel_limit"@);
    let max_memory = field_int_spec(b.wsv_wasm_max_memory, 524288000, 1, 0xffff_ffff, "wsv.wasm_runtime.max_memory"@);
    if asset_max_len is Err {
        Err(asset_max_len->Err_0)
    } else
    if asset_max_entry is Err {
        Err(asset_max_entry->Err_0)
    } else
    if asset_def_max_len is Err {
        Err(asset_def_max_len->Err_0)
    } else
    if asset_def_max_entry is Err {
        Err(asset_def_max_entry->Err_0)
    } else
    if account_max_len is Err {
        Err(account_max_len->Err_0)
    } else
    if account_max_entry is Err {
        Err(account_max_entry->Err_0)
    } else
    if domain_max_len is Err {
        Err(domain_max_len->Err_0)
    } else
    if domain_max_entry is Err {
        Err(domain_max_entry->Err_0)
    } else
    if ident_min is Err {
        Err(ident_min->Err_0)
    } else
    if ident_max is Err {
        Err(ident_max->Err_0)
    } else
    if tx_max_instr is Err {
        Err(tx_max_instr->Err_0)
    } else
    if tx_max_wasm is Err {
        Err(tx_max_wasm->Err_0)
    } else
    if fuel_limit is Err {
        Err(fuel_limit->Err_0)
    } else
    if max_memory is Err {
        Err(max_memory->Err_0)
    } else {
        Ok(
            Wsv {
                asset_metadata_limits: MetadataLimits {
                    max_len: asset_max_len->Ok_0 as u32,
                    max_entry_byte_size: asset_max_entry->Ok_0 as u32,
                },
                asset_definition_metadata_limits: MetadataLimits {
                    max_len: asset_def_max_len->Ok_0 as u32,
                    max_entry_byte_size: asset_def_max_entry->Ok_0 as u32,
                },
                account_metadata_limits: MetadataLimits {
                    max_len: account_max_len->Ok_0 as u32,
                    max_entry_byte_size: account_max_entry->Ok_0 as u32,
                },
                domain_metadata_limits: MetadataLimits {
                    max_len: domain_max_len->Ok_0 as u32,
                    max_entry_byte_size: domain_max_entry->Ok_0 as u32,
                },
                ident_length_limits: LengthLimits {
                    min: ident_min->Ok_0 as u32,
                    max: ident_max->Ok_0 as u32,
                },
                transaction_limits: TransactionLimits {
                    max_instruction_number: tx_max_instr->Ok_0 as u64,
                    max_wasm_size_bytes: tx_max_wasm->Ok_0 as u64,
                },
                wasm_runtime: Wasm {
                    fuel_limit: fuel_limit->Ok_0 as u64,
                    max_memory: max_memory->Ok_0 as u32,
                },
            },
        )
    }
}

/// Resolves the world-state-view limits section.
#[verifier::rlimit(100)]
pub fn resolve_wsv(b: &BoundDoc, unavail: &Vec<u16>, ctx: &mut ResolutionContext) -> (r: Result<Wsv, ConfigError>)
    ensures
        final(ctx).claimed@ == old(ctx).claimed@,
        match r {
            Ok(v) => rs_wsv(b@) == Ok::<Wsv, ErrV>(v),
            Err(e) => rs_wsv(b@) == Err::<Wsv, ErrV>(e@),
        },
{
    let asset_max_len = match field_u64(&b.wsv_asset_metadata_max_len, DEFAULT_METADATA_MAX_LEN as u64, 1, 0xffff_ffff, "wsv.asset_metadata_limits.max_len", unavail, ctx) {
        Ok(v) => v,
        Err(e) => {
            return Err(e);
        },
    };
    let asset_max_entry = match field_u64(&b.wsv_asset_metadata_max_entry_byte_size, DEFAULT_METADATA_MAX_ENTRY_BYTE_SIZE as u64, 1, 0xffff_ffff, "wsv.asset_metadata_limits.max_entry_byte_size", unavail, ctx) {
        Ok(v) => v,
        Err(e) => {
            return Err(e);
        },
    };
    let asset_def_max_len = match field_u64(&b.wsv_asset_definition_metadata_max_len, DEFAULT_METADATA_MAX_LEN as u64, 1, 0xffff_ffff, "wsv.asset_definition_metadata_limits.max_len", unavail, ctx) {
        Ok(v) => v,
        Err(e) => {
            return Err(e);
        },
    };
    let asset_def_max_entry = match field_u64(&b.wsv_asset_definition_metadata_max_entry_byte_size, DEFAULT_METADATA_MAX_ENTRY_BYTE_SIZE as u64, 1, 0xffff_ffff, "wsv.asset_definition_metadata_limits.max_entry_byte_size", unavail, ctx) {
        Ok(v) => v,
        Err(e) => {
            return Err(e);
        },
    };
    let account_max_len = match field_u64(&b.wsv_account_metadata_max_len, DEFAULT_METADATA_MAX_LEN as u64, 1, 0xffff_ffff, "wsv.account_metadata_limits.max_len", unavail, ctx) {
        Ok(v) => v,
        Err(e) => {
            return Err(e);
        },
    };
    let account_max_entry = match field_u64(&b.wsv_account_metadata_max_entry_byte_size, DEFAULT_METADATA_MAX_ENTRY_BYTE_SIZE as u64, 1, 0xffff_ffff, "wsv.account_metadata_limits.max_entry_byte_size", unavail, ctx) {
        Ok(v) => v,
        Err(e) => {
            return Err(e);
        },
    };
    let domain_max_len = match field_u64(&b.wsv_domain_metadata_max_len, DEFAULT_METADATA_MAX_LEN as u64, 1, 0xffff_ffff, "wsv.domain_metadata_limits.max_len", unavail, ctx) {
        Ok(v) => v,
        Err(e) => {
            return Err(e);
        },
    };
    let domain_max_entry = match field_u64(&b.wsv_domain_metadata_max_entry_byte_size, DEFAULT_METADATA_MAX_ENTRY_BYTE_SIZE as u64, 1, 0xffff_ffff, "wsv.domain_metadata_limits.max_entry_byte_size", unavail, ctx) {
        Ok(v) => v,
        Err(e) => {
            return Err(e);
        },
    };
    let ident_min = match field_u64(&b.wsv_ident_length_min, DEFAULT_IDENT_MIN as u64, 1, 0xffff_ffff, "wsv.ident_length_limits.min", unavail, ctx) {
        Ok(v) => v,
        Err(e) => {
            return Err(e);
        },
    };
    let ident_max = match field_u64(&b.wsv_ident_length_max, DEFAULT_IDENT_MAX as u64, 1, 0xffff_ffff, "wsv.ident_length_limits.max", unavail, ctx) {
        Ok(v) => v,
        Err(e) => {
            return Err(e);
        },
    };
    let tx_max_instr = match field_u64(&b.wsv_tx_max_instruction_number, DEFAULT_TX_MAX_INSTRUCTIONS, 1, 0x7fff_ffff_ffff_ffff, "wsv.transaction_limits.max_instruction_number", unavail, ctx) {
        Ok(v) => v,
        Err(e) => {
            return Err(e);
        },
    };
    let tx_max_wasm = match field_u64(&b.wsv_tx_max_wasm_size_bytes, DEFAULT_TX_MAX_WASM_SIZE, 1, 0x7fff_ffff_ffff_ffff, "wsv.transaction_limits.max_wasm_size_bytes", unavail, ctx) {
        Ok(v) => v,
        Err(e) => {
            return Err(e);
        },
    };
    let fuel_limit = match field_u64(&b.wsv_wasm_fuel_limit, 23000000, 1, 0x7fff_ffff_ffff_ffff, "wsv.wasm_runtime.fuel_limit", unavail, ctx) {
        Ok(v) => v,
        Err(e) => {
            return Err(e);
        },
    };
    let max_memory = match field_u64(&b.wsv_wasm_max_memory, default_wasm_max_memory() as u64, 1, 0xffff_ffff, "wsv.wasm_runtime.max_memory", unavail, ctx) {
        Ok(v) => v,
        Err(e) => {
            return Err(e);
        },
    };
    Ok(
        Wsv {
            asset_metadata_limits: MetadataLimits {
                max_len: asset_max_len as u32,
                max_entry_byte_size: asset_max_entry as u32,
            },
            asset_definition_metadata_limits: MetadataLimits {
                max_len: asset_def_max_len as u32,
                max_entry_byte_size: asset_def_max_entry as u32,
            },
            account_metadata_limits: MetadataLimits {
                max_len: account_max_len as u32,
                max_entry_byte_size: account_max_entry as u32,
            },
            domain_metadata_limits: MetadataLimits {
                max_len: domain_max_len as u32,
                max_entry_byte_size: domain_max_entry as u32,
            },
            ident_length_limits: LengthLimits { min: ident_min as u32, max: ident_max as u32 },
            transaction_limits: TransactionLimits {
                max_instruction_number: tx_max_instr,
                max_wasm_size_bytes: tx_max_wasm,
            },
            wasm_runtime: Wasm { fuel_limit, max_memory: max_memory as u32 },
        },
    )
}

/// Resolution of the gateway section; the claimed-port set is threaded
/// through the three address probes so their defaults never collide.
pub open spec fn rs_torii(b: BoundDocV, unavail: Seq<u16>, claimed: Seq<u16>) -> Result<
    (ToriiV, Seq<u16>),
    ErrV,
> {
    let p2p = field_addr_spec(b.torii_addr_p2p, 1337, "torii.addr_p2p"@, unavail, claimed);
    if p2p is Err {
        Err(p2p->Err_0)
    } else {
        let api = field_addr_spec(b.torii_addr_api, 8080, "torii.addr_api"@, unavail, p2p->Ok_0.1);
        if api is Err {
            Err(api->Err_0)
        } else {
            let tel = field_addr_spec(
                b.torii_addr_telemetry,
                8180,
                "torii.addr_telemetry"@,
                unavail,
                api->Ok_0.1,
            );
            if tel is Err {
                Err(tel->Err_0)
            } else {
                let mts = field_int_spec(
                    b.torii_max_transaction_size,
                    32768,
                    1,
                    0xffff_ffff,
                    "torii.max_transaction_size"@,
                );
                if mts is Err {
                    Err(mts->Err_0)
                } else {
                    let mcl = field_int_spec(
                        b.torii_max_content_len,
                        16384000,
                        1,
                        0xffff_ffff,
                        "torii.max_content_len"@,
                    );
                    if mcl is Err {
                        Err(mcl->Err_0)
                    } else {
                        Ok(
                            (
                                ToriiV {
                                    addr_p2p: p2p->Ok_0.0,
                                    addr_api: api->Ok_0.0,
                                    addr_telemetry: tel->Ok_0.0,
                                    max_transaction_size: mts->Ok_0 as u32,
                                    max_content_len: mcl->Ok_0 as u32,
                                },
                                tel->Ok_0.1,
                            ),
                        )
                    }
                }
            }
        }
    }
}

/// Resolves the gateway section.
pub fn resolve_torii(b: &BoundDoc, unavail: &Vec<u16>, ctx: &mut ResolutionContext) -> (r: Result<
    Torii,
    ConfigError,
>)
    ensures
        match r {
            Ok(v) => rs_torii(b@, unavail@, old(ctx).claimed@) == Ok::<(ToriiV, Seq<u16>), ErrV>(
                (v@, final(ctx).claimed@),
            ),
            Err(e) => rs_torii(b@, unavail@, old(ctx).claimed@) == Err::<(ToriiV, Seq<u16>), ErrV>(
                e@,
            ),
        },
{
    let addr_p2p = match field_addr(&b.torii_addr_p2p, BASE_PORT_P2P, "torii.addr_p2p", unavail, ctx) {
        Ok(v) => v,
        Err(e) => {
            return Err(e);
        },
    };
    let addr_api = match field_addr(&b.torii_addr_api, BASE_PORT_API, "torii.addr_api", unavail, ctx) {
        Ok(v) => v,
        Err(e) => {
            return Err(e);
        },
    };
    let addr_telemetry = match field_addr(
        &b.torii_addr_telemetry,
        BASE_PORT_TELEMETRY,
        "torii.addr_telemetry",
        unavail,
        ctx,
    ) {
        Ok(v) => v,
        Err(e) => {
            return Err(e);
        },
    };
    let max_transaction_size = match field_u64(
        &b.torii_max_transaction_size,
        default_max_transaction_size() as u64,
        1,
        0xffff_ffff,
        "torii.max_transaction_size",
        unavail,
        ctx,
    ) {
        Ok(v) => v,
        Err(e) => {
            return Err(e);
        },
    };
    let max_content_len = match field_u64(
        &b.torii_max_content_len,
        default_max_content_len() as u64,
        1,
        0xffff_ffff,
        "torii.max_content_len",
        unavail,
        ctx,
    ) {
        Ok(v) => v,
        Err(e) => {
            return Err(e);
        },
    };
    Ok(
        Torii {
            addr_p2p,
            addr_api,
            addr_telemetry,
            max_transaction_size: max_transaction_size as u32,
            max_content_len: max_content_len as u32,
        },
    )
}

/// Resolution of the whole schema tree, depth-first in declared order,
/// starting from the claimed-port set `claimed0`. On success the result
/// carries the resolved tree and the ports claimed by dynamic defaults.
pub open spec fn resolve_spec(
    b: BoundDocV,
    env: Seq<EnvEntry>,
    unavail: Seq<u16>,
    claimed0: Seq<u16>,
) -> Result<(IrohaV, Seq<u16>), ErrV> {
    let pk = field_req_str_spec(b.public_key, env_val(env, "PUBLIC_KEY"@), "public_key"@);
    let sk = field_req_str_spec(b.private_key, env_val(env, "PRIVATE_KEY"@), "private_key"@);
    let dis = field_bool_spec(
        b.disable_panic_terminal_colors,
        false,
        "disable_panic_terminal_colors"@,
    );
    let kura = rs_kura(b);
    let sumeragi = rs_sumeragi(b);
    let genesis = rs_genesis(b, env);
    let torii = rs_torii(b, unavail, claimed0);
    let block_sync = rs_block_sync(b);
    let queue = rs_queue(b);
    let logger = rs_logger(b, env);
    let wsv = rs_wsv(b);
    let network = rs_network(b);
    let telemetry = rs_telemetry(b);
    if pk is Err {
        Err(pk->Err_0)
    } else if sk is Err {
        Err(sk->Err_0)
    } else if dis is Err {
        Err(dis->Err_0)
    } else if kura is Err {
        Err(kura->Err_0)
    } else if sumeragi is Err {
        Err(sumeragi->Err_0)
    } else if genesis is Err {
        Err(genesis->Err_0)
    } else if torii is Err {
        Err(torii->Err_0)
    } else if block_sync is Err {
        Err(block_sync->Err_0)
    } else if queue is Err {
        Err(queue->Err_0)
    } else if logger is Err {
        Err(logger->Err_0)
    } else if wsv is Err {
        Err(wsv->Err_0)
    } else if network is Err {
        Err(network->Err_0)
    } else if telemetry is Err {
        Err(telemetry->Err_0)
    } else {
        Ok(
            (
                IrohaV {
                    public_key: pk->Ok_0,
                    private_key: sk->Ok_0,
                    disable_panic_terminal_colors: dis->Ok_0,
                    kura: kura->Ok_0,
                    sumeragi: sumeragi->Ok_0,
                    genesis: genesis->Ok_0,
                    torii: torii->Ok_0.0,
                    block_sync: block_sync->Ok_0,
                    queue: queue->Ok_0,
                    logger: logger->Ok_0,
                    wsv: wsv->Ok_0,
                    network: network->Ok_0,
                    telemetry: telemetry->Ok_0,
                },
                torii->Ok_0.1,
            ),
        )
    }
}

/// Resolves a bound document against the schema: for every field, in
/// declared depth-first order, environment override, then explicit value,
/// then dynamic or static default; required fields with none of these fail
/// with `MissingRequired`.
#[verifier::rlimit(100)]
pub fn resolve(
    b: &BoundDoc,
    env: &Vec<EnvEntry>,
    unavail: &Vec<u16>,
    ctx: &mut ResolutionContext,
) -> (r: Result<Iroha, ConfigError>)
    ensures
        match r {
            Ok(c) => resolve_spec(b@, env@, unavail@, old(ctx).claimed@) == Ok::<
                (IrohaV, Seq<u16>),
                ErrV,
            >((c@, final(ctx).claimed@)),
            Err(e) => resolve_spec(b@, env@, unavail@, old(ctx).claimed@) == Err::<
                (IrohaV, Seq<u16>),
                ErrV,
            >(e@),
        },
{
    let env_pk = env_get_val(env, "PUBLIC_KEY");
    let public_key = match field_req_str(&b.public_key, &env_pk, "public_key", unavail, ctx) {
        Ok(v) => v,
        Err(e) => {
            return Err(e);
        },
    };
    let env_sk = env_get_val(env, "PRIVATE_KEY");
    let private_key = match field_req_str(&b.private_key, &env_sk, "private_key", unavail, ctx) {
        Ok(v) => v,
        Err(e) => {
            return Err(e);
        },
    };
    let disable = match field_bool(
        &b.disable_panic_terminal_colors,
        false,
        "disable_panic_terminal_colors",
        unavail,
        ctx,
    ) {
        Ok(v) => v,
        Err(e) => {
            return Err(e);
        },
    };
    let kura = match resolve_kura(b, unavail, ctx) {
        Ok(v) => v,
        Err(e) => {
            return Err(e);
        },
    };
    let sumeragi = match resolve_sumeragi(b, unavail, ctx) {
        Ok(v) => v,
        Err(e) => {
            return Err(e);
        },
    };
    let genesis = match resolve_genesis(b, env, unavail, ctx) {
        Ok(v) => v,
        Err(e) => {
            return Err(e);
        },
    };
    let torii = match resolve_torii(b, unavail, ctx) {
        Ok(v) => v,
        Err(e) => {
            return Err(e);
        },
    };
    let block_sync = match resolve_block_sync(b, unavail, ctx) {
        Ok(v) => v,
        Err(e) => {
            return Err(e);
        },
    };
    let queue = match resolve_queue(b, unavail, ctx) {
        Ok(v) => v,
        Err(e) => {
            return Err(e);
        },
    };
    let logger = match resolve_logger(b, env, unavail, ctx) {
        Ok(v) => v,
        Err(e) => {
            return Err(e);
        },
    };
    let wsv = match resolve_wsv(b, unavail, ctx) {
        Ok(v) => v,
        Err(e) => {
            return Err(e);
        },
    };
    let network = match resolve_network(b, unavail, ctx) {
        Ok(v) => v,
        Err(e) => {
            return Err(e);
        },
    };
    let telemetry = match resolve_telemetry(b, unavail, ctx) {
        Ok(v) => v,
        Err(e) => {
            return Err(e);
        },
    };
    Ok(
        Iroha {
            public_key,
            private_key,
            disable_panic_terminal_colors: disable,
            kura,
            sumeragi,
            genesis,
            torii,
            block_sync,
            queue,
            logger,
            wsv,
            network,
            telemetry,
        },
    )
}

/// Binds and resolves a parsed document in one step.
pub fn resolve_document(
    doc: &Vec<Entry>,
    env: &Vec<EnvEntry>,
    unavail: &Vec<u16>,
    ctx: &mut ResolutionContext,
) -> (r: Result<Iroha, ConfigError>)
    ensures
        match r {
            Ok(c) => resolve_spec(bind_fold(doc@), env@, unavail@, old(ctx).claimed@) == Ok::<
                (IrohaV, Seq<u16>),
                ErrV,
            >((c@, final(ctx).claimed@)) && (forall|j: int|
                0 <= j < doc@.len() ==> known_path(#[trigger] doc@[j].path@)),
            Err(e) => (e@ is UnknownField && exists|j: int|
                0 <= j < doc@.len() && !known_path(#[trigger] doc@[j].path@) && e@
                    == ErrV::UnknownField(doc@[j].path@)) || resolve_spec(
                bind_fold(doc@),
                env@,
                unavail@,
                old(ctx).claimed@,
            ) == Err::<(IrohaV, Seq<u16>), ErrV>(e@),
        },
{
    let b = match bind(doc) {
        Ok(b) => b,
        Err(e) => {
            return Err(e);
        },
    };
    resolve(&b, env, unavail, ctx)
}

} // verus!
