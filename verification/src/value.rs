//! Plain values carried by configuration documents, and the error type of
//! resolution. Each executable type has a mathematical view used by the
//! contracts.

use vstd::prelude::*;
use vstd::string::StringExecFns;

verus! {

/// One trusted-peer identity: a network address and a public key, both
/// carried as plain text.
#[derive(Clone, PartialEq, Eq, Debug)]
pub struct Peer {
    pub address: String,
    pub public_key: String,
}

/// Mathematical view of a [`Peer`].
pub struct PeerV {
    pub address: Seq<char>,
    pub public_key: Seq<char>,
}

impl View for Peer {
    type V = PeerV;

    open spec fn view(&self) -> PeerV {
        PeerV { address: self.address@, public_key: self.public_key@ }
    }
}

/// A scalar (or peer-list) value as it appears in a configuration document.
#[derive(Clone, PartialEq, Eq, Debug)]
pub enum Value {
    I(i64),
    B(bool),
    S(String),
    Peers(Vec<Peer>),
}

/// Mathematical view of a [`Value`].
pub enum ValueV {
    I(int),
    B(bool),
    S(Seq<char>),
    Peers(Seq<PeerV>),
}

impl View for Value {
    type V = ValueV;

    open spec fn view(&self) -> ValueV {
        match self {
            Value::I(i) => ValueV::I(*i as int),
            Value::B(b) => ValueV::B(*b),
            Value::S(s) => ValueV::S(s@),
            Value::Peers(ps) => ValueV::Peers(ps@.map_values(|p: Peer| p@)),
        }
    }
}

/// View of an optional value.
pub open spec fn opt_view(v: Option<Value>) -> Option<ValueV> {
    match v {
        Some(x) => Some(x@),
        None => None,
    }
}

/// Why resolution failed.
///
/// Rendering a resolved tree is total and verified, so no variant for a
/// serialization failure exists: that error kind has no inhabitant.
#[derive(Clone, PartialEq, Eq, Debug)]
pub enum ConfigError {
    /// A present value has the wrong type or an out-of-range magnitude.
    ParseError { path: String },
    /// The document holds a key that matches no schema node.
    UnknownField { path: String },
    /// A required field with no default is absent.
    MissingRequired { path: String },
    /// No port in `[base, 65535)` was available.
    PortsExhausted { base: u16 },
}

/// Mathematical view of a [`ConfigError`].
pub enum ErrV {
    ParseError(Seq<char>),
    UnknownField(Seq<char>),
    MissingRequired(Seq<char>),
    PortsExhausted(u16),
}

impl View for ConfigError {
    type V = ErrV;

    open spec fn view(&self) -> ErrV {
        match self {
            ConfigError::ParseError { path } => ErrV::ParseError(path@),
            ConfigError::UnknownField { path } => ErrV::UnknownField(path@),
            ConfigError::MissingRequired { path } => ErrV::MissingRequired(path@),
            ConfigError::PortsExhausted { base } => ErrV::PortsExhausted(*base),
        }
    }
}

impl ConfigError {
    /// A human-readable description, exact to the character.
    pub fn message(&self) -> (r: String)
        ensures
            r@ == self.message_spec(),
    {
        match self {
            ConfigError::ParseError { path } => {
                let m = "invalid value for `".to_owned();
                m.concat(path.as_str()).concat("`")
            },
            ConfigError::UnknownField { path } => {
                let m = "unknown configuration key `".to_owned();
                m.concat(path.as_str()).concat("`")
            },
            ConfigError::MissingRequired { path } => {
                let m = "missing required field `".to_owned();
                m.concat(path.as_str()).concat("`")
            },
            ConfigError::PortsExhausted { base } => {
                let m = "no free port at or above ".to_owned();
                m.concat(crate::ports::dec_u64(*base as u64).as_str())
            },
        }
    }

    /// What [`ConfigError::message`] returns.
    pub open spec fn message_spec(&self) -> Seq<char> {
        match self@ {
            ErrV::ParseError(p) => "invalid value for `"@ + p + "`"@,
            ErrV::UnknownField(p) => "unknown configuration key `"@ + p + "`"@,
            ErrV::MissingRequired(p) => "missing required field `"@ + p + "`"@,
            ErrV::PortsExhausted(b) => "no free port at or above "@ + crate::ports::dec_of(b as nat),
        }
    }
}

/// True when the two strings hold the same characters.
pub fn s_eq(a: &String, b: &str) -> (r: bool)
    ensures
        r == (a@ == b@),
{
    let bo: String = b.to_owned();
    *a == bo
}

/// Copies a value; the copy has the same view.
pub fn clone_value(v: &Value) -> (r: Value)
    ensures
        r@ == v@,
{
    match v {
        Value::I(i) => Value::I(*i),
        Value::B(b) => Value::B(*b),
        Value::S(s) => Value::S(s.clone()),
        Value::Peers(ps) => Value::Peers(clone_peers(ps)),
    }
}

/// Copies a peer list; the copy equals the original.
pub fn clone_peers(ps: &Vec<Peer>) -> (r: Vec<Peer>)
    ensures
        r@ == ps@,
{
    let mut out: Vec<Peer> = Vec::new();
    let mut i: usize = 0;
    while i < ps.len()
        invariant
            i <= ps.len(),
            out@ == ps@.take(i as int),
        decreases ps.len() - i,
    {
        let p = Peer {
            address: ps[i].address.clone(),
            public_key: ps[i].public_key.clone(),
        };
        proof {
            assert(p == ps@[i as int]);
        }
        out.push(p);
        proof {
            assert(out@ =~= ps@.take(i as int + 1));
        }
        i = i + 1;
    }
    proof {
        assert(ps@.take(ps@.len() as int) =~= ps@);
    }
    out
}

/// Severity levels understood by the logger.
#[derive(Clone, Copy, PartialEq, Eq, Debug)]
pub enum LogLevel {
    TRACE,
    DEBUG,
    INFO,
    WARN,
    ERROR,
}

/// The level named by `s`, if any.
pub open spec fn log_level_of(s: Seq<char>) -> Option<LogLevel> {
    if s == "TRACE"@ {
        Some(LogLevel::TRACE)
    } else if s == "DEBUG"@ {
        Some(LogLevel::DEBUG)
    } else if s == "INFO"@ {
        Some(LogLevel::INFO)
    } else if s == "WARN"@ {
        Some(LogLevel::WARN)
    } else if s == "ERROR"@ {
        Some(LogLevel::ERROR)
    } else {
        None
    }
}

/// The canonical name of a level.
pub open spec fn log_level_str(l: LogLevel) -> Seq<char> {
    match l {
        LogLevel::TRACE => "TRACE"@,
        LogLevel::DEBUG => "DEBUG"@,
        LogLevel::INFO => "INFO"@,
        LogLevel::WARN => "WARN"@,
        LogLevel::ERROR => "ERROR"@,
    }
}

/// Parses a level name.
pub fn parse_log_level(s: &String) -> (r: Option<LogLevel>)
    ensures
        r == log_level_of(s@),
{
    if s_eq(s, "TRACE") {
        Some(LogLevel::TRACE)
    } else if s_eq(s, "DEBUG") {
        Some(LogLevel::DEBUG)
    } else if s_eq(s, "INFO") {
        Some(LogLevel::INFO)
    } else if s_eq(s, "WARN") {
        Some(LogLevel::WARN)
    } else if s_eq(s, "ERROR") {
        Some(LogLevel::ERROR)
    } else {
        None
    }
}

/// The canonical name of a level, as text.
pub fn log_level_name(l: LogLevel) -> (r: &'static str)
    ensures
        r@ == log_level_str(l),
{
    match l {
        LogLevel::TRACE => "TRACE",
        LogLevel::DEBUG => "DEBUG",
        LogLevel::INFO => "INFO",
        LogLevel::WARN => "WARN",
        LogLevel::ERROR => "ERROR",
    }
}

/// How the block store is initialised on startup.
#[derive(Clone, Copy, PartialEq, Eq, Debug)]
pub enum KuraInitMode {
    Strict,
    Fast,
}

/// The init mode named by `s`, if any.
pub open spec fn init_mode_of(s: Seq<char>) -> Option<KuraInitMode> {
    if s == "strict"@ {
        Some(KuraInitMode::Strict)
    } else if s == "fast"@ {
        Some(KuraInitMode::Fast)
    } else {
        None
    }
}

/// The canonical name of an init mode.
pub open spec fn init_mode_str(m: KuraInitMode) -> Seq<char> {
    match m {
        KuraInitMode::Strict => "strict"@,
        KuraInitMode::Fast => "fast"@,
    }
}

/// Parses an init-mode name.
pub fn parse_init_mode(s: &String) -> (r: Option<KuraInitMode>)
    ensures
        r == init_mode_of(s@),
{
    if s_eq(s, "strict") {
        Some(KuraInitMode::Strict)
    } else if s_eq(s, "fast") {
        Some(KuraInitMode::Fast)
    } else {
        None
    }
}

/// The canonical name of an init mode, as text.
pub fn init_mode_name(m: KuraInitMode) -> (r: &'static str)
    ensures
        r@ == init_mode_str(m),
{
    match m {
        KuraInitMode::Strict => "strict",
        KuraInitMode::Fast => "fast",
    }
}

} // verus!
