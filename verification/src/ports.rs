//! The port prober's decision logic, and decimal rendering of integers.
//!
//! Whether a port is actually bindable on the loopback interface is a fact
//! about the process environment; the caller observes it (by attempting a
//! transient bind) and hands the set of unavailable ports in as plain data.
//! The choice itself — the lowest port at or above the base that is not in
//! that set — is verified here.

use vstd::prelude::*;
use vstd::string::StringExecFns;
use crate::value::ConfigError;

verus! {

/// Ports are scanned in `[base, MAX_PORT)`, never at 65535 itself.
pub const MAX_PORT: u16 = 65535;

/// The lowest port `p` with `base <= p < 65535` that is not in `unavail`,
/// if any.
pub open spec fn find_free_spec(unavail: Seq<u16>, base: int) -> Option<u16>
    decreases 65535 - base,
{
    if base < 0 || base >= 65535 {
        None
    } else if !unavail.contains(base as u16) {
        Some(base as u16)
    } else {
        find_free_spec(unavail, base + 1)
    }
}

/// True when `v` holds `p`.
pub fn contains_port(v: &Vec<u16>, p: u16) -> (r: bool)
    ensures
        r == v@.contains(p),
{
    let mut i: usize = 0;
    while i < v.len()
        invariant
            i <= v.len(),
            forall|j: int| 0 <= j < i ==> v@[j] != p,
        decreases v.len() - i,
    {
        if v[i] == p {
            return true;
        }
        i = i + 1;
    }
    false
}

/// Scans ports in `[base, 65535)` in increasing order and returns the first
/// that is not listed as unavailable; fails with `PortsExhausted` when the
/// whole range is unavailable. The scan is strictly sequential, so the
/// choice is the deterministic, lowest-available one.
pub fn find_free_port(base: u16, unavail: &Vec<u16>) -> (r: Result<u16, ConfigError>)
    ensures
        match r {
            Ok(p) => find_free_spec(unavail@, base as int) == Some(p),
            Err(e) => find_free_spec(unavail@, base as int) is None && e@
                == crate::value::ErrV::PortsExhausted(base),
        },
{
    let mut p: u16 = base;
    while p < MAX_PORT
        invariant
            base <= p <= MAX_PORT,
            find_free_spec(unavail@, base as int) == find_free_spec(unavail@, p as int),
        decreases MAX_PORT - p,
    {
        if !contains_port(unavail, p) {
            return Ok(p);
        }
        p = p + 1;
    }
    Err(ConfigError::PortsExhausted { base })
}

/// A found port is never one that was unavailable, and lies in range.
pub proof fn lemma_find_free_sound(unavail: Seq<u16>, base: int, p: u16)
    requires
        find_free_spec(unavail, base) == Some(p),
    ensures
        !unavail.contains(p),
        base <= p < 65535,
    decreases 65535 - base,
{
    if 0 <= base < 65535 && unavail.contains(base as u16) {
        lemma_find_free_sound(unavail, base + 1, p);
    }
}

/// The digit character for `d`.
pub open spec fn digit_char(d: nat) -> char {
    if d == 0 {
        '0'
    } else if d == 1 {
        '1'
    } else if d == 2 {
        '2'
    } else if d == 3 {
        '3'
    } else if d == 4 {
        '4'
    } else if d == 5 {
        '5'
    } else if d == 6 {
        '6'
    } else if d == 7 {
        '7'
    } else if d == 8 {
        '8'
    } else {
        '9'
    }
}

/// The decimal rendering of `n`, without a sign and without leading zeroes
/// (except for `n == 0` itself).
pub open spec fn dec_of(n: nat) -> Seq<char>
    decreases n,
{
    if n < 10 {
        seq![digit_char(n)]
    } else {
        dec_of(n / 10).push(digit_char(n % 10))
    }
}

fn digit_str(d: u64) -> (r: &'static str)
    requires
        d < 10,
    ensures
        r@ == seq![digit_char(d as nat)],
{
    proof {
        reveal_strlit("0");
        reveal_strlit("1");
        reveal_strlit("2");
        reveal_strlit("3");
        reveal_strlit("4");
        reveal_strlit("5");
        reveal_strlit("6");
        reveal_strlit("7");
        reveal_strlit("8");
        reveal_strlit("9");
    }
    if d == 0 {
        "0"
    } else if d == 1 {
        "1"
    } else if d == 2 {
        "2"
    } else if d == 3 {
        "3"
    } else if d == 4 {
        "4"
    } else if d == 5 {
        "5"
    } else if d == 6 {
        "6"
    } else if d == 7 {
        "7"
    } else if d == 8 {
        "8"
    } else {
        "9"
    }
}

/// Renders `n` in decimal.
pub fn dec_u64(n: u64) -> (r: String)
    ensures
        r@ == dec_of(n as nat),
    decreases n,
{
    let d: u64 = n % 10;
    let ds: &'static str = digit_str(d);
    if n < 10 {
        ds.to_owned()
    } else {
        let prefix = dec_u64(n / 10);
        prefix.concat(ds)
    }
}

/// The loopback address string for `port`.
pub open spec fn addr_of(port: u16) -> Seq<char> {
    "127.0.0.1:"@ + dec_of(port as nat)
}

/// Builds the loopback address string for `port`.
pub fn make_addr(port: u16) -> (r: String)
    ensures
        r@ == addr_of(port),
{
    let h: String = "127.0.0.1:".to_owned();
    h.concat(dec_u64(port as u64).as_str())
}

/// Appends two port lists.
pub fn append_ports(a: &Vec<u16>, b: &Vec<u16>) -> (r: Vec<u16>)
    ensures
        r@ == a@ + b@,
{
    let mut out: Vec<u16> = Vec::new();
    let mut i: usize = 0;
    while i < a.len()
        invariant
            i <= a.len(),
            out@ == a@.take(i as int),
        decreases a.len() - i,
    {
        out.push(a[i]);
        proof {
            assert(out@ =~= a@.take(i as int + 1));
        }
        i = i + 1;
    }
    let mut j: usize = 0;
    while j < b.len()
        invariant
            j <= b.len(),
            out@ == a@.take(a@.len() as int) + b@.take(j as int),
        decreases b.len() - j,
    {
        out.push(b[j]);
        proof {
            assert(out@ =~= a@.take(a@.len() as int) + b@.take(j as int + 1));
        }
        j = j + 1;
    }
    proof {
        assert(a@.take(a@.len() as int) =~= a@);
        assert(b@.take(b@.len() as int) =~= b@);
        assert(out@ =~= a@ + b@);
    }
    out
}

/// Decimal renderings are at least one character, two from 10 upward.
pub proof fn lemma_dec_len(n: nat)
    ensures
        dec_of(n).len() >= 1,
        n >= 10 ==> dec_of(n).len() >= 2,
    decreases n,
{
    if n >= 10 {
        lemma_dec_len(n / 10);
    }
}

/// Distinct numbers have distinct decimal renderings.
pub proof fn lemma_dec_injective(a: nat, b: nat)
    requires
        dec_of(a) == dec_of(b),
    ensures
        a == b,
    decreases a + b,
{
    lemma_dec_len(a);
    lemma_dec_len(b);
    if a < 10 && b < 10 {
        assert(dec_of(a)[0] == digit_char(a) && dec_of(b)[0] == digit_char(b));
    } else if a >= 10 && b >= 10 {
        assert(dec_of(a).last() == digit_char(a % 10));
        assert(dec_of(b).last() == digit_char(b % 10));
        assert(dec_of(a).drop_last() =~= dec_of(a / 10));
        assert(dec_of(b).drop_last() =~= dec_of(b / 10));
        lemma_dec_injective(a / 10, b / 10);
    }
}

/// Distinct ports give distinct loopback address strings.
pub proof fn lemma_addr_injective(p: u16, q: u16)
    requires
        addr_of(p) == addr_of(q),
    ensures
        p == q,
{
    let h = "127.0.0.1:"@;
    assert(dec_of(p as nat) =~= addr_of(p).skip(h.len() as int));
    assert(dec_of(q as nat) =~= addr_of(q).skip(h.len() as int));
    lemma_dec_injective(p as nat, q as nat);
}

} // verus!
