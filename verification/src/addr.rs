//! Choosing the endpoint the server binds: the configured port, an
//! environment-supplied one, or the default, and the configured host or
//! loopback.

use vstd::prelude::*;
use vstd::string::StrSliceExecFns;

verus! {

use crate::config::Config;

/// The port used when neither the configuration nor the environment names
/// one.
pub const DEFAULT_PORT: u16 = 6345;

/// The host used when the configuration names none.
pub open spec fn default_host() -> Seq<char> {
    "127.0.0.1"@
}

/// The port to bind: the configuration's, else the environment's — handed in
/// already parsed — else the default.
pub fn get_port(config: &Config, env_port: Option<u16>) -> (p: u16)
    ensures
        p == match config.port {
            Some(q) => q,
            None => match env_port {
                Some(q) => q,
                None => DEFAULT_PORT,
            },
        },
{
    if let Some(port) = config.port {
        port
    } else if let Some(port) = env_port {
        port
    } else {
        DEFAULT_PORT
    }
}

/// The host to bind: the configured address when one is named, loopback
/// otherwise. The surrounding layer joins it with the port and resolves it.
pub fn get_addr(config: &Config) -> (h: String)
    ensures
        match config.addr {
            Some(a) => h@ == a@,
            None => h@ == default_host(),
        },
{
    match &config.addr {
        Some(a) => a.clone(),
        None => "127.0.0.1".to_owned(),
    }
}

/// Whether every character of `s` is a decimal digit.
pub open spec fn all_digits(s: Seq<char>) -> bool {
    forall|i: int| 0 <= i < s.len() ==> '0' <= #[trigger] s[i] <= '9'
}

/// The number a sequence of decimal digits denotes.
pub open spec fn decimal_value(s: Seq<char>) -> int
    decreases s.len(),
{
    if s.len() == 0 {
        0
    } else {
        decimal_value(s.drop_last()) * 10 + (s.last() as int - '0' as int)
    }
}

/// A digit string's value never shrinks as more digits are appended.
proof fn lemma_decimal_value_grows(s: Seq<char>, i: int)
    requires
        all_digits(s),
        0 <= i <= s.len(),
    ensures
        decimal_value(s) >= decimal_value(s.take(i)),
        decimal_value(s.take(i)) >= 0,
    decreases s.len() - i,
{
    if i < s.len() {
        lemma_decimal_value_grows(s, i + 1);
        assert(s.take(i + 1).drop_last() =~= s.take(i));
        assert(s.take(i + 1).last() == s[i]);
    } else {
        assert(s.take(i) =~= s);
        lemma_decimal_nonnegative(s);
    }
}

/// A digit string denotes a nonnegative number.
proof fn lemma_decimal_nonnegative(s: Seq<char>)
    requires
        all_digits(s),
    ensures
        decimal_value(s) >= 0,
    decreases s.len(),
{
    if s.len() > 0 {
        assert(all_digits(s.drop_last())) by {
            assert(forall|i: int| 0 <= i < s.len() - 1 ==> s.drop_last()[i] == s[i]);
        }
        lemma_decimal_nonnegative(s.drop_last());
    }
}

/// Parse a port number: the value of a nonempty, all-digit string, when that
/// value fits in sixteen bits; nothing for every other string.
pub fn parse_u16(s: &str) -> (r: Option<u16>)
    ensures
        r is Some <==> s@.len() > 0 && all_digits(s@) && decimal_value(s@) <= u16::MAX,
        match r {
            Some(v) => v == decimal_value(s@),
            None => true,
        },
{
    let n = s.unicode_len();
    if n == 0 {
        return None;
    }
    let mut val: u32 = 0;
    let mut i: usize = 0;
    while i < n
        invariant
            i <= n == s@.len(),
            n > 0,
            forall|j: int| 0 <= j < i ==> '0' <= #[trigger] s@[j] <= '9',
            val == decimal_value(s@.take(i as int)),
            val <= u16::MAX,
        decreases n - i,
    {
        let c = s.get_char(i);
        if c < '0' || c > '9' {
            return None;
        }
        let d: u32 = (c as u32) - 48;
        let next: u32 = val * 10 + d;
        proof {
            assert(s@.take(i + 1).drop_last() =~= s@.take(i as int));
            assert(s@.take(i + 1).last() == s@[i as int]);
        }
        if next > 65535 {
            proof {
                if all_digits(s@) {
                    lemma_decimal_value_grows(s@, i + 1);
                }
            }
            return None;
        }
        val = next;
        i = i + 1;
    }
    proof {
        assert(s@.take(n as int) =~= s@);
    }
    Some(val as u16)
}

} // verus!
