//! The settings of the service. Each is given as text, as the process found
//! it when it started, or not at all; a setting that is absent or is no
//! number falls back to its default.

use vstd::prelude::*;
use vstd::string::{StrSliceExecFns, StringExecFns};

verus! {

pub const DEFAULT_MAX_CONNECTIONS: u32 = 10;

pub const DEFAULT_MIN_CONNECTIONS: u32 = 2;

pub const DEFAULT_CONNECT_TIMEOUT_SECS: u64 = 60;

/// How long the pool keeps an idle connection, in seconds. Not configurable.
pub const IDLE_TIMEOUT_SECS: u64 = 1800;

/// The settings of the connection pool.
#[derive(Clone, Copy, Debug, PartialEq, Eq, Structural)]
pub struct PoolSettings {
    pub max_connections: u32,
    pub min_connections: u32,
    pub connect_timeout_secs: u64,
    pub idle_timeout_secs: u64,
}

pub open spec fn is_digit(c: char) -> bool {
    '0' as u32 <= c as u32 <= '9' as u32
}

pub open spec fn digit_value(c: char) -> nat {
    (c as u32 - '0' as u32) as nat
}

/// The number that a run of decimal digits writes.
pub open spec fn decimal_value(digits: Seq<char>) -> nat
    decreases digits.len(),
{
    if digits.len() == 0 {
        0
    } else {
        10 * decimal_value(digits.drop_last()) + digit_value(digits.last())
    }
}

pub open spec fn all_digits(digits: Seq<char>) -> bool {
    forall|i: int| 0 <= i < digits.len() ==> is_digit(#[trigger] digits[i])
}

/// The digits of a text that may begin with one `+`.
pub open spec fn unsigned_digits(text: Seq<char>) -> Seq<char> {
    if text.len() > 0 && text[0] == '+' {
        text.skip(1)
    } else {
        text
    }
}

/// The number that a text writes, if it is one: an optional `+`, then at
/// least one decimal digit and nothing else, with a value of at most `max`.
pub open spec fn parsed_unsigned(text: Seq<char>, max: nat) -> Option<nat> {
    let digits = unsigned_digits(text);
    if digits.len() > 0 && all_digits(digits) && decimal_value(digits) <= max {
        Some(decimal_value(digits))
    } else {
        None
    }
}

/// The value of a setting: the number its text writes, or the default where
/// the text is absent or writes no number of at most `max`.
pub open spec fn setting_or(raw: Option<Seq<char>>, max: nat, default: nat) -> nat {
    match raw {
        Some(text) => match parsed_unsigned(text, max) {
            Some(value) => value,
            None => default,
        },
        None => default,
    }
}

/// The text of a setting that may be absent.
pub open spec fn text_of(raw: Option<&str>) -> Option<Seq<char>> {
    match raw {
        Some(text) => Some(text@),
        None => None,
    }
}

/// The address the service listens on: every interface, at the given port
/// or at 8443.
pub open spec fn listen_address_text(port: Option<Seq<char>>) -> Seq<char> {
    match port {
        Some(text) => "0.0.0.0:"@ + text,
        None => "0.0.0.0:"@ + "8443"@,
    }
}

/// A run of digits writes at least what any of its beginnings writes.
proof fn lemma_value_grows(digits: Seq<char>, upto: int)
    requires
        0 <= upto <= digits.len(),
    ensures
        decimal_value(digits.subrange(0, upto)) <= decimal_value(digits),
    decreases digits.len() - upto,
{
    if upto == digits.len() {
        assert(digits.subrange(0, upto) =~= digits);
    } else {
        assert(digits.drop_last().subrange(0, upto) =~= digits.subrange(0, upto));
        lemma_value_grows(digits.drop_last(), upto);
    }
}

/// Reads a decimal number of at most `max`.
pub fn parse_unsigned(text: &str, max: u64) -> (value: Option<u64>)
    ensures
        match value {
            Some(v) => parsed_unsigned(text@, max as nat) == Some(v as nat),
            None => parsed_unsigned(text@, max as nat) is None,
        },
{
    let n: usize = text.unicode_len();
    if n == 0 {
        return None;
    }
    let start: usize = if text.get_char(0) == '+' {
        1
    } else {
        0
    };
    let ghost digits = text@.subrange(start as int, n as int);
    assert(digits =~= unsigned_digits(text@));
    if start == n {
        return None;
    }
    let mut acc: u64 = 0;
    let mut i: usize = start;
    assert(digits.subrange(0, 0) =~= Seq::<char>::empty());
    while i < n
        invariant
            start <= i <= n,
            n == text@.len(),
            digits == text@.subrange(start as int, n as int),
            digits == unsigned_digits(text@),
            all_digits(digits.subrange(0, i - start)),
            acc == decimal_value(digits.subrange(0, i - start)),
            acc <= max,
        decreases n - i,
    {
        let c = text.get_char(i);
        let code: u32 = c as u32;
        if code < '0' as u32 || code > '9' as u32 {
            assert(!is_digit(digits[i - start]));
            return None;
        }
        let digit: u64 = (code - '0' as u32) as u64;
        let ghost prefix = digits.subrange(0, i - start);
        let ghost longer = digits.subrange(0, i - start + 1);
        assert(longer.drop_last() =~= prefix);
        assert(longer.last() == c);
        assert(decimal_value(longer) == 10 * acc + digit);
        let wide: u128 = acc as u128 * 10 + digit as u128;
        if wide > max as u128 {
            proof {
                lemma_value_grows(digits, i - start + 1);
            }
            return None;
        }
        assert forall|k: int| 0 <= k < longer.len() implies is_digit(#[trigger] longer[k]) by {
            if k < prefix.len() {
                assert(longer[k] == prefix[k]);
            }
        }
        acc = wide as u64;
        i = i + 1;
    }
    assert(digits.subrange(0, n - start) =~= digits);
    Some(acc)
}

/// The value of a setting that counts in `u32`.
pub fn setting_u32(raw: Option<&str>, default: u32) -> (value: u32)
    ensures
        value == setting_or(text_of(raw), u32::MAX as nat, default as nat),
{
    match raw {
        Some(text) => match parse_unsigned(text, u32::MAX as u64) {
            Some(v) => v as u32,
            None => default,
        },
        None => default,
    }
}

/// The value of a setting that counts in `u64`.
pub fn setting_u64(raw: Option<&str>, default: u64) -> (value: u64)
    ensures
        value == setting_or(text_of(raw), u64::MAX as nat, default as nat),
{
    match raw {
        Some(text) => match parse_unsigned(text, u64::MAX) {
            Some(v) => v,
            None => default,
        },
        None => default,
    }
}

/// The settings of the pool, from the texts of the maximum and the minimum
/// number of connections and of the connect timeout in seconds.
pub fn pool_settings(
    max_connections: Option<&str>,
    min_connections: Option<&str>,
    connect_timeout: Option<&str>,
) -> (settings: PoolSettings)
    ensures
        settings.max_connections == setting_or(
            text_of(max_connections),
            u32::MAX as nat,
            DEFAULT_MAX_CONNECTIONS as nat,
        ),
        settings.min_connections == setting_or(
            text_of(min_connections),
            u32::MAX as nat,
            DEFAULT_MIN_CONNECTIONS as nat,
        ),
        settings.connect_timeout_secs == setting_or(
            text_of(connect_timeout),
            u64::MAX as nat,
            DEFAULT_CONNECT_TIMEOUT_SECS as nat,
        ),
        settings.idle_timeout_secs == IDLE_TIMEOUT_SECS,
{
    PoolSettings {
        max_connections: setting_u32(max_connections, DEFAULT_MAX_CONNECTIONS),
        min_connections: setting_u32(min_connections, DEFAULT_MIN_CONNECTIONS),
        connect_timeout_secs: setting_u64(connect_timeout, DEFAULT_CONNECT_TIMEOUT_SECS),
        idle_timeout_secs: IDLE_TIMEOUT_SECS,
    }
}

/// The address to listen on, from the text of the port. The port is taken
/// as it is given.
pub fn listen_address(port: Option<&str>) -> (address: String)
    ensures
        address@ == listen_address_text(text_of(port)),
{
    let host = String::from_str("0.0.0.0:");
    match port {
        Some(text) => host.concat(text),
        None => host.concat("8443"),
    }
}

} // verus!
