//! The settings of the Postgres connection pool.
use vstd::prelude::*;
use crate::adapters::db::config::{DbConfig, SslMode};

verus! {

/// Whether a character is an ASCII decimal digit.
pub open spec fn is_digit(c: char) -> bool {
    '0' <= c && c <= '9'
}

/// The value of a text of decimal digits.
pub open spec fn decimal_value(digits: Seq<char>) -> int
    decreases digits.len(),
{
    if digits.len() == 0 {
        0
    } else {
        decimal_value(digits.drop_last()) * 10 + (digits.last() as int - '0' as int)
    }
}

/// What `str::parse::<u16>` gives: an optional `+`, then one or more
/// decimal digits whose value fits in 16 bits.
pub open spec fn port_of(text: Seq<char>) -> Option<u16> {
    digits_port(without_plus(text))
}

/// The text without one leading `+`.
pub open spec fn without_plus(text: Seq<char>) -> Seq<char> {
    if text.len() > 0 && text[0] == '+' { text.drop_first() } else { text }
}

/// Whether every character of the text is a decimal digit.
pub open spec fn all_digits(digits: Seq<char>) -> bool {
    forall|i: int| 0 <= i < digits.len() ==> #[trigger] is_digit(digits[i])
}

/// The 16-bit value of one or more decimal digits, if it fits.
pub open spec fn digits_port(digits: Seq<char>) -> Option<u16> {
    if digits.len() > 0 && all_digits(digits) && decimal_value(digits) <= u16::MAX {
        Some(decimal_value(digits) as u16)
    } else {
        None
    }
}

proof fn lemma_decimal_value_monotone(digits: Seq<char>, i: int)
    requires
        0 <= i <= digits.len(),
        forall|j: int| 0 <= j < digits.len() ==> #[trigger] is_digit(digits[j]),
    ensures
        0 <= decimal_value(digits.take(i)) <= decimal_value(digits),
    decreases digits.len() - i,
{
    if i < digits.len() {
        lemma_decimal_value_monotone(digits, i + 1);
        assert(digits.take(i + 1).drop_last() =~= digits.take(i));
        assert(is_digit(digits[i]));
    } else {
        assert(digits.take(i) =~= digits);
        lemma_decimal_value_nonneg(digits);
    }
}

proof fn lemma_decimal_value_nonneg(digits: Seq<char>)
    requires
        forall|j: int| 0 <= j < digits.len() ==> #[trigger] is_digit(digits[j]),
    ensures
        decimal_value(digits) >= 0,
    decreases digits.len(),
{
    if digits.len() > 0 {
        lemma_decimal_value_nonneg(digits.drop_last());
        assert(is_digit(digits[digits.len() - 1]));
    }
}

/// Reads a port number as `str::parse::<u16>` does.
pub fn parse_port(text: &str) -> (r: Option<u16>)
    ensures
        r == port_of(text@),
{
    let n = text.unicode_len();
    let start: usize = if n > 0 && text.get_char(0) == '+' { 1 } else { 0 };
    let ghost digits = without_plus(text@);
    assert(digits =~= text@.subrange(start as int, n as int));
    if start >= n {
        return None;
    }
    let mut value: u32 = 0;
    let mut i: usize = start;
    while i < n
        invariant
            n == text@.len(),
            start <= i <= n,
            start < n,
            digits == text@.subrange(start as int, n as int),
            digits == without_plus(text@),
            forall|j: int| 0 <= j < i - start ==> #[trigger] is_digit(digits[j]),
            value as int == decimal_value(digits.take(i - start)),
            value <= u16::MAX,
        decreases n - i,
    {
        let c = text.get_char(i);
        assert(digits[i - start] == c);
        if c < '0' || c > '9' {
            assert(!is_digit(digits[i - start]));
            assert(!all_digits(digits));
            return None;
        }
        assert(digits.take(i - start + 1).drop_last() =~= digits.take(i - start));
        let d = (c as u32) - ('0' as u32);
        let next = value * 10 + d;
        if next > u16::MAX as u32 {
            proof {
                assert(decimal_value(digits.take(i - start + 1)) == next);
                if all_digits(digits) {
                    lemma_decimal_value_monotone(digits, i - start + 1);
                    assert(decimal_value(digits) > u16::MAX);
                }
                assert(port_of(text@) is None);
            }
            return None;
        }
        value = next;
        i = i + 1;
    }
    assert(digits.take(n - start) =~= digits);
    Some(value as u16)
}

/// The settings of the Postgres connection pool.
#[derive(Debug)]
pub struct PgConnectionSettings {
    pub dbname: String,
    pub host: String,
    pub port: u16,
    pub user: String,
    pub password: String,
    pub ssl_mode: SslMode,
}

impl PgConnectionSettings {
    /// The pool settings for a database configuration; `None` when the port
    /// is not a number.
    pub fn from_db_config(pg_config: DbConfig) -> (r: Option<PgConnectionSettings>)
        ensures
            port_of(pg_config.db_port@) is None ==> r is None,
            port_of(pg_config.db_port@) matches Some(p) ==> (r matches Some(s) && s.port == p
                && s.dbname@ == pg_config.db_database@ && s.host@ == pg_config.db_path@
                && s.user@ == pg_config.db_username@ && s.password@ == pg_config.db_password@
                && s.ssl_mode == pg_config.db_ssl_mode),
    {
        match parse_port(pg_config.db_port.as_str()) {
            None => None,
            Some(port) => Some(PgConnectionSettings {
                dbname: pg_config.db_database,
                host: pg_config.db_path,
                port,
                user: pg_config.db_username,
                password: pg_config.db_password,
                ssl_mode: pg_config.db_ssl_mode,
            }),
        }
    }
}

} // verus!
