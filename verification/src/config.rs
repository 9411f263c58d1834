//! Process-wide settings, built once at start-up from what the environment
//! supplies and handed to whoever needs them.

use crate::errors::{AppError, AppErrorView, ErrorKind};
use vstd::prelude::*;
use vstd::string::*;

verus! {

/// The settings of the service.
#[derive(Clone, Debug)]
pub struct Config {
    pub database_url: String,
    /// Key the bearer tokens are signed with. Changing it invalidates every
    /// token issued before.
    pub jwt_secret: String,
    pub host: String,
    pub port: u16,
    pub log_level: String,
}

/// Mathematical value of [`Config`].
pub ghost struct ConfigView {
    pub database_url: Seq<char>,
    pub jwt_secret: Seq<char>,
    pub host: Seq<char>,
    pub port: u16,
    pub log_level: Seq<char>,
}

impl View for Config {
    type V = ConfigView;

    open spec fn view(&self) -> ConfigView {
        ConfigView {
            database_url: self.database_url@,
            jwt_secret: self.jwt_secret@,
            host: self.host@,
            port: self.port,
            log_level: self.log_level@,
        }
    }
}

/// The value of a decimal digit character, if it is one.
pub open spec fn digit_value(c: char) -> Option<int> {
    if '0' <= c <= '9' {
        Some(c as int - '0' as int)
    } else {
        None
    }
}

/// Whether every character is a decimal digit.
pub open spec fn all_digits(s: Seq<char>) -> bool {
    forall|i: int| 0 <= i < s.len() ==> digit_value(#[trigger] s[i]) is Some
}

/// The number a string of decimal digits denotes.
pub open spec fn digits_value(s: Seq<char>) -> int
    decreases s.len(),
{
    if s.len() == 0 {
        0
    } else {
        digits_value(s.drop_last()) * 10 + digit_value(s.last()).unwrap_or(0)
    }
}

/// The digits of a port text: the text itself, less one leading `+`.
pub open spec fn port_digits(s: Seq<char>) -> Seq<char> {
    if s.len() > 0 && s[0] == '+' {
        s.subrange(1, s.len() as int)
    } else {
        s
    }
}

/// The port a text denotes: one or more decimal digits, optionally after a
/// `+`, with a value of at most 65535.
pub open spec fn port_of(s: Seq<char>) -> Option<u16> {
    let digits = port_digits(s);
    if digits.len() > 0 && all_digits(digits) && digits_value(digits) <= 0xffff {
        Some(digits_value(digits) as u16)
    } else {
        None
    }
}

/// The failure for a port that is no number.
pub open spec fn invalid_port() -> AppErrorView {
    AppErrorView { kind: ErrorKind::Internal, detail: "PORT is not a valid port number"@ }
}

/// The setting to use: what the environment supplies, else the default.
pub open spec fn setting(supplied: Option<String>, default: Seq<char>) -> Seq<char> {
    match supplied {
        Some(s) => s@,
        None => default,
    }
}

/// The settings for what the environment supplies. Every missing value
/// takes its default; the defaults for the store and the signing key are
/// for development only.
pub open spec fn config_of(
    database_url: Option<String>,
    jwt_secret: Option<String>,
    host: Option<String>,
    port: Option<String>,
    log_level: Option<String>,
) -> Result<ConfigView, AppErrorView> {
    match port_of(setting(port, "8080"@)) {
        None => Err(invalid_port()),
        Some(p) => Ok(
            ConfigView {
                database_url: setting(database_url, "postgresql://localhost/ezytutor"@),
                jwt_secret: setting(jwt_secret, "your-secret-key-change-in-production"@),
                host: setting(host, "127.0.0.1"@),
                port: p,
                log_level: setting(log_level, "info"@),
            },
        ),
    }
}

proof fn lemma_digits_monotone(s: Seq<char>, k: int)
    requires
        all_digits(s),
        0 <= k <= s.len(),
    ensures
        0 <= digits_value(s.take(k)) <= digits_value(s),
    decreases s.len() - k,
{
    if k == s.len() {
        assert(s.take(k) =~= s);
        lemma_digits_nonnegative(s);
    } else {
        lemma_digits_monotone(s, k + 1);
        assert(s.take(k + 1).drop_last() =~= s.take(k));
        assert(s.take(k + 1).last() == s[k]);
        lemma_digits_nonnegative(s.take(k));
    }
}

proof fn lemma_digits_nonnegative(s: Seq<char>)
    ensures
        0 <= digits_value(s),
    decreases s.len(),
{
    if s.len() > 0 {
        lemma_digits_nonnegative(s.drop_last());
    }
}

/// Decides [`port_of`].
pub fn parse_port(text: &str) -> (port: Option<u16>)
    ensures
        port == port_of(text@),
{
    let n = text.unicode_len();
    let start: usize = if n > 0 && text.get_char(0) == '+' {
        1
    } else {
        0
    };
    let ghost digits = port_digits(text@);
    proof {
        assert(digits =~= text@.subrange(start as int, n as int));
    }
    if start == n {
        return None;
    }
    let mut value: u32 = 0;
    let mut i: usize = start;
    while i < n
        invariant
            start <= i <= n,
            n == text@.len(),
            digits == text@.subrange(start as int, n as int),
            digits == port_digits(text@),
            value == digits_value(digits.take(i - start)),
            value <= 0xffff,
            forall|j: int| 0 <= j < i - start ==> digit_value(#[trigger] digits[j]) is Some,
        decreases n - i,
    {
        let c = text.get_char(i);
        assert(c == digits[i - start]);
        proof {
            assert(digits.take(i - start + 1).drop_last() =~= digits.take(i - start));
            assert(digits.take(i - start + 1).last() == c);
        }
        if !('0' <= c && c <= '9') {
            assert(digit_value(digits[i - start]) is None);
            assert(!all_digits(digits));
            return None;
        }
        let d: u32 = c as u32 - '0' as u32;
        let next: u32 = value * 10 + d;
        if next > 0xffff {
            proof {
                if all_digits(digits) {
                    lemma_digits_monotone(digits, i - start + 1);
                }
            }
            return None;
        }
        value = next;
        i = i + 1;
    }
    proof {
        assert(digits.take(n - start) =~= digits);
    }
    Some(value as u16)
}

fn or_default(supplied: Option<String>, default: &str) -> (s: String)
    ensures
        s@ == setting(supplied, default@),
{
    match supplied {
        Some(s) => s,
        None => String::from_str(default),
    }
}

impl Config {
    /// The settings for what the environment supplies: the values of
    /// `DATABASE_URL`, `JWT_SECRET`, `HOST`, `PORT` and `RUST_LOG`, each
    /// `None` where the variable is not set.
    ///
    /// Fails only for a port that is no number from 0 to 65535.
    pub fn from_env(
        database_url: Option<String>,
        jwt_secret: Option<String>,
        host: Option<String>,
        port: Option<String>,
        log_level: Option<String>,
    ) -> (r: Result<Config, AppError>)
        ensures
            match config_of(database_url, jwt_secret, host, port, log_level) {
                Ok(c) => r is Ok && r->Ok_0@ == c,
                Err(e) => r is Err && r->Err_0@ == e,
            },
    {
        let port_text = or_default(port, "8080");
        match parse_port(port_text.as_str()) {
            None => Err(AppError::Internal(String::from_str("PORT is not a valid port number"))),
            Some(p) => Ok(
                Config {
                    database_url: or_default(database_url, "postgresql://localhost/ezytutor"),
                    jwt_secret: or_default(jwt_secret, "your-secret-key-change-in-production"),
                    host: or_default(host, "127.0.0.1"),
                    port: p,
                    log_level: or_default(log_level, "info"),
                },
            ),
        }
    }
}

} // verus!
