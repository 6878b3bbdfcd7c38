//! Runtime configuration: the development mode, the port and the database choice.
use vstd::prelude::*;

verus! {

/// The mode the service runs in.
#[derive(Debug, Clone, Copy, PartialEq, Eq, Structural)]
pub enum DevMode {
    Development,
    Test,
    Production,
}

/// ASCII lower-casing of one character, as `char::to_ascii_lowercase` does it.
pub open spec fn ascii_lower(c: char) -> char {
    if 'A' <= c && c <= 'Z' {
        ((c as u32) + 32) as char
    } else {
        c
    }
}

/// ASCII lower-casing of a text, as `str::to_ascii_lowercase` does it.
pub open spec fn to_ascii_lowercase(s: Seq<char>) -> Seq<char> {
    s.map_values(|c: char| ascii_lower(c))
}

/// The mode named by a `DEV_MODE` value, if it names one (case is ignored for ASCII letters).
pub open spec fn dev_mode_named(value: Seq<char>) -> Option<DevMode> {
    let v = to_ascii_lowercase(value);
    if v == seq!['d', 'e', 'v', 'e', 'l', 'o', 'p', 'm', 'e', 'n', 't'] || v == seq!['d', 'e', 'v'] {
        Some(DevMode::Development)
    } else if v == seq!['t', 'e', 's', 't'] {
        Some(DevMode::Test)
    } else if v == seq!['p', 'r', 'o', 'd', 'u', 'c', 't', 'i', 'o', 'n'] || v == seq![
        'p',
        'r',
        'o',
        'd',
    ] {
        Some(DevMode::Production)
    } else {
        None
    }
}

/// Whether the ASCII lower-casing of `s` is exactly `target`.
fn lowercases_to(s: &str, target: &str) -> (r: bool)
    ensures
        r == (to_ascii_lowercase(s@) == target@),
{
    let n: usize = s.unicode_len();
    if n != target.unicode_len() {
        assert(to_ascii_lowercase(s@).len() != target@.len());
        return false;
    }
    let mut i: usize = 0;
    while i < n
        invariant
            n == s@.len(),
            n == target@.len(),
            i <= n,
            forall|j: int| 0 <= j < i ==> ascii_lower(#[trigger] s@[j]) == target@[j],
        decreases n - i,
    {
        let c = s.get_char(i);
        let t = target.get_char(i);
        let lc: char = if 'A' <= c && c <= 'Z' {
            let code: u32 = (c as u32) + 32;
            assert(code <= 0x7f);
            code as u8 as char
        } else {
            c
        };
        assert(lc == ascii_lower(c));
        if lc != t {
            assert(to_ascii_lowercase(s@)[i as int] != target@[i as int]);
            return false;
        }
        i = i + 1;
    }
    assert(to_ascii_lowercase(s@) =~= target@);
    true
}

impl DevMode {
    /// The mode a `DEV_MODE` value names, or `None` where it names none.
    pub fn parse_env_value(value: &str) -> (r: Option<DevMode>)
        ensures
            r == dev_mode_named(value@),
    {
        proof {
            reveal_strlit("development");
            reveal_strlit("dev");
            reveal_strlit("test");
            reveal_strlit("production");
            reveal_strlit("prod");
            assert("development"@ =~= seq!['d', 'e', 'v', 'e', 'l', 'o', 'p', 'm', 'e', 'n', 't']);
            assert("dev"@ =~= seq!['d', 'e', 'v']);
            assert("test"@ =~= seq!['t', 'e', 's', 't']);
            assert("production"@ =~= seq!['p', 'r', 'o', 'd', 'u', 'c', 't', 'i', 'o', 'n']);
            assert("prod"@ =~= seq!['p', 'r', 'o', 'd']);
        }
        if lowercases_to(value, "development") || lowercases_to(value, "dev") {
            Some(DevMode::Development)
        } else if lowercases_to(value, "test") {
            Some(DevMode::Test)
        } else if lowercases_to(value, "production") || lowercases_to(value, "prod") {
            Some(DevMode::Production)
        } else {
            None
        }
    }

    /// The mode a `DEV_MODE` value names: `development`/`dev`, `test` or
    /// `production`/`prod`, in any ASCII case.
    pub fn from_env_value(value: &str) -> (r: DevMode)
        requires
            dev_mode_named(value@) is Some,
        ensures
            Some(r) == dev_mode_named(value@),
    {
        match Self::parse_env_value(value) {
            Some(mode) => mode,
            None => {
                proof {
                    assert(false);
                }
                DevMode::Development
            },
        }
    }
}


/// Whether `c` is an ASCII decimal digit.
pub open spec fn is_digit(c: char) -> bool {
    '0' <= c && c <= '9'
}

/// The value of a decimal digit.
pub open spec fn digit_value(c: char) -> int {
    (c as int) - ('0' as int)
}

/// The value of a string of decimal digits, most significant first.
pub open spec fn decimal_value(s: Seq<char>) -> int
    decreases s.len(),
{
    if s.len() == 0 {
        0
    } else {
        decimal_value(s.drop_last()) * 10 + digit_value(s.last())
    }
}

/// Whether every character of `s` is a decimal digit.
pub open spec fn all_digits(s: Seq<char>) -> bool {
    forall|i: int| 0 <= i < s.len() ==> is_digit(#[trigger] s[i])
}

/// The digits of a number text: the text without one leading `+`, as `u16::from_str` reads it.
pub open spec fn unsigned_digits(s: Seq<char>) -> Seq<char> {
    if s.len() > 0 && s[0] == '+' {
        s.drop_first()
    } else {
        s
    }
}

/// The port number a `PORT` value names, as `str::parse::<u16>` reads it: an optional
/// `+`, then at least one decimal digit, with a value of at most 65535.
pub open spec fn port_named(s: Seq<char>) -> Option<u16> {
    let digits = unsigned_digits(s);
    if digits.len() > 0 && all_digits(digits) && decimal_value(digits) <= 65535 {
        Some(decimal_value(digits) as u16)
    } else {
        None
    }
}

/// A longer string of digits is worth at least as much as its prefix.
proof fn lemma_decimal_value_monotone(s: Seq<char>, k: int)
    requires
        0 <= k <= s.len(),
        all_digits(s),
    ensures
        decimal_value(s.subrange(0, k)) <= decimal_value(s),
        decimal_value(s) >= 0,
    decreases s.len(),
{
    if s.len() > 0 {
        let d = s.drop_last();
        assert(all_digits(d)) by {
            assert forall|i: int| 0 <= i < d.len() implies is_digit(#[trigger] d[i]) by {
                assert(d[i] == s[i]);
            }
        }
        assert(is_digit(s[s.len() - 1]));
        if k < s.len() {
            lemma_decimal_value_monotone(d, k);
            assert(d.subrange(0, k) =~= s.subrange(0, k));
        } else {
            lemma_decimal_value_monotone(d, 0);
            assert(s.subrange(0, k) =~= s);
        }
    } else {
        assert(s.subrange(0, k) =~= s);
    }
}

/// The port number a `PORT` value names, or `None` where it names none.
pub fn parse_port(s: &str) -> (r: Option<u16>)
    ensures
        r == port_named(s@),
{
    let n: usize = s.unicode_len();
    let mut start: usize = 0;
    if n > 0 && s.get_char(0) == '+' {
        start = 1;
    }
    let ghost digits = unsigned_digits(s@);
    assert(digits =~= s@.subrange(start as int, n as int));
    if start == n {
        return None;
    }
    let mut value: u32 = 0;
    let mut i: usize = start;
    while i < n
        invariant
            start <= i <= n,
            n == s@.len(),
            digits == s@.subrange(start as int, n as int),
            digits == unsigned_digits(s@),
            all_digits(digits.subrange(0, i - start)),
            value as int == decimal_value(digits.subrange(0, i - start)),
            value <= 65535,
        decreases n - i,
    {
        let c = s.get_char(i);
        let ghost prefix = digits.subrange(0, i - start);
        let ghost next = digits.subrange(0, i + 1 - start);
        assert(next.drop_last() =~= prefix);
        assert(next.last() == c);
        assert(digits[i - start] == c);
        if !('0' <= c && c <= '9') {
            assert(!all_digits(digits)) by {
                assert(!is_digit(digits[i - start]));
            }
            return None;
        }
        let d: u32 = (c as u32) - ('0' as u32);
        let v: u32 = value * 10 + d;
        assert(v as int == decimal_value(next));
        assert(all_digits(next)) by {
            assert forall|j: int| 0 <= j < next.len() implies is_digit(#[trigger] next[j]) by {
                if j < next.len() - 1 {
                    assert(next[j] == prefix[j]);
                }
            }
        }
        if v > 65535 {
            proof {
                if all_digits(digits) {
                    lemma_decimal_value_monotone(digits, i + 1 - start);
                }
            }
            return None;
        }
        value = v;
        i = i + 1;
    }
    assert(digits.subrange(0, n - start) =~= digits);
    Some(value as u16)
}

/// The service's configuration.
#[derive(Debug, Clone, PartialEq, Eq)]
pub struct EnvConfig {
    pub dev_mode: DevMode,
    pub database_url: String,
    pub port: u16,
    pub jwt_secret: String,
}

/// The `DEV_MODE` value read, `development` where the variable is unset.
pub open spec fn dev_mode_text(raw: Option<Seq<char>>) -> Seq<char> {
    match raw {
        Some(v) => v,
        None => seq!['d', 'e', 'v', 'e', 'l', 'o', 'p', 'm', 'e', 'n', 't'],
    }
}

/// The `PORT` value read, `5000` where the variable is unset.
pub open spec fn port_text(raw: Option<Seq<char>>) -> Seq<char> {
    match raw {
        Some(v) => v,
        None => seq!['5', '0', '0', '0'],
    }
}

/// The view of an optional string.
pub open spec fn opt_view(o: Option<String>) -> Option<Seq<char>> {
    match o {
        Some(s) => Some(s@),
        None => None,
    }
}

impl EnvConfig {
    /// Builds the configuration from the raw variable values: `DEV_MODE` (default
    /// `development`), `DATABASE_URL`, `TEST_DATABASE_URL`, `PORT` (default `5000`) and
    /// `JWT_SECRET`. In test mode the test database is chosen, else the main one.
    pub fn from_raw(
        dev_mode_raw: Option<String>,
        main_database_url: String,
        test_database_url: String,
        port_raw: Option<String>,
        jwt_secret: String,
    ) -> (r: EnvConfig)
        requires
            dev_mode_named(dev_mode_text(opt_view(dev_mode_raw))) is Some,
            port_named(port_text(opt_view(port_raw))) is Some,
        ensures
            Some(r.dev_mode) == dev_mode_named(dev_mode_text(opt_view(dev_mode_raw))),
            Some(r.port) == port_named(port_text(opt_view(port_raw))),
            r.database_url@ == (if r.dev_mode == DevMode::Test {
                test_database_url@
            } else {
                main_database_url@
            }),
            r.jwt_secret@ == jwt_secret@,
    {
        proof {
            reveal_strlit("development");
            reveal_strlit("5000");
            assert("development"@ =~= seq!['d', 'e', 'v', 'e', 'l', 'o', 'p', 'm', 'e', 'n', 't']);
            assert("5000"@ =~= seq!['5', '0', '0', '0']);
        }
        let dev_mode = match &dev_mode_raw {
            Some(v) => DevMode::from_env_value(v.as_str()),
            None => DevMode::from_env_value("development"),
        };
        let port = match &port_raw {
            Some(v) => parse_port(v.as_str()),
            None => parse_port("5000"),
        };
        let port = match port {
            Some(p) => p,
            None => {
                proof {
                    assert(false);
                }
                0
            },
        };
        let database_url = if dev_mode == DevMode::Test {
            test_database_url
        } else {
            main_database_url
        };
        EnvConfig { dev_mode, database_url, port, jwt_secret }
    }
}

} // verus!
