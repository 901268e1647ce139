//! Settings of the front end, from values the environment provided.

use vstd::prelude::*;

verus! {

/// The value of a run of ASCII digits.
pub open spec fn digits_value(s: Seq<char>) -> int
    decreases s.len(),
{
    if s.len() == 0 { 0 } else { digits_value(s.drop_last()) * 10 + (s.last() as int - '0' as int) }
}

/// Every character is an ASCII digit.
pub open spec fn all_digits(s: Seq<char>) -> bool {
    forall|i: int| 0 <= i < s.len() ==> '0' <= #[trigger] s[i] <= '9'
}

/// The digits of a numeral: without its one optional leading `+`.
pub open spec fn numeral_digits(s: Seq<char>) -> Seq<char> {
    if s.len() > 0 && s[0] == '+' { s.skip(1) } else { s }
}

/// What a decimal `u64` numeral reads as: an optional `+`, then one or more
/// digits, of a value that fits in 64 bits.
pub open spec fn u64_numeral(s: Seq<char>) -> Option<u64> {
    let d = numeral_digits(s);
    if d.len() > 0 && all_digits(d) && digits_value(d) <= u64::MAX {
        Some(digits_value(d) as u64)
    } else {
        None
    }
}

proof fn lemma_digits_value_nonneg(s: Seq<char>)
    requires
        all_digits(s),
    ensures
        digits_value(s) >= 0,
    decreases s.len(),
{
    if s.len() > 0 {
        assert(all_digits(s.drop_last()));
        lemma_digits_value_nonneg(s.drop_last());
    }
}

proof fn lemma_digits_value_grows(s: Seq<char>, i: int)
    requires
        all_digits(s),
        0 <= i <= s.len(),
    ensures
        digits_value(s.take(i)) <= digits_value(s),
    decreases s.len() - i,
{
    if i < s.len() {
        lemma_digits_value_grows(s, i + 1);
        let t = s.take(i + 1);
        assert(t.drop_last() =~= s.take(i));
        assert(all_digits(s.take(i)));
        lemma_digits_value_nonneg(s.take(i));
        assert(digits_value(s.take(i)) <= digits_value(t));
    } else {
        assert(s.take(i) =~= s);
    }
}

/// Reads a decimal `u64` numeral; `None` for anything else.
pub fn parse_u64(s: &str) -> (r: Option<u64>)
    ensures
        r == u64_numeral(s@),
{
    let n = s.unicode_len();
    let i0: usize = if n > 0 && s.get_char(0) == '+' { 1 } else { 0 };
    let mut i: usize = i0;
    let ghost d = numeral_digits(s@);
    assert(d =~= s@.skip(i as int));
    assert(s@.subrange(i0 as int, i0 as int) =~= Seq::<char>::empty());
    if i == n {
        return None;
    }
    let mut v: u64 = 0;
    while i < n
        invariant
            d == s@.skip(i0 as int),
            d == numeral_digits(s@),
            i0 <= i <= n,
            n == s@.len(),
            all_digits(s@.subrange(i0 as int, i as int)),
            v as int == digits_value(s@.subrange(i0 as int, i as int)),
        decreases n - i,
    {
        let c = s.get_char(i);
        if c < '0' || c > '9' {
            proof {
                assert(d[i - i0] == c);
                assert(!('0' <= d[i - i0] <= '9'));
                assert(!all_digits(d));
                assert(u64_numeral(s@) is None);
            }
            return None;
        }
        let digit = (c as u32 - '0' as u32) as u64;
        let ghost prev = s@.subrange(i0 as int, i as int);
        let ghost next = s@.subrange(i0 as int, i + 1);
        proof {
            assert(next.drop_last() =~= prev);
            assert(all_digits(next));
        }
        if v > (u64::MAX - digit) / 10 {
            proof {
                let vv = v as int;
                let dd = digit as int;
                assert(vv * 10 + dd > u64::MAX) by (nonlinear_arith)
                    requires vv > (u64::MAX - dd) / 10, 0 <= dd <= 9;
                assert(digits_value(next) > u64::MAX);
                assert(next =~= d.take(i + 1 - i0));
                if all_digits(d) {
                    lemma_digits_value_grows(d, i + 1 - i0);
                    assert(digits_value(d) > u64::MAX);
                }
                assert(u64_numeral(s@) is None);
            }
            return None;
        }
        v = v * 10 + digit;
        i = i + 1;
    }
    assert(s@.subrange(i0 as int, n as int) =~= d);
    Some(v)
}

/// Settings of the front end.
#[derive(Debug, Clone)]
pub struct Config {
    /// The chat platform's authentication token.
    pub discord_token: String,
    /// The group to register commands in; everywhere when absent.
    pub guild_id: Option<u64>,
    /// The backend's base URL.
    pub wrapper_url: String,
    /// How much to log.
    pub log_level: String,
}

/// Settings cannot be made without a token.
#[derive(Debug, Clone)]
pub struct ConfigError {
    pub message: String,
}

/// Backend URL used when none is given.
pub open spec fn default_wrapper_url() -> Seq<char> {
    "http://localhost:8000"@
}

/// Log level used when none is given.
pub open spec fn default_log_level() -> Seq<char> {
    "info"@
}

impl Config {
    /// Builds the settings from the values found (each absent when unset):
    /// the token is required; an unreadable group identifier counts as
    /// absent; the URL and log level have defaults.
    pub fn from_values(
        token: Option<String>,
        guild: Option<String>,
        url: Option<String>,
        log_level: Option<String>,
    ) -> (r: Result<Config, ConfigError>)
        ensures
            token is None <==> r is Err,
            r matches Err(e) ==> e.message@ == "DISCORD_TOKEN environment variable not set"@,
            r matches Ok(c) ==> {
                &&& c.discord_token@ == token->0@
                &&& c.guild_id == (match guild {
                    Some(g) => u64_numeral(g@),
                    None => None,
                })
                &&& c.wrapper_url@ == (match url {
                    Some(u) => u@,
                    None => default_wrapper_url(),
                })
                &&& c.log_level@ == (match log_level {
                    Some(l) => l@,
                    None => default_log_level(),
                })
            },
    {
        let discord_token = match token {
            Some(t) => t,
            None => {
                return Err(ConfigError { message: String::from_str("DISCORD_TOKEN environment variable not set") });
            },
        };
        let guild_id = match &guild {
            Some(g) => parse_u64(g.as_str()),
            None => None,
        };
        let wrapper_url = match url {
            Some(u) => u,
            None => String::from_str("http://localhost:8000"),
        };
        let log_level = match log_level {
            Some(l) => l,
            None => String::from_str("info"),
        };
        Ok(Config { discord_token, guild_id, wrapper_url, log_level })
    }
}

} // verus!
