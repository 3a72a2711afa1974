//! The service's configuration: the Google Maps key and the port.
use vstd::prelude::*;
use vstd::string::StrSliceExecFns;

verus! {

/// What the service is configured with.
#[derive(Debug)]
pub struct Config {
    pub google_maps_api_key: String,
    pub port: u16,
}

/// Whether `c` is an ASCII decimal digit.
pub open spec fn is_digit(c: char) -> bool {
    '0' <= c && c <= '9'
}

/// The number an all-digit text denotes.
pub open spec fn decimal_value(s: Seq<char>) -> int
    decreases s.len(),
{
    if s.len() == 0 {
        0
    } else {
        decimal_value(s.drop_last()) * 10 + (s.last() as int - '0' as int)
    }
}

/// The digits of a port text: the text without one leading '+'.
pub open spec fn port_digits(s: Seq<char>) -> Seq<char> {
    if s.len() > 0 && s[0] == '+' {
        s.drop_first()
    } else {
        s
    }
}

/// The port a text denotes, as `u16`'s `FromStr` reads it: an optional '+',
/// then at least one ASCII digit and nothing else, with a value of at most
/// 65535.
pub open spec fn port_value(s: Seq<char>) -> Option<u16> {
    let d = port_digits(s);
    if d.len() > 0 && (forall|i: int| 0 <= i < d.len() ==> is_digit(#[trigger] d[i]))
        && decimal_value(d) <= 65535 {
        Some(decimal_value(d) as u16)
    } else {
        None
    }
}

/// A longer all-digit prefix denotes no smaller a number.
proof fn lemma_decimal_monotone(s: Seq<char>, i: int, j: int)
    requires
        0 <= i <= j <= s.len(),
        forall|k: int| 0 <= k < s.len() ==> is_digit(#[trigger] s[k]),
    ensures
        decimal_value(s.subrange(0, i)) <= decimal_value(s.subrange(0, j)),
    decreases j - i,
{
    if i < j {
        lemma_decimal_monotone(s, i, j - 1);
        assert(s.subrange(0, j).drop_last() =~= s.subrange(0, j - 1));
        assert(decimal_value(s.subrange(0, j - 1)) >= 0) by {
            lemma_decimal_nonneg(s.subrange(0, j - 1));
        }
    }
}

/// An all-digit text denotes a non-negative number.
proof fn lemma_decimal_nonneg(s: Seq<char>)
    requires
        forall|k: int| 0 <= k < s.len() ==> is_digit(#[trigger] s[k]),
    ensures
        decimal_value(s) >= 0,
    decreases s.len(),
{
    if s.len() > 0 {
        lemma_decimal_nonneg(s.drop_last());
    }
}

/// Reads a port number as `u16`'s `FromStr` does.
pub fn parse_port(text: &str) -> (r: Option<u16>)
    ensures
        r == port_value(text@),
{
    let n = text.unicode_len();
    let start: usize = if n > 0 && text.get_char(0) == '+' {
        1
    } else {
        0
    };
    let ghost d = port_digits(text@);
    assert(d =~= text@.subrange(start as int, n as int));
    if start == n {
        return None;
    }
    let mut value: u32 = 0;
    let mut i: usize = start;
    while i < n
        invariant
            start <= i <= n,
            n == text@.len(),
            start < n,
            d == text@.subrange(start as int, n as int),
            d == port_digits(text@),
            forall|k: int| 0 <= k < i - start ==> is_digit(#[trigger] d[k]),
            value == decimal_value(d.subrange(0, i - start)),
            value <= 65535,
        decreases n - i,
    {
        let c = text.get_char(i);
        assert(c == d[i - start]);
        if c < '0' || c > '9' {
            assert(!is_digit(d[i - start]));
            return None;
        }
        let digit: u32 = (c as u32) - ('0' as u32);
        assert(d.subrange(0, i + 1 - start).drop_last() =~= d.subrange(0, i - start));
        value = value * 10 + digit;
        if value > 65535 {
            proof {
                if forall|k: int| 0 <= k < d.len() ==> is_digit(#[trigger] d[k]) {
                    lemma_decimal_monotone(d, i + 1 - start, d.len() as int);
                    assert(d.subrange(0, d.len() as int) =~= d);
                }
            }
            return None;
        }
        i = i + 1;
    }
    assert(d.subrange(0, n - start) =~= d);
    Some(value as u16)
}

/// The configuration from the values of `GOOGLE_MAPS_API_KEY` and `PORT`
/// (`None` for an unset variable): the key is required; the port defaults
/// to 3000 and must be a valid port number.
pub open spec fn config_verdict(api_key: Option<Seq<char>>, port: Option<Seq<char>>) -> Result<
    (Seq<char>, u16),
    Seq<char>,
> {
    match api_key {
        None => Err("GOOGLE_MAPS_API_KEY environment variable is required"@),
        Some(k) => match port_value(
            match port {
                Some(p) => p,
                None => "3000"@,
            },
        ) {
            Some(n) => Ok((k, n)),
            None => Err("Invalid PORT value"@),
        },
    }
}

impl Config {
    /// The configuration made of the two variables' values, as
    /// [`config_verdict`] says.
    pub fn from_values(api_key: Option<String>, port: Option<String>) -> (r: Result<Config, String>)
        ensures
            match config_verdict(
                match api_key {
                    Some(k) => Some(k@),
                    None => None,
                },
                match port {
                    Some(p) => Some(p@),
                    None => None,
                },
            ) {
                Ok((k, n)) => r matches Ok(c) && c.google_maps_api_key@ == k && c.port == n,
                Err(m) => r matches Err(e) && e@ == m,
            },
    {
        let key = match api_key {
            Some(k) => k,
            None => {
                return Err("GOOGLE_MAPS_API_KEY environment variable is required".to_owned());
            },
        };
        let text: String = match port {
            Some(p) => p,
            None => "3000".to_owned(),
        };
        match parse_port(text.as_str()) {
            Some(n) => Ok(Config { google_maps_api_key: key, port: n }),
            None => Err("Invalid PORT value".to_owned()),
        }
    }
}

} // verus!
