use vstd::prelude::*;
use vstd::string::StrSliceExecFns;

use crate::text::owned;

verus! {

/// Address settings of the HTTP server.
pub struct ServerConfig {
    pub host: String,
    pub port: u16,
}

/// Process-wide configuration snapshot.
pub struct Config {
    pub server: ServerConfig,
}

/// Whether a character is an ASCII decimal digit.
pub open spec fn is_digit(c: char) -> bool {
    '0' <= c && c <= '9'
}

/// The value of a string of decimal digits.
pub open spec fn digits_value(s: Seq<char>) -> int
    decreases s.len(),
{
    if s.len() == 0 {
        0
    } else {
        digits_value(s.drop_last()) * 10 + (s.last() as int - '0' as int)
    }
}

/// The digits of a port setting: an optional leading `+` is dropped.
pub open spec fn port_digits(s: Seq<char>) -> Seq<char> {
    if s.len() > 0 && s[0] == '+' {
        s.drop_first()
    } else {
        s
    }
}

/// The port that a setting names: one or more decimal digits, after an
/// optional `+`, with a value that fits in 16 bits.
pub open spec fn port_of(s: Seq<char>) -> Option<u16> {
    let d = port_digits(s);
    if d.len() > 0 && (forall|i: int| 0 <= i < d.len() ==> is_digit(#[trigger] d[i]))
        && digits_value(d) <= 65535 {
        Some(digits_value(d) as u16)
    } else {
        None
    }
}

proof fn lemma_digits_value_nonneg(s: Seq<char>)
    requires
        forall|i: int| 0 <= i < s.len() ==> is_digit(#[trigger] s[i]),
    ensures
        digits_value(s) >= 0,
    decreases s.len(),
{
    if s.len() > 0 {
        lemma_digits_value_nonneg(s.drop_last());
    }
}

proof fn lemma_digits_value_grows(s: Seq<char>, i: int)
    requires
        0 <= i <= s.len(),
        forall|j: int| 0 <= j < s.len() ==> is_digit(#[trigger] s[j]),
    ensures
        digits_value(s.subrange(0, i)) <= digits_value(s),
    decreases s.len() - i,
{
    if i < s.len() {
        lemma_digits_value_grows(s, i + 1);
        assert(s.subrange(0, i + 1).drop_last() =~= s.subrange(0, i));
        lemma_digits_value_nonneg(s.subrange(0, i));
    } else {
        assert(s.subrange(0, i) =~= s);
    }
}

/// Reads a port setting, as `u16::from_str` does.
pub fn parse_port(s: &str) -> (r: Option<u16>)
    ensures
        r == port_of(s@),
{
    let n = s.unicode_len();
    let mut i: usize = 0;
    if n > 0 && s.get_char(0) == '+' {
        i = 1;
    }
    let start = i;
    let ghost d = port_digits(s@);
    proof {
        assert(d =~= s@.subrange(start as int, n as int));
    }
    if start == n {
        return None;
    }
    let mut value: u32 = 0;
    while i < n
        invariant
            n == s@.len(),
            start <= i <= n,
            d =~= s@.subrange(start as int, n as int),
            d == port_digits(s@),
            forall|j: int| 0 <= j < i - start ==> is_digit(#[trigger] d[j]),
            value as int == digits_value(d.subrange(0, i - start)),
            value <= 65535,
        decreases n - i,
    {
        let c = s.get_char(i);
        if !('0' <= c && c <= '9') {
            proof {
                assert(d[i - start] == c);
                assert(!is_digit(d[i - start]));
                assert(!(forall|j: int| 0 <= j < d.len() ==> is_digit(#[trigger] d[j])));
                assert(port_digits(s@) == d);
            }
            return None;
        }
        proof {
            assert(d.subrange(0, i + 1 - start).drop_last() =~= d.subrange(0, i - start));
            assert(d.subrange(0, i + 1 - start).last() == c);
        }
        let next = value * 10 + (c as u32 - '0' as u32);
        if next > 65535 {
            proof {
                assert forall|j: int| 0 <= j < i + 1 - start implies is_digit(
                    #[trigger] d.subrange(0, i + 1 - start)[j],
                ) by {
                    assert(d.subrange(0, i + 1 - start)[j] == d[j]);
                }
                assert(digits_value(d.subrange(0, i + 1 - start)) == value * 10 + (c as int - '0' as int));
                if forall|j: int| 0 <= j < d.len() ==> is_digit(#[trigger] d[j]) {
                    lemma_digits_value_grows(d, i + 1 - start);
                    assert(digits_value(d) > 65535);
                }
                assert(port_digits(s@) == d);
            }
            return None;
        }
        value = next;
        i = i + 1;
    }
    proof {
        assert(d.subrange(0, n - start) =~= d);
    }
    Some(value as u16)
}

impl Config {
    /// The configuration from the `HOST` and `PORT` settings, each where
    /// given: the host defaults to `0.0.0.0` and the port to 5000. `None`
    /// when a given port is not a valid port number.
    pub fn from_settings(host: Option<String>, port: Option<String>) -> (r: Option<Config>)
        ensures
            r is Some <==> (port matches Some(p) ==> port_of(p@) is Some),
            r matches Some(c) ==> c.server.host@ == (match host {
                Some(h) => h@,
                None => "0.0.0.0"@,
            }),
            r matches Some(c) ==> c.server.port == (match port {
                Some(p) => port_of(p@)->0,
                None => 5000u16,
            }),
    {
        let port = match port {
            Some(p) => match parse_port(p.as_str()) {
                Some(n) => n,
                None => {
                    return None;
                },
            },
            None => 5000,
        };
        let host = match host {
            Some(h) => h,
            None => owned("0.0.0.0"),
        };
        Some(Config { server: ServerConfig { host, port } })
    }

    pub fn server_host(&self) -> (r: &str)
        ensures
            r@ == self.server.host@,
    {
        self.server.host.as_str()
    }

    pub fn server_port(&self) -> (r: u16)
        ensures
            r == self.server.port,
    {
        self.server.port
    }
}

} // verus!
