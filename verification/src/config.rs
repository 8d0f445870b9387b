//! Port configuration: the environment's raw `PORT` value resolved to the
//! port the server listens on, defaulting when absent or unparsable.

use vstd::prelude::*;

verus! {

/// The port used when the configuration is absent or not a port number.
pub const DEFAULT_PORT: u16 = 59232;

/// A decimal digit character.
pub open spec fn is_digit_char(c: char) -> bool {
    '0' as u32 <= c as u32 && c as u32 <= '9' as u32
}

/// The numeric value of a digit character.
pub open spec fn digit_val(c: char) -> int {
    c as u32 - '0' as u32
}

/// The value of a digit string read left to right.
pub open spec fn digits_val(s: Seq<char>) -> int
    decreases s.len(),
{
    if s.len() == 0 {
        0
    } else {
        digits_val(s.drop_last()) * 10 + digit_val(s.last())
    }
}

pub open spec fn all_digits(s: Seq<char>) -> bool {
    forall|i: int| 0 <= i < s.len() ==> is_digit_char(s[i])
}

/// The digit part of a candidate port string: everything after one
/// optional leading plus sign.
pub open spec fn port_digits(s: Seq<char>) -> Seq<char> {
    if s.len() >= 1 && s[0] == '+' {
        s.skip(1)
    } else {
        s
    }
}

/// A string parses as a port exactly when its digit part is non-empty, all
/// digits, and of value at most 65535.
pub open spec fn parses_as_port(s: Seq<char>) -> bool {
    &&& port_digits(s).len() >= 1
    &&& all_digits(port_digits(s))
    &&& digits_val(port_digits(s)) <= 65535
}

/// The port the server listens on for raw configuration `raw`: the parsed
/// value where `raw` parses as a port, else the default.
pub open spec fn spec_resolve_port(raw: Option<Seq<char>>) -> int {
    match raw {
        Option::Some(s) => if parses_as_port(s) {
            digits_val(port_digits(s))
        } else {
            59232
        },
        Option::None => 59232,
    }
}

pub open spec fn opt_view(o: Option<String>) -> Option<Seq<char>> {
    match o {
        Option::Some(s) => Some(s@),
        Option::None => None,
    }
}

/// Appending digit characters never shrinks a non-negative digit value.
proof fn lemma_digits_val_grows(s: Seq<char>, k: int, j: int)
    requires
        0 <= k <= j <= s.len(),
        digits_val(s.take(k)) >= 0,
        forall|i: int| k <= i < j ==> is_digit_char(s[i]),
    ensures
        digits_val(s.take(k)) <= digits_val(s.take(j)),
        digits_val(s.take(j)) >= 0,
    decreases j - k,
{
    if j > k {
        lemma_digits_val_grows(s, k, j - 1);
        assert(s.take(j).drop_last() =~= s.take(j - 1));
        assert(s.take(j).last() == s[j - 1]);
        assert(is_digit_char(s[j - 1]));
    }
}

fn parse_port(s: &str) -> (r: Option<u16>)
    ensures
        r is Some <==> parses_as_port(s@),
        (r matches Some(v) ==> v == digits_val(port_digits(s@))),
{
    let n = s.unicode_len();
    let mut start: usize = 0;
    if n >= 1 && s.get_char(0) == '+' {
        start = 1;
    }
    let ghost d = port_digits(s@);
    proof {
        assert(d =~= s@.skip(start as int));
    }
    if start >= n {
        return None;
    }
    let mut acc: u32 = 0;
    let mut i: usize = start;
    while i < n
        invariant
            start <= i <= n,
            n == s@.len(),
            d == port_digits(s@),
            d == s@.skip(start as int),
            d.len() == n - start,
            forall|m: int| 0 <= m < i - start ==> is_digit_char(d[m]),
            acc == digits_val(d.take(i - start)),
            acc <= 65535,
        decreases n - i,
    {
        let c = s.get_char(i);
        proof {
            assert(d[i - start] == s@[i as int]);
        }
        let cv = c as u32;
        if cv < 48 || cv > 57 {
            proof {
                assert(!is_digit_char(d[i - start]));
            }
            return None;
        }
        let next: u32 = acc * 10 + (cv - 48);
        proof {
            assert(d.take(i - start + 1).drop_last() =~= d.take(i - start));
            assert(d.take(i - start + 1).last() == d[i - start]);
            assert(next == digits_val(d.take(i - start + 1)));
        }
        if next > 65535 {
            proof {
                if all_digits(d) {
                    lemma_digits_val_grows(d, i - start + 1, d.len() as int);
                    assert(d.take(d.len() as int) =~= d);
                }
            }
            return None;
        }
        acc = next;
        i = i + 1;
    }
    proof {
        assert(d.take(d.len() as int) =~= d);
    }
    Some(acc as u16)
}

/// Resolves the raw `PORT` configuration value: an absent or unparsable
/// value falls back to the default port rather than failing startup.
pub fn resolve_port(raw: Option<String>) -> (p: u16)
    ensures
        p == spec_resolve_port(opt_view(raw)),
{
    match raw {
        Option::Some(s) => {
            match parse_port(s.as_str()) {
                Option::Some(v) => v,
                Option::None => DEFAULT_PORT,
            }
        },
        Option::None => DEFAULT_PORT,
    }
}

} // verus!
