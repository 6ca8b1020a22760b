//! Selection of the port the server listens on.
//!
//! The port comes from an environment variable when that variable is set and
//! holds a parseable port number; otherwise the default port is used. A value
//! is parseable when it is a non-empty string of decimal digits whose value
//! fits a port number.

use vstd::prelude::*;
use vstd::string::StrSliceExecFns;

verus! {

/// The port used when the environment gives none, or an unparsable one.
pub const DEFAULT_PORT: u16 = 8080;

/// A decimal digit.
pub open spec fn is_digit(c: char) -> bool {
    c >= '0' && c <= '9'
}

/// Every character of `s` is a decimal digit.
pub open spec fn all_digits(s: Seq<char>) -> bool {
    forall|i: int| 0 <= i < s.len() ==> #[trigger] is_digit(s[i])
}

/// The numeric value of a digit string, most significant digit first.
pub open spec fn digits_val(s: Seq<char>) -> int
    decreases s.len(),
{
    if s.len() == 0 {
        0
    } else {
        10 * digits_val(s.drop_last()) + (s.last() as int - 48)
    }
}

/// Whether `s` parses as a port number: non-empty, all digits, and in range.
pub open spec fn parses_as_port(s: Seq<char>) -> bool {
    s.len() > 0 && all_digits(s) && digits_val(s) <= u16::MAX
}

/// The port selected for a given environment value.
pub open spec fn port_of(env_port: Option<Seq<char>>) -> int {
    match env_port {
        Option::Some(s) => if parses_as_port(s) {
            digits_val(s)
        } else {
            DEFAULT_PORT as int
        },
        Option::None => DEFAULT_PORT as int,
    }
}

proof fn lemma_digits_val_nonneg(s: Seq<char>)
    requires
        all_digits(s),
    ensures
        digits_val(s) >= 0,
    decreases s.len(),
{
    if s.len() > 0 {
        assert(is_digit(s.last()));
        assert(all_digits(s.drop_last())) by {
            assert forall|i: int| 0 <= i < s.drop_last().len() implies #[trigger] is_digit(
                s.drop_last()[i],
            ) by {
                assert(s.drop_last()[i] == s[i]);
            }
        }
        lemma_digits_val_nonneg(s.drop_last());
    }
}

/// Parse a port number from a digit string; anything unparsable selects the
/// default port.
pub fn parse_port(s: &str) -> (p: u16)
    ensures
        p as int == port_of(Option::Some(s@)),
{
    let n = s.unicode_len();
    if n == 0 {
        return DEFAULT_PORT;
    }
    let mut value: u32 = 0;
    let mut i: usize = 0;
    while i < n
        invariant
            n == s@.len(),
            0 < n,
            i <= n,
            all_digits(s@.subrange(0, i as int)),
            digits_val(s@.subrange(0, i as int)) <= u16::MAX ==> value == digits_val(
                s@.subrange(0, i as int),
            ),
            digits_val(s@.subrange(0, i as int)) > u16::MAX ==> value > u16::MAX,
            value <= 655359,
        decreases n - i,
    {
        let c = s.get_char(i);
        if !(c >= '0' && c <= '9') {
            proof {
                assert(!is_digit(s@[i as int]));
            }
            return DEFAULT_PORT;
        }
        let d: u32 = (c as u32) - 48;
        proof {
            let prev = s@.subrange(0, i as int);
            let next = s@.subrange(0, i as int + 1);
            assert(next.drop_last() =~= prev);
            assert(next.last() == s@[i as int]);
            assert(all_digits(next)) by {
                assert forall|j: int| 0 <= j < next.len() implies #[trigger] is_digit(
                    next[j],
                ) by {
                    if j < i as int {
                        assert(next[j] == prev[j]);
                    }
                }
            }
            lemma_digits_val_nonneg(prev);
        }
        if value <= 65535 {
            value = value * 10 + d;
        }
        i = i + 1;
    }
    proof {
        assert(s@.subrange(0, n as int) =~= s@);
    }
    if value <= 65535 {
        value as u16
    } else {
        DEFAULT_PORT
    }
}

/// Select the port to bind: the environment's value when set and parseable,
/// the default port otherwise.
pub fn port_from_env(env_port: Option<&str>) -> (p: u16)
    ensures
        env_port matches Option::Some(s) ==> p as int == port_of(Option::Some(s@)),
        env_port is None ==> p == DEFAULT_PORT,
{
    match env_port {
        Option::Some(s) => parse_port(s),
        Option::None => DEFAULT_PORT,
    }
}

} // verus!
