//! Where the relay can be reached: the ports it listens on, and what
//! outside services say of its address.

use crate::text::{chars_of, contains_run, decimal, find_run, push_decimal};
use vstd::prelude::*;
use vstd::string::StringExecFns;

verus! {

/// The port on which the relay listens unless told otherwise.
pub const DEFAULT_RELAY_PORT: u16 = 4001;

/// The longest that an IPv4 address in dotted decimals can be.
pub const MAX_IPV4_LEN: usize = 15;

/// Whether `c` is a decimal digit.
pub open spec fn is_digit(c: char) -> bool {
    '0' <= c && c <= '9'
}

/// The number that a decimal digit stands for.
pub open spec fn digit_value(c: char) -> nat {
    (c as u32 - '0' as u32) as nat
}

/// The number that a run of decimal digits spells.
pub open spec fn digits_value(digits: Seq<char>) -> nat
    decreases digits.len(),
{
    if digits.len() == 0 {
        0
    } else {
        digits_value(digits.drop_last()) * 10 + digit_value(digits.last())
    }
}

/// Whether all of `text` is decimal digits.
pub open spec fn all_digits(text: Seq<char>) -> bool {
    forall|i: int| 0 <= i < text.len() ==> is_digit(#[trigger] text[i])
}

/// The port that a text names: decimal digits, with or without a plus sign
/// before them, that spell a number of at most 65535.
pub open spec fn port_of(text: Seq<char>) -> Option<u16> {
    let digits = if text.len() > 0 && text[0] == '+' {
        text.skip(1)
    } else {
        text
    };
    if digits.len() > 0 && all_digits(digits) && digits_value(digits) <= u16::MAX {
        Some(digits_value(digits) as u16)
    } else {
        None
    }
}

/// The port to listen on, given what the environment says: the port that
/// it names, or `DEFAULT_RELAY_PORT` where it says nothing or names none.
pub open spec fn port_or_default_spec(setting: Option<Seq<char>>) -> u16 {
    match setting {
        Some(text) => match port_of(text) {
            Some(port) => port,
            None => DEFAULT_RELAY_PORT,
        },
        None => DEFAULT_RELAY_PORT,
    }
}

/// Whether a text may be an IPv4 address in dotted decimals: it holds a
/// dot, nothing but digits and dots, and at most `MAX_IPV4_LEN` characters.
pub open spec fn plausible_ipv4(text: Seq<char>) -> bool {
    &&& text.contains('.')
    &&& text.len() <= MAX_IPV4_LEN
    &&& forall|i: int| 0 <= i < text.len() ==> is_digit(#[trigger] text[i]) || text[i] == '.'
}

/// What the probing service is asked: whether `port` of `host` can be
/// reached.
pub open spec fn port_check_query(host: Seq<char>, port: u16) -> Seq<char> {
    "{\"host\":\""@ + host + "\",\"ports\":["@ + decimal(port as nat) + "]}"@
}

/// Whether the answer of the probing service says that the port can be
/// reached.
pub open spec fn says_reachable(answer: Seq<char>) -> bool {
    contains_run(answer, "\"status\":true"@)
}

/// A run of digits that spells more than a number spells more with one
/// more digit.
proof fn lemma_digits_grow(digits: Seq<char>, limit: nat)
    requires
        digits.len() > 0,
        digits_value(digits.drop_last()) > limit,
    ensures
        digits_value(digits) > limit,
{
    assert(digits_value(digits.drop_last()) * 10 >= digits_value(digits.drop_last()))
        by (nonlinear_arith);
}

/// The port that a text names.
pub fn parse_port(text: &str) -> (port: Option<u16>)
    ensures
        port == port_of(text@),
{
    let chars = chars_of(text);
    let start: usize = if chars.len() > 0 && chars[0] == '+' {
        1
    } else {
        0
    };
    if start >= chars.len() {
        return None;
    }
    let ghost digits = chars@.skip(start as int);
    let mut value: u32 = 0;
    let mut too_large = false;
    let mut i: usize = start;
    proof {
        assert(digits.take(0).len() == 0);
    }
    while i < chars.len()
        invariant
            start <= i <= chars@.len(),
            chars@ == text@,
            start < chars@.len(),
            start == if text@.len() > 0 && text@[0] == '+' {
                1int
            } else {
                0int
            },
            digits == chars@.skip(start as int),
            all_digits(digits.take(i - start)),
            !too_large ==> value == digits_value(digits.take(i - start)) && value <= u16::MAX,
            too_large ==> digits_value(digits.take(i - start)) > u16::MAX,
        decreases chars@.len() - i,
    {
        let c = chars[i];
        let ghost before = digits.take(i - start);
        let ghost after = digits.take(i - start + 1);
        proof {
            assert(after.drop_last() == before);
            assert(after.last() == c);
        }
        if !(c >= '0' && c <= '9') {
            proof {
                assert(digits[i - start] == c);
                if start == 0 {
                    assert(digits == text@);
                }
            }
            return None;
        }
        proof {
            assert forall|k: int| 0 <= k < after.len() implies is_digit(#[trigger] after[k]) by {
                if k < before.len() {
                    assert(after[k] == before[k]);
                }
            }
        }
        if too_large {
            proof {
                lemma_digits_grow(after, u16::MAX as nat);
            }
        } else {
            let next = value * 10 + (c as u32 - '0' as u32);
            if next > u16::MAX as u32 {
                too_large = true;
            } else {
                value = next;
            }
        }
        i = i + 1;
    }
    proof {
        assert(digits.take(digits.len() as int) == digits);
        if start == 0 {
            assert(digits == text@);
        }
    }
    if too_large {
        None
    } else {
        Some(value as u16)
    }
}

/// The port to listen on, given what the environment says.
pub fn port_or_default(setting: Option<&str>) -> (port: u16)
    ensures
        port == port_or_default_spec(
            match setting {
                Some(text) => Some(text@),
                None => None,
            },
        ),
{
    match setting {
        Some(text) => match parse_port(text) {
            Some(port) => port,
            None => DEFAULT_RELAY_PORT,
        },
        None => DEFAULT_RELAY_PORT,
    }
}

/// Whether a text may be an IPv4 address in dotted decimals.
pub fn is_plausible_ipv4(text: &str) -> (plausible: bool)
    ensures
        plausible == plausible_ipv4(text@),
{
    let chars = chars_of(text);
    if chars.len() > MAX_IPV4_LEN {
        return false;
    }
    let mut dotted = false;
    let mut i: usize = 0;
    while i < chars.len()
        invariant
            i <= chars@.len(),
            chars@ == text@,
            dotted <==> chars@.take(i as int).contains('.'),
            forall|k: int| 0 <= k < i ==> is_digit(#[trigger] chars@[k]) || chars@[k] == '.',
        decreases chars@.len() - i,
    {
        let c = chars[i];
        let ghost before = chars@.take(i as int);
        let ghost after = chars@.take(i + 1);
        proof {
            assert(after == before.push(c));
            if before.contains('.') {
                let k = choose|k: int| 0 <= k < before.len() && before[k] == '.';
                assert(after[k] == '.');
            }
            if after.contains('.') && c != '.' {
                let k = choose|k: int| 0 <= k < after.len() && after[k] == '.';
                assert(before[k] == '.');
            }
            if c == '.' {
                assert(after[i as int] == '.');
            }
        }
        if c == '.' {
            dotted = true;
        } else if !(c >= '0' && c <= '9') {
            return false;
        }
        i = i + 1;
    }
    proof {
        assert(chars@.take(chars@.len() as int) == chars@);
    }
    dotted
}

/// What the probing service is asked.
pub fn port_check_body(host: &str, port: u16) -> (body: String)
    ensures
        body@ == port_check_query(host@, port),
{
    let mut body = String::from_str("{\"host\":\"");
    body.append(host);
    body.append("\",\"ports\":[");
    push_decimal(&mut body, port as u64);
    body.append("]}");
    body
}

/// Whether the answer of the probing service says that the port can be
/// reached.
pub fn port_check_says_reachable(answer: &str) -> (reachable: bool)
    ensures
        reachable == says_reachable(answer@),
{
    find_run(&chars_of(answer), &chars_of("\"status\":true"))
}

} // verus!
