//! The request payloads of a benchmark run.
//!
//! Warmup calls all carry the same fixed text; each timed call carries a
//! distinguishing payload that embeds the call's number in decimal.

use vstd::prelude::*;
use vstd::string::StringExecFns;

verus! {

/// The decimal digit `d` as a character.
pub open spec fn digit_char(d: int) -> char
    recommends
        0 <= d < 10,
{
    if d == 0 {
        '0'
    } else if d == 1 {
        '1'
    } else if d == 2 {
        '2'
    } else if d == 3 {
        '3'
    } else if d == 4 {
        '4'
    } else if d == 5 {
        '5'
    } else if d == 6 {
        '6'
    } else if d == 7 {
        '7'
    } else if d == 8 {
        '8'
    } else {
        '9'
    }
}

/// The decimal digits of `n`, most significant first, without leading
/// zeroes (`0` itself is the single digit `0`).
pub open spec fn decimal_digits(n: int) -> Seq<char>
    recommends
        n >= 0,
    decreases n,
{
    if n < 10 {
        seq![digit_char(n)]
    } else {
        decimal_digits(n / 10).push(digit_char(n % 10))
    }
}

/// The fixed payload of every warmup call.
pub open spec fn warmup_text() -> Seq<char> {
    "warmup"@
}

/// The payload of timed call `i`.
pub open spec fn benchmark_text(i: int) -> Seq<char>
    recommends
        i >= 0,
{
    "benchmark message "@ + decimal_digits(i)
}

/// A single decimal digit as a fresh one-character string.
fn digit_string(d: u64) -> (s: String)
    requires
        d < 10,
    ensures
        s@ == seq![digit_char(d as int)],
{
    let s = if d == 0 {
        String::from_str("0")
    } else if d == 1 {
        String::from_str("1")
    } else if d == 2 {
        String::from_str("2")
    } else if d == 3 {
        String::from_str("3")
    } else if d == 4 {
        String::from_str("4")
    } else if d == 5 {
        String::from_str("5")
    } else if d == 6 {
        String::from_str("6")
    } else if d == 7 {
        String::from_str("7")
    } else if d == 8 {
        String::from_str("8")
    } else {
        String::from_str("9")
    };
    proof {
        reveal_strlit("0");
        reveal_strlit("1");
        reveal_strlit("2");
        reveal_strlit("3");
        reveal_strlit("4");
        reveal_strlit("5");
        reveal_strlit("6");
        reveal_strlit("7");
        reveal_strlit("8");
        reveal_strlit("9");
        assert(s@ =~= seq![digit_char(d as int)]);
    }
    s
}

/// `n` written in decimal.
pub fn decimal_string(n: u64) -> (s: String)
    ensures
        s@ == decimal_digits(n as int),
    decreases n,
{
    if n < 10 {
        digit_string(n)
    } else {
        let mut s = decimal_string(n / 10);
        let d = digit_string(n % 10);
        s.append(d.as_str());
        proof {
            assert(s@ =~= decimal_digits((n / 10) as int).push(digit_char((n % 10) as int)));
        }
        s
    }
}

/// The payload of a warmup call.
pub fn warmup_message() -> (s: String)
    ensures
        s@ == warmup_text(),
{
    String::from_str("warmup")
}

/// The payload of timed call `index`: the fixed prefix followed by the
/// call's number, so that every timed request is distinguishable.
pub fn benchmark_message(index: u64) -> (s: String)
    ensures
        s@ == benchmark_text(index as int),
{
    let mut s = String::from_str("benchmark message ");
    let d = decimal_string(index);
    s.append(d.as_str());
    s
}

} // verus!
