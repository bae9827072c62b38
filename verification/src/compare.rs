//! The relative-speed comparison of the two transports.
//!
//! After both runs, the benchmark compares the two mean latencies and
//! reports which transport is faster and by what multiplicative factor.
//! The factor is the ratio of the means — slower over faster — kept in
//! hundredths so that it carries two decimal places.

use vstd::prelude::*;
use vstd::arithmetic::div_mod::{lemma_div_is_ordered, lemma_div_multiples_vanish};

verus! {

/// Which transport won, and by how much.
pub struct Comparison {
    /// True when the Unix socket's mean latency is strictly below TCP's.
    pub unix_faster: bool,
    /// The ratio of the slower mean to the faster one, in hundredths,
    /// rounded towards zero; at least 100.
    pub ratio_hundredths: u128,
}

/// `slower / faster` in hundredths, rounded towards zero.
pub open spec fn ratio_hundredths_of(slower: int, faster: int) -> int
    recommends
        faster > 0,
{
    slower * 100 / faster
}

/// Compare the two mean latencies, in nanoseconds. The ratio is taken
/// of the means alone; a tie counts for TCP, as the factor is then
/// exactly 100 hundredths either way.
pub fn compare_means(unix_mean: u64, tcp_mean: u64) -> (c: Comparison)
    requires
        unix_mean > 0,
        tcp_mean > 0,
    ensures
        c.unix_faster == (tcp_mean > unix_mean),
        c.unix_faster ==> c.ratio_hundredths == ratio_hundredths_of(
            tcp_mean as int,
            unix_mean as int,
        ),
        !c.unix_faster ==> c.ratio_hundredths == ratio_hundredths_of(
            unix_mean as int,
            tcp_mean as int,
        ),
        c.ratio_hundredths >= 100,
{
    if tcp_mean > unix_mean {
        let r = (tcp_mean as u128) * 100 / (unix_mean as u128);
        proof {
            lemma_ratio_at_least_one(tcp_mean as int, unix_mean as int);
        }
        Comparison { unix_faster: true, ratio_hundredths: r }
    } else {
        let r = (unix_mean as u128) * 100 / (tcp_mean as u128);
        proof {
            lemma_ratio_at_least_one(unix_mean as int, tcp_mean as int);
        }
        Comparison { unix_faster: false, ratio_hundredths: r }
    }
}

/// The ratio of a slower mean to a faster one is at least a factor of
/// one, that is 100 hundredths.
pub proof fn lemma_ratio_at_least_one(slower: int, faster: int)
    requires
        0 < faster <= slower,
    ensures
        ratio_hundredths_of(slower, faster) >= 100,
{
    assert(faster * 100 <= slower * 100) by (nonlinear_arith)
        requires 0 < faster <= slower;
    lemma_div_is_ordered(faster * 100, slower * 100, faster);
    lemma_div_multiples_vanish(100, faster);
}

} // verus!
