//! Wall-clock measurement for the timed runner: a trusted monotonic clock
//! read in nanoseconds, and a verified arithmetic mean over repetitions.

use vstd::prelude::*;

verus! {

#[verifier::external_type_specification]
#[verifier::external_body]
pub struct ExInstant(std::time::Instant);

/// Relies on std::time::Instant::now: one reading of the monotonic clock.
/// Nothing is promised of the reading itself.
#[verifier::external_body]
pub(crate) fn instant_now() -> std::time::Instant {
    std::time::Instant::now()
}

/// Relies on std::time::Instant::elapsed: the time since `start`, converted
/// to nanoseconds and truncated to 64 bits. Nothing is promised of the value.
#[verifier::external_body]
pub(crate) fn elapsed_nanos(start: &std::time::Instant) -> u64 {
    start.elapsed().as_nanos() as u64
}

/// The total of a sequence of durations, as an unbounded integer.
pub open spec fn sum_of(s: Seq<u64>) -> int
    decreases s.len(),
{
    if s.len() == 0 {
        0
    } else {
        sum_of(s.drop_last()) + s.last()
    }
}

/// The arithmetic mean of the recorded durations, rounded towards zero.
pub fn mean_nanos(durations: &Vec<u64>) -> (r: u64)
    requires
        durations@.len() > 0,
    ensures
        r == sum_of(durations@) / durations@.len() as int,
{
    let mut total: u128 = 0;
    let mut i: usize = 0;
    while i < durations.len()
        invariant
            i <= durations@.len(),
            total == sum_of(durations@.take(i as int)),
            total <= i * 0xffff_ffff_ffff_ffffu64,
        decreases durations@.len() - i,
    {
        proof {
            assert(durations@.take(i + 1).drop_last() =~= durations@.take(i as int));
        }
        total = total + durations[i] as u128;
        i = i + 1;
    }
    proof {
        assert(durations@.take(i as int) =~= durations@);
    }
    let n = durations.len();
    let mean = total / n as u128;
    proof {
        assert(mean <= 0xffff_ffff_ffff_ffffu64 as u128) by (nonlinear_arith)
            requires
                total <= n * 0xffff_ffff_ffff_ffffu64,
                n > 0,
                mean == total / n as u128,
        ;
    }
    mean as u64
}

} // verus!
