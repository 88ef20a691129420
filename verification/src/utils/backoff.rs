//! Growing delays between attempts that keep failing.
use vstd::prelude::*;

verus! {

/// `initial`, doubled `times` times.
pub open spec fn doubled(initial: nat, times: nat) -> nat
    decreases times,
{
    if times == 0 {
        initial
    } else {
        2 * doubled(initial, (times - 1) as nat)
    }
}

/// The delay after `failures` earlier failures: doubled for each of them, but never
/// more than `max`.
pub open spec fn delay_after(failures: nat, initial: nat, max: nat) -> nat {
    if doubled(initial, failures) < max {
        doubled(initial, failures)
    } else {
        max
    }
}

/// Doubling never makes a number smaller.
proof fn lemma_doubled_grows(initial: nat, few: nat, many: nat)
    requires
        few <= many,
    ensures
        doubled(initial, few) <= doubled(initial, many),
    decreases many,
{
    if few < many {
        lemma_doubled_grows(initial, few, (many - 1) as nat);
    }
}

/// Counts the failures in a row.
#[derive(Debug)]
pub struct BackoffCounter {
    failures: u32,
}

impl BackoffCounter {
    /// The failures so far.
    pub closed spec fn failures(&self) -> nat {
        self.failures as nat
    }

    /// A counter without failures.
    pub fn new() -> (r: Self)
        ensures
            r.failures() == 0,
    {
        BackoffCounter { failures: 0 }
    }

    /// The delay before the next attempt, in milliseconds. The failure is counted,
    /// up to the largest number that the counter holds.
    pub fn next_delay(&mut self, initial_ms: u64, max_ms: u64) -> (delay: u64)
        ensures
            delay == delay_after(old(self).failures(), initial_ms as nat, max_ms as nat),
            final(self).failures() == if old(self).failures() < u32::MAX {
                old(self).failures() + 1
            } else {
                old(self).failures()
            },
    {
        let failures: u32 = self.failures;
        let mut delay: u64 = initial_ms;
        let mut i: u32 = 0;
        while i < failures && delay < max_ms && delay > 0
            invariant
                i <= failures,
                delay == doubled(initial_ms as nat, i as nat) || (delay == max_ms && doubled(
                    initial_ms as nat,
                    i as nat,
                ) >= max_ms),
            decreases failures - i,
        {
            i += 1;
            if delay > max_ms / 2 {
                delay = max_ms;
            } else {
                delay = delay * 2;
            }
        }
        proof {
            lemma_doubled_grows(initial_ms as nat, i as nat, failures as nat);
            if delay == 0 && max_ms > 0 {
                lemma_doubled_zero(initial_ms as nat, i as nat, failures as nat);
            }
        }
        if self.failures < u32::MAX {
            self.failures = self.failures + 1;
        }
        if delay < max_ms {
            delay
        } else {
            max_ms
        }
    }
}

/// Doubling nothing gives nothing.
proof fn lemma_doubled_zero(initial: nat, few: nat, many: nat)
    requires
        few <= many,
        doubled(initial, few) == 0,
    ensures
        doubled(initial, many) == 0,
    decreases many,
{
    if few < many {
        lemma_doubled_zero(initial, few, (many - 1) as nat);
    }
}

impl Default for BackoffCounter {
    fn default() -> (r: Self)
        ensures
            r.failures() == 0,
    {
        BackoffCounter::new()
    }
}

/// Delays grow with the failures and stay within the limit.
pub proof fn delays_grow_within_the_limit(few: nat, many: nat, initial: nat, max: nat)
    requires
        few <= many,
    ensures
        delay_after(few, initial, max) <= delay_after(many, initial, max) <= max,
{
    lemma_doubled_grows(initial, few, many);
}

/// The first delay is the initial one, and each further failure doubles the delay before
/// it; the limit cuts every one of them.
pub proof fn each_failure_doubles_the_delay(failures: nat, initial: nat, max: nat)
    ensures
        delay_after(0, initial, max) == if initial <= max {
            initial
        } else {
            max
        },
        delay_after(failures + 1, initial, max) == if 2 * delay_after(failures, initial, max)
            <= max {
            2 * delay_after(failures, initial, max)
        } else {
            max
        },
{
    assert(doubled(initial, failures + 1) == 2 * doubled(initial, failures));
}

} // verus!
