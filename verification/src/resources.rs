//! What this process itself costs, measured rather than inferred.

use vstd::prelude::*;

use crate::watchdog::elapsed;
use crate::watchdog;

verus! {

/// The 100-nanosecond ticks of a time that comes in two halves.
pub open spec fn ticks(high: u32, low: u32) -> int {
    high * 0x1_0000_0000 + low
}

/// The processor time of a process in nanoseconds, from what it spent in the
/// kernel and outside it.
pub fn cpu_nanos(kernel: (u32, u32), user: (u32, u32)) -> (r: u64)
    requires
        (ticks(kernel.0, kernel.1) + ticks(user.0, user.1)) * 100 <= u64::MAX,
    ensures
        r == (ticks(kernel.0, kernel.1) + ticks(user.0, user.1)) * 100,
{
    let k: u64 = kernel.0 as u64 * 0x1_0000_0000 + kernel.1 as u64;
    let u: u64 = user.0 as u64 * 0x1_0000_0000 + user.1 as u64;
    (k + u) * 100
}

/// Processor time used over a stretch of time, both in nanoseconds.
#[derive(Debug, Clone, Copy, PartialEq, Eq, Structural)]
pub struct Usage {
    pub used: u64,
    pub over: u64,
}

/// What a sample reports: what was used since the last one, if there was one and
/// it can be measured.
pub open spec fn used_since(last: Option<(u64, u64)>, now: u64, cpu: Option<u64>) -> Option<
    Usage,
> {
    match (cpu, last) {
        (Some(c), Some((then, before))) => Some(
            Usage {
                used: watchdog::span(before, c) as u64,
                over: watchdog::span(then, now) as u64,
            },
        ),
        _ => None,
    }
}

/// The last sample, after another.
pub open spec fn last_after(last: Option<(u64, u64)>, now: u64, cpu: Option<u64>) -> Option<
    (u64, u64),
> {
    match cpu {
        Some(c) => Some((now, c)),
        None => last,
    }
}

/// Samples a process, reporting what it used since the previous sample.
#[derive(Debug, Clone, Copy)]
pub struct ProcessMeter {
    /// When the last sample was taken, and the processor time at that point.
    pub last: Option<(u64, u64)>,
}

impl ProcessMeter {
    pub fn new() -> (r: Self)
        ensures
            r.last is None,
    {
        ProcessMeter { last: None }
    }

    /// `None` on the first call, which establishes the baseline: an average
    /// needs two readings, and reporting the whole lifetime of the process as
    /// if it were the last minute would be its own kind of wrong. `cpu` is the
    /// processor time so far, `None` where it cannot be measured.
    pub fn sample(&mut self, now: u64, cpu: Option<u64>) -> (r: Option<Usage>)
        ensures
            r == used_since(old(self).last, now, cpu),
            final(self).last == last_after(old(self).last, now, cpu),
    {
        let c: u64 = match cpu {
            Some(c) => c,
            None => {
                return None;
            },
        };
        let out: Option<Usage> = match self.last {
            Some((then, before)) => Some(
                Usage { used: elapsed(before, c), over: elapsed(then, now) },
            ),
            None => None,
        };
        self.last = Some((now, c));
        out
    }
}

/// A sample reports what was used since the previous one, not over the lifetime of
/// the process: the first reports nothing, the next exactly what came in between,
/// and nothing used where the processor time went backwards.
pub proof fn a_sample_covers_the_time_since_the_last(t0: u64, c0: u64, t1: u64, c1: u64)
    requires
        t0 < t1,
    ensures
        used_since(None, t0, Some(c0)) is None,
        ({
            let last = last_after(None, t0, Some(c0));
            used_since(last, t1, Some(c1)) == Some(
                Usage {
                    used: (if c1 < c0 {
                        0
                    } else {
                        c1 - c0
                    }) as u64,
                    over: (t1 - t0) as u64,
                },
            )
        }),
{
}

/// A sample that cannot be measured is as if it had not been taken.
pub proof fn a_failed_sample_changes_nothing(last: Option<(u64, u64)>, now: u64)
    ensures
        used_since(last, now, None) is None,
        last_after(last, now, None) == last,
{
}

/// The two halves of a time are put together as one number of ticks, and a tick is a
/// hundred nanoseconds.
pub proof fn a_time_comes_in_two_halves(high: u32, low: u32)
    ensures
        ticks(high, low) == high as int * 4_294_967_296 + low,
        ticks(0, low) == low,
{
}

} // verus!
