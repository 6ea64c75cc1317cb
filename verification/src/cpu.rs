//! Processor time counters, and the share of the time that the processor was
//! busy since a baseline was taken.

use vstd::prelude::*;

verus! {

/// A 64-bit count of 100-nanosecond ticks, held as two 32-bit words.
#[allow(non_snake_case)]
#[derive(Clone, Copy, Debug)]
pub struct FILETIME {
    pub dwLowDateTime: u32,
    pub dwHighDateTime: u32,
}

/// The three counters of one reading: the time spent idle, in the kernel, and
/// in user code.
#[derive(Clone, Copy, Debug)]
pub struct FileTimes {
    pub idle_time: FILETIME,
    pub kernel_time: FILETIME,
    pub user_time: FILETIME,
}

/// The two words of `time` as one number.
pub open spec fn ticks_of(time: FILETIME) -> nat {
    (time.dwHighDateTime as nat) * 0x1_0000_0000 + time.dwLowDateTime as nat
}

/// The sum of the two words of `time`, which is what the baseline contributes
/// to a difference.
pub open spec fn word_sum(time: FILETIME) -> nat {
    time.dwHighDateTime as nat + time.dwLowDateTime as nat
}

/// Kernel and user time of `now`, less the words of the baseline's kernel time,
/// plus the words of its user time.
pub open spec fn total_since(now: FileTimes, baseline: FileTimes) -> int {
    ticks_of(now.kernel_time) + ticks_of(now.user_time) - word_sum(baseline.kernel_time)
        + word_sum(baseline.user_time)
}

/// Idle time of `now`, less the words of the baseline's idle time.
pub open spec fn idle_since(now: FileTimes, baseline: FileTimes) -> int {
    ticks_of(now.idle_time) - word_sum(baseline.idle_time)
}

/// Whether every step of the two differences, and their own difference, stays
/// within 64 bits without a sign. The steps are taken from left to right.
pub open spec fn differences_defined(now: FileTimes, baseline: FileTimes) -> bool {
    let total_now = ticks_of(now.kernel_time) + ticks_of(now.user_time);
    let kernel = baseline.kernel_time;
    let idle = baseline.idle_time;
    &&& total_now <= u64::MAX
    &&& total_now - kernel.dwHighDateTime - kernel.dwLowDateTime >= 0
    &&& total_since(now, baseline) <= u64::MAX
    &&& ticks_of(now.idle_time) - idle.dwHighDateTime - idle.dwLowDateTime >= 0
    &&& total_since(now, baseline) - idle_since(now, baseline) >= 0
}

impl FILETIME {
    /// The two words as one number: the high word counts 2^32 ticks each.
    pub fn ticks(&self) -> (t: u64)
        ensures
            t == ticks_of(*self),
    {
        let high: u64 = self.dwHighDateTime as u64;
        let low: u64 = self.dwLowDateTime as u64;
        assert((high << 32 | low) == high * 0x1_0000_0000 + low) by (bit_vector)
            requires
                high <= 0xffff_ffff,
                low <= 0xffff_ffff,
        ;
        high << 32 | low
    }
}

impl FileTimes {
    /// The busy time and the total time since `baseline`, in this order: the
    /// total less the idle time, and the total. `None` where a step of the
    /// computation leaves the range of an unsigned 64-bit number.
    pub fn busy_and_total(&self, baseline: &FileTimes) -> (times: Option<(u64, u64)>)
        ensures
            times is Some <==> differences_defined(*self, *baseline),
            times matches Some(pair) ==> pair.1 == total_since(*self, *baseline) && pair.0
                == total_since(*self, *baseline) - idle_since(*self, *baseline),
    {
        let kernel: u64 = self.kernel_time.ticks();
        let user: u64 = self.user_time.ticks();
        let idle: u64 = self.idle_time.ticks();
        let total_now: u64 = match kernel.checked_add(user) {
            Some(v) => v,
            None => return None,
        };
        let step1: u64 = match total_now.checked_sub(baseline.kernel_time.dwHighDateTime as u64) {
            Some(v) => v,
            None => return None,
        };
        let step2: u64 = match step1.checked_sub(baseline.kernel_time.dwLowDateTime as u64) {
            Some(v) => v,
            None => return None,
        };
        let step3: u64 = match step2.checked_add(baseline.user_time.dwHighDateTime as u64) {
            Some(v) => v,
            None => return None,
        };
        let total: u64 = match step3.checked_add(baseline.user_time.dwLowDateTime as u64) {
            Some(v) => v,
            None => return None,
        };
        let idle1: u64 = match idle.checked_sub(baseline.idle_time.dwHighDateTime as u64) {
            Some(v) => v,
            None => return None,
        };
        let idle_gone: u64 = match idle1.checked_sub(baseline.idle_time.dwLowDateTime as u64) {
            Some(v) => v,
            None => return None,
        };
        match total.checked_sub(idle_gone) {
            Some(busy) => Some((busy, total)),
            None => None,
        }
    }
}

} // verus!
