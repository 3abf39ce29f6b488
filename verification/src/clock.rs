use vstd::prelude::*;

use crate::errors::ErrorKind;
use crate::errors::ThreadingError;
use crate::errors::ThreadingResult;

verus! {

/// An absolute point on the monotonic clock, kept as whole seconds and a
/// fractional-second component in nanoseconds. A thread's periodic loop
/// owns one and advances it by a fixed increment per sleep, so the wake-up
/// points never accumulate drift from scheduling jitter.
#[derive(Clone, Copy, Debug, PartialEq, Eq, Structural)]
pub struct Clock {
    pub tv_sec: i64,
    pub tv_nsec: i64,
}

/// The greatest time point a Clock can hold, as one nanosecond count.
pub open spec fn max_total_ns() -> int {
    i64::MAX * 1_000_000_000 + 999_999_999
}

/// One advance of an absolute time point by d nanoseconds, clamped to the
/// greatest representable point.
pub open spec fn advanced_once(t: int, d: int) -> int {
    if t + d <= max_total_ns() {
        t + d
    } else {
        max_total_ns()
    }
}

/// The absolute time point after n successive advances by d nanoseconds.
pub open spec fn advanced(t: int, d: int, n: nat) -> int
    decreases n,
{
    if n == 0 {
        t
    } else {
        advanced_once(advanced(t, d, (n - 1) as nat), d)
    }
}

/// Drift-free cadence: as long as the target stays representable, the
/// wake-up point after n sleeps of d nanoseconds each is the starting
/// point plus exactly n * d — a function of the starting point and the
/// increment alone, with no term for how long any iteration's work or
/// sleep actually took.
pub proof fn lemma_drift_free_cadence(t: int, d: int, n: nat)
    requires
        0 <= d,
        t + n * d <= max_total_ns(),
    ensures
        advanced(t, d, n) == t + n * d,
    decreases n,
{
    if n == 0 {
        assert(n * d == 0) by (nonlinear_arith)
            requires
                n == 0,
        ;
    } else {
        let m: nat = (n - 1) as nat;
        assert(m * d == n * d - d) by (nonlinear_arith)
            requires
                n >= 1,
                m == n - 1,
        ;
        lemma_drift_free_cadence(t, d, m);
        assert(advanced(t, d, n) == advanced_once(advanced(t, d, m), d));
    }
}

impl Clock {
    /// Well-formed: the fractional-second component is normalized to
    /// [0, 1_000_000_000) nanoseconds.
    pub open spec fn wf(self) -> bool {
        0 <= self.tv_nsec < 1_000_000_000
    }

    /// The time point as one nanosecond count.
    pub open spec fn total_ns(self) -> int {
        self.tv_sec * 1_000_000_000 + self.tv_nsec
    }

    /// Reads the current monotonic time as the initial reference point.
    pub fn new() -> (r: ThreadingResult<Clock>)
        ensures
            r matches Ok(c) ==> c.wf(),
            r matches Err(e) ==> e.kind == ErrorKind::ClockReadFailed,
    {
        match monotonic_now() {
            Ok(now) => Ok(Clock { tv_sec: now.0, tv_nsec: now.1 }),
            Err(code) => Err(ThreadingError::new(ErrorKind::ClockReadFailed, code)),
        }
    }

    /// Advances the stored reference point by exactly `duration_ns`
    /// nanoseconds (clamped only at the end of representable time),
    /// re-normalizes the fractional-second component, then sleeps until
    /// that absolute point on the monotonic clock — returning at once if
    /// the point already lies in the past, so a loop that overran its
    /// budget free-runs to catch up on cadence. The reference point
    /// advances whether or not the OS sleep then succeeds.
    pub fn sleep(&mut self, duration_ns: u64) -> (r: ThreadingResult<()>)
        requires
            old(self).wf(),
        ensures
            final(self).wf(),
            final(self).total_ns() == advanced_once(old(self).total_ns(), duration_ns as int),
            r matches Err(e) ==> e.kind == ErrorKind::ClockSleepFailed && e.code != 0,
    {
        let extra_sec: i64 = (duration_ns / 1_000_000_000) as i64;
        let rem: i64 = (duration_ns % 1_000_000_000) as i64;
        let mut nsec: i64 = self.tv_nsec + rem;
        let mut carry: i64 = 0;
        if nsec >= 1_000_000_000 {
            nsec = nsec - 1_000_000_000;
            carry = 1;
        }
        if self.tv_sec <= i64::MAX - extra_sec - carry {
            self.tv_sec = self.tv_sec + extra_sec + carry;
            self.tv_nsec = nsec;
        } else {
            self.tv_sec = i64::MAX;
            self.tv_nsec = 999_999_999;
        }
        let code = sleep_until_monotonic(self.tv_sec, self.tv_nsec);
        if code == 0 {
            Ok(())
        } else {
            Err(ThreadingError::new(ErrorKind::ClockSleepFailed, code))
        }
    }
}

/// Relies on nix::time::clock_gettime with CLOCK_MONOTONIC: yields the
/// current monotonic time as a timespec the kernel keeps normalized
/// (tv_nsec within [0, 999_999_999]), or the OS error code.
#[verifier::external_body]
fn monotonic_now() -> (r: Result<(i64, i64), i32>)
    ensures
        r matches Ok(now) ==> 0 <= now.1 < 1_000_000_000,
{
    match nix::time::clock_gettime(nix::time::ClockId::CLOCK_MONOTONIC) {
        Ok(ts) => Ok((ts.tv_sec(), ts.tv_nsec())),
        Err(e) => Err(e as i32),
    }
}

/// Relies on nix::time::clock_nanosleep with CLOCK_MONOTONIC and
/// TIMER_ABSTIME: suspends the calling thread until the monotonic clock
/// reaches the given absolute point, returning at once if it already has;
/// yields 0 on success, else the OS error code.
#[verifier::external_body]
fn sleep_until_monotonic(sec: i64, nsec: i64) -> (r: i32)
    requires
        0 <= nsec < 1_000_000_000,
{
    let target = nix::sys::time::TimeSpec::new(sec, nsec);
    match nix::time::clock_nanosleep(
        nix::time::ClockId::CLOCK_MONOTONIC,
        nix::time::ClockNanosleepFlags::TIMER_ABSTIME,
        &target,
    ) {
        Ok(_) => 0,
        Err(e) => e as i32,
    }
}

} // verus!
