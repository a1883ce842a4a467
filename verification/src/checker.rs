use vstd::prelude::*;

verus! {

use crate::memtest::MemtestError;

/// Relies on `rustix::time::clock_gettime` with `ClockId::Monotonic`: it
/// returns the monotonic clock as a `Timespec`, whose nanoseconds part lies
/// in `0..1_000_000_000` (POSIX `clock_gettime`). Only the two fields are
/// handed on.
#[verifier::external_body]
fn monotonic_clock_parts() -> (r: (i64, i64))
    ensures
        0 <= r.1 < 1_000_000_000,
{
    let ts = rustix::time::clock_gettime(rustix::time::ClockId::Monotonic);
    (ts.tv_sec, ts.tv_nsec)
}

/// The monotonic clock in nanoseconds, clamped into `u64`.
pub fn monotonic_now_ns() -> u64 {
    let (sec, nsec) = monotonic_clock_parts();
    if sec < 0 {
        return 0;
    }
    let s = sec as u64;
    match s.checked_mul(1_000_000_000) {
        Option::None => u64::MAX,
        Option::Some(x) => match x.checked_add(nsec as u64) {
            Option::None => u64::MAX,
            Option::Some(y) => y,
        },
    }
}

/// A per-test deadline monitor. `check` is called once per inner iteration
/// of a test; it consults the clock only at scheduled checkpoints so that
/// the common path stays cheap.
///
/// Instants are nanoseconds of the monotonic clock.
#[derive(Clone, Copy, Debug)]
pub struct TimeoutChecker {
    deadline: u64,
    test_start_time: u64,
    expected_iter: u64,
    completed_iter: u64,
    checkpoint: u64,
    last_progress_pct: u64,
}

impl TimeoutChecker {
    pub closed spec fn spec_deadline(&self) -> u64 {
        self.deadline
    }

    pub closed spec fn expected(&self) -> u64 {
        self.expected_iter
    }

    pub closed spec fn completed(&self) -> u64 {
        self.completed_iter
    }

    pub closed spec fn spec_checkpoint(&self) -> u64 {
        self.checkpoint
    }

    /// The checkpoint is always ahead of the completed count, and at least 1,
    /// so that the clock arithmetic of the slow path never divides by zero.
    pub open spec fn wf(&self) -> bool {
        &&& 1 <= self.spec_checkpoint()
        &&& self.completed() <= self.spec_checkpoint()
    }

    pub fn new(deadline: u64) -> (r: TimeoutChecker)
        ensures
            r.wf(),
            r.spec_deadline() == deadline,
            r.completed() == 0,
            r.expected() == 0,
    {
        TimeoutChecker {
            deadline,
            test_start_time: monotonic_now_ns(),
            expected_iter: 0,
            completed_iter: 0,
            checkpoint: 1,
            last_progress_pct: 0,
        }
    }

    /// Record the test's start time, its total expected iterations, and the
    /// first checkpoint.
    ///
    /// The first checkpoint is 8 when `expected_iter` is large enough: the
    /// checker then has a sample of 8 iterations to estimate the duration of
    /// one iteration before it first schedules ahead.
    pub fn init(&mut self, expected_iter: u64)
        ensures
            final(self).wf(),
            final(self).spec_deadline() == old(self).spec_deadline(),
            final(self).expected() == expected_iter,
            final(self).completed() == 0,
            final(self).spec_checkpoint() == (if expected_iter > 8 {
                8u64
            } else {
                1u64
            }),
    {
        self.test_start_time = monotonic_now_ns();
        self.expected_iter = expected_iter;
        self.completed_iter = 0;
        self.last_progress_pct = 0;
        self.checkpoint = if expected_iter > 8 {
            8
        } else {
            1
        };
    }

    /// Count one iteration, and at a checkpoint consult the clock.
    ///
    /// The early return below the checkpoint is the hot path; it must stay
    /// free of clock reads.
    #[inline(always)]
    pub fn check(&mut self) -> (r: Result<(), MemtestError>)
        requires
            old(self).wf(),
            old(self).completed() < old(self).expected(),
        ensures
            final(self).wf(),
            final(self).spec_deadline() == old(self).spec_deadline(),
            final(self).expected() == old(self).expected(),
            old(self).completed() < old(self).spec_checkpoint() ==> r is Ok
                && final(self).spec_checkpoint() == old(self).spec_checkpoint(),
            r is Ok ==> final(self).completed() == old(self).completed() + 1,
            r is Err ==> r == Err::<(), MemtestError>(MemtestError::Timeout)
                && final(self).completed() == old(self).completed(),
    {
        if self.completed_iter < self.checkpoint {
            self.completed_iter = self.completed_iter + 1;
            return Ok(());
        }

        let pct = (((self.completed_iter as u128) * 100) / (self.expected_iter as u128)) as u64;
        if pct > self.last_progress_pct {
            self.last_progress_pct = pct;
        }

        self.check_time()
    }

    /// The slow path: read the clock and hand the instant to `check_at`.
    fn check_time(&mut self) -> (r: Result<(), MemtestError>)
        requires
            old(self).wf(),
            old(self).completed() == old(self).spec_checkpoint(),
            old(self).completed() < old(self).expected(),
        ensures
            final(self).wf(),
            final(self).spec_deadline() == old(self).spec_deadline(),
            final(self).expected() == old(self).expected(),
            r is Ok ==> final(self).completed() == old(self).completed() + 1,
            r is Err ==> r == Err::<(), MemtestError>(MemtestError::Timeout)
                && final(self).completed() == old(self).completed(),
    {
        let now = monotonic_now_ns();
        self.check_at(now)
    }

    /// Judge the instant `now` against the deadline: a timeout exactly when
    /// the deadline has passed, and otherwise the next checkpoint scheduled
    /// at 75% of the time left, estimated in iterations from the average
    /// duration of the iterations completed so far.
    pub fn check_at(&mut self, now: u64) -> (r: Result<(), MemtestError>)
        requires
            old(self).wf(),
            old(self).completed() == old(self).spec_checkpoint(),
            old(self).completed() < old(self).expected(),
        ensures
            final(self).wf(),
            final(self).spec_deadline() == old(self).spec_deadline(),
            final(self).expected() == old(self).expected(),
            r == Err::<(), MemtestError>(MemtestError::Timeout) <==> now >= old(
                self,
            ).spec_deadline(),
            r is Err ==> r == Err::<(), MemtestError>(MemtestError::Timeout),
            r is Ok ==> final(self).completed() == old(self).completed() + 1
                && final(self).spec_checkpoint() >= old(self).spec_checkpoint(),
            r is Err ==> final(self).completed() == old(self).completed(),
    {
        if now >= self.deadline {
            return Err(MemtestError::Timeout);
        }

        let remaining = self.deadline - now;
        let interval_until_next_check = remaining / 4 * 3;

        let elapsed = if now > self.test_start_time {
            now - self.test_start_time
        } else {
            0
        };
        let avg_iter_duration = elapsed / self.completed_iter;
        let avg = if avg_iter_duration == 0 {
            1
        } else {
            avg_iter_duration
        };

        let iters = interval_until_next_check / avg;
        let iter_until_next_checkpoint = if iters == 0 {
            1
        } else {
            iters
        };

        self.checkpoint = self.checkpoint.saturating_add(iter_until_next_checkpoint);
        self.completed_iter = self.completed_iter + 1;
        Ok(())
    }
}

} // verus!
