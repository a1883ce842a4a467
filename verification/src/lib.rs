pub mod checker;
pub mod display;
pub mod laws;
pub mod locking;
pub mod memory;
pub mod memtest;

pub use checker::TimeoutChecker;
pub use memory::Region;
pub use memory::WORD_BYTES;
pub use memtest::ErrorCause;
pub use memtest::MemtestError;
pub use memtest::MemtestFailure;
pub use memtest::MemtestKind;
pub use memtest::MemtestOutcome;

use vstd::prelude::*;

verus! {

/// The minimum memory length (in words) for Memtester to run tests on.
pub const MIN_MEMORY_LEN: usize = 512;

/// A configured run of the test suite: the ordered test list and the
/// options that govern locking, threading and early termination.
#[derive(Debug)]
pub struct Memtester {
    test_types: Vec<MemtestKind>,
    timeout: u64,
    mem_lock_mode: MemLockMode,
    allow_working_set_resize: bool,
    allow_multithread: bool,
    allow_early_termination: bool,
}

/// A set of arguments that define the behavior of Memtester.
#[derive(Clone, Copy, Debug)]
pub struct MemtesterArgs {
    /// How long the test suite may run before timing out, in nanoseconds of
    /// the monotonic clock.
    pub timeout: u64,
    /// Whether memory will be locked before testing and whether the
    /// requested memory size can be reduced to accommodate memory locking.
    /// If memory locking failed but is required, the run returns an error.
    pub mem_lock_mode: MemLockMode,
    /// Whether the process working set may be resized to accommodate memory
    /// locking. Only meaningful on operating systems with a working-set
    /// quota.
    pub allow_working_set_resize: bool,
    /// Whether multithreading is enabled.
    pub allow_multithread: bool,
    /// Whether the run stops at the first failed test or continues until
    /// all tests are run.
    pub allow_early_termination: bool,
}

/// Why a run returned no report list.
#[derive(Clone, Copy, Debug, PartialEq, Eq, Structural)]
pub enum MemtesterError {
    /// Locking was required and could not be achieved.
    MemLockFailed(ErrorCause),
    /// The run could not start or finish for another reason.
    Other(ErrorCause),
}

/// The outcome of one test of the suite.
#[derive(Clone, Copy, Debug)]
pub struct MemtestReport {
    pub test_type: MemtestKind,
    pub outcome: Result<MemtestOutcome, MemtestError>,
}

/// The outcome of a whole run: how many words were tested, whether they
/// were page-locked, and one report per test that ran.
#[derive(Debug)]
pub struct MemtestReportList {
    pub tested_men_len: usize,
    pub mlocked: bool,
    pub reports: Vec<MemtestReport>,
}

/// Whether and how the region is page-locked before testing.
#[derive(Clone, Copy, Debug, PartialEq, Eq, Structural)]
pub enum MemLockMode {
    /// Lock, shrinking the tested region when the quota is exceeded.
    Resizable,
    /// Lock the whole region or fail.
    FixedSize,
    /// Do not lock.
    Disabled,
}

/// The string did not name a lock mode.
#[derive(Debug, PartialEq, Eq, Structural)]
pub struct ParseMemLockModeError;

/// A snapshot of the process working-set bounds, taken before they are
/// enlarged for locking so that the embedding program can restore them when
/// the run is over. The working-set quota exists on one operating-system
/// family only; elsewhere the snapshot is never constructed.
#[derive(Clone, Copy, Debug)]
pub struct WorkingSetResizeGuard {
    pub min_set_size: usize,
    pub max_set_size: usize,
}

/// The working-set bounds requested before locking `memsize` bytes: twice
/// the region for the minimum and four times for the maximum, saturating.
pub fn working_set_request(memsize: usize) -> (r: (usize, usize))
    ensures
        r.0 == (if 2 * memsize > usize::MAX {
            usize::MAX as int
        } else {
            2 * memsize
        }),
        r.1 == (if 4 * memsize > usize::MAX {
            usize::MAX as int
        } else {
            4 * memsize
        }),
{
    let min = match memsize.checked_mul(2) {
        Option::None => usize::MAX,
        Option::Some(m) => m,
    };
    let max = match memsize.checked_mul(4) {
        Option::None => usize::MAX,
        Option::Some(m) => m,
    };
    (min, max)
}

/// The canonical order of the thirteen test kinds.
pub open spec fn all_test_kinds() -> Seq<MemtestKind> {
    seq![
        MemtestKind::OwnAddressBasic,
        MemtestKind::OwnAddressRepeat,
        MemtestKind::RandomVal,
        MemtestKind::Xor,
        MemtestKind::Sub,
        MemtestKind::Mul,
        MemtestKind::Div,
        MemtestKind::Or,
        MemtestKind::And,
        MemtestKind::SeqInc,
        MemtestKind::SolidBits,
        MemtestKind::Checkerboard,
        MemtestKind::BlockSeq,
    ]
}

/// The thirteen test kinds in their canonical order.
pub fn all_test_kinds_vec() -> (r: Vec<MemtestKind>)
    ensures
        r@ == all_test_kinds(),
{
    let mut v: Vec<MemtestKind> = Vec::new();
    v.push(MemtestKind::OwnAddressBasic);
    v.push(MemtestKind::OwnAddressRepeat);
    v.push(MemtestKind::RandomVal);
    v.push(MemtestKind::Xor);
    v.push(MemtestKind::Sub);
    v.push(MemtestKind::Mul);
    v.push(MemtestKind::Div);
    v.push(MemtestKind::Or);
    v.push(MemtestKind::And);
    v.push(MemtestKind::SeqInc);
    v.push(MemtestKind::SolidBits);
    v.push(MemtestKind::Checkerboard);
    v.push(MemtestKind::BlockSeq);
    proof {
        assert(v@ =~= all_test_kinds());
    }
    v
}

/// Relies on `rand::seq::SliceRandom::shuffle`: it permutes the slice in
/// place with the thread-local generator, so the result holds exactly the
/// kinds of the input, reordered.
#[verifier::external_body]
fn shuffled_kinds(kinds: Vec<MemtestKind>) -> (r: Vec<MemtestKind>)
    ensures
        r@.to_multiset() == kinds@.to_multiset(),
        r@.len() == kinds@.len(),
{
    let mut k = kinds;
    rand::seq::SliceRandom::shuffle(k.as_mut_slice(), &mut rand::thread_rng());
    k
}

/// Relies on `num_cpus::get`: the number of logical CPUs available to the
/// process; its documentation promises at least 1.
#[verifier::external_body]
fn cpu_count() -> (r: usize)
    ensures
        r >= 1,
{
    num_cpus::get()
}

fn bytes_eq(a: &[u8], b: &[u8]) -> (r: bool)
    ensures
        r == (a@ == b@),
{
    if a.len() != b.len() {
        proof {
            assert(a@.len() != b@.len());
        }
        return false;
    }
    let n = a.len();
    let mut i: usize = 0;
    while i < n
        invariant
            i <= n,
            a@.len() == n,
            b@.len() == n,
            forall|j: int| 0 <= j < i ==> a@[j] == b@[j],
        decreases n - i,
    {
        if a[i] != b[i] {
            return false;
        }
        i = i + 1;
    }
    proof {
        assert(a@ =~= b@);
    }
    true
}

impl std::str::FromStr for MemLockMode {
    type Err = ParseMemLockModeError;

    fn from_str(s: &str) -> Result<Self, Self::Err> {
        if bytes_eq(s.as_bytes(), "resizable".as_bytes()) {
            Ok(MemLockMode::Resizable)
        } else if bytes_eq(s.as_bytes(), "fixedsize".as_bytes()) {
            Ok(MemLockMode::FixedSize)
        } else if bytes_eq(s.as_bytes(), "disabled".as_bytes()) {
            Ok(MemLockMode::Disabled)
        } else {
            Err(ParseMemLockModeError)
        }
    }
}

impl Memtester {
    /// The configured test list, in order.
    pub closed spec fn kinds(&self) -> Seq<MemtestKind> {
        self.test_types@
    }

    /// The configured timeout in nanoseconds.
    pub closed spec fn spec_timeout(&self) -> u64 {
        self.timeout
    }

    pub closed spec fn lock_mode(&self) -> MemLockMode {
        self.mem_lock_mode
    }

    pub closed spec fn multithread(&self) -> bool {
        self.allow_multithread
    }

    pub closed spec fn early_termination(&self) -> bool {
        self.allow_early_termination
    }

    /// Create a Memtester containing all test types in random order.
    pub fn all_tests_random_order(args: &MemtesterArgs) -> (r: Memtester)
        ensures
            r.kinds().to_multiset() == all_test_kinds().to_multiset(),
            r.kinds().len() == all_test_kinds().len(),
            r.spec_timeout() == args.timeout,
            r.lock_mode() == args.mem_lock_mode,
            r.multithread() == args.allow_multithread,
            r.early_termination() == args.allow_early_termination,
    {
        let test_types = shuffled_kinds(all_test_kinds_vec());
        Self::from_test_types(args, test_types)
    }

    /// Create a Memtester with the specified test types.
    pub fn from_test_types(args: &MemtesterArgs, test_types: Vec<MemtestKind>) -> (r: Memtester)
        ensures
            r.kinds() == test_types@,
            r.spec_timeout() == args.timeout,
            r.lock_mode() == args.mem_lock_mode,
            r.multithread() == args.allow_multithread,
            r.early_termination() == args.allow_early_termination,
    {
        Memtester {
            test_types,
            timeout: args.timeout,
            mem_lock_mode: args.mem_lock_mode,
            allow_working_set_resize: args.allow_working_set_resize,
            allow_multithread: args.allow_multithread,
            allow_early_termination: args.allow_early_termination,
        }
    }
}

impl MemtestReportList {
    /// The reports, for the embedding program to walk.
    pub fn iter(&self) -> (r: &Vec<MemtestReport>)
        ensures
            r@ == self.reports@,
    {
        &self.reports
    }

    /// Returns true if all tests were run successfully and all tests passed.
    pub fn all_pass(&self) -> (r: bool)
        ensures
            r == (forall|i: int|
                0 <= i < self.reports@.len() ==> (#[trigger] self.reports@[i]).outcome == Ok::<
                    MemtestOutcome,
                    MemtestError,
                >(MemtestOutcome::Pass)),
    {
        let n = self.reports.len();
        let mut i: usize = 0;
        while i < n
            invariant
                i <= n,
                self.reports@.len() == n,
                forall|j: int|
                    0 <= j < i ==> (#[trigger] self.reports@[j]).outcome == Ok::<
                        MemtestOutcome,
                        MemtestError,
                    >(MemtestOutcome::Pass),
            decreases n - i,
        {
            match self.reports[i].outcome {
                Ok(MemtestOutcome::Pass) => {},
                _ => {
                    return false;
                },
            }
            i = i + 1;
        }
        true
    }
}

/// The outcome records a detected memory fault.
pub open spec fn outcome_is_fail(o: Result<MemtestOutcome, MemtestError>) -> bool {
    o matches Ok(MemtestOutcome::Fail(_))
}

/// The outcome is an error other than a timeout.
pub open spec fn outcome_is_other(o: Result<MemtestOutcome, MemtestError>) -> bool {
    o matches Err(MemtestError::Other(_))
}

/// Combine per-worker outcomes by priority: a non-timeout error subsumes a
/// timeout, which subsumes any failure, which subsumes a pass. The first
/// outcome of the winning class is returned; failures are not aggregated.
pub fn reduce_outcomes(results: &Vec<Result<MemtestOutcome, MemtestError>>) -> (r: Result<
    MemtestOutcome,
    MemtestError,
>)
    ensures
        (exists|i: int| 0 <= i < results@.len() && outcome_is_other(#[trigger] results@[i]))
            ==> exists|i: int|
            0 <= i < results@.len() && outcome_is_other(#[trigger] results@[i]) && r
                == results@[i] && (forall|j: int|
                0 <= j < i ==> !outcome_is_other(#[trigger] results@[j])),
        (!(exists|i: int| 0 <= i < results@.len() && outcome_is_other(#[trigger] results@[i])) && (
        exists|i: int|
            0 <= i < results@.len() && #[trigger] results@[i] == Err::<
                MemtestOutcome,
                MemtestError,
            >(MemtestError::Timeout))) ==> r == Err::<MemtestOutcome, MemtestError>(
            MemtestError::Timeout,
        ),
        (!(exists|i: int| 0 <= i < results@.len() && outcome_is_other(#[trigger] results@[i]))
            && !(exists|i: int|
            0 <= i < results@.len() && #[trigger] results@[i] == Err::<
                MemtestOutcome,
                MemtestError,
            >(MemtestError::Timeout)) && (exists|i: int|
            0 <= i < results@.len() && outcome_is_fail(#[trigger] results@[i]))) ==> exists|i: int|
            0 <= i < results@.len() && outcome_is_fail(#[trigger] results@[i]) && r
                == results@[i] && (forall|j: int|
                0 <= j < i ==> !outcome_is_fail(#[trigger] results@[j])),
        (forall|i: int|
            0 <= i < results@.len() ==> #[trigger] results@[i] == Ok::<
                MemtestOutcome,
                MemtestError,
            >(MemtestOutcome::Pass)) ==> r == Ok::<MemtestOutcome, MemtestError>(
            MemtestOutcome::Pass,
        ),
        outcome_is_fail(r) ==> exists|i: int|
            0 <= i < results@.len() && outcome_is_fail(#[trigger] results@[i]),
{
    let n = results.len();
    let mut i: usize = 0;
    while i < n
        invariant
            i <= n,
            results@.len() == n,
            forall|j: int| 0 <= j < i ==> !outcome_is_other(#[trigger] results@[j]),
        decreases n - i,
    {
        match results[i] {
            Err(MemtestError::Other(c)) => {
                return Err(MemtestError::Other(c));
            },
            _ => {},
        }
        i = i + 1;
    }

    let mut i: usize = 0;
    while i < n
        invariant
            i <= n,
            results@.len() == n,
            forall|j: int| 0 <= j < n ==> !outcome_is_other(#[trigger] results@[j]),
            forall|j: int|
                0 <= j < i ==> #[trigger] results@[j] != Err::<MemtestOutcome, MemtestError>(
                    MemtestError::Timeout,
                ),
        decreases n - i,
    {
        match results[i] {
            Err(MemtestError::Timeout) => {
                return Err(MemtestError::Timeout);
            },
            _ => {},
        }
        i = i + 1;
    }

    let mut i: usize = 0;
    while i < n
        invariant
            i <= n,
            results@.len() == n,
            forall|j: int| 0 <= j < n ==> !outcome_is_other(#[trigger] results@[j]),
            forall|j: int|
                0 <= j < n ==> #[trigger] results@[j] != Err::<MemtestOutcome, MemtestError>(
                    MemtestError::Timeout,
                ),
            forall|j: int| 0 <= j < i ==> !outcome_is_fail(#[trigger] results@[j]),
        decreases n - i,
    {
        match results[i] {
            Ok(MemtestOutcome::Fail(f)) => {
                proof {
                    assert(outcome_is_fail(results@[i as int]));
                }
                return Ok(MemtestOutcome::Fail(f));
            },
            _ => {},
        }
        i = i + 1;
    }

    proof {
        assert forall|i: int|
            0 <= i < results@.len() implies #[trigger] results@[i] == Ok::<
            MemtestOutcome,
            MemtestError,
        >(MemtestOutcome::Pass) by {
            match results@[i] {
                Ok(MemtestOutcome::Pass) => {},
                Ok(MemtestOutcome::Fail(_)) => {
                    assert(outcome_is_fail(results@[i]));
                },
                Err(MemtestError::Timeout) => {},
                Err(MemtestError::Other(_)) => {
                    assert(outcome_is_other(results@[i]));
                },
            }
        }
    }
    Ok(MemtestOutcome::Pass)
}

/// The worker count and chunk size used to partition `len` words over at
/// most `cpus` workers: one worker per word when words are scarcer than
/// CPUs, and the region split in equal chunks (the tail remainder is left
/// to no worker).
pub fn plan_partition(cpus: usize, len: usize) -> (r: (usize, usize))
    requires
        cpus >= 1,
        len >= 1,
    ensures
        r.0 == (if cpus < len {
            cpus as int
        } else {
            len as int
        }),
        1 <= r.0 <= len,
        r.1 == len as int / r.0 as int,
        r.1 >= 1,
        r.0 * r.1 <= len,
{
    let threads = if cpus < len {
        cpus
    } else {
        len
    };
    let chunk = len / threads;
    proof {
        vstd::arithmetic::div_mod::lemma_fundamental_div_mod(len as int, threads as int);
        vstd::arithmetic::div_mod::lemma_mod_bound(len as int, threads as int);
        assert(chunk >= 1) by (nonlinear_arith)
            requires
                chunk == len as int / threads as int,
                1 <= threads <= len,
        ;
    }
    (threads, chunk)
}

/// Every test's expected-iteration count is at most 512 per word of the
/// window, so a budget of `512 * n` iterations within `u64` rules out the
/// iteration-count overflow of every kind.
proof fn lemma_iteration_budget(n: usize)
    ensures
        (n as int) * 2 > u64::MAX ==> (n as int) * 512 > u64::MAX,
        (n as int) * 32 > u64::MAX ==> (n as int) * 512 > u64::MAX,
        64 * 2 * ((n / 2) as int) > u64::MAX ==> (n as int) * 512 > u64::MAX,
        256 * 2 * ((n / 2) as int) > u64::MAX ==> (n as int) * 512 > u64::MAX,
{
    assert(n / 2 <= n) by (nonlinear_arith);
    assert((n as int) * 2 > u64::MAX ==> (n as int) * 512 > u64::MAX) by (nonlinear_arith)
        requires
            n >= 0,
    ;
    assert((n as int) * 32 > u64::MAX ==> (n as int) * 512 > u64::MAX) by (nonlinear_arith)
        requires
            n >= 0,
    ;
    assert(64 * 2 * ((n / 2) as int) > u64::MAX ==> (n as int) * 512 > u64::MAX)
        by (nonlinear_arith)
        requires
            0 <= (n / 2) as int <= n as int,
    ;
    assert(256 * 2 * ((n / 2) as int) > u64::MAX ==> (n as int) * 512 > u64::MAX)
        by (nonlinear_arith)
        requires
            0 <= (n / 2) as int <= n as int,
    ;
}

/// Run one test kind over `[lo, lo + n)` of the region, counting its
/// iterations against `checker`.
#[verifier::rlimit(100)]
#[verifier::spinoff_prover]
pub fn run_test_in(
    kind: MemtestKind,
    region: &mut Region,
    lo: usize,
    n: usize,
    checker: &mut TimeoutChecker,
) -> (r: Result<MemtestOutcome, MemtestError>)
    requires
        old(region).wf(),
        lo + n <= old(region).spec_len(),
        old(checker).wf(),
    ensures
        final(region).wf(),
        final(region).spec_len() == old(region).spec_len(),
        final(region).faults() == old(region).faults(),
        final(region).base_addr() == old(region).base_addr(),
        final(checker).wf(),
        old(region).sound_in(lo as int, n as int) ==> !(r matches Ok(MemtestOutcome::Fail(_))),
        r matches Err(MemtestError::Other(c)) ==> ((c
            == ErrorCause::InsufficientMemoryLengthTwoRegions && n < 2) || (c
            == ErrorCause::IterationCountOverflow && (n as int) * 512 > u64::MAX)),
        (n >= 2 && (n as int) * 512 <= u64::MAX && r is Err) ==> r == Err::<
            MemtestOutcome,
            MemtestError,
        >(MemtestError::Timeout),
{
    proof {
        lemma_iteration_budget(n);
    }
    match kind {
        MemtestKind::OwnAddressBasic => crate::memtest::own_address_basic_run(
            region,
            lo,
            n,
            checker,
        ),
        MemtestKind::OwnAddressRepeat => crate::memtest::own_address_repeat_run(
            region,
            lo,
            n,
            checker,
        ),
        MemtestKind::RandomVal => crate::memtest::random_val_run(region, lo, n, checker),
        MemtestKind::Xor => crate::memtest::test_two_regions(
            region,
            lo,
            n,
            crate::memtest::TwoRegionOp::Xor,
            checker,
        ),
        MemtestKind::Sub => crate::memtest::test_two_regions(
            region,
            lo,
            n,
            crate::memtest::TwoRegionOp::Sub,
            checker,
        ),
        MemtestKind::Mul => crate::memtest::test_two_regions(
            region,
            lo,
            n,
            crate::memtest::TwoRegionOp::Mul,
            checker,
        ),
        MemtestKind::Div => crate::memtest::test_two_regions(
            region,
            lo,
            n,
            crate::memtest::TwoRegionOp::Div,
            checker,
        ),
        MemtestKind::Or => crate::memtest::test_two_regions(
            region,
            lo,
            n,
            crate::memtest::TwoRegionOp::Or,
            checker,
        ),
        MemtestKind::And => crate::memtest::test_two_regions(
            region,
            lo,
            n,
            crate::memtest::TwoRegionOp::And,
            checker,
        ),
        MemtestKind::SeqInc => crate::memtest::seq_inc_run(region, lo, n, checker),
        MemtestKind::SolidBits => crate::memtest::solid_bits_run(region, lo, n, checker),
        MemtestKind::Checkerboard => crate::memtest::checkerboard_run(region, lo, n, checker),
        MemtestKind::BlockSeq => crate::memtest::block_seq_run(region, lo, n, checker),
    }
}

impl Memtester {
    /// Run one test kind over the first `n` words: either once over the
    /// whole window, or partitioned over one worker per chunk with the
    /// per-worker outcomes reduced by priority.
    fn dispatch_one(&self, region: &mut Region, kind: MemtestKind, n: usize, deadline: u64) -> (r:
        Result<MemtestOutcome, MemtestError>)
        requires
            old(region).wf(),
            1 <= n <= old(region).spec_len(),
        ensures
            final(region).wf(),
            final(region).spec_len() == old(region).spec_len(),
            final(region).faults() == old(region).faults(),
            final(region).base_addr() == old(region).base_addr(),
            old(region).sound_in(0, n as int) ==> !outcome_is_fail(r),
            (!self.multithread() && n >= 2 && (n as int) * 512 <= u64::MAX) ==> !outcome_is_other(
                r,
            ),
    {
        if self.allow_multithread {
            let cpus = cpu_count();
            let (threads, chunk) = plan_partition(cpus, n);
            let mut results: Vec<Result<MemtestOutcome, MemtestError>> = Vec::new();
            let mut t: usize = 0;
            while t < threads
                invariant
                    t <= threads,
                    results@.len() == t,
                    1 <= threads <= n,
                    chunk == n as int / threads as int,
                    chunk >= 1,
                    threads * chunk <= n,
                    n <= region.spec_len(),
                    region.wf(),
                    region.spec_len() == old(region).spec_len(),
                    region.faults() == old(region).faults(),
                    region.base_addr() == old(region).base_addr(),
                    old(region).sound_in(0, n as int) ==> forall|j: int|
                        0 <= j < t ==> !outcome_is_fail(#[trigger] results@[j]),
                decreases threads - t,
            {
                proof {
                    assert(t * chunk + chunk <= threads * chunk) by (nonlinear_arith)
                        requires
                            0 <= t,
                            t + 1 <= threads,
                            chunk >= 0,
                    ;
                }
                let lo = t * chunk;
                let mut worker_checker = TimeoutChecker::new(deadline);
                proof {
                    if old(region).sound_in(0, n as int) {
                        assert(region.sound_in(lo as int, chunk as int));
                    }
                }
                let r1 = run_test_in(kind, region, lo, chunk, &mut worker_checker);
                results.push(r1);
                t = t + 1;
            }
            let red = reduce_outcomes(&results);
            proof {
                if old(region).sound_in(0, n as int) && outcome_is_fail(red) {
                    let i = choose|i: int|
                        0 <= i < results@.len() && outcome_is_fail(#[trigger] results@[i]);
                    assert(false);
                }
            }
            red
        } else {
            let mut checker = TimeoutChecker::new(deadline);
            proof {
                if old(region).sound_in(0, n as int) {
                    assert(region.sound_in(0, n as int));
                }
            }
            run_test_in(kind, region, 0, n, &mut checker)
        }
    }

    /// Run the configured tests in order over the first `n` words, one
    /// report per test, stopping after the first failure when early
    /// termination is allowed.
    fn run_tests(&self, region: &mut Region, n: usize, deadline: u64) -> (reports: Vec<
        MemtestReport,
    >)
        requires
            old(region).wf(),
            1 <= n <= old(region).spec_len(),
        ensures
            final(region).wf(),
            final(region).spec_len() == old(region).spec_len(),
            final(region).faults() == old(region).faults(),
            final(region).base_addr() == old(region).base_addr(),
            reports@.len() <= self.kinds().len(),
            forall|k: int|
                0 <= k < reports@.len() ==> (#[trigger] reports@[k]).test_type == self.kinds()[k],
            !self.early_termination() ==> reports@.len() == self.kinds().len(),
            self.early_termination() ==> (forall|k: int|
                0 <= k < reports@.len() - 1 ==> !outcome_is_fail(
                    (#[trigger] reports@[k]).outcome,
                )),
            (self.early_termination() && reports@.len() < self.kinds().len()) ==> (reports@.len()
                >= 1 && outcome_is_fail(reports@[reports@.len() - 1].outcome)),
            old(region).sound_in(0, n as int) ==> (forall|k: int|
                0 <= k < reports@.len() ==> !outcome_is_fail((#[trigger] reports@[k]).outcome)),
            (!self.multithread() && n >= 2 && (n as int) * 512 <= u64::MAX) ==> (forall|k: int|
                0 <= k < reports@.len() ==> !outcome_is_other((#[trigger] reports@[k]).outcome)),
    {
        let mut reports: Vec<MemtestReport> = Vec::new();
        let kn = self.test_types.len();
        let mut idx: usize = 0;
        while idx < kn
            invariant_except_break
                idx <= kn,
                reports@.len() == idx,
                self.early_termination() ==> (forall|k: int|
                    0 <= k < idx ==> !outcome_is_fail((#[trigger] reports@[k]).outcome)),
            invariant
                kn == self.kinds().len(),
                1 <= n <= region.spec_len(),
                region.wf(),
                region.spec_len() == old(region).spec_len(),
                region.faults() == old(region).faults(),
                region.base_addr() == old(region).base_addr(),
                reports@.len() <= kn,
                forall|k: int|
                    0 <= k < reports@.len() ==> (#[trigger] reports@[k]).test_type
                        == self.kinds()[k],
                old(region).sound_in(0, n as int) ==> (forall|k: int|
                    0 <= k < reports@.len() ==> !outcome_is_fail(
                        (#[trigger] reports@[k]).outcome,
                    )),
                (!self.multithread() && n >= 2 && (n as int) * 512 <= u64::MAX) ==> (forall|k: int|
                    0 <= k < reports@.len() ==> !outcome_is_other(
                        (#[trigger] reports@[k]).outcome,
                    )),
            ensures
                reports@.len() <= kn,
                forall|k: int|
                    0 <= k < reports@.len() ==> (#[trigger] reports@[k]).test_type
                        == self.kinds()[k],
                !self.early_termination() ==> reports@.len() == kn,
                self.early_termination() ==> (forall|k: int|
                    0 <= k < reports@.len() - 1 ==> !outcome_is_fail(
                        (#[trigger] reports@[k]).outcome,
                    )),
                (self.early_termination() && reports@.len() < kn) ==> (reports@.len() >= 1
                    && outcome_is_fail(reports@[reports@.len() - 1].outcome)),
                region.wf(),
                region.spec_len() == old(region).spec_len(),
                region.faults() == old(region).faults(),
                region.base_addr() == old(region).base_addr(),
                old(region).sound_in(0, n as int) ==> (forall|k: int|
                    0 <= k < reports@.len() ==> !outcome_is_fail(
                        (#[trigger] reports@[k]).outcome,
                    )),
                (!self.multithread() && n >= 2 && (n as int) * 512 <= u64::MAX) ==> (forall|k: int|
                    0 <= k < reports@.len() ==> !outcome_is_other(
                        (#[trigger] reports@[k]).outcome,
                    )),
            decreases kn - idx,
        {
            let kind = self.test_types[idx];
            proof {
                if old(region).sound_in(0, n as int) {
                    assert(region.sound_in(0, n as int));
                }
            }
            let outcome = self.dispatch_one(region, kind, n, deadline);
            let failed = matches!(outcome, Ok(MemtestOutcome::Fail(_)));
            reports.push(MemtestReport { test_type: kind, outcome });
            idx = idx + 1;
            if failed && self.allow_early_termination {
                break ;
            }
        }
        reports
    }

    /// Run the tests, possibly after locking the memory.
    ///
    /// The region must hold at least `MIN_MEMORY_LEN` words. Unless locking
    /// is disabled, the region is page-locked first, shrinking the tested
    /// prefix in `Resizable` mode when the lock quota is hit; the lock is
    /// released on every path out. Each test gets a fresh timeout checker
    /// aimed at one shared deadline of now plus the configured timeout.
    pub fn run(&self, region: &mut Region) -> (r: Result<MemtestReportList, MemtesterError>)
        requires
            old(region).wf(),
        ensures
            final(region).wf(),
            final(region).spec_len() == old(region).spec_len(),
            final(region).faults() == old(region).faults(),
            final(region).base_addr() == old(region).base_addr(),
            old(region).spec_len() < MIN_MEMORY_LEN <==> r == Err::<
                MemtestReportList,
                MemtesterError,
            >(MemtesterError::Other(ErrorCause::InsufficientMemoryLength)),
            old(region).spec_len() < MIN_MEMORY_LEN ==> final(region).vals() == old(
                region,
            ).vals(),
            r matches Err(MemtesterError::MemLockFailed(c)) ==> (self.lock_mode()
                != MemLockMode::Disabled && (c == ErrorCause::LockQuotaExceeded || c
                == ErrorCause::LockOsFailure || c == ErrorCause::LockDecrementedToZero) && (c
                == ErrorCause::LockQuotaExceeded ==> self.lock_mode() == MemLockMode::FixedSize)),
            (self.lock_mode() == MemLockMode::Disabled && old(region).spec_len()
                >= MIN_MEMORY_LEN) ==> r is Ok,
            r matches Ok(rl) ==> rl.mlocked == (self.lock_mode() != MemLockMode::Disabled),
            r matches Ok(rl) ==> 1 <= rl.tested_men_len <= old(region).spec_len(),
            r matches Ok(rl) ==> (self.lock_mode() == MemLockMode::Disabled ==> rl.tested_men_len
                == old(region).spec_len()),
            r matches Ok(rl) ==> (self.lock_mode() == MemLockMode::FixedSize ==> rl.tested_men_len
                == old(region).spec_len()),
            r matches Ok(rl) ==> (rl.reports@.len() <= self.kinds().len() && (forall|k: int|
                0 <= k < rl.reports@.len() ==> (#[trigger] rl.reports@[k]).test_type
                    == self.kinds()[k])),
            r matches Ok(rl) ==> (!self.early_termination() ==> rl.reports@.len()
                == self.kinds().len()),
            r matches Ok(rl) ==> (self.early_termination() ==> (forall|k: int|
                0 <= k < rl.reports@.len() - 1 ==> !outcome_is_fail(
                    (#[trigger] rl.reports@[k]).outcome,
                ))),
            r matches Ok(rl) ==> ((self.early_termination() && rl.reports@.len()
                < self.kinds().len()) ==> (rl.reports@.len() >= 1 && outcome_is_fail(
                rl.reports@[rl.reports@.len() - 1].outcome,
            ))),
            r matches Ok(rl) ==> (old(region).sound_in(0, old(region).spec_len() as int) ==> (
            forall|k: int|
                0 <= k < rl.reports@.len() ==> !outcome_is_fail(
                    (#[trigger] rl.reports@[k]).outcome,
                ))),
            r matches Ok(rl) ==> ((!self.multithread() && rl.tested_men_len >= 2 && (
            rl.tested_men_len as int) * 512 <= u64::MAX) ==> (forall|k: int|
                0 <= k < rl.reports@.len() ==> !outcome_is_other(
                    (#[trigger] rl.reports@[k]).outcome,
                ))),
    {
        let len = region.len();
        if len < MIN_MEMORY_LEN {
            return Err(MemtesterError::Other(ErrorCause::InsufficientMemoryLength));
        }

        let deadline = crate::checker::monotonic_now_ns().saturating_add(self.timeout);

        match self.mem_lock_mode {
            MemLockMode::Disabled => {
                let reports = self.run_tests(region, len, deadline);
                Ok(MemtestReportList { tested_men_len: len, mlocked: false, reports })
            },
            _ => {
                let resizable = matches!(self.mem_lock_mode, MemLockMode::Resizable);
                match crate::locking::memory_resize_and_lock(region, resizable) {
                    Err(le) => Err(MemtesterError::MemLockFailed(le.cause())),
                    Ok((locked_len, _lock_guard)) => {
                        proof {
                            if old(region).sound_in(0, old(region).spec_len() as int) {
                                assert(region.sound_in(0, locked_len as int));
                            }
                        }
                        // tests run while `_lock_guard` holds the page lock;
                        // dropping it at the end of this arm releases the lock
                        let reports = self.run_tests(region, locked_len, deadline);
                        Ok(MemtestReportList { tested_men_len: locked_len, mlocked: true, reports })
                    },
                }
            },
        }
    }
}

} // verus!
