use vstd::prelude::*;

verus! {

use crate::checker::TimeoutChecker;
use crate::memory::Region;
use crate::memory::stored;

/// The thirteen memory test patterns.
#[derive(Clone, Copy, Debug, PartialEq, Eq, Structural)]
pub enum MemtestKind {
    OwnAddressBasic,
    OwnAddressRepeat,
    RandomVal,
    Xor,
    Sub,
    Mul,
    Div,
    Or,
    And,
    SeqInc,
    SolidBits,
    Checkerboard,
    BlockSeq,
}

/// Why a test or a run could not proceed.
#[derive(Clone, Copy, Debug, PartialEq, Eq, Structural)]
pub enum ErrorCause {
    /// The region has fewer than `MIN_MEMORY_LEN` words.
    InsufficientMemoryLength,
    /// A two-region test needs at least two words.
    InsufficientMemoryLengthTwoRegions,
    /// The expected-iteration count does not fit in 64 bits.
    IterationCountOverflow,
    /// A worker thread panicked.
    ThreadPanicked,
    /// The lock quota was exceeded and the mode forbids shrinking.
    LockQuotaExceeded,
    /// Page-locking failed for a reason other than the lock quota.
    LockOsFailure,
    /// Shrinking the region for locking reached zero words.
    LockDecrementedToZero,
}

/// A detected memory fault.
#[derive(Clone, Copy, Debug, PartialEq, Eq, Structural)]
pub enum MemtestFailure {
    /// The value read back differs from the expected value.
    UnexpectedValue { address: usize, expected: usize, actual: usize },
    /// Two cells that were written in a pair hold different values.
    /// Used by tests where memory is split in two halves and values are
    /// written in pairs.
    MismatchedValues { address1: usize, value1: usize, address2: usize, value2: usize },
}

/// The verdict of one test that ran to completion.
#[derive(Clone, Copy, Debug, PartialEq, Eq, Structural)]
pub enum MemtestOutcome {
    Pass,
    Fail(MemtestFailure),
}

/// Why one test did not run to completion.
#[derive(Clone, Copy, Debug, PartialEq, Eq, Structural)]
pub enum MemtestError {
    Timeout,
    Other(ErrorCause),
}

/// Relies on `rand::random`: one draw from the thread-local generator.
/// Nothing is promised of the value.
pub assume_specification<T>[ rand::random::<T> ]() -> (r: T)
    where
        rand::distributions::Standard: rand::distributions::Distribution<T>,
;

/// Draw `n` words from the thread-local random generator.
fn draw_words(n: usize) -> (r: Vec<usize>)
    ensures
        r@.len() == n,
{
    let mut v: Vec<usize> = Vec::new();
    let mut i: usize = 0;
    while i < n
        invariant
            i <= n,
            v@.len() == i,
        decreases n - i,
    {
        v.push(rand::random::<usize>());
        i = i + 1;
    }
    v
}

/// The two windows `[lo1, lo1 + n)` and `[lo2, lo2 + n)` hold the same words.
pub open spec fn halves_equal(vals: Seq<usize>, lo1: int, lo2: int, n: int) -> bool {
    forall|i: int| 0 <= i < n ==> #[trigger] vals[lo1 + i] == vals[lo2 + i]
}

/// A region must have at least two words for a two-region test.
pub fn ensure_two_regions_mem_len(len: usize) -> (r: Result<(), MemtestError>)
    ensures
        r is Ok <==> len >= 2,
        r is Err ==> r == Err::<(), MemtestError>(
            MemtestError::Other(ErrorCause::InsufficientMemoryLengthTwoRegions),
        ),
{
    if len >= 2 {
        Ok(())
    } else {
        Err(MemtestError::Other(ErrorCause::InsufficientMemoryLengthTwoRegions))
    }
}

/// Contents after writing `v` to every cell of `[lo, lo + n)`.
pub open spec fn filled(
    pre: Seq<usize>,
    faults: Seq<Option<usize>>,
    lo: int,
    n: int,
    v: usize,
) -> Seq<usize> {
    Seq::new(pre.len(), |k: int| if lo <= k < lo + n {
        stored(faults[k], v)
    } else {
        pre[k]
    })
}

/// Reset every word of `[lo, lo + n)` to all-ones.
pub fn mem_reset(region: &mut Region, lo: usize, n: usize)
    requires
        old(region).wf(),
        lo + n <= old(region).spec_len(),
    ensures
        final(region).wf(),
        final(region).spec_len() == old(region).spec_len(),
        final(region).faults() == old(region).faults(),
        final(region).base_addr() == old(region).base_addr(),
        final(region).vals() == filled(
            old(region).vals(),
            old(region).faults(),
            lo as int,
            n as int,
            !0usize,
        ),
{
    let ghost pre = region.vals();
    let ghost faults = region.faults();
    let reset_val: usize = !0;
    let mut i: usize = 0;
    while i < n
        invariant
            i <= n,
            lo + n <= region.spec_len(),
            region.wf(),
            region.spec_len() == pre.len(),
            region.faults() == faults,
            region.base_addr() == old(region).base_addr(),
            forall|k: int|
                0 <= k < pre.len() ==> #[trigger] region.vals()[k] == (if lo <= k < lo + i {
                    stored(faults[k], !0usize)
                } else {
                    pre[k]
                }),
            reset_val == !0usize,
        decreases n - i,
    {
        region.write(lo + i, reset_val);
        i = i + 1;
    }
    proof {
        assert(region.vals() =~= filled(pre, faults, lo as int, n as int, !0usize));
    }
}

/// The update a two-region read-modify-write test applies to a cell holding
/// `c`, given the drawn word `v`. Arithmetic wraps; a zero divisor is
/// clamped to 1.
pub open spec fn apply_op(op: TwoRegionOp, c: usize, v: usize) -> usize {
    match op {
        TwoRegionOp::Xor => c ^ v,
        TwoRegionOp::Sub => c.wrapping_sub(v),
        TwoRegionOp::Mul => c.wrapping_mul(v),
        TwoRegionOp::Div => if v == 0 {
            c
        } else {
            c / v
        },
        TwoRegionOp::Or => c | v,
        TwoRegionOp::And => c & v,
    }
}

/// The six read-modify-write updates of the arithmetic and bitwise
/// two-region tests.
#[derive(Clone, Copy, Debug, PartialEq, Eq, Structural)]
pub enum TwoRegionOp {
    Xor,
    Sub,
    Mul,
    Div,
    Or,
    And,
}

fn apply_op_exec(op: TwoRegionOp, c: usize, v: usize) -> (r: usize)
    ensures
        r == apply_op(op, c, v),
{
    match op {
        TwoRegionOp::Xor => c ^ v,
        TwoRegionOp::Sub => c.wrapping_sub(v),
        TwoRegionOp::Mul => c.wrapping_mul(v),
        TwoRegionOp::Div => {
            let d = if v == 0 {
                1
            } else {
                v
            };
            c / d
        },
        TwoRegionOp::Or => c | v,
        TwoRegionOp::And => c & v,
    }
}

/// Contents after writing `vs[i]` to the pair `(lo + i, lo + half + i)` for
/// every `i < half`.
pub open spec fn pair_written(
    pre: Seq<usize>,
    faults: Seq<Option<usize>>,
    lo: int,
    half: int,
    vs: Seq<usize>,
) -> Seq<usize> {
    Seq::new(pre.len(), |k: int| if lo <= k < lo + half {
        stored(faults[k], vs[k - lo])
    } else if lo + half <= k < lo + 2 * half {
        stored(faults[k], vs[k - lo - half])
    } else {
        pre[k]
    })
}

/// Contents after the read-modify-write pass that applies `op` with `vs[i]`
/// to both cells of the pair `(lo + i, lo + half + i)` for every `i < half`.
pub open spec fn op_written(
    pre: Seq<usize>,
    faults: Seq<Option<usize>>,
    lo: int,
    half: int,
    vs: Seq<usize>,
    op: TwoRegionOp,
) -> Seq<usize> {
    Seq::new(pre.len(), |k: int| if lo <= k < lo + half {
        stored(faults[k], apply_op(op, pre[k], vs[k - lo]))
    } else if lo + half <= k < lo + 2 * half {
        stored(faults[k], apply_op(op, pre[k], vs[k - lo - half]))
    } else {
        pre[k]
    })
}

/// Write `vals[i]` to both cells of each pair. One checker iteration is
/// spent per pair.
pub fn pair_write_pass(
    region: &mut Region,
    lo: usize,
    half: usize,
    vals: &Vec<usize>,
    checker: &mut TimeoutChecker,
) -> (r: Result<(), MemtestError>)
    requires
        old(region).wf(),
        lo + 2 * half <= old(region).spec_len(),
        vals@.len() == half,
        old(checker).wf(),
        old(checker).completed() + half <= old(checker).expected(),
    ensures
        final(region).wf(),
        final(region).spec_len() == old(region).spec_len(),
        final(region).faults() == old(region).faults(),
        final(region).base_addr() == old(region).base_addr(),
        final(checker).wf(),
        final(checker).expected() == old(checker).expected(),
        final(checker).spec_deadline() == old(checker).spec_deadline(),
        old(checker).completed() <= final(checker).completed()
            <= old(checker).completed() + half,
        r is Ok ==> final(region).vals() == pair_written(
            old(region).vals(),
            old(region).faults(),
            lo as int,
            half as int,
            vals@,
        ) && final(checker).completed() == old(checker).completed() + half,
        r is Err ==> r == Err::<(), MemtestError>(MemtestError::Timeout),
{
    let ghost pre = region.vals();
    let ghost faults = region.faults();
    let mut i: usize = 0;
    while i < half
        invariant
            i <= half,
            lo + 2 * half <= region.spec_len(),
            vals@.len() == half,
            region.wf(),
            pre == old(region).vals(),
            faults == old(region).faults(),
            region.spec_len() == pre.len(),
            region.faults() == faults,
            region.base_addr() == old(region).base_addr(),
            checker.wf(),
            checker.expected() == old(checker).expected(),
            checker.spec_deadline() == old(checker).spec_deadline(),
            checker.completed() == old(checker).completed() + i,
            old(checker).completed() + half <= old(checker).expected(),
            forall|k: int|
                0 <= k < pre.len() ==> #[trigger] region.vals()[k] == (if lo <= k < lo + i {
                    stored(faults[k], vals@[k - lo])
                } else if lo + half <= k < lo + half + i {
                    stored(faults[k], vals@[k - lo - half])
                } else {
                    pre[k]
                }),
        decreases half - i,
    {
        match checker.check() {
            Err(e) => {
                return Err(e);
            },
            Ok(()) => {},
        }
        let v = vals[i];
        region.write(lo + i, v);
        region.write(lo + half + i, v);
        i = i + 1;
    }
    proof {
        assert(region.vals() =~= pair_written(pre, faults, lo as int, half as int, vals@));
    }
    Ok(())
}

/// Apply `op` with `vals[i]` to both cells of each pair, as a read-modify-
/// write. One checker iteration is spent per pair.
pub fn op_write_pass(
    region: &mut Region,
    lo: usize,
    half: usize,
    vals: &Vec<usize>,
    op: TwoRegionOp,
    checker: &mut TimeoutChecker,
) -> (r: Result<(), MemtestError>)
    requires
        old(region).wf(),
        lo + 2 * half <= old(region).spec_len(),
        vals@.len() == half,
        old(checker).wf(),
        old(checker).completed() + half <= old(checker).expected(),
    ensures
        final(region).wf(),
        final(region).spec_len() == old(region).spec_len(),
        final(region).faults() == old(region).faults(),
        final(region).base_addr() == old(region).base_addr(),
        final(checker).wf(),
        final(checker).expected() == old(checker).expected(),
        final(checker).spec_deadline() == old(checker).spec_deadline(),
        old(checker).completed() <= final(checker).completed()
            <= old(checker).completed() + half,
        r is Ok ==> final(region).vals() == op_written(
            old(region).vals(),
            old(region).faults(),
            lo as int,
            half as int,
            vals@,
            op,
        ) && final(checker).completed() == old(checker).completed() + half,
        r is Err ==> r == Err::<(), MemtestError>(MemtestError::Timeout),
{
    let ghost pre = region.vals();
    let ghost faults = region.faults();
    let mut i: usize = 0;
    while i < half
        invariant
            i <= half,
            lo + 2 * half <= region.spec_len(),
            vals@.len() == half,
            region.wf(),
            pre == old(region).vals(),
            faults == old(region).faults(),
            region.spec_len() == pre.len(),
            region.faults() == faults,
            region.base_addr() == old(region).base_addr(),
            checker.wf(),
            checker.expected() == old(checker).expected(),
            checker.spec_deadline() == old(checker).spec_deadline(),
            checker.completed() == old(checker).completed() + i,
            old(checker).completed() + half <= old(checker).expected(),
            forall|k: int|
                0 <= k < pre.len() ==> #[trigger] region.vals()[k] == (if lo <= k < lo + i {
                    stored(faults[k], apply_op(op, pre[k], vals@[k - lo]))
                } else if lo + half <= k < lo + half + i {
                    stored(faults[k], apply_op(op, pre[k], vals@[k - lo - half]))
                } else {
                    pre[k]
                }),
        decreases half - i,
    {
        match checker.check() {
            Err(e) => {
                return Err(e);
            },
            Ok(()) => {},
        }
        let v = vals[i];
        let c1 = region.read(lo + i);
        region.write(lo + i, apply_op_exec(op, c1, v));
        let c2 = region.read(lo + half + i);
        region.write(lo + half + i, apply_op_exec(op, c2, v));
        i = i + 1;
    }
    proof {
        assert(region.vals() =~= op_written(pre, faults, lo as int, half as int, vals@, op));
    }
    Ok(())
}

/// Read the two halves back and compare them pairwise, reporting the first
/// pair that disagrees. One checker iteration is spent per pair.
pub fn compare_regions(
    region: &Region,
    lo1: usize,
    lo2: usize,
    n: usize,
    checker: &mut TimeoutChecker,
) -> (r: Result<MemtestOutcome, MemtestError>)
    requires
        region.wf(),
        lo1 + n <= region.spec_len(),
        lo2 + n <= region.spec_len(),
        old(checker).wf(),
        old(checker).completed() + n <= old(checker).expected(),
    ensures
        final(checker).wf(),
        final(checker).expected() == old(checker).expected(),
        final(checker).spec_deadline() == old(checker).spec_deadline(),
        old(checker).completed() <= final(checker).completed()
            <= old(checker).completed() + n,
        r == Ok::<MemtestOutcome, MemtestError>(MemtestOutcome::Pass) ==> halves_equal(
            region.vals(),
            lo1 as int,
            lo2 as int,
            n as int,
        ) && final(checker).completed() == old(checker).completed() + n,
        r matches Ok(MemtestOutcome::Fail(f)) ==> exists|i: int|
            0 <= i < n && #[trigger] region.vals()[lo1 + i] != region.vals()[lo2 + i] && (
            forall|j: int|
                0 <= j < i ==> #[trigger] region.vals()[lo1 + j] == region.vals()[lo2 + j])
                && f == (MemtestFailure::MismatchedValues {
                address1: region.spec_addr(lo1 + i),
                value1: region.vals()[lo1 + i],
                address2: region.spec_addr(lo2 + i),
                value2: region.vals()[lo2 + i],
            }),
        r is Err ==> r == Err::<MemtestOutcome, MemtestError>(MemtestError::Timeout),
{
    let mut i: usize = 0;
    while i < n
        invariant
            i <= n,
            region.wf(),
            lo1 + n <= region.spec_len(),
            lo2 + n <= region.spec_len(),
            checker.wf(),
            checker.expected() == old(checker).expected(),
            checker.spec_deadline() == old(checker).spec_deadline(),
            checker.completed() == old(checker).completed() + i,
            old(checker).completed() + n <= old(checker).expected(),
            forall|j: int|
                0 <= j < i ==> #[trigger] region.vals()[lo1 + j] == region.vals()[lo2 + j],
        decreases n - i,
    {
        match checker.check() {
            Err(e) => {
                return Err(e);
            },
            Ok(()) => {},
        }

        let val1 = region.read(lo1 + i);
        let val2 = region.read(lo2 + i);
        if val1 != val2 {
            return Ok(MemtestOutcome::Fail(MemtestFailure::MismatchedValues {
                address1: region.addr(lo1 + i),
                value1: val1,
                address2: region.addr(lo2 + i),
                value2: val2,
            }));
        }
        i = i + 1;
    }
    Ok(MemtestOutcome::Pass)
}

/// Run one complete two-region read-modify-write pattern with the given
/// words: reset the window to all-ones, apply `op` with `vals[i]` to both
/// cells of each pair, then compare the halves.
pub fn two_region_pass(
    region: &mut Region,
    lo: usize,
    n: usize,
    vals: &Vec<usize>,
    op: TwoRegionOp,
    checker: &mut TimeoutChecker,
) -> (r: Result<MemtestOutcome, MemtestError>)
    requires
        old(region).wf(),
        lo + n <= old(region).spec_len(),
        n >= 2,
        vals@.len() == n / 2,
        old(checker).wf(),
    ensures
        final(region).wf(),
        final(region).spec_len() == old(region).spec_len(),
        final(region).faults() == old(region).faults(),
        final(region).base_addr() == old(region).base_addr(),
        final(checker).wf(),
        final(checker).spec_deadline() == old(checker).spec_deadline(),
        r is Ok ==> final(region).vals() == op_written(
            filled(old(region).vals(), old(region).faults(), lo as int, n as int, !0usize),
            old(region).faults(),
            lo as int,
            (n / 2) as int,
            vals@,
            op,
        ),
        r == Ok::<MemtestOutcome, MemtestError>(MemtestOutcome::Pass) ==> halves_equal(
            final(region).vals(),
            lo as int,
            lo + (n / 2) as int,
            (n / 2) as int,
        ) && final(checker).completed() == 2 * ((n / 2) as int),
        r matches Ok(MemtestOutcome::Fail(f)) ==> exists|i: int|
            0 <= i < (n / 2)
                && #[trigger] final(region).vals()[lo + i]
                    != final(region).vals()[lo + (n / 2) + i]
                && f == (MemtestFailure::MismatchedValues {
                address1: final(region).spec_addr(lo + i),
                value1: final(region).vals()[lo + i],
                address2: final(region).spec_addr(lo + (n / 2) + i),
                value2: final(region).vals()[lo + (n / 2) + i],
            }),
        old(region).sound_in(lo as int, n as int) ==> !(r matches Ok(MemtestOutcome::Fail(_))),
        r is Err ==> r == Err::<MemtestOutcome, MemtestError>(MemtestError::Timeout),
{
    let ghost pre = region.vals();
    let ghost faults = region.faults();
    mem_reset(region, lo, n);
    let half = n / 2;
    let expected: u64 = (half as u64) * 2;
    checker.init(expected);
    match op_write_pass(region, lo, half, vals, op, checker) {
        Err(e) => {
            return Err(e);
        },
        Ok(()) => {},
    }
    proof {
        if old(region).sound_in(lo as int, n as int) {
            let post = region.vals();
            assert forall|i: int|
                0 <= i < half implies #[trigger] post[lo + i] == post[lo + half + i] by {
                assert(faults[lo + i] is None);
                assert(faults[lo + half + i] is None);
            }
        }
    }
    compare_regions(region, lo, lo + half, half, checker)
}

/// Run one complete direct-write two-region pattern with the given words:
/// write `vals[i]` to both cells of each pair, then compare the halves.
/// The window is not reset first.
pub fn pair_pass(
    region: &mut Region,
    lo: usize,
    n: usize,
    vals: &Vec<usize>,
    checker: &mut TimeoutChecker,
) -> (r: Result<MemtestOutcome, MemtestError>)
    requires
        old(region).wf(),
        lo + n <= old(region).spec_len(),
        vals@.len() == n / 2,
        old(checker).wf(),
    ensures
        final(region).wf(),
        final(region).spec_len() == old(region).spec_len(),
        final(region).faults() == old(region).faults(),
        final(region).base_addr() == old(region).base_addr(),
        final(checker).wf(),
        final(checker).spec_deadline() == old(checker).spec_deadline(),
        r is Ok ==> final(region).vals() == pair_written(
            old(region).vals(),
            old(region).faults(),
            lo as int,
            (n / 2) as int,
            vals@,
        ),
        r == Ok::<MemtestOutcome, MemtestError>(MemtestOutcome::Pass) ==> halves_equal(
            final(region).vals(),
            lo as int,
            lo + (n / 2) as int,
            (n / 2) as int,
        ) && final(checker).completed() == 2 * ((n / 2) as int),
        r matches Ok(MemtestOutcome::Fail(f)) ==> exists|i: int|
            0 <= i < (n / 2)
                && #[trigger] final(region).vals()[lo + i]
                    != final(region).vals()[lo + (n / 2) + i]
                && f == (MemtestFailure::MismatchedValues {
                address1: final(region).spec_addr(lo + i),
                value1: final(region).vals()[lo + i],
                address2: final(region).spec_addr(lo + (n / 2) + i),
                value2: final(region).vals()[lo + (n / 2) + i],
            }),
        old(region).sound_in(lo as int, n as int) ==> !(r matches Ok(MemtestOutcome::Fail(_))),
        r is Err ==> r == Err::<MemtestOutcome, MemtestError>(MemtestError::Timeout),
{
    let half = n / 2;
    let expected: u64 = (half as u64) * 2;
    checker.init(expected);
    match pair_write_pass(region, lo, half, vals, checker) {
        Err(e) => {
            return Err(e);
        },
        Ok(()) => {},
    }
    proof {
        if old(region).sound_in(lo as int, n as int) {
            let post = region.vals();
            assert forall|i: int|
                0 <= i < half implies #[trigger] post[lo + i] == post[lo + half + i] by {
                assert(region.faults()[lo + i] is None);
                assert(region.faults()[lo + half + i] is None);
            }
        }
    }
    compare_regions(region, lo, lo + half, half, checker)
}

/// One complete two-region read-modify-write test over `[lo, lo + n)`:
/// reject a window of fewer than two words, reset it to all-ones, apply
/// `op` with one drawn word per pair, and compare the halves.
pub fn test_two_regions(
    region: &mut Region,
    lo: usize,
    n: usize,
    op: TwoRegionOp,
    checker: &mut TimeoutChecker,
) -> (r: Result<MemtestOutcome, MemtestError>)
    requires
        old(region).wf(),
        lo + n <= old(region).spec_len(),
        old(checker).wf(),
    ensures
        final(region).wf(),
        final(region).spec_len() == old(region).spec_len(),
        final(region).faults() == old(region).faults(),
        final(region).base_addr() == old(region).base_addr(),
        final(checker).wf(),
        final(checker).spec_deadline() == old(checker).spec_deadline(),
        r == Err::<MemtestOutcome, MemtestError>(
            MemtestError::Other(ErrorCause::InsufficientMemoryLengthTwoRegions),
        ) <==> n < 2,
        n < 2 ==> final(region).vals() == old(region).vals(),
        r is Err ==> r == Err::<MemtestOutcome, MemtestError>(MemtestError::Timeout) || r
            == Err::<MemtestOutcome, MemtestError>(
            MemtestError::Other(ErrorCause::InsufficientMemoryLengthTwoRegions),
        ),
        old(region).sound_in(lo as int, n as int) ==> !(r matches Ok(MemtestOutcome::Fail(_))),
        r == Ok::<MemtestOutcome, MemtestError>(MemtestOutcome::Pass) ==> halves_equal(
            final(region).vals(),
            lo as int,
            lo + (n / 2) as int,
            (n / 2) as int,
        ) && final(checker).completed() == 2 * ((n / 2) as int),
        r matches Ok(MemtestOutcome::Fail(f)) ==> exists|i: int|
            0 <= i < (n / 2)
                && #[trigger] final(region).vals()[lo + i]
                    != final(region).vals()[lo + (n / 2) + i]
                && f == (MemtestFailure::MismatchedValues {
                address1: final(region).spec_addr(lo + i),
                value1: final(region).vals()[lo + i],
                address2: final(region).spec_addr(lo + (n / 2) + i),
                value2: final(region).vals()[lo + (n / 2) + i],
            }),
        r is Ok ==> exists|vs: Seq<usize>|
            vs.len() == (n / 2) && final(region).vals() == #[trigger] op_written(
                filled(old(region).vals(), old(region).faults(), lo as int, n as int, !0usize),
                old(region).faults(),
                lo as int,
                (n / 2) as int,
                vs,
                op,
            ),
{
    match ensure_two_regions_mem_len(n) {
        Err(e) => {
            return Err(e);
        },
        Ok(()) => {},
    }
    let vals = draw_words(n / 2);
    let r = two_region_pass(region, lo, n, &vals, op, checker);
    proof {
        if r is Ok {
            assert(vals@.len() == (n / 2) && final(region).vals() == op_written(
                filled(old(region).vals(), old(region).faults(), lo as int, n as int, !0usize),
                old(region).faults(),
                lo as int,
                (n / 2) as int,
                vals@,
                op,
            ));
        }
    }
    r
}

/// Reset all bits of the region to 1s, then for each pair of cells in the
/// two halves write the XOR of a random word and the value read from the
/// cell, and compare the halves.
#[verifier::rlimit(100)]
#[verifier::spinoff_prover]
pub fn test_xor(region: &mut Region, checker: &mut TimeoutChecker) -> (r: Result<
    MemtestOutcome,
    MemtestError,
>)
    requires
        old(region).wf(),
        old(checker).wf(),
    ensures
        final(region).wf(),
        final(region).spec_len() == old(region).spec_len(),
        final(region).faults() == old(region).faults(),
        final(region).base_addr() == old(region).base_addr(),
        final(checker).wf(),
        r == Err::<MemtestOutcome, MemtestError>(
            MemtestError::Other(ErrorCause::InsufficientMemoryLengthTwoRegions),
        ) <==> old(region).spec_len() < 2,
        old(region).spec_len() < 2 ==> final(region).vals() == old(region).vals(),
        r is Err ==> r == Err::<MemtestOutcome, MemtestError>(MemtestError::Timeout) || r
            == Err::<MemtestOutcome, MemtestError>(
            MemtestError::Other(ErrorCause::InsufficientMemoryLengthTwoRegions),
        ),
        old(region).sound_in(0, old(region).spec_len() as int) ==> !(r matches Ok(
            MemtestOutcome::Fail(_),
        )),
        r == Ok::<MemtestOutcome, MemtestError>(MemtestOutcome::Pass) ==> halves_equal(
            final(region).vals(),
            0,
            (old(region).spec_len() / 2) as int,
            (old(region).spec_len() / 2) as int,
        ) && final(checker).completed() == 2 * ((old(region).spec_len() / 2) as int),
        r matches Ok(MemtestOutcome::Fail(f)) ==> exists|i: int|
            0 <= i < (old(region).spec_len() / 2)
                && #[trigger] final(region).vals()[i]
                    != final(region).vals()[(old(region).spec_len() / 2) + i]
                && f == (MemtestFailure::MismatchedValues {
                address1: final(region).spec_addr(i),
                value1: final(region).vals()[i],
                address2: final(region).spec_addr((old(region).spec_len() / 2) + i),
                value2: final(region).vals()[(old(region).spec_len() / 2) + i],
            }),
        r is Ok ==> exists|vs: Seq<usize>|
            vs.len() == (old(region).spec_len() / 2) && final(region).vals() == #[trigger] op_written(
                filled(
                    old(region).vals(),
                    old(region).faults(),
                    0,
                    old(region).spec_len() as int,
                    !0usize,
                ),
                old(region).faults(),
                0,
                (old(region).spec_len() / 2) as int,
                vs,
                TwoRegionOp::Xor,
            ),
{
    let n = region.len();
    test_two_regions(region, 0, n, TwoRegionOp::Xor, checker)
}

/// Reset all bits of the region to 1s, then for each pair of cells in the
/// two halves write the wrapping difference of the value read from the cell
/// and a random word, and compare the halves.
#[verifier::rlimit(100)]
#[verifier::spinoff_prover]
pub fn test_sub(region: &mut Region, checker: &mut TimeoutChecker) -> (r: Result<
    MemtestOutcome,
    MemtestError,
>)
    requires
        old(region).wf(),
        old(checker).wf(),
    ensures
        final(region).wf(),
        final(region).spec_len() == old(region).spec_len(),
        final(region).faults() == old(region).faults(),
        final(region).base_addr() == old(region).base_addr(),
        final(checker).wf(),
        r == Err::<MemtestOutcome, MemtestError>(
            MemtestError::Other(ErrorCause::InsufficientMemoryLengthTwoRegions),
        ) <==> old(region).spec_len() < 2,
        old(region).spec_len() < 2 ==> final(region).vals() == old(region).vals(),
        r is Err ==> r == Err::<MemtestOutcome, MemtestError>(MemtestError::Timeout) || r
            == Err::<MemtestOutcome, MemtestError>(
            MemtestError::Other(ErrorCause::InsufficientMemoryLengthTwoRegions),
        ),
        old(region).sound_in(0, old(region).spec_len() as int) ==> !(r matches Ok(
            MemtestOutcome::Fail(_),
        )),
        r == Ok::<MemtestOutcome, MemtestError>(MemtestOutcome::Pass) ==> halves_equal(
            final(region).vals(),
            0,
            (old(region).spec_len() / 2) as int,
            (old(region).spec_len() / 2) as int,
        ) && final(checker).completed() == 2 * ((old(region).spec_len() / 2) as int),
        r matches Ok(MemtestOutcome::Fail(f)) ==> exists|i: int|
            0 <= i < (old(region).spec_len() / 2)
                && #[trigger] final(region).vals()[i]
                    != final(region).vals()[(old(region).spec_len() / 2) + i]
                && f == (MemtestFailure::MismatchedValues {
                address1: final(region).spec_addr(i),
                value1: final(region).vals()[i],
                address2: final(region).spec_addr((old(region).spec_len() / 2) + i),
                value2: final(region).vals()[(old(region).spec_len() / 2) + i],
            }),
        r is Ok ==> exists|vs: Seq<usize>|
            vs.len() == (old(region).spec_len() / 2) && final(region).vals() == #[trigger] op_written(
                filled(
                    old(region).vals(),
                    old(region).faults(),
                    0,
                    old(region).spec_len() as int,
                    !0usize,
                ),
                old(region).faults(),
                0,
                (old(region).spec_len() / 2) as int,
                vs,
                TwoRegionOp::Sub,
            ),
{
    let n = region.len();
    test_two_regions(region, 0, n, TwoRegionOp::Sub, checker)
}

/// Reset all bits of the region to 1s, then for each pair of cells in the
/// two halves write the wrapping product of a random word and the value
/// read from the cell, and compare the halves.
#[verifier::rlimit(100)]
#[verifier::spinoff_prover]
pub fn test_mul(region: &mut Region, checker: &mut TimeoutChecker) -> (r: Result<
    MemtestOutcome,
    MemtestError,
>)
    requires
        old(region).wf(),
        old(checker).wf(),
    ensures
        final(region).wf(),
        final(region).spec_len() == old(region).spec_len(),
        final(region).faults() == old(region).faults(),
        final(region).base_addr() == old(region).base_addr(),
        final(checker).wf(),
        r == Err::<MemtestOutcome, MemtestError>(
            MemtestError::Other(ErrorCause::InsufficientMemoryLengthTwoRegions),
        ) <==> old(region).spec_len() < 2,
        old(region).spec_len() < 2 ==> final(region).vals() == old(region).vals(),
        r is Err ==> r == Err::<MemtestOutcome, MemtestError>(MemtestError::Timeout) || r
            == Err::<MemtestOutcome, MemtestError>(
            MemtestError::Other(ErrorCause::InsufficientMemoryLengthTwoRegions),
        ),
        old(region).sound_in(0, old(region).spec_len() as int) ==> !(r matches Ok(
            MemtestOutcome::Fail(_),
        )),
        r == Ok::<MemtestOutcome, MemtestError>(MemtestOutcome::Pass) ==> halves_equal(
            final(region).vals(),
            0,
            (old(region).spec_len() / 2) as int,
            (old(region).spec_len() / 2) as int,
        ) && final(checker).completed() == 2 * ((old(region).spec_len() / 2) as int),
        r matches Ok(MemtestOutcome::Fail(f)) ==> exists|i: int|
            0 <= i < (old(region).spec_len() / 2)
                && #[trigger] final(region).vals()[i]
                    != final(region).vals()[(old(region).spec_len() / 2) + i]
                && f == (MemtestFailure::MismatchedValues {
                address1: final(region).spec_addr(i),
                value1: final(region).vals()[i],
                address2: final(region).spec_addr((old(region).spec_len() / 2) + i),
                value2: final(region).vals()[(old(region).spec_len() / 2) + i],
            }),
        r is Ok ==> exists|vs: Seq<usize>|
            vs.len() == (old(region).spec_len() / 2) && final(region).vals() == #[trigger] op_written(
                filled(
                    old(region).vals(),
                    old(region).faults(),
                    0,
                    old(region).spec_len() as int,
                    !0usize,
                ),
                old(region).faults(),
                0,
                (old(region).spec_len() / 2) as int,
                vs,
                TwoRegionOp::Mul,
            ),
{
    let n = region.len();
    test_two_regions(region, 0, n, TwoRegionOp::Mul, checker)
}

/// Reset all bits of the region to 1s, then for each pair of cells in the
/// two halves write the truncating quotient of the value read from the cell
/// and a random word (a zero divisor is clamped to 1), and compare the
/// halves.
#[verifier::rlimit(100)]
#[verifier::spinoff_prover]
pub fn test_div(region: &mut Region, checker: &mut TimeoutChecker) -> (r: Result<
    MemtestOutcome,
    MemtestError,
>)
    requires
        old(region).wf(),
        old(checker).wf(),
    ensures
        final(region).wf(),
        final(region).spec_len() == old(region).spec_len(),
        final(region).faults() == old(region).faults(),
        final(region).base_addr() == old(region).base_addr(),
        final(checker).wf(),
        r == Err::<MemtestOutcome, MemtestError>(
            MemtestError::Other(ErrorCause::InsufficientMemoryLengthTwoRegions),
        ) <==> old(region).spec_len() < 2,
        old(region).spec_len() < 2 ==> final(region).vals() == old(region).vals(),
        r is Err ==> r == Err::<MemtestOutcome, MemtestError>(MemtestError::Timeout) || r
            == Err::<MemtestOutcome, MemtestError>(
            MemtestError::Other(ErrorCause::InsufficientMemoryLengthTwoRegions),
        ),
        old(region).sound_in(0, old(region).spec_len() as int) ==> !(r matches Ok(
            MemtestOutcome::Fail(_),
        )),
        r == Ok::<MemtestOutcome, MemtestError>(MemtestOutcome::Pass) ==> halves_equal(
            final(region).vals(),
            0,
            (old(region).spec_len() / 2) as int,
            (old(region).spec_len() / 2) as int,
        ) && final(checker).completed() == 2 * ((old(region).spec_len() / 2) as int),
        r matches Ok(MemtestOutcome::Fail(f)) ==> exists|i: int|
            0 <= i < (old(region).spec_len() / 2)
                && #[trigger] final(region).vals()[i]
                    != final(region).vals()[(old(region).spec_len() / 2) + i]
                && f == (MemtestFailure::MismatchedValues {
                address1: final(region).spec_addr(i),
                value1: final(region).vals()[i],
                address2: final(region).spec_addr((old(region).spec_len() / 2) + i),
                value2: final(region).vals()[(old(region).spec_len() / 2) + i],
            }),
        r is Ok ==> exists|vs: Seq<usize>|
            vs.len() == (old(region).spec_len() / 2) && final(region).vals() == #[trigger] op_written(
                filled(
                    old(region).vals(),
                    old(region).faults(),
                    0,
                    old(region).spec_len() as int,
                    !0usize,
                ),
                old(region).faults(),
                0,
                (old(region).spec_len() / 2) as int,
                vs,
                TwoRegionOp::Div,
            ),
{
    let n = region.len();
    test_two_regions(region, 0, n, TwoRegionOp::Div, checker)
}

/// Reset all bits of the region to 1s, then for each pair of cells in the
/// two halves write the OR of a random word and the value read from the
/// cell, and compare the halves.
#[verifier::rlimit(100)]
#[verifier::spinoff_prover]
pub fn test_or(region: &mut Region, checker: &mut TimeoutChecker) -> (r: Result<
    MemtestOutcome,
    MemtestError,
>)
    requires
        old(region).wf(),
        old(checker).wf(),
    ensures
        final(region).wf(),
        final(region).spec_len() == old(region).spec_len(),
        final(region).faults() == old(region).faults(),
        final(region).base_addr() == old(region).base_addr(),
        final(checker).wf(),
        r == Err::<MemtestOutcome, MemtestError>(
            MemtestError::Other(ErrorCause::InsufficientMemoryLengthTwoRegions),
        ) <==> old(region).spec_len() < 2,
        old(region).spec_len() < 2 ==> final(region).vals() == old(region).vals(),
        r is Err ==> r == Err::<MemtestOutcome, MemtestError>(MemtestError::Timeout) || r
            == Err::<MemtestOutcome, MemtestError>(
            MemtestError::Other(ErrorCause::InsufficientMemoryLengthTwoRegions),
        ),
        old(region).sound_in(0, old(region).spec_len() as int) ==> !(r matches Ok(
            MemtestOutcome::Fail(_),
        )),
        r == Ok::<MemtestOutcome, MemtestError>(MemtestOutcome::Pass) ==> halves_equal(
            final(region).vals(),
            0,
            (old(region).spec_len() / 2) as int,
            (old(region).spec_len() / 2) as int,
        ) && final(checker).completed() == 2 * ((old(region).spec_len() / 2) as int),
        r matches Ok(MemtestOutcome::Fail(f)) ==> exists|i: int|
            0 <= i < (old(region).spec_len() / 2)
                && #[trigger] final(region).vals()[i]
                    != final(region).vals()[(old(region).spec_len() / 2) + i]
                && f == (MemtestFailure::MismatchedValues {
                address1: final(region).spec_addr(i),
                value1: final(region).vals()[i],
                address2: final(region).spec_addr((old(region).spec_len() / 2) + i),
                value2: final(region).vals()[(old(region).spec_len() / 2) + i],
            }),
        r is Ok ==> exists|vs: Seq<usize>|
            vs.len() == (old(region).spec_len() / 2) && final(region).vals() == #[trigger] op_written(
                filled(
                    old(region).vals(),
                    old(region).faults(),
                    0,
                    old(region).spec_len() as int,
                    !0usize,
                ),
                old(region).faults(),
                0,
                (old(region).spec_len() / 2) as int,
                vs,
                TwoRegionOp::Or,
            ),
{
    let n = region.len();
    test_two_regions(region, 0, n, TwoRegionOp::Or, checker)
}

/// Reset all bits of the region to 1s, then for each pair of cells in the
/// two halves write the AND of a random word and the value read from the
/// cell, and compare the halves.
#[verifier::rlimit(100)]
#[verifier::spinoff_prover]
pub fn test_and(region: &mut Region, checker: &mut TimeoutChecker) -> (r: Result<
    MemtestOutcome,
    MemtestError,
>)
    requires
        old(region).wf(),
        old(checker).wf(),
    ensures
        final(region).wf(),
        final(region).spec_len() == old(region).spec_len(),
        final(region).faults() == old(region).faults(),
        final(region).base_addr() == old(region).base_addr(),
        final(checker).wf(),
        r == Err::<MemtestOutcome, MemtestError>(
            MemtestError::Other(ErrorCause::InsufficientMemoryLengthTwoRegions),
        ) <==> old(region).spec_len() < 2,
        old(region).spec_len() < 2 ==> final(region).vals() == old(region).vals(),
        r is Err ==> r == Err::<MemtestOutcome, MemtestError>(MemtestError::Timeout) || r
            == Err::<MemtestOutcome, MemtestError>(
            MemtestError::Other(ErrorCause::InsufficientMemoryLengthTwoRegions),
        ),
        old(region).sound_in(0, old(region).spec_len() as int) ==> !(r matches Ok(
            MemtestOutcome::Fail(_),
        )),
        r == Ok::<MemtestOutcome, MemtestError>(MemtestOutcome::Pass) ==> halves_equal(
            final(region).vals(),
            0,
            (old(region).spec_len() / 2) as int,
            (old(region).spec_len() / 2) as int,
        ) && final(checker).completed() == 2 * ((old(region).spec_len() / 2) as int),
        r matches Ok(MemtestOutcome::Fail(f)) ==> exists|i: int|
            0 <= i < (old(region).spec_len() / 2)
                && #[trigger] final(region).vals()[i]
                    != final(region).vals()[(old(region).spec_len() / 2) + i]
                && f == (MemtestFailure::MismatchedValues {
                address1: final(region).spec_addr(i),
                value1: final(region).vals()[i],
                address2: final(region).spec_addr((old(region).spec_len() / 2) + i),
                value2: final(region).vals()[(old(region).spec_len() / 2) + i],
            }),
        r is Ok ==> exists|vs: Seq<usize>|
            vs.len() == (old(region).spec_len() / 2) && final(region).vals() == #[trigger] op_written(
                filled(
                    old(region).vals(),
                    old(region).faults(),
                    0,
                    old(region).spec_len() as int,
                    !0usize,
                ),
                old(region).faults(),
                0,
                (old(region).spec_len() / 2) as int,
                vs,
                TwoRegionOp::And,
            ),
{
    let n = region.len();
    test_two_regions(region, 0, n, TwoRegionOp::And, checker)
}

/// Split `[lo, lo + n)` into two halves and write one random word to both
/// cells of each pair, then compare the halves. A window of fewer than two
/// words holds no pair and is rejected.
pub fn random_val_run(
    region: &mut Region,
    lo: usize,
    n: usize,
    checker: &mut TimeoutChecker,
) -> (r: Result<MemtestOutcome, MemtestError>)
    requires
        old(region).wf(),
        lo + n <= old(region).spec_len(),
        old(checker).wf(),
    ensures
        final(region).wf(),
        final(region).spec_len() == old(region).spec_len(),
        final(region).faults() == old(region).faults(),
        final(region).base_addr() == old(region).base_addr(),
        final(checker).wf(),
        final(checker).spec_deadline() == old(checker).spec_deadline(),
        r == Err::<MemtestOutcome, MemtestError>(
            MemtestError::Other(ErrorCause::InsufficientMemoryLengthTwoRegions),
        ) <==> n < 2,
        n < 2 ==> final(region).vals() == old(region).vals(),
        r is Err ==> r == Err::<MemtestOutcome, MemtestError>(MemtestError::Timeout) || r
            == Err::<MemtestOutcome, MemtestError>(
            MemtestError::Other(ErrorCause::InsufficientMemoryLengthTwoRegions),
        ),
        old(region).sound_in(lo as int, n as int) ==> !(r matches Ok(MemtestOutcome::Fail(_))),
        r == Ok::<MemtestOutcome, MemtestError>(MemtestOutcome::Pass) ==> halves_equal(
            final(region).vals(),
            lo as int,
            lo + (n / 2) as int,
            (n / 2) as int,
        ) && final(checker).completed() == 2 * ((n / 2) as int),
        r matches Ok(MemtestOutcome::Fail(f)) ==> exists|i: int|
            0 <= i < (n / 2)
                && #[trigger] final(region).vals()[lo + i]
                    != final(region).vals()[lo + (n / 2) + i]
                && f == (MemtestFailure::MismatchedValues {
                address1: final(region).spec_addr(lo + i),
                value1: final(region).vals()[lo + i],
                address2: final(region).spec_addr(lo + (n / 2) + i),
                value2: final(region).vals()[lo + (n / 2) + i],
            }),
        r is Ok ==> exists|vs: Seq<usize>|
            vs.len() == (n / 2) && final(region).vals() == #[trigger] pair_written(
                old(region).vals(),
                old(region).faults(),
                lo as int,
                (n / 2) as int,
                vs,
            ),
{
    match ensure_two_regions_mem_len(n) {
        Err(e) => {
            return Err(e);
        },
        Ok(()) => {},
    }
    let vals = draw_words(n / 2);
    let r = pair_pass(region, lo, n, &vals, checker);
    proof {
        if r is Ok {
            assert(vals@.len() == (n / 2) && final(region).vals() == pair_written(
                old(region).vals(),
                old(region).faults(),
                lo as int,
                (n / 2) as int,
                vals@,
            ));
        }
    }
    r
}

/// The words a SeqInc pass writes: the drawn word plus the pair index,
/// wrapping.
pub open spec fn seq_inc_words(v0: usize, half: int) -> Seq<usize> {
    Seq::new(half as nat, |i: int| v0.wrapping_add(i as usize))
}

/// Split `[lo, lo + n)` into two halves; draw one random word and write its
/// wrapping sum with the pair index to both cells of each pair, then compare
/// the halves.
pub fn seq_inc_run(
    region: &mut Region,
    lo: usize,
    n: usize,
    checker: &mut TimeoutChecker,
) -> (r: Result<MemtestOutcome, MemtestError>)
    requires
        old(region).wf(),
        lo + n <= old(region).spec_len(),
        old(checker).wf(),
    ensures
        final(region).wf(),
        final(region).spec_len() == old(region).spec_len(),
        final(region).faults() == old(region).faults(),
        final(region).base_addr() == old(region).base_addr(),
        final(checker).wf(),
        final(checker).spec_deadline() == old(checker).spec_deadline(),
        r == Err::<MemtestOutcome, MemtestError>(
            MemtestError::Other(ErrorCause::InsufficientMemoryLengthTwoRegions),
        ) <==> n < 2,
        n < 2 ==> final(region).vals() == old(region).vals(),
        r is Err ==> r == Err::<MemtestOutcome, MemtestError>(MemtestError::Timeout) || r
            == Err::<MemtestOutcome, MemtestError>(
            MemtestError::Other(ErrorCause::InsufficientMemoryLengthTwoRegions),
        ),
        old(region).sound_in(lo as int, n as int) ==> !(r matches Ok(MemtestOutcome::Fail(_))),
        r == Ok::<MemtestOutcome, MemtestError>(MemtestOutcome::Pass) ==> halves_equal(
            final(region).vals(),
            lo as int,
            lo + (n / 2) as int,
            (n / 2) as int,
        ) && final(checker).completed() == 2 * ((n / 2) as int),
        r matches Ok(MemtestOutcome::Fail(f)) ==> exists|i: int|
            0 <= i < (n / 2)
                && #[trigger] final(region).vals()[lo + i]
                    != final(region).vals()[lo + (n / 2) + i]
                && f == (MemtestFailure::MismatchedValues {
                address1: final(region).spec_addr(lo + i),
                value1: final(region).vals()[lo + i],
                address2: final(region).spec_addr(lo + (n / 2) + i),
                value2: final(region).vals()[lo + (n / 2) + i],
            }),
        r is Ok ==> exists|v0: usize|
            final(region).vals() == #[trigger] pair_written(
                old(region).vals(),
                old(region).faults(),
                lo as int,
                (n / 2) as int,
                seq_inc_words(v0, (n / 2) as int),
            ),
{
    match ensure_two_regions_mem_len(n) {
        Err(e) => {
            return Err(e);
        },
        Ok(()) => {},
    }
    let half = n / 2;
    let v0 = rand::random::<usize>();
    let mut vals: Vec<usize> = Vec::new();
    let mut i: usize = 0;
    while i < half
        invariant
            i <= half,
            vals@.len() == i,
            forall|j: int| 0 <= j < i ==> vals@[j] == v0.wrapping_add(j as usize),
        decreases half - i,
    {
        vals.push(v0.wrapping_add(i));
        i = i + 1;
    }
    proof {
        assert(vals@ =~= seq_inc_words(v0, half as int));
    }
    let r = pair_pass(region, lo, n, &vals, checker);
    proof {
        if r is Ok {
            assert(final(region).vals() == pair_written(
                old(region).vals(),
                old(region).faults(),
                lo as int,
                (n / 2) as int,
                seq_inc_words(v0, (n / 2) as int),
            ));
        }
    }
    r
}

/// One write-and-compare round of a repeated pattern test: write `vals[i]`
/// to both cells of each pair, then compare the halves. The checker must
/// have room for `2 * half` further iterations.
pub fn pattern_run(
    region: &mut Region,
    lo: usize,
    half: usize,
    vals: &Vec<usize>,
    checker: &mut TimeoutChecker,
) -> (r: Result<MemtestOutcome, MemtestError>)
    requires
        old(region).wf(),
        lo + 2 * half <= old(region).spec_len(),
        vals@.len() == half,
        old(checker).wf(),
        old(checker).completed() + 2 * half <= old(checker).expected(),
    ensures
        final(region).wf(),
        final(region).spec_len() == old(region).spec_len(),
        final(region).faults() == old(region).faults(),
        final(region).base_addr() == old(region).base_addr(),
        final(checker).wf(),
        final(checker).expected() == old(checker).expected(),
        final(checker).spec_deadline() == old(checker).spec_deadline(),
        old(checker).completed() <= final(checker).completed()
            <= old(checker).completed() + 2 * half,
        r is Ok ==> final(region).vals() == pair_written(
            old(region).vals(),
            old(region).faults(),
            lo as int,
            half as int,
            vals@,
        ),
        r == Ok::<MemtestOutcome, MemtestError>(MemtestOutcome::Pass) ==> halves_equal(
            final(region).vals(),
            lo as int,
            lo + half as int,
            half as int,
        ) && final(checker).completed() == old(checker).completed() + 2 * half,
        r matches Ok(MemtestOutcome::Fail(f)) ==> exists|i: int|
            0 <= i < half
                && #[trigger] final(region).vals()[lo + i]
                    != final(region).vals()[lo + half + i]
                && f == (MemtestFailure::MismatchedValues {
                address1: final(region).spec_addr(lo + i),
                value1: final(region).vals()[lo + i],
                address2: final(region).spec_addr(lo + half + i),
                value2: final(region).vals()[lo + half + i],
            }),
        old(region).sound_in(lo as int, 2 * half as int) ==> !(r matches Ok(
            MemtestOutcome::Fail(_),
        )),
        r is Err ==> r == Err::<MemtestOutcome, MemtestError>(MemtestError::Timeout),
{
    match pair_write_pass(region, lo, half, vals, checker) {
        Err(e) => {
            return Err(e);
        },
        Ok(()) => {},
    }
    proof {
        if old(region).sound_in(lo as int, 2 * half as int) {
            let post = region.vals();
            assert forall|i: int|
                0 <= i < half implies #[trigger] post[lo + i] == post[lo + half + i] by {
                assert(region.faults()[lo + i] is None);
                assert(region.faults()[lo + half + i] is None);
            }
        }
    }
    compare_regions(region, lo, lo + half, half, checker)
}

/// The value written at pair index `j` of a toggling run that begins from
/// `start`: the run negates the value before each pair, so even indices get
/// the complement of `start` and odd indices get `start` itself.
pub open spec fn toggled(start: usize, j: int) -> usize {
    if j % 2 == 0 {
        !start
    } else {
        start
    }
}

/// The starting value of SolidBits run `i`: all-zeros in even runs,
/// all-ones in odd runs.
pub open spec fn solid_start(i: int) -> usize {
    if i % 2 == 0 {
        0usize
    } else {
        !0usize
    }
}

/// The value SolidBits writes at pair index `j` of run `i`.
pub open spec fn solid_val(i: int, j: int) -> usize {
    toggled(solid_start(i), j)
}

/// The words one toggling run writes, pair by pair.
fn build_toggled(start: usize, half: usize) -> (v: Vec<usize>)
    ensures
        v@.len() == half,
        forall|j: int| 0 <= j < half ==> v@[j] == toggled(start, j),
{
    let flipped: usize = !start;
    let mut v: Vec<usize> = Vec::new();
    let mut j: usize = 0;
    while j < half
        invariant
            j <= half,
            v@.len() == j,
            flipped == !start,
            forall|k: int| 0 <= k < j ==> v@[k] == toggled(start, k),
        decreases half - j,
    {
        if j % 2 == 0 {
            v.push(flipped);
        } else {
            v.push(start);
        }
        j = j + 1;
    }
    v
}

/// Sixty-four runs over the window split in halves: run `i` starts from
/// all-zeros (even `i`) or all-ones (odd `i`), negates the value before
/// each pair, writes it to both cells, and compares the halves after each
/// run.
pub fn solid_bits_run(
    region: &mut Region,
    lo: usize,
    n: usize,
    checker: &mut TimeoutChecker,
) -> (r: Result<MemtestOutcome, MemtestError>)
    requires
        old(region).wf(),
        lo + n <= old(region).spec_len(),
        old(checker).wf(),
    ensures
        final(region).wf(),
        final(region).spec_len() == old(region).spec_len(),
        final(region).faults() == old(region).faults(),
        final(region).base_addr() == old(region).base_addr(),
        final(checker).wf(),
        final(checker).spec_deadline() == old(checker).spec_deadline(),
        r == Err::<MemtestOutcome, MemtestError>(
            MemtestError::Other(ErrorCause::InsufficientMemoryLengthTwoRegions),
        ) <==> n < 2,
        r == Err::<MemtestOutcome, MemtestError>(
            MemtestError::Other(ErrorCause::IterationCountOverflow),
        ) <==> (n >= 2 && 64 * 2 * ((n / 2) as int) > u64::MAX),
        (n < 2 || 64 * 2 * ((n / 2) as int) > u64::MAX) ==> final(region).vals() == old(
            region,
        ).vals(),
        r is Err ==> r == Err::<MemtestOutcome, MemtestError>(MemtestError::Timeout) || r
            == Err::<MemtestOutcome, MemtestError>(
            MemtestError::Other(ErrorCause::InsufficientMemoryLengthTwoRegions),
        ) || r == Err::<MemtestOutcome, MemtestError>(
            MemtestError::Other(ErrorCause::IterationCountOverflow),
        ),
        old(region).sound_in(lo as int, n as int) ==> !(r matches Ok(MemtestOutcome::Fail(_))),
        r == Ok::<MemtestOutcome, MemtestError>(MemtestOutcome::Pass)
            ==> final(checker).completed() == 64 * 2 * ((n / 2) as int) && (forall|j: int|
            0 <= j < (n / 2) ==> #[trigger] final(region).vals()[lo + j] == stored(
                old(region).faults()[lo + j],
                solid_val(63, j),
            ) && final(region).vals()[lo + (n / 2) + j] == stored(
                old(region).faults()[lo + (n / 2) + j],
                solid_val(63, j),
            )) && (forall|k: int|
            0 <= k < old(region).spec_len() && !(lo <= k < lo + 2 * (n / 2))
                ==> #[trigger] final(region).vals()[k] == old(region).vals()[k]),
        r matches Ok(MemtestOutcome::Fail(f)) ==> exists|i: int|
            0 <= i < (n / 2)
                && #[trigger] final(region).vals()[lo + i]
                    != final(region).vals()[lo + (n / 2) + i]
                && f == (MemtestFailure::MismatchedValues {
                address1: final(region).spec_addr(lo + i),
                value1: final(region).vals()[lo + i],
                address2: final(region).spec_addr(lo + (n / 2) + i),
                value2: final(region).vals()[lo + (n / 2) + i],
            }),
{
    match ensure_two_regions_mem_len(n) {
        Err(e) => {
            return Err(e);
        },
        Ok(()) => {},
    }
    let half = n / 2;
    let x: u64 = (half as u64) * 2;
    proof {
        assert(x == 2 * (half as int));
    }
    let expected: u64 = match x.checked_mul(64) {
        Option::None => {
            proof {
                assert(64 * 2 * ((n / 2) as int) > u64::MAX) by (nonlinear_arith)
                    requires
                        (x as int) * 64 > u64::MAX,
                        x == 2 * ((n / 2) as int),
                ;
            }
            return Err(MemtestError::Other(ErrorCause::IterationCountOverflow));
        },
        Option::Some(e) => e,
    };
    proof {
        assert(expected == (x as int) * 64);
        assert(expected == 64 * 2 * (half as int)) by (nonlinear_arith)
            requires
                expected == (x as int) * 64,
                x == 2 * (half as int),
        ;
    }
    checker.init(expected);

    let ghost pre = region.vals();
    let ghost faults = region.faults();
    let mut ri: u64 = 0;
    proof {
        assert(ri * 2 * (half as int) == 0) by (nonlinear_arith)
            requires
                ri == 0,
        ;
    }
    while ri < 64
        invariant
            ri <= 64,
            half == n / 2,
            n >= 2,
            lo + n <= region.spec_len(),
            region.wf(),
            pre == old(region).vals(),
            faults == old(region).faults(),
            region.spec_len() == pre.len(),
            region.faults() == faults,
            region.base_addr() == old(region).base_addr(),
            checker.wf(),
            checker.expected() == expected,
            checker.spec_deadline() == old(checker).spec_deadline(),
            expected == 64 * 2 * (half as int),
            checker.completed() == ri * 2 * (half as int),
            forall|k: int|
                0 <= k < pre.len() && !(lo <= k < lo + 2 * half) ==> #[trigger] region.vals()[k]
                    == pre[k],
            ri > 0 ==> forall|j: int|
                0 <= j < half ==> #[trigger] region.vals()[lo + j] == stored(
                    faults[lo + j],
                    solid_val(ri - 1, j),
                ) && region.vals()[lo + half + j] == stored(
                    faults[lo + half + j],
                    solid_val(ri - 1, j),
                ),
        decreases 64 - ri,
    {
        let start: usize = if ri % 2 == 0 {
            0
        } else {
            !0
        };
        let vals = build_toggled(start, half);
        let ghost before = region.vals();
        proof {
            assert(checker.completed() + 2 * (half as int) <= expected && checker.completed() + 2
                * (half as int) == (ri + 1) * 2 * (half as int)) by (nonlinear_arith)
                requires
                    checker.completed() == ri * 2 * (half as int),
                    expected == 64 * 2 * (half as int),
                    0 <= ri < 64,
                    half >= 0,
            ;
        }
        match pattern_run(region, lo, half, &vals, checker) {
            Ok(MemtestOutcome::Pass) => {
                proof {
                    assert forall|j: int|
                        0 <= j < half implies #[trigger] region.vals()[lo + j] == stored(
                        faults[lo + j],
                        solid_val(ri as int, j),
                    ) && region.vals()[lo + half + j] == stored(
                        faults[lo + half + j],
                        solid_val(ri as int, j),
                    ) by {
                        assert(region.vals()[lo + j] == pair_written(
                            before,
                            faults,
                            lo as int,
                            half as int,
                            vals@,
                        )[lo + j]);
                    }
                }
            },
            Ok(MemtestOutcome::Fail(f)) => {
                return Ok(MemtestOutcome::Fail(f));
            },
            Err(e) => {
                return Err(e);
            },
        }
        ri = ri + 1;
    }
    proof {
        assert(checker.completed() == 64 * 2 * ((n / 2) as int)) by (nonlinear_arith)
            requires
                checker.completed() == ri * 2 * ((n / 2) as int),
                ri == 64,
        ;
        assert(forall|j: int|
            0 <= j < (n / 2) ==> #[trigger] region.vals()[lo + j] == stored(
                old(region).faults()[lo + j],
                solid_val(63, j),
            ));
        assert forall|j: int|
            0 <= j < (n / 2) implies #[trigger] region.vals()[lo + (n / 2) + j] == stored(
            old(region).faults()[lo + (n / 2) + j],
            solid_val(63, j),
        ) by {
            assert(region.vals()[lo + j] == stored(
                old(region).faults()[lo + j],
                solid_val(63, j),
            ));
        }
        assert(forall|k: int|
            0 <= k < old(region).spec_len() && !(lo <= k < lo + 2 * ((n / 2) as int))
                ==> #[trigger] region.vals()[k] == old(region).vals()[k]);
    }
    Ok(MemtestOutcome::Pass)
}


/// The checkerboard word: alternating 1s and 0s, so each byte is 0x55.
/// Since the all-ones word is 3 times this value, it is exactly
/// `usize::MAX / 3`.
pub open spec fn checker_word() -> usize {
    usize::MAX / 3
}

/// The starting value of Checkerboard run `i`: the checkerboard word in even
/// runs, its complement (each byte 0xaa) in odd runs.
pub open spec fn checkerboard_start(i: int) -> usize {
    if i % 2 == 0 {
        checker_word()
    } else {
        !checker_word()
    }
}

/// The value Checkerboard writes at pair index `j` of run `i`.
pub open spec fn checkerboard_val(i: int, j: int) -> usize {
    toggled(checkerboard_start(i), j)
}

/// Sixty-four runs over the window split in halves: run `i` starts from the
/// checkerboard word (even `i`) or its complement (odd `i`), negates the
/// value before each pair, writes it to both cells, and compares the halves
/// after each run.
pub fn checkerboard_run(
    region: &mut Region,
    lo: usize,
    n: usize,
    checker: &mut TimeoutChecker,
) -> (r: Result<MemtestOutcome, MemtestError>)
    requires
        old(region).wf(),
        lo + n <= old(region).spec_len(),
        old(checker).wf(),
    ensures
        final(region).wf(),
        final(region).spec_len() == old(region).spec_len(),
        final(region).faults() == old(region).faults(),
        final(region).base_addr() == old(region).base_addr(),
        final(checker).wf(),
        final(checker).spec_deadline() == old(checker).spec_deadline(),
        r == Err::<MemtestOutcome, MemtestError>(
            MemtestError::Other(ErrorCause::InsufficientMemoryLengthTwoRegions),
        ) <==> n < 2,
        r == Err::<MemtestOutcome, MemtestError>(
            MemtestError::Other(ErrorCause::IterationCountOverflow),
        ) <==> (n >= 2 && 64 * 2 * ((n / 2) as int) > u64::MAX),
        (n < 2 || 64 * 2 * ((n / 2) as int) > u64::MAX) ==> final(region).vals() == old(
            region,
        ).vals(),
        r is Err ==> r == Err::<MemtestOutcome, MemtestError>(MemtestError::Timeout) || r
            == Err::<MemtestOutcome, MemtestError>(
            MemtestError::Other(ErrorCause::InsufficientMemoryLengthTwoRegions),
        ) || r == Err::<MemtestOutcome, MemtestError>(
            MemtestError::Other(ErrorCause::IterationCountOverflow),
        ),
        old(region).sound_in(lo as int, n as int) ==> !(r matches Ok(MemtestOutcome::Fail(_))),
        r == Ok::<MemtestOutcome, MemtestError>(MemtestOutcome::Pass)
            ==> final(checker).completed() == 64 * 2 * ((n / 2) as int) && (forall|j: int|
            0 <= j < (n / 2) ==> #[trigger] final(region).vals()[lo + j] == stored(
                old(region).faults()[lo + j],
                checkerboard_val(63, j),
            ) && final(region).vals()[lo + (n / 2) + j] == stored(
                old(region).faults()[lo + (n / 2) + j],
                checkerboard_val(63, j),
            )) && (forall|k: int|
            0 <= k < old(region).spec_len() && !(lo <= k < lo + 2 * (n / 2))
                ==> #[trigger] final(region).vals()[k] == old(region).vals()[k]),
        r matches Ok(MemtestOutcome::Fail(f)) ==> exists|i: int|
            0 <= i < (n / 2)
                && #[trigger] final(region).vals()[lo + i]
                    != final(region).vals()[lo + (n / 2) + i]
                && f == (MemtestFailure::MismatchedValues {
                address1: final(region).spec_addr(lo + i),
                value1: final(region).vals()[lo + i],
                address2: final(region).spec_addr(lo + (n / 2) + i),
                value2: final(region).vals()[lo + (n / 2) + i],
            }),
{
    match ensure_two_regions_mem_len(n) {
        Err(e) => {
            return Err(e);
        },
        Ok(()) => {},
    }
    let half = n / 2;
    let x: u64 = (half as u64) * 2;
    proof {
        assert(x == 2 * (half as int));
    }
    let expected: u64 = match x.checked_mul(64) {
        Option::None => {
            proof {
                assert(64 * 2 * ((n / 2) as int) > u64::MAX) by (nonlinear_arith)
                    requires
                        (x as int) * 64 > u64::MAX,
                        x == 2 * ((n / 2) as int),
                ;
            }
            return Err(MemtestError::Other(ErrorCause::IterationCountOverflow));
        },
        Option::Some(e) => e,
    };
    proof {
        assert(expected == (x as int) * 64);
        assert(expected == 64 * 2 * (half as int)) by (nonlinear_arith)
            requires
                expected == (x as int) * 64,
                x == 2 * (half as int),
        ;
    }
    checker.init(expected);

    let ghost pre = region.vals();
    let ghost faults = region.faults();
    let mut ri: u64 = 0;
    proof {
        assert(ri * 2 * (half as int) == 0) by (nonlinear_arith)
            requires
                ri == 0,
        ;
    }
    while ri < 64
        invariant
            ri <= 64,
            half == n / 2,
            n >= 2,
            lo + n <= region.spec_len(),
            region.wf(),
            pre == old(region).vals(),
            faults == old(region).faults(),
            region.spec_len() == pre.len(),
            region.faults() == faults,
            region.base_addr() == old(region).base_addr(),
            checker.wf(),
            checker.expected() == expected,
            checker.spec_deadline() == old(checker).spec_deadline(),
            expected == 64 * 2 * (half as int),
            checker.completed() == ri * 2 * (half as int),
            forall|k: int|
                0 <= k < pre.len() && !(lo <= k < lo + 2 * half) ==> #[trigger] region.vals()[k]
                    == pre[k],
            ri > 0 ==> forall|j: int|
                0 <= j < half ==> #[trigger] region.vals()[lo + j] == stored(
                    faults[lo + j],
                    checkerboard_val(ri - 1, j),
                ) && region.vals()[lo + half + j] == stored(
                    faults[lo + half + j],
                    checkerboard_val(ri - 1, j),
                ),
        decreases 64 - ri,
    {
        let cw: usize = usize::MAX / 3;
        let start: usize = if ri % 2 == 0 {
            cw
        } else {
            !cw
        };
        let vals = build_toggled(start, half);
        let ghost before = region.vals();
        proof {
            assert(checker.completed() + 2 * (half as int) <= expected && checker.completed() + 2
                * (half as int) == (ri + 1) * 2 * (half as int)) by (nonlinear_arith)
                requires
                    checker.completed() == ri * 2 * (half as int),
                    expected == 64 * 2 * (half as int),
                    0 <= ri < 64,
                    half >= 0,
            ;
        }
        match pattern_run(region, lo, half, &vals, checker) {
            Ok(MemtestOutcome::Pass) => {
                proof {
                    assert forall|j: int|
                        0 <= j < half implies #[trigger] region.vals()[lo + j] == stored(
                        faults[lo + j],
                        checkerboard_val(ri as int, j),
                    ) && region.vals()[lo + half + j] == stored(
                        faults[lo + half + j],
                        checkerboard_val(ri as int, j),
                    ) by {
                        assert(region.vals()[lo + j] == pair_written(
                            before,
                            faults,
                            lo as int,
                            half as int,
                            vals@,
                        )[lo + j]);
                    }
                }
            },
            Ok(MemtestOutcome::Fail(f)) => {
                return Ok(MemtestOutcome::Fail(f));
            },
            Err(e) => {
                return Err(e);
            },
        }
        ri = ri + 1;
    }
    proof {
        assert(checker.completed() == 64 * 2 * ((n / 2) as int)) by (nonlinear_arith)
            requires
                checker.completed() == ri * 2 * ((n / 2) as int),
                ri == 64,
        ;
        assert(forall|j: int|
            0 <= j < (n / 2) ==> #[trigger] region.vals()[lo + j] == stored(
                old(region).faults()[lo + j],
                checkerboard_val(63, j),
            ));
        assert forall|j: int|
            0 <= j < (n / 2) implies #[trigger] region.vals()[lo + (n / 2) + j] == stored(
            old(region).faults()[lo + (n / 2) + j],
            checkerboard_val(63, j),
        ) by {
            assert(region.vals()[lo + j] == stored(
                old(region).faults()[lo + j],
                checkerboard_val(63, j),
            ));
        }
        assert(forall|k: int|
            0 <= k < old(region).spec_len() && !(lo <= k < lo + 2 * ((n / 2) as int))
                ==> #[trigger] region.vals()[k] == old(region).vals()[k]);
    }
    Ok(MemtestOutcome::Pass)
}


/// The word BlockSeq writes throughout run `i`: every byte holds the run
/// number. The all-ones word is 255 times `usize::MAX / 255` (the word with
/// every byte 0x01), so the product never overflows for `i <= 255`.
pub open spec fn block_val(i: int) -> usize {
    ((usize::MAX as int / 255) * i) as usize
}

/// The words one constant run writes, pair by pair.
fn build_repeated(val: usize, half: usize) -> (v: Vec<usize>)
    ensures
        v@.len() == half,
        forall|j: int| 0 <= j < half ==> v@[j] == val,
{
    let mut v: Vec<usize> = Vec::new();
    let mut j: usize = 0;
    while j < half
        invariant
            j <= half,
            v@.len() == j,
            forall|k: int| 0 <= k < j ==> v@[k] == val,
        decreases half - j,
    {
        v.push(val);
        j = j + 1;
    }
    v
}

/// Two hundred and fifty-six runs over the window split in halves: run `i`
/// writes the word whose every byte is `i` to both cells of each pair, and
/// compares the halves after each run.
pub fn block_seq_run(
    region: &mut Region,
    lo: usize,
    n: usize,
    checker: &mut TimeoutChecker,
) -> (r: Result<MemtestOutcome, MemtestError>)
    requires
        old(region).wf(),
        lo + n <= old(region).spec_len(),
        old(checker).wf(),
    ensures
        final(region).wf(),
        final(region).spec_len() == old(region).spec_len(),
        final(region).faults() == old(region).faults(),
        final(region).base_addr() == old(region).base_addr(),
        final(checker).wf(),
        final(checker).spec_deadline() == old(checker).spec_deadline(),
        r == Err::<MemtestOutcome, MemtestError>(
            MemtestError::Other(ErrorCause::InsufficientMemoryLengthTwoRegions),
        ) <==> n < 2,
        r == Err::<MemtestOutcome, MemtestError>(
            MemtestError::Other(ErrorCause::IterationCountOverflow),
        ) <==> (n >= 2 && 256 * 2 * ((n / 2) as int) > u64::MAX),
        (n < 2 || 256 * 2 * ((n / 2) as int) > u64::MAX) ==> final(region).vals() == old(
            region,
        ).vals(),
        r is Err ==> r == Err::<MemtestOutcome, MemtestError>(MemtestError::Timeout) || r
            == Err::<MemtestOutcome, MemtestError>(
            MemtestError::Other(ErrorCause::InsufficientMemoryLengthTwoRegions),
        ) || r == Err::<MemtestOutcome, MemtestError>(
            MemtestError::Other(ErrorCause::IterationCountOverflow),
        ),
        old(region).sound_in(lo as int, n as int) ==> !(r matches Ok(MemtestOutcome::Fail(_))),
        r == Ok::<MemtestOutcome, MemtestError>(MemtestOutcome::Pass)
            ==> final(checker).completed() == 256 * 2 * ((n / 2) as int) && (forall|j: int|
            0 <= j < (n / 2) ==> #[trigger] final(region).vals()[lo + j] == stored(
                old(region).faults()[lo + j],
                block_val(255),
            ) && final(region).vals()[lo + (n / 2) + j] == stored(
                old(region).faults()[lo + (n / 2) + j],
                block_val(255),
            )) && (forall|k: int|
            0 <= k < old(region).spec_len() && !(lo <= k < lo + 2 * (n / 2))
                ==> #[trigger] final(region).vals()[k] == old(region).vals()[k]),
        r matches Ok(MemtestOutcome::Fail(f)) ==> exists|i: int|
            0 <= i < (n / 2)
                && #[trigger] final(region).vals()[lo + i]
                    != final(region).vals()[lo + (n / 2) + i]
                && f == (MemtestFailure::MismatchedValues {
                address1: final(region).spec_addr(lo + i),
                value1: final(region).vals()[lo + i],
                address2: final(region).spec_addr(lo + (n / 2) + i),
                value2: final(region).vals()[lo + (n / 2) + i],
            }),
{
    match ensure_two_regions_mem_len(n) {
        Err(e) => {
            return Err(e);
        },
        Ok(()) => {},
    }
    let half = n / 2;
    let x: u64 = (half as u64) * 2;
    proof {
        assert(x == 2 * (half as int));
    }
    let expected: u64 = match x.checked_mul(256) {
        Option::None => {
            proof {
                assert(256 * 2 * ((n / 2) as int) > u64::MAX) by (nonlinear_arith)
                    requires
                        (x as int) * 256 > u64::MAX,
                        x == 2 * ((n / 2) as int),
                ;
            }
            return Err(MemtestError::Other(ErrorCause::IterationCountOverflow));
        },
        Option::Some(e) => e,
    };
    proof {
        assert(expected == (x as int) * 256);
        assert(expected == 256 * 2 * (half as int)) by (nonlinear_arith)
            requires
                expected == (x as int) * 256,
                x == 2 * (half as int),
        ;
    }
    checker.init(expected);

    let unit: usize = usize::MAX / 255;
    let ghost pre = region.vals();
    let ghost faults = region.faults();
    let mut ri: u64 = 0;
    proof {
        assert(ri * 2 * (half as int) == 0) by (nonlinear_arith)
            requires
                ri == 0,
        ;
    }
    while ri < 256
        invariant
            ri <= 256,
            half == n / 2,
            n >= 2,
            lo + n <= region.spec_len(),
            region.wf(),
            pre == old(region).vals(),
            faults == old(region).faults(),
            region.spec_len() == pre.len(),
            region.faults() == faults,
            region.base_addr() == old(region).base_addr(),
            checker.wf(),
            checker.expected() == expected,
            checker.spec_deadline() == old(checker).spec_deadline(),
            expected == 256 * 2 * (half as int),
            unit == usize::MAX as int / 255,
            checker.completed() == ri * 2 * (half as int),
            forall|k: int|
                0 <= k < pre.len() && !(lo <= k < lo + 2 * half) ==> #[trigger] region.vals()[k]
                    == pre[k],
            ri > 0 ==> forall|j: int|
                0 <= j < half ==> #[trigger] region.vals()[lo + j] == stored(
                    faults[lo + j],
                    block_val(ri - 1),
                ) && region.vals()[lo + half + j] == stored(
                    faults[lo + half + j],
                    block_val(ri - 1),
                ),
        decreases 256 - ri,
    {
        proof {
            assert((unit as int) * (ri as int) <= usize::MAX) by (nonlinear_arith)
                requires
                    unit == usize::MAX as int / 255,
                    0 <= ri as int <= 255,
            ;
        }
        let val: usize = unit * (ri as usize);
        proof {
            assert(val == block_val(ri as int));
        }
        let vals = build_repeated(val, half);
        let ghost before = region.vals();
        proof {
            assert(checker.completed() + 2 * (half as int) <= expected && checker.completed() + 2
                * (half as int) == (ri + 1) * 2 * (half as int)) by (nonlinear_arith)
                requires
                    checker.completed() == ri * 2 * (half as int),
                    expected == 256 * 2 * (half as int),
                    0 <= ri < 256,
                    half >= 0,
            ;
        }
        match pattern_run(region, lo, half, &vals, checker) {
            Ok(MemtestOutcome::Pass) => {
                proof {
                    assert forall|j: int|
                        0 <= j < half implies #[trigger] region.vals()[lo + j] == stored(
                        faults[lo + j],
                        block_val(ri as int),
                    ) && region.vals()[lo + half + j] == stored(
                        faults[lo + half + j],
                        block_val(ri as int),
                    ) by {
                        assert(region.vals()[lo + j] == pair_written(
                            before,
                            faults,
                            lo as int,
                            half as int,
                            vals@,
                        )[lo + j]);
                    }
                }
            },
            Ok(MemtestOutcome::Fail(f)) => {
                return Ok(MemtestOutcome::Fail(f));
            },
            Err(e) => {
                return Err(e);
            },
        }
        ri = ri + 1;
    }
    proof {
        assert(checker.completed() == 256 * 2 * ((n / 2) as int)) by (nonlinear_arith)
            requires
                checker.completed() == ri * 2 * ((n / 2) as int),
                ri == 256,
        ;
        assert(forall|j: int|
            0 <= j < (n / 2) ==> #[trigger] region.vals()[lo + j] == stored(
                old(region).faults()[lo + j],
                block_val(255),
            ));
        assert forall|j: int|
            0 <= j < (n / 2) implies #[trigger] region.vals()[lo + (n / 2) + j] == stored(
            old(region).faults()[lo + (n / 2) + j],
            block_val(255),
        ) by {
            assert(region.vals()[lo + j] == stored(
                old(region).faults()[lo + j],
                block_val(255),
            ));
        }
        assert(forall|k: int|
            0 <= k < old(region).spec_len() && !(lo <= k < lo + 2 * ((n / 2) as int))
                ==> #[trigger] region.vals()[k] == old(region).vals()[k]);
    }
    Ok(MemtestOutcome::Pass)
}

/// Split the region into two halves and write one random word to both cells
/// of each pair, then compare the halves. A region of fewer than two words
/// is rejected.
#[verifier::rlimit(100)]
#[verifier::spinoff_prover]
pub fn test_random_val(region: &mut Region, checker: &mut TimeoutChecker) -> (r: Result<
    MemtestOutcome,
    MemtestError,
>)
    requires
        old(region).wf(),
        old(checker).wf(),
    ensures
        final(region).wf(),
        final(region).spec_len() == old(region).spec_len(),
        final(region).faults() == old(region).faults(),
        final(region).base_addr() == old(region).base_addr(),
        final(checker).wf(),
        r == Err::<MemtestOutcome, MemtestError>(
            MemtestError::Other(ErrorCause::InsufficientMemoryLengthTwoRegions),
        ) <==> old(region).spec_len() < 2,
        old(region).spec_len() < 2 ==> final(region).vals() == old(region).vals(),
        r is Err ==> r == Err::<MemtestOutcome, MemtestError>(MemtestError::Timeout) || r
            == Err::<MemtestOutcome, MemtestError>(
            MemtestError::Other(ErrorCause::InsufficientMemoryLengthTwoRegions),
        ),
        old(region).sound_in(0, old(region).spec_len() as int) ==> !(r matches Ok(MemtestOutcome::Fail(_))),
        r == Ok::<MemtestOutcome, MemtestError>(MemtestOutcome::Pass) ==> halves_equal(
            final(region).vals(),
            0,
            (old(region).spec_len() / 2) as int,
            (old(region).spec_len() / 2) as int,
        ) && final(checker).completed() == 2 * ((old(region).spec_len() / 2) as int),
        r matches Ok(MemtestOutcome::Fail(f)) ==> exists|i: int|
            0 <= i < (old(region).spec_len() / 2)
                && #[trigger] final(region).vals()[i] != final(region).vals()[(old(region).spec_len() / 2) + i]
                && f == (MemtestFailure::MismatchedValues {
                address1: final(region).spec_addr(i),
                value1: final(region).vals()[i],
                address2: final(region).spec_addr((old(region).spec_len() / 2) + i),
                value2: final(region).vals()[(old(region).spec_len() / 2) + i],
            }),
        r is Ok ==> exists|vs: Seq<usize>|
            vs.len() == (old(region).spec_len() / 2) && final(region).vals() == #[trigger] pair_written(
                old(region).vals(),
                old(region).faults(),
                0,
                (old(region).spec_len() / 2) as int,
                vs,
            ),
{
    let n = region.len();
    random_val_run(region, 0, n, checker)
}

/// Split the region into two halves; draw one random word and write its
/// wrapping sum with the pair index to both cells of each pair, then compare
/// the halves.
#[verifier::rlimit(100)]
#[verifier::spinoff_prover]
pub fn test_seq_inc(region: &mut Region, checker: &mut TimeoutChecker) -> (r: Result<
    MemtestOutcome,
    MemtestError,
>)
    requires
        old(region).wf(),
        old(checker).wf(),
    ensures
        final(region).wf(),
        final(region).spec_len() == old(region).spec_len(),
        final(region).faults() == old(region).faults(),
        final(region).base_addr() == old(region).base_addr(),
        final(checker).wf(),
        r == Err::<MemtestOutcome, MemtestError>(
            MemtestError::Other(ErrorCause::InsufficientMemoryLengthTwoRegions),
        ) <==> old(region).spec_len() < 2,
        old(region).spec_len() < 2 ==> final(region).vals() == old(region).vals(),
        r is Err ==> r == Err::<MemtestOutcome, MemtestError>(MemtestError::Timeout) || r
            == Err::<MemtestOutcome, MemtestError>(
            MemtestError::Other(ErrorCause::InsufficientMemoryLengthTwoRegions),
        ),
        old(region).sound_in(0, old(region).spec_len() as int) ==> !(r matches Ok(MemtestOutcome::Fail(_))),
        r == Ok::<MemtestOutcome, MemtestError>(MemtestOutcome::Pass) ==> halves_equal(
            final(region).vals(),
            0,
            (old(region).spec_len() / 2) as int,
            (old(region).spec_len() / 2) as int,
        ) && final(checker).completed() == 2 * ((old(region).spec_len() / 2) as int),
        r matches Ok(MemtestOutcome::Fail(f)) ==> exists|i: int|
            0 <= i < (old(region).spec_len() / 2)
                && #[trigger] final(region).vals()[i] != final(region).vals()[(old(region).spec_len() / 2) + i]
                && f == (MemtestFailure::MismatchedValues {
                address1: final(region).spec_addr(i),
                value1: final(region).vals()[i],
                address2: final(region).spec_addr((old(region).spec_len() / 2) + i),
                value2: final(region).vals()[(old(region).spec_len() / 2) + i],
            }),
        r is Ok ==> exists|v0: usize|
            final(region).vals() == #[trigger] pair_written(
                old(region).vals(),
                old(region).faults(),
                0,
                (old(region).spec_len() / 2) as int,
                seq_inc_words(v0, (old(region).spec_len() / 2) as int),
            ),
{
    let n = region.len();
    seq_inc_run(region, 0, n, checker)
}

/// Sixty-four runs over the region split in halves: each run writes
/// alternating all-zeros and all-ones words to both cells of each pair and
/// compares the halves.
#[verifier::rlimit(100)]
#[verifier::spinoff_prover]
pub fn test_solid_bits(region: &mut Region, checker: &mut TimeoutChecker) -> (r: Result<
    MemtestOutcome,
    MemtestError,
>)
    requires
        old(region).wf(),
        old(checker).wf(),
    ensures
        final(region).wf(),
        final(region).spec_len() == old(region).spec_len(),
        final(region).faults() == old(region).faults(),
        final(region).base_addr() == old(region).base_addr(),
        final(checker).wf(),
        r == Err::<MemtestOutcome, MemtestError>(
            MemtestError::Other(ErrorCause::InsufficientMemoryLengthTwoRegions),
        ) <==> old(region).spec_len() < 2,
        r == Err::<MemtestOutcome, MemtestError>(
            MemtestError::Other(ErrorCause::IterationCountOverflow),
        ) <==> (old(region).spec_len() >= 2 && 64 * 2 * ((old(region).spec_len() / 2) as int) > u64::MAX),
        (old(region).spec_len() < 2 || 64 * 2 * ((old(region).spec_len() / 2) as int) > u64::MAX) ==> final(region).vals() == old(
            region,
        ).vals(),
        r is Err ==> r == Err::<MemtestOutcome, MemtestError>(MemtestError::Timeout) || r
            == Err::<MemtestOutcome, MemtestError>(
            MemtestError::Other(ErrorCause::InsufficientMemoryLengthTwoRegions),
        ) || r == Err::<MemtestOutcome, MemtestError>(
            MemtestError::Other(ErrorCause::IterationCountOverflow),
        ),
        old(region).sound_in(0, old(region).spec_len() as int) ==> !(r matches Ok(MemtestOutcome::Fail(_))),
        r == Ok::<MemtestOutcome, MemtestError>(MemtestOutcome::Pass)
            ==> final(checker).completed() == 64 * 2 * ((old(region).spec_len() / 2) as int) && (forall|j: int|
            0 <= j < (old(region).spec_len() / 2) ==> #[trigger] final(region).vals()[j] == stored(
                old(region).faults()[j],
                solid_val(63, j),
            ) && final(region).vals()[(old(region).spec_len() / 2) + j] == stored(
                old(region).faults()[(old(region).spec_len() / 2) + j],
                solid_val(63, j),
            )),
        r matches Ok(MemtestOutcome::Fail(f)) ==> exists|i: int|
            0 <= i < (old(region).spec_len() / 2)
                && #[trigger] final(region).vals()[i] != final(region).vals()[(old(region).spec_len() / 2) + i]
                && f == (MemtestFailure::MismatchedValues {
                address1: final(region).spec_addr(i),
                value1: final(region).vals()[i],
                address2: final(region).spec_addr((old(region).spec_len() / 2) + i),
                value2: final(region).vals()[(old(region).spec_len() / 2) + i],
            }),
{
    let n = region.len();
    let r = solid_bits_run(region, 0, n, checker);
    proof {
        if r == Ok::<MemtestOutcome, MemtestError>(MemtestOutcome::Pass) {
            assert forall|j: int|
                0 <= j < (n / 2) implies #[trigger] region.vals()[j] == stored(
                region.faults()[j],
                solid_val(63, j),
            ) && region.vals()[(n / 2) + j] == stored(
                region.faults()[(n / 2) + j],
                solid_val(63, j),
            ) by {
                assert(region.vals()[0 + j] == stored(region.faults()[0 + j], solid_val(63, j)));
            }
        }
    }
    r
}

/// Sixty-four runs over the region split in halves: each run writes
/// alternating checkerboard words (bytes 0x55 and 0xaa) to both cells of
/// each pair and compares the halves.
#[verifier::rlimit(100)]
#[verifier::spinoff_prover]
pub fn test_checkerboard(region: &mut Region, checker: &mut TimeoutChecker) -> (r: Result<
    MemtestOutcome,
    MemtestError,
>)
    requires
        old(region).wf(),
        old(checker).wf(),
    ensures
        final(region).wf(),
        final(region).spec_len() == old(region).spec_len(),
        final(region).faults() == old(region).faults(),
        final(region).base_addr() == old(region).base_addr(),
        final(checker).wf(),
        r == Err::<MemtestOutcome, MemtestError>(
            MemtestError::Other(ErrorCause::InsufficientMemoryLengthTwoRegions),
        ) <==> old(region).spec_len() < 2,
        r == Err::<MemtestOutcome, MemtestError>(
            MemtestError::Other(ErrorCause::IterationCountOverflow),
        ) <==> (old(region).spec_len() >= 2 && 64 * 2 * ((old(region).spec_len() / 2) as int) > u64::MAX),
        (old(region).spec_len() < 2 || 64 * 2 * ((old(region).spec_len() / 2) as int) > u64::MAX) ==> final(region).vals() == old(
            region,
        ).vals(),
        r is Err ==> r == Err::<MemtestOutcome, MemtestError>(MemtestError::Timeout) || r
            == Err::<MemtestOutcome, MemtestError>(
            MemtestError::Other(ErrorCause::InsufficientMemoryLengthTwoRegions),
        ) || r == Err::<MemtestOutcome, MemtestError>(
            MemtestError::Other(ErrorCause::IterationCountOverflow),
        ),
        old(region).sound_in(0, old(region).spec_len() as int) ==> !(r matches Ok(MemtestOutcome::Fail(_))),
        r == Ok::<MemtestOutcome, MemtestError>(MemtestOutcome::Pass)
            ==> final(checker).completed() == 64 * 2 * ((old(region).spec_len() / 2) as int) && (forall|j: int|
            0 <= j < (old(region).spec_len() / 2) ==> #[trigger] final(region).vals()[j] == stored(
                old(region).faults()[j],
                checkerboard_val(63, j),
            ) && final(region).vals()[(old(region).spec_len() / 2) + j] == stored(
                old(region).faults()[(old(region).spec_len() / 2) + j],
                checkerboard_val(63, j),
            )),
        r matches Ok(MemtestOutcome::Fail(f)) ==> exists|i: int|
            0 <= i < (old(region).spec_len() / 2)
                && #[trigger] final(region).vals()[i] != final(region).vals()[(old(region).spec_len() / 2) + i]
                && f == (MemtestFailure::MismatchedValues {
                address1: final(region).spec_addr(i),
                value1: final(region).vals()[i],
                address2: final(region).spec_addr((old(region).spec_len() / 2) + i),
                value2: final(region).vals()[(old(region).spec_len() / 2) + i],
            }),
{
    let n = region.len();
    let r = checkerboard_run(region, 0, n, checker);
    proof {
        if r == Ok::<MemtestOutcome, MemtestError>(MemtestOutcome::Pass) {
            assert forall|j: int|
                0 <= j < (n / 2) implies #[trigger] region.vals()[j] == stored(
                region.faults()[j],
                checkerboard_val(63, j),
            ) && region.vals()[(n / 2) + j] == stored(
                region.faults()[(n / 2) + j],
                checkerboard_val(63, j),
            ) by {
                assert(region.vals()[0 + j] == stored(region.faults()[0 + j], checkerboard_val(63, j)));
            }
        }
    }
    r
}

/// Two hundred and fifty-six runs over the region split in halves: run `i`
/// writes the word whose every byte is `i` to both cells of each pair and
/// compares the halves.
#[verifier::rlimit(100)]
#[verifier::spinoff_prover]
pub fn test_block_seq(region: &mut Region, checker: &mut TimeoutChecker) -> (r: Result<
    MemtestOutcome,
    MemtestError,
>)
    requires
        old(region).wf(),
        old(checker).wf(),
    ensures
        final(region).wf(),
        final(region).spec_len() == old(region).spec_len(),
        final(region).faults() == old(region).faults(),
        final(region).base_addr() == old(region).base_addr(),
        final(checker).wf(),
        r == Err::<MemtestOutcome, MemtestError>(
            MemtestError::Other(ErrorCause::InsufficientMemoryLengthTwoRegions),
        ) <==> old(region).spec_len() < 2,
        r == Err::<MemtestOutcome, MemtestError>(
            MemtestError::Other(ErrorCause::IterationCountOverflow),
        ) <==> (old(region).spec_len() >= 2 && 256 * 2 * ((old(region).spec_len() / 2) as int) > u64::MAX),
        (old(region).spec_len() < 2 || 256 * 2 * ((old(region).spec_len() / 2) as int) > u64::MAX) ==> final(region).vals() == old(
            region,
        ).vals(),
        r is Err ==> r == Err::<MemtestOutcome, MemtestError>(MemtestError::Timeout) || r
            == Err::<MemtestOutcome, MemtestError>(
            MemtestError::Other(ErrorCause::InsufficientMemoryLengthTwoRegions),
        ) || r == Err::<MemtestOutcome, MemtestError>(
            MemtestError::Other(ErrorCause::IterationCountOverflow),
        ),
        old(region).sound_in(0, old(region).spec_len() as int) ==> !(r matches Ok(MemtestOutcome::Fail(_))),
        r == Ok::<MemtestOutcome, MemtestError>(MemtestOutcome::Pass)
            ==> final(checker).completed() == 256 * 2 * ((old(region).spec_len() / 2) as int) && (forall|j: int|
            0 <= j < (old(region).spec_len() / 2) ==> #[trigger] final(region).vals()[j] == stored(
                old(region).faults()[j],
                block_val(255),
            ) && final(region).vals()[(old(region).spec_len() / 2) + j] == stored(
                old(region).faults()[(old(region).spec_len() / 2) + j],
                block_val(255),
            )),
        r matches Ok(MemtestOutcome::Fail(f)) ==> exists|i: int|
            0 <= i < (old(region).spec_len() / 2)
                && #[trigger] final(region).vals()[i] != final(region).vals()[(old(region).spec_len() / 2) + i]
                && f == (MemtestFailure::MismatchedValues {
                address1: final(region).spec_addr(i),
                value1: final(region).vals()[i],
                address2: final(region).spec_addr((old(region).spec_len() / 2) + i),
                value2: final(region).vals()[(old(region).spec_len() / 2) + i],
            }),
{
    let n = region.len();
    let r = block_seq_run(region, 0, n, checker);
    proof {
        if r == Ok::<MemtestOutcome, MemtestError>(MemtestOutcome::Pass) {
            assert forall|j: int|
                0 <= j < (n / 2) implies #[trigger] region.vals()[j] == stored(
                region.faults()[j],
                block_val(255),
            ) && region.vals()[(n / 2) + j] == stored(
                region.faults()[(n / 2) + j],
                block_val(255),
            ) by {
                assert(region.vals()[0 + j] == stored(region.faults()[0 + j], block_val(255)));
            }
        }
    }
    r
}

/// Cell `lo + j` is the first of the window whose own-address write does not
/// read back, and `f` is the record the basic own-address test reports for
/// it.
pub open spec fn own_basic_first_fail(region: Region, lo: int, j: int, f: MemtestFailure) -> bool {
    &&& stored(region.faults()[lo + j], region.spec_addr(lo + j)) != region.spec_addr(lo + j)
    &&& (forall|jj: int|
        0 <= jj < j ==> #[trigger] stored(region.faults()[lo + jj], region.spec_addr(lo + jj))
            == region.spec_addr(lo + jj))
    &&& f == (MemtestFailure::UnexpectedValue {
        address: region.spec_addr(lo + j),
        expected: region.spec_addr(lo + j),
        actual: stored(region.faults()[lo + j], region.spec_addr(lo + j)),
    })
}

/// Write the address of each cell of `[lo, lo + n)` to the cell itself, then
/// read every cell back and check it holds its own address, reporting the
/// first cell that does not.
pub fn own_address_basic_run(
    region: &mut Region,
    lo: usize,
    n: usize,
    checker: &mut TimeoutChecker,
) -> (r: Result<MemtestOutcome, MemtestError>)
    requires
        old(region).wf(),
        lo + n <= old(region).spec_len(),
        old(checker).wf(),
    ensures
        final(region).wf(),
        final(region).spec_len() == old(region).spec_len(),
        final(region).faults() == old(region).faults(),
        final(region).base_addr() == old(region).base_addr(),
        final(checker).wf(),
        final(checker).spec_deadline() == old(checker).spec_deadline(),
        r == Err::<MemtestOutcome, MemtestError>(
            MemtestError::Other(ErrorCause::IterationCountOverflow),
        ) <==> (n as int) * 2 > u64::MAX,
        (n as int) * 2 > u64::MAX ==> final(region).vals() == old(region).vals(),
        r is Err ==> r == Err::<MemtestOutcome, MemtestError>(MemtestError::Timeout) || r
            == Err::<MemtestOutcome, MemtestError>(
            MemtestError::Other(ErrorCause::IterationCountOverflow),
        ),
        old(region).sound_in(lo as int, n as int) ==> !(r matches Ok(MemtestOutcome::Fail(_))),
        (forall|j: int|
            0 <= j < n ==> ((#[trigger] old(region).faults()[lo + j]) matches Option::Some(s)
                ==> s == old(region).spec_addr(lo + j))) ==> !(r matches Ok(
            MemtestOutcome::Fail(_),
        )),
        r == Ok::<MemtestOutcome, MemtestError>(MemtestOutcome::Pass)
            ==> final(checker).completed() == (n as int) * 2 && (forall|j: int|
            0 <= j < n ==> #[trigger] final(region).vals()[lo + j] == old(region).spec_addr(
                lo + j,
            )) && (forall|j: int|
            0 <= j < n ==> ((#[trigger] old(region).faults()[lo + j]) matches Option::Some(s)
                ==> s == old(region).spec_addr(lo + j))) && (forall|k: int|
            0 <= k < old(region).spec_len() && !(lo <= k < lo + n)
                ==> #[trigger] final(region).vals()[k] == old(region).vals()[k]),
        r matches Ok(MemtestOutcome::Fail(f)) ==> exists|j: int|
            0 <= j < n && #[trigger] own_basic_first_fail(*old(region), lo as int, j, f),
{
    let expected: u64 = match (n as u64).checked_mul(2) {
        Option::None => {
            return Err(MemtestError::Other(ErrorCause::IterationCountOverflow));
        },
        Option::Some(e) => e,
    };
    checker.init(expected);

    let ghost pre = region.vals();
    let ghost faults = region.faults();
    let mut j: usize = 0;
    while j < n
        invariant
            j <= n,
            lo + n <= region.spec_len(),
            region.wf(),
            pre == old(region).vals(),
            faults == old(region).faults(),
            region.spec_len() == pre.len(),
            region.faults() == faults,
            region.base_addr() == old(region).base_addr(),
            checker.wf(),
            checker.expected() == expected,
            checker.spec_deadline() == old(checker).spec_deadline(),
            expected == (n as int) * 2,
            checker.completed() == j,
            forall|k: int|
                0 <= k < pre.len() ==> #[trigger] region.vals()[k] == (if lo <= k < lo + j {
                    stored(faults[k], region.spec_addr(k))
                } else {
                    pre[k]
                }),
        decreases n - j,
    {
        match checker.check() {
            Err(e) => {
                return Err(e);
            },
            Ok(()) => {},
        }
        let a = region.addr(lo + j);
        region.write(lo + j, a);
        j = j + 1;
    }

    let mut j: usize = 0;
    while j < n
        invariant
            j <= n,
            lo + n <= region.spec_len(),
            region.wf(),
            pre == old(region).vals(),
            faults == old(region).faults(),
            region.spec_len() == pre.len(),
            region.faults() == faults,
            region.base_addr() == old(region).base_addr(),
            checker.wf(),
            checker.expected() == expected,
            checker.spec_deadline() == old(checker).spec_deadline(),
            expected == (n as int) * 2,
            checker.completed() == n + j,
            forall|k: int|
                0 <= k < pre.len() ==> #[trigger] region.vals()[k] == (if lo <= k < lo + n {
                    stored(faults[k], region.spec_addr(k))
                } else {
                    pre[k]
                }),
            forall|k: int|
                0 <= k < j ==> #[trigger] region.vals()[lo + k] == region.spec_addr(lo + k),
        decreases n - j,
    {
        match checker.check() {
            Err(e) => {
                return Err(e);
            },
            Ok(()) => {},
        }
        let a = region.addr(lo + j);
        let actual = region.read(lo + j);
        if actual != a {
            proof {
                assert forall|jj: int|
                    0 <= jj < j implies #[trigger] stored(
                    old(region).faults()[lo + jj],
                    old(region).spec_addr(lo + jj),
                ) == old(region).spec_addr(lo + jj) by {
                    assert(region.vals()[lo + jj] == region.spec_addr(lo + jj));
                    assert(region.vals()[lo + jj] == stored(
                        faults[lo + jj],
                        region.spec_addr(lo + jj),
                    ));
                }
                assert(region.vals()[lo + j] == stored(
                    faults[lo + j],
                    region.spec_addr(lo + j),
                ));
                assert(own_basic_first_fail(
                    *old(region),
                    lo as int,
                    j as int,
                    MemtestFailure::UnexpectedValue { address: a, expected: a, actual },
                ));
            }
            return Ok(MemtestOutcome::Fail(MemtestFailure::UnexpectedValue {
                address: a,
                expected: a,
                actual,
            }));
        }
        j = j + 1;
    }
    Ok(MemtestOutcome::Pass)
}

/// Write the address of each cell of the region to the cell itself, then
/// read every cell back and check it holds its own address, reporting the
/// first cell that does not.
#[verifier::rlimit(100)]
#[verifier::spinoff_prover]
pub fn test_own_address_basic(region: &mut Region, checker: &mut TimeoutChecker) -> (r: Result<
    MemtestOutcome,
    MemtestError,
>)
    requires
        old(region).wf(),
        old(checker).wf(),
    ensures
        final(region).wf(),
        final(region).spec_len() == old(region).spec_len(),
        final(region).faults() == old(region).faults(),
        final(region).base_addr() == old(region).base_addr(),
        final(checker).wf(),
        r == Err::<MemtestOutcome, MemtestError>(
            MemtestError::Other(ErrorCause::IterationCountOverflow),
        ) <==> (old(region).spec_len() as int) * 2 > u64::MAX,
        (old(region).spec_len() as int) * 2 > u64::MAX ==> final(region).vals() == old(region).vals(),
        r is Err ==> r == Err::<MemtestOutcome, MemtestError>(MemtestError::Timeout) || r
            == Err::<MemtestOutcome, MemtestError>(
            MemtestError::Other(ErrorCause::IterationCountOverflow),
        ),
        old(region).sound_in(0, old(region).spec_len() as int) ==> !(r matches Ok(
            MemtestOutcome::Fail(_),
        )),
        r == Ok::<MemtestOutcome, MemtestError>(MemtestOutcome::Pass)
            ==> final(checker).completed() == (old(region).spec_len() as int) * 2 && (forall|
            j: int,
        |
            0 <= j < old(region).spec_len() ==> #[trigger] final(region).vals()[j] == old(
                region,
            ).spec_addr(j)) && (forall|j: int|
            0 <= j < old(region).spec_len() ==> ((#[trigger] old(region).faults()[j])
                matches Option::Some(s) ==> s == old(region).spec_addr(j))),
        r matches Ok(MemtestOutcome::Fail(f)) ==> exists|j: int|
            0 <= j < old(region).spec_len() && #[trigger] own_basic_first_fail(
                *old(region),
                0,
                j,
                f,
            ),
{
    let n = region.len();
    let r = own_address_basic_run(region, 0, n, checker);
    proof {
        if r == Ok::<MemtestOutcome, MemtestError>(MemtestOutcome::Pass) {
            assert forall|j: int|
                0 <= j < n implies #[trigger] region.vals()[j] == old(region).spec_addr(j) by {
                assert(region.vals()[0 + j] == old(region).spec_addr(0 + j));
            }
            assert forall|j: int|
                0 <= j < n implies ((#[trigger] old(region).faults()[j]) matches Option::Some(s)
                ==> s == old(region).spec_addr(j)) by {
                assert((old(region).faults()[0 + j]) matches Option::Some(s) ==> s == old(
                    region,
                ).spec_addr(0 + j));
            }
        }
        match r {
            Ok(MemtestOutcome::Fail(f)) => {
                assert(exists|j: int|
                    0 <= j < n && #[trigger] own_basic_first_fail(*old(region), 0, j, f));
            },
            _ => {},
        }
    }
    r
}

/// The value run `i` of the repeated own-address test writes to cell
/// `lo + j`: the cell's address when `i + j` is even, its complement when
/// odd.
pub open spec fn own_rep_expected(region: Region, lo: int, i: int, j: int) -> usize {
    if (i + j) % 2 == 0 {
        region.spec_addr(lo + j)
    } else {
        !region.spec_addr(lo + j)
    }
}

/// In run `i`, cell `lo + j` read back a value other than the one written,
/// and `f` is the record the repeated own-address test reports for it.
pub open spec fn own_repeat_fail(region: Region, lo: int, i: int, j: int, f: MemtestFailure) -> bool {
    &&& stored(region.faults()[lo + j], own_rep_expected(region, lo, i, j)) != own_rep_expected(
        region,
        lo,
        i,
        j,
    )
    &&& f == (MemtestFailure::UnexpectedValue {
        address: region.spec_addr(lo + j),
        expected: own_rep_expected(region, lo, i, j),
        actual: stored(region.faults()[lo + j], own_rep_expected(region, lo, i, j)),
    })
}

/// No word equals its own complement.
proof fn lemma_complement_differs(x: usize)
    ensures
        x != !x,
{
    assert(x != !x) by (bit_vector);
}

/// Sixteen runs over `[lo, lo + n)`. Run `i` writes to each cell its address
/// when `i + j` is even and the address's complement when odd, then reads
/// every cell back and checks it, reporting the first cell that disagrees.
/// A region that passes all sixteen runs is sound in the window: a cell
/// stuck at any value fails the run that expects the other polarity.
pub fn own_address_repeat_run(
    region: &mut Region,
    lo: usize,
    n: usize,
    checker: &mut TimeoutChecker,
) -> (r: Result<MemtestOutcome, MemtestError>)
    requires
        old(region).wf(),
        lo + n <= old(region).spec_len(),
        old(checker).wf(),
    ensures
        final(region).wf(),
        final(region).spec_len() == old(region).spec_len(),
        final(region).faults() == old(region).faults(),
        final(region).base_addr() == old(region).base_addr(),
        final(checker).wf(),
        final(checker).spec_deadline() == old(checker).spec_deadline(),
        r == Err::<MemtestOutcome, MemtestError>(
            MemtestError::Other(ErrorCause::IterationCountOverflow),
        ) <==> (n as int) * 32 > u64::MAX,
        (n as int) * 32 > u64::MAX ==> final(region).vals() == old(region).vals(),
        r is Err ==> r == Err::<MemtestOutcome, MemtestError>(MemtestError::Timeout) || r
            == Err::<MemtestOutcome, MemtestError>(
            MemtestError::Other(ErrorCause::IterationCountOverflow),
        ),
        old(region).sound_in(lo as int, n as int) ==> !(r matches Ok(MemtestOutcome::Fail(_))),
        r == Ok::<MemtestOutcome, MemtestError>(MemtestOutcome::Pass)
            ==> final(checker).completed() == (n as int) * 32 && (forall|j: int|
            0 <= j < n ==> #[trigger] final(region).vals()[lo + j] == stored(
                old(region).faults()[lo + j],
                own_rep_expected(*old(region), lo as int, 15, j),
            )) && old(region).sound_in(lo as int, n as int) && (forall|k: int|
            0 <= k < old(region).spec_len() && !(lo <= k < lo + n)
                ==> #[trigger] final(region).vals()[k] == old(region).vals()[k]),
        r matches Ok(MemtestOutcome::Fail(f)) ==> exists|i: int, j: int|
            0 <= i < 16 && 0 <= j < n && #[trigger] own_repeat_fail(
                *old(region),
                lo as int,
                i,
                j,
                f,
            ),
{
    let expected: u64 = match (n as u64).checked_mul(32) {
        Option::None => {
            return Err(MemtestError::Other(ErrorCause::IterationCountOverflow));
        },
        Option::Some(e) => e,
    };
    checker.init(expected);

    let ghost pre = region.vals();
    let ghost faults = region.faults();
    let mut i: u64 = 0;
    proof {
        assert(i * (2 * (n as int)) == 0) by (nonlinear_arith)
            requires
                i == 0,
        ;
    }
    while i < 16
        invariant
            i <= 16,
            lo + n <= region.spec_len(),
            region.wf(),
            pre == old(region).vals(),
            faults == old(region).faults(),
            region.spec_len() == pre.len(),
            region.faults() == faults,
            region.base_addr() == old(region).base_addr(),
            checker.wf(),
            checker.expected() == expected,
            checker.spec_deadline() == old(checker).spec_deadline(),
            expected == (n as int) * 32,
            checker.completed() == i * (2 * (n as int)),
            forall|k: int|
                0 <= k < pre.len() && !(lo <= k < lo + n) ==> #[trigger] region.vals()[k]
                    == pre[k],
            i > 0 ==> forall|j: int|
                0 <= j < n ==> #[trigger] region.vals()[lo + j] == stored(
                    faults[lo + j],
                    own_rep_expected(*old(region), lo as int, i - 1, j),
                ),
            forall|i2: int, j: int|
                0 <= i2 < i && 0 <= j < n ==> #[trigger] stored(
                    faults[lo + j],
                    own_rep_expected(*old(region), lo as int, i2, j),
                ) == own_rep_expected(*old(region), lo as int, i2, j),
        decreases 16 - i,
    {
        proof {
            assert(checker.completed() + 2 * (n as int) <= expected && checker.completed() + 2 * (
            n as int) == (i + 1) * (2 * (n as int))) by (nonlinear_arith)
                requires
                    checker.completed() == i * (2 * (n as int)),
                    expected == (n as int) * 32,
                    0 <= i < 16,
                    n >= 0,
            ;
        }
        let ghost run_pre = region.vals();
        let ghost done = checker.completed();
        let mut j: usize = 0;
        while j < n
            invariant
                j <= n,
                i < 16,
                lo + n <= region.spec_len(),
                region.wf(),
                pre == old(region).vals(),
                faults == old(region).faults(),
                region.spec_len() == pre.len(),
                region.faults() == faults,
                region.base_addr() == old(region).base_addr(),
                checker.wf(),
                checker.expected() == expected,
                checker.spec_deadline() == old(checker).spec_deadline(),
                expected == (n as int) * 32,
                done + 2 * (n as int) <= expected,
                checker.completed() == done + j,
                forall|k: int|
                    0 <= k < pre.len() && !(lo <= k < lo + n) ==> #[trigger] region.vals()[k]
                        == pre[k],
                forall|k: int|
                    lo + j <= k < lo + n ==> #[trigger] region.vals()[k] == run_pre[k],
                forall|k: int|
                    0 <= k < j ==> #[trigger] region.vals()[lo + k] == stored(
                        faults[lo + k],
                        own_rep_expected(*old(region), lo as int, i as int, k),
                    ),
            decreases n - j,
        {
            match checker.check() {
                Err(e) => {
                    return Err(e);
                },
                Ok(()) => {},
            }
            let a = region.addr(lo + j);
            let val = if (i % 2 == 0) == (j % 2 == 0) {
                a
            } else {
                !a
            };
            proof {
                assert(((i as int) % 2 == (j as int) % 2) <==> ((i as int) + (j as int)) % 2
                    == 0) by (nonlinear_arith)
                    requires
                        i >= 0,
                        j >= 0,
                ;
            }
            region.write(lo + j, val);
            j = j + 1;
        }

        let mut j: usize = 0;
        while j < n
            invariant
                j <= n,
                i < 16,
                lo + n <= region.spec_len(),
                region.wf(),
                pre == old(region).vals(),
                faults == old(region).faults(),
                region.spec_len() == pre.len(),
                region.faults() == faults,
                region.base_addr() == old(region).base_addr(),
                checker.wf(),
                checker.expected() == expected,
                checker.spec_deadline() == old(checker).spec_deadline(),
                expected == (n as int) * 32,
                done + 2 * (n as int) <= expected,
                checker.completed() == done + n + j,
                forall|k: int|
                    0 <= k < pre.len() && !(lo <= k < lo + n) ==> #[trigger] region.vals()[k]
                        == pre[k],
                forall|k: int|
                    0 <= k < n ==> #[trigger] region.vals()[lo + k] == stored(
                        faults[lo + k],
                        own_rep_expected(*old(region), lo as int, i as int, k),
                    ),
                forall|k: int|
                    0 <= k < j ==> #[trigger] region.vals()[lo + k] == own_rep_expected(
                        *old(region),
                        lo as int,
                        i as int,
                        k,
                    ),
            decreases n - j,
        {
            match checker.check() {
                Err(e) => {
                    return Err(e);
                },
                Ok(()) => {},
            }
            let a = region.addr(lo + j);
            let expected_val = if (i % 2 == 0) == (j % 2 == 0) {
                a
            } else {
                !a
            };
            proof {
                assert(((i as int) % 2 == (j as int) % 2) <==> ((i as int) + (j as int)) % 2
                    == 0) by (nonlinear_arith)
                    requires
                        i >= 0,
                        j >= 0,
                ;
            }
            let actual = region.read(lo + j);
            if actual != expected_val {
                proof {
                    assert(own_repeat_fail(
                        *old(region),
                        lo as int,
                        i as int,
                        j as int,
                        MemtestFailure::UnexpectedValue {
                            address: a,
                            expected: expected_val,
                            actual,
                        },
                    ));
                }
                return Ok(MemtestOutcome::Fail(MemtestFailure::UnexpectedValue {
                    address: a,
                    expected: expected_val,
                    actual,
                }));
            }
            j = j + 1;
        }
        i = i + 1;
    }
    proof {
        assert(checker.completed() == (n as int) * 32) by (nonlinear_arith)
            requires
                checker.completed() == i * (2 * (n as int)),
                i == 16,
        ;
        assert forall|k: int|
            lo <= k < lo + n implies (#[trigger] old(region).faults()[k]) is None by {
            let j = k - lo;
            assert(stored(faults[lo + j], own_rep_expected(*old(region), lo as int, 0, j))
                == own_rep_expected(*old(region), lo as int, 0, j));
            assert(stored(faults[lo + j], own_rep_expected(*old(region), lo as int, 1, j))
                == own_rep_expected(*old(region), lo as int, 1, j));
            match old(region).faults()[k] {
                Option::None => {},
                Option::Some(sv) => {
                    assert((0 + j) % 2 != (1 + j) % 2);
                    lemma_complement_differs(old(region).spec_addr(lo + j));
                    assert(false);
                },
            }
        }
        assert(old(region).sound_in(lo as int, n as int));
    }
    Ok(MemtestOutcome::Pass)
}

/// Sixteen runs that write to each cell its address or the address's
/// complement (alternating by run and cell parity) and read every cell
/// back. A region that passes is sound: a stuck cell fails the run that
/// expects the other polarity.
#[verifier::rlimit(100)]
#[verifier::spinoff_prover]
pub fn test_own_address_repeat(region: &mut Region, checker: &mut TimeoutChecker) -> (r: Result<
    MemtestOutcome,
    MemtestError,
>)
    requires
        old(region).wf(),
        old(checker).wf(),
    ensures
        final(region).wf(),
        final(region).spec_len() == old(region).spec_len(),
        final(region).faults() == old(region).faults(),
        final(region).base_addr() == old(region).base_addr(),
        final(checker).wf(),
        r == Err::<MemtestOutcome, MemtestError>(
            MemtestError::Other(ErrorCause::IterationCountOverflow),
        ) <==> (old(region).spec_len() as int) * 32 > u64::MAX,
        (old(region).spec_len() as int) * 32 > u64::MAX ==> final(region).vals() == old(region).vals(),
        r is Err ==> r == Err::<MemtestOutcome, MemtestError>(MemtestError::Timeout) || r
            == Err::<MemtestOutcome, MemtestError>(
            MemtestError::Other(ErrorCause::IterationCountOverflow),
        ),
        old(region).sound_in(0, old(region).spec_len() as int) ==> !(r matches Ok(
            MemtestOutcome::Fail(_),
        )),
        r == Ok::<MemtestOutcome, MemtestError>(MemtestOutcome::Pass)
            ==> final(checker).completed() == (old(region).spec_len() as int) * 32 && old(
            region,
        ).sound_in(0, old(region).spec_len() as int) && (forall|j: int|
            0 <= j < old(region).spec_len() ==> #[trigger] final(region).vals()[j] == stored(
                old(region).faults()[j],
                own_rep_expected(*old(region), 0, 15, j),
            )),
        r matches Ok(MemtestOutcome::Fail(f)) ==> exists|i: int, j: int|
            0 <= i < 16 && 0 <= j < old(region).spec_len() && #[trigger] own_repeat_fail(
                *old(region),
                0,
                i,
                j,
                f,
            ),
{
    let n = region.len();
    let r = own_address_repeat_run(region, 0, n, checker);
    proof {
        if r == Ok::<MemtestOutcome, MemtestError>(MemtestOutcome::Pass) {
            assert forall|j: int|
                0 <= j < n implies #[trigger] region.vals()[j] == stored(
                old(region).faults()[j],
                own_rep_expected(*old(region), 0, 15, j),
            ) by {
                assert(region.vals()[0 + j] == stored(
                    old(region).faults()[0 + j],
                    own_rep_expected(*old(region), 0, 15, j),
                ));
            }
        }
        match r {
            Ok(MemtestOutcome::Fail(f)) => {
                assert(exists|i: int, j: int|
                    0 <= i < 16 && 0 <= j < n && #[trigger] own_repeat_fail(
                        *old(region),
                        0,
                        i,
                        j,
                        f,
                    ));
            },
            _ => {},
        }
    }
    r
}

} // verus!
