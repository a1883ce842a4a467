use vstd::prelude::*;

verus! {

use crate::MemtestReportList;
use crate::memtest::MemtestError;
use crate::memtest::MemtestKind;
use crate::memtest::MemtestOutcome;
use crate::memtest::TwoRegionOp;
use crate::memtest::op_written;
use crate::outcome_is_fail;

proof fn lemma_xor_cancels(x: usize, v: usize)
    ensures
        (x ^ v) ^ v == x,
{
    assert((x ^ v) ^ v == x) by (bit_vector);
}

/// An XOR pass is an involution: applying the pass a second time with the
/// same words returns a sound window to the state it had before the first
/// pass. This is why the comparison step of the XOR test observes identical
/// halves: both halves start equal after the reset and each pair receives
/// the same word twice.
pub proof fn lemma_xor_pass_involution(
    pre: Seq<usize>,
    faults: Seq<Option<usize>>,
    lo: int,
    half: int,
    vs: Seq<usize>,
)
    requires
        0 <= lo,
        0 <= half,
        lo + 2 * half <= pre.len(),
        vs.len() >= half,
        forall|i: int| lo <= i < lo + 2 * half ==> (#[trigger] faults[i]) is None,
    ensures
        op_written(
            op_written(pre, faults, lo, half, vs, TwoRegionOp::Xor),
            faults,
            lo,
            half,
            vs,
            TwoRegionOp::Xor,
        ) =~= pre,
{
    let once = op_written(pre, faults, lo, half, vs, TwoRegionOp::Xor);
    let twice = op_written(once, faults, lo, half, vs, TwoRegionOp::Xor);
    assert forall|k: int| 0 <= k < pre.len() implies #[trigger] twice[k] == pre[k] by {
        if lo <= k < lo + half {
            assert(faults[k] is None);
            lemma_xor_cancels(pre[k], vs[k - lo]);
        } else if lo + half <= k < lo + 2 * half {
            assert(faults[k] is None);
            lemma_xor_cancels(pre[k], vs[k - lo - half]);
        }
    }
}

/// Two completed runs of the same suite over a sound region agree: when no
/// report of either run is an error, every report of both runs is a pass,
/// so the outcomes pair up by position regardless of the random words each
/// run drew.
pub proof fn lemma_runs_agree_on_sound_region(
    kinds: Seq<MemtestKind>,
    l1: MemtestReportList,
    l2: MemtestReportList,
)
    requires
        l1.reports@.len() == kinds.len(),
        l2.reports@.len() == kinds.len(),
        forall|k: int|
            0 <= k < kinds.len() ==> (#[trigger] l1.reports@[k]).test_type == kinds[k],
        forall|k: int|
            0 <= k < kinds.len() ==> (#[trigger] l2.reports@[k]).test_type == kinds[k],
        forall|k: int|
            0 <= k < kinds.len() ==> !outcome_is_fail((#[trigger] l1.reports@[k]).outcome),
        forall|k: int|
            0 <= k < kinds.len() ==> !outcome_is_fail((#[trigger] l2.reports@[k]).outcome),
        forall|k: int| 0 <= k < kinds.len() ==> ((#[trigger] l1.reports@[k]).outcome) is Ok,
        forall|k: int| 0 <= k < kinds.len() ==> ((#[trigger] l2.reports@[k]).outcome) is Ok,
    ensures
        forall|k: int|
            0 <= k < kinds.len() ==> (#[trigger] l1.reports@[k]).outcome == l2.reports@[k].outcome
                && l1.reports@[k].test_type == l2.reports@[k].test_type,
{
    assert forall|k: int|
        0 <= k < kinds.len() implies (#[trigger] l1.reports@[k]).outcome
        == l2.reports@[k].outcome && l1.reports@[k].test_type == l2.reports@[k].test_type by {
        match l1.reports@[k].outcome {
            Ok(MemtestOutcome::Pass) => {},
            Ok(MemtestOutcome::Fail(_)) => {
                assert(outcome_is_fail(l1.reports@[k].outcome));
            },
            Err(_) => {},
        }
        match l2.reports@[k].outcome {
            Ok(MemtestOutcome::Pass) => {},
            Ok(MemtestOutcome::Fail(_)) => {
                assert(outcome_is_fail(l2.reports@[k].outcome));
            },
            Err(_) => {},
        }
        assert(l1.reports@[k].outcome == Ok::<MemtestOutcome, MemtestError>(MemtestOutcome::Pass));
        assert(l2.reports@[k].outcome == Ok::<MemtestOutcome, MemtestError>(MemtestOutcome::Pass));
    }
}

} // verus!
