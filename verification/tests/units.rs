use std::str::FromStr;

use rust_memtester::locking::shrink_step;

use rust_memtester::memtest::compare_regions;
use rust_memtester::memtest::mem_reset;
use rust_memtester::memtest::op_write_pass;
use rust_memtester::memtest::test_block_seq;
use rust_memtester::memtest::test_solid_bits;
use rust_memtester::memtest::test_xor;
use rust_memtester::memtest::TwoRegionOp;
use rust_memtester::plan_partition;
use rust_memtester::reduce_outcomes;
use rust_memtester::working_set_request;
use rust_memtester::all_test_kinds_vec;
use rust_memtester::ErrorCause;
use rust_memtester::MemLockMode;
use rust_memtester::MemtestError;
use rust_memtester::MemtestFailure;
use rust_memtester::MemtestKind;
use rust_memtester::MemtestOutcome;
use rust_memtester::Memtester;
use rust_memtester::MemtesterArgs;
use rust_memtester::MemtestReport;
use rust_memtester::MemtestReportList;
use rust_memtester::ParseMemLockModeError;
use rust_memtester::Region;
use rust_memtester::TimeoutChecker;

fn report(kind: MemtestKind, outcome: Result<MemtestOutcome, MemtestError>) -> MemtestReport {
    MemtestReport { test_type: kind, outcome }
}

fn fail_record(n: usize) -> MemtestFailure {
    MemtestFailure::UnexpectedValue { address: n, expected: 0, actual: 1 }
}

#[test]
fn all_pass_is_conjunction_over_reports() {
    let pass = report(MemtestKind::Xor, Ok(MemtestOutcome::Pass));
    let fail = report(
        MemtestKind::Sub,
        Ok(MemtestOutcome::Fail(fail_record(8))),
    );
    let timeout = report(MemtestKind::Mul, Err(MemtestError::Timeout));

    let empty = MemtestReportList { tested_men_len: 0, mlocked: false, reports: vec![] };
    assert!(empty.all_pass());

    let good = MemtestReportList { tested_men_len: 512, mlocked: false, reports: vec![pass, pass] };
    assert!(good.all_pass());
    assert_eq!(good.iter().len(), 2);

    let with_fail =
        MemtestReportList { tested_men_len: 512, mlocked: false, reports: vec![pass, fail] };
    assert!(!with_fail.all_pass());

    let with_timeout =
        MemtestReportList { tested_men_len: 512, mlocked: true, reports: vec![timeout, pass] };
    assert!(!with_timeout.all_pass());
}

#[test]
fn reduction_priority_order() {
    let pass: Result<MemtestOutcome, MemtestError> = Ok(MemtestOutcome::Pass);
    let fail_a = Ok(MemtestOutcome::Fail(fail_record(1)));
    let fail_b = Ok(MemtestOutcome::Fail(fail_record(2)));
    let timeout: Result<MemtestOutcome, MemtestError> = Err(MemtestError::Timeout);
    let other: Result<MemtestOutcome, MemtestError> =
        Err(MemtestError::Other(ErrorCause::ThreadPanicked));

    assert_eq!(reduce_outcomes(&vec![pass, pass, pass]), pass);
    assert_eq!(reduce_outcomes(&vec![pass, fail_a, pass]), fail_a);
    assert_eq!(reduce_outcomes(&vec![fail_a, fail_b]), fail_a);
    assert_eq!(reduce_outcomes(&vec![fail_a, timeout, pass]), timeout);
    assert_eq!(reduce_outcomes(&vec![timeout, fail_a, other]), other);
    assert_eq!(reduce_outcomes(&vec![pass, timeout]), timeout);
    assert_eq!(reduce_outcomes(&vec![]), pass);
}

#[test]
fn partition_caps_workers_at_region_words() {
    // more CPUs than words: one worker per word
    assert_eq!(plan_partition(8, 4), (4, 1));
    // more words than CPUs: equal chunks, remainder untested
    assert_eq!(plan_partition(4, 1000), (4, 250));
    assert_eq!(plan_partition(3, 1000), (3, 333));
    assert_eq!(plan_partition(1, 7), (1, 7));
}

#[test]
fn two_region_tests_reject_single_word_region() {
    let mut region = Region::new_zeroed(1, 0x1000);
    let mut checker = TimeoutChecker::new(u64::MAX);
    let r = test_xor(&mut region, &mut checker);
    assert!(matches!(
        r,
        Err(MemtestError::Other(ErrorCause::InsufficientMemoryLengthTwoRegions))
    ));
    let mut checker2 = TimeoutChecker::new(u64::MAX);
    let r2 = rust_memtester::memtest::test_random_val(&mut region, &mut checker2);
    assert!(matches!(
        r2,
        Err(MemtestError::Other(ErrorCause::InsufficientMemoryLengthTwoRegions))
    ));
    // the rejected region is untouched
    assert_eq!(region.read(0), 0);
}

#[test]
fn lock_mode_parses_its_three_tokens() {
    assert_eq!(MemLockMode::from_str("resizable"), Ok(MemLockMode::Resizable));
    assert_eq!(MemLockMode::from_str("fixedsize"), Ok(MemLockMode::FixedSize));
    assert_eq!(MemLockMode::from_str("disabled"), Ok(MemLockMode::Disabled));
    assert_eq!(MemLockMode::from_str("bogus"), Err(ParseMemLockModeError));
    assert_eq!(MemLockMode::from_str(""), Err(ParseMemLockModeError));
}

#[test]
fn working_set_request_doubles_and_quadruples() {
    assert_eq!(working_set_request(1024), (2048, 4096));
    assert_eq!(working_set_request(usize::MAX / 2 + 1), (usize::MAX, usize::MAX));
    assert_eq!(working_set_request(0), (0, 0));
}

#[test]
fn random_order_holds_every_kind_once() {
    let args = MemtesterArgs {
        timeout: 60_000_000_000,
        mem_lock_mode: MemLockMode::Disabled,
        allow_working_set_resize: false,
        allow_multithread: false,
        allow_early_termination: false,
    };
    let tester = Memtester::all_tests_random_order(&args);
    let mut region = Region::new_zeroed(512, 0x1000);
    let list = tester.run(&mut region).expect("run should succeed");
    assert_eq!(list.reports.len(), 13);
    for kind in all_test_kinds_vec() {
        let count = list
            .iter()
            .iter()
            .filter(|rep| rep.test_type == kind)
            .count();
        assert_eq!(count, 1, "kind {:?} should appear exactly once", kind);
    }
}

#[test]
fn mem_reset_sets_sound_cells_to_all_ones() {
    let mut region = Region::new_zeroed(16, 0x1000);
    region.poison(5, 7);
    mem_reset(&mut region, 0, 16);
    for i in 0..16 {
        if i == 5 {
            assert_eq!(region.read(i), 7);
        } else {
            assert_eq!(region.read(i), usize::MAX);
        }
    }
}

#[test]
fn compare_regions_reports_first_mismatch() {
    let words = vec![1, 2, 3, 4, 1, 9, 9, 4];
    let mut region = Region::from_words(words, 0x1000);
    let mut checker = TimeoutChecker::new(u64::MAX);
    checker.init(4);
    let r = compare_regions(&mut region, 0, 4, 4, &mut checker);
    match r {
        Ok(MemtestOutcome::Fail(MemtestFailure::MismatchedValues {
            address1,
            value1,
            address2,
            value2,
        })) => {
            assert_eq!(address1, region.addr(1));
            assert_eq!(value1, 2);
            assert_eq!(address2, region.addr(5));
            assert_eq!(value2, 9);
        }
        ref other => panic!("unexpected outcome: {:?}", other),
    }
}

#[test]
fn compare_regions_passes_on_equal_halves() {
    let words = vec![1, 2, 3, 4, 1, 2, 3, 4];
    let mut region = Region::from_words(words, 0x1000);
    let mut checker = TimeoutChecker::new(u64::MAX);
    checker.init(4);
    let r = compare_regions(&mut region, 0, 4, 4, &mut checker);
    assert!(matches!(r, Ok(MemtestOutcome::Pass)));
}

#[test]
fn xor_pass_twice_restores_all_ones() {
    let n = 64;
    let half = n / 2;
    let mut region = Region::new_zeroed(n, 0x1000);
    mem_reset(&mut region, 0, n);
    let mut vals = Vec::new();
    for i in 0..half {
        vals.push(0x0123_4567_89ab_cdef ^ i);
    }
    let mut checker = TimeoutChecker::new(u64::MAX);
    checker.init(2 * half as u64);
    op_write_pass(&mut region, 0, half, &vals, TwoRegionOp::Xor, &mut checker)
        .expect("no timeout");
    let mut checker2 = TimeoutChecker::new(u64::MAX);
    checker2.init(2 * half as u64);
    op_write_pass(&mut region, 0, half, &vals, TwoRegionOp::Xor, &mut checker2)
        .expect("no timeout");
    for i in 0..n {
        assert_eq!(region.read(i), usize::MAX);
    }
}

#[test]
fn solid_bits_leaves_alternating_final_state() {
    let mut region = Region::new_zeroed(64, 0x1000);
    let mut checker = TimeoutChecker::new(u64::MAX);
    let r = test_solid_bits(&mut region, &mut checker);
    assert!(matches!(r, Ok(MemtestOutcome::Pass)));
    // the last run starts from all-ones and toggles before each pair
    for j in 0..32 {
        let want = if j % 2 == 0 { 0 } else { usize::MAX };
        assert_eq!(region.read(j), want);
        assert_eq!(region.read(32 + j), want);
    }
}

#[test]
fn block_seq_leaves_all_ones() {
    let mut region = Region::new_zeroed(64, 0x1000);
    let mut checker = TimeoutChecker::new(u64::MAX);
    let r = test_block_seq(&mut region, &mut checker);
    assert!(matches!(r, Ok(MemtestOutcome::Pass)));
    // the final run writes the word whose every byte is 255
    for j in 0..64 {
        assert_eq!(region.read(j), usize::MAX);
    }
}

#[test]
fn addresses_stride_by_word_bytes() {
    let region = Region::new_zeroed(8, 0x1000);
    assert_eq!(region.addr(0), 0x1000);
    assert_eq!(region.addr(1), 0x1000 + rust_memtester::WORD_BYTES);
    assert_eq!(region.addr(7), 0x1000 + 7 * rust_memtester::WORD_BYTES);
}

#[test]
fn checker_judges_instants_against_the_deadline() {
    // the first eight checks stay on the hot path and never read the clock
    let mut checker = TimeoutChecker::new(1000);
    checker.init(100);
    for _ in 0..8 {
        assert!(checker.check().is_ok());
    }
    let mut at_deadline = checker;
    assert!(matches!(at_deadline.check_at(1000), Err(MemtestError::Timeout)));
    let mut past_deadline = checker;
    assert!(matches!(past_deadline.check_at(5000), Err(MemtestError::Timeout)));
    let mut in_time = checker;
    assert!(in_time.check_at(999).is_ok());
}

#[test]
fn decimal_renders_exact_digits() {
    assert_eq!(rust_memtester::display::decimal(0), "0");
    assert_eq!(rust_memtester::display::decimal(7), "7");
    assert_eq!(rust_memtester::display::decimal(907), "907");
    assert_eq!(rust_memtester::display::decimal(usize::MAX), "18446744073709551615");
}

#[test]
fn report_list_renders_header_and_aligned_lines() {
    let list = MemtestReportList {
        tested_men_len: 512,
        mlocked: false,
        reports: vec![
            report(MemtestKind::Xor, Ok(MemtestOutcome::Pass)),
            report(MemtestKind::BlockSeq, Err(MemtestError::Timeout)),
        ],
    };
    let expected = "tested_mem_len = 512\nmlocked = false\nRan Test: Xor                 Pass\nRan Test: BlockSeq            Error: timeout\n";
    assert_eq!(list.render(), expected);
}

#[test]
fn errors_describe_their_cause() {
    assert_eq!(MemtestError::Timeout.describe(), "Error: timeout");
    assert_eq!(
        MemtestError::Other(ErrorCause::IterationCountOverflow).describe(),
        "Error: total number of iterations overflowed"
    );
    assert_eq!(
        rust_memtester::MemtesterError::MemLockFailed(ErrorCause::LockQuotaExceeded).describe(),
        "MemLockFailed: failed to lock requested memory size"
    );
    let fail = MemtestFailure::MismatchedValues {
        address1: 8,
        value1: 1,
        address2: 16,
        value2: 2,
    };
    assert_eq!(
        fail.describe(),
        "Fail: address 8 value 1 differs from address 16 value 2"
    );
}

#[test]
fn shrink_step_clamps_to_limit_and_drops_a_page() {
    // a page below, when the limit is roomy
    assert_eq!(shrink_step(1000, 512, u64::MAX), Some(488));
    // the memory-lock limit caps the first shrink
    assert_eq!(shrink_step(1000, 512, 100), Some(100));
    // shrinking to zero words ends the retry loop
    assert_eq!(shrink_step(512, 512, u64::MAX), None);
    assert_eq!(shrink_step(100, 512, u64::MAX), None);
    assert_eq!(shrink_step(1000, 512, 0), None);
}
