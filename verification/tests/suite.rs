use rust_memtester::all_test_kinds_vec;
use rust_memtester::ErrorCause;
use rust_memtester::MemLockMode;
use rust_memtester::MemtestError;
use rust_memtester::MemtestFailure;
use rust_memtester::MemtestKind;
use rust_memtester::MemtestOutcome;
use rust_memtester::Memtester;
use rust_memtester::MemtesterArgs;
use rust_memtester::MemtesterError;
use rust_memtester::Region;
use rust_memtester::TimeoutChecker;

const SECOND_NS: u64 = 1_000_000_000;

fn args_single(timeout: u64, early: bool) -> MemtesterArgs {
    MemtesterArgs {
        timeout,
        mem_lock_mode: MemLockMode::Disabled,
        allow_working_set_resize: false,
        allow_multithread: false,
        allow_early_termination: early,
    }
}

#[test]
fn happy_path_single_threaded() {
    let mut region = Region::new_zeroed(4096, 0x1000);
    let tester = Memtester::from_test_types(&args_single(60 * SECOND_NS, false), all_test_kinds_vec());
    let list = tester.run(&mut region).expect("run should succeed");
    assert!(list.all_pass());
    assert!(!list.mlocked);
    assert_eq!(list.tested_men_len, 4096);
    assert_eq!(list.reports.len(), 13);
    // the region is still usable by the caller once the run is over
    assert_eq!(region.len(), 4096);
}

#[test]
fn fault_injection_own_address_basic() {
    let mut region = Region::new_zeroed(512, 0x8000);
    let addr100 = region.addr(100);
    region.poison(100, !addr100);

    let tester = Memtester::from_test_types(
        &args_single(60 * SECOND_NS, false),
        vec![MemtestKind::OwnAddressBasic],
    );
    let list = tester.run(&mut region).expect("run should succeed");
    assert_eq!(list.reports.len(), 1);
    match list.reports[0].outcome {
        Ok(MemtestOutcome::Fail(MemtestFailure::UnexpectedValue { address, expected, actual })) => {
            assert_eq!(address, addr100);
            assert_eq!(expected, addr100);
            assert_eq!(actual, !addr100);
        }
        ref other => panic!("unexpected outcome: {:?}", other),
    }
    assert!(!list.all_pass());
}

#[test]
fn fault_injection_two_region_pair_pass() {
    // A deterministic stream of pair words stands in for the random draw,
    // and word half + 7 is pinned to a value the stream does not use.
    let n = 1024;
    let half = n / 2;
    let mut region = Region::new_zeroed(n, 0x4000);
    let mut vals = Vec::new();
    for i in 0..half {
        vals.push(1000 + i);
    }
    region.poison(half + 7, 3);

    let mut checker = TimeoutChecker::new(u64::MAX);
    let r = rust_memtester::memtest::pair_pass(&mut region, 0, n, &vals, &mut checker);
    match r {
        Ok(MemtestOutcome::Fail(MemtestFailure::MismatchedValues {
            address1,
            value1,
            address2,
            value2,
        })) => {
            assert_eq!(address1, region.addr(7));
            assert_eq!(value1, 1000 + 7);
            assert_eq!(address2, region.addr(half + 7));
            assert_eq!(value2, 3);
        }
        ref other => panic!("unexpected outcome: {:?}", other),
    }
}

#[test]
fn timeout_block_seq() {
    // 1 MiB of words and a millisecond of budget: the suite must time out.
    let words = 1024 * 1024 / 8;
    let mut region = Region::new_zeroed(words, 0x100000);
    let tester = Memtester::from_test_types(
        &args_single(1_000_000, false),
        vec![MemtestKind::BlockSeq],
    );
    let list = tester.run(&mut region).expect("run should succeed");
    assert_eq!(list.reports.len(), 1);
    assert!(matches!(
        list.reports[0].outcome,
        Err(MemtestError::Timeout)
    ));
    assert!(!list.all_pass());
    // the region is still observable afterwards
    assert_eq!(region.len(), words);
}

#[test]
fn early_termination_stops_after_first_failure() {
    // A cell stuck at its own address passes OwnAddressBasic but fails
    // OwnAddressRepeat, which expects the complement in half of its runs.
    let mut region = Region::new_zeroed(512, 0x2000);
    let addr9 = region.addr(9);
    region.poison(9, addr9);

    let tester = Memtester::from_test_types(
        &args_single(60 * SECOND_NS, true),
        vec![
            MemtestKind::OwnAddressBasic,
            MemtestKind::OwnAddressRepeat,
            MemtestKind::RandomVal,
        ],
    );
    let list = tester.run(&mut region).expect("run should succeed");
    assert_eq!(list.reports.len(), 2);
    assert!(matches!(
        list.reports[0].outcome,
        Ok(MemtestOutcome::Pass)
    ));
    assert!(matches!(
        list.reports[1].outcome,
        Ok(MemtestOutcome::Fail(_))
    ));
}

#[test]
fn no_early_termination_runs_all_tests() {
    let mut region = Region::new_zeroed(512, 0x2000);
    let addr9 = region.addr(9);
    region.poison(9, addr9);

    let tester = Memtester::from_test_types(
        &args_single(60 * SECOND_NS, false),
        vec![
            MemtestKind::OwnAddressBasic,
            MemtestKind::OwnAddressRepeat,
            MemtestKind::RandomVal,
        ],
    );
    let list = tester.run(&mut region).expect("run should succeed");
    assert_eq!(list.reports.len(), 3);
    assert!(matches!(
        list.reports[1].outcome,
        Ok(MemtestOutcome::Fail(_))
    ));
}

#[test]
fn multithreaded_reduction_reports_faulted_chunk() {
    // 8 MiB of words, partitioned across workers; word 0 is pinned, so the
    // first chunk's compare must report a mismatch whose first address is
    // word 0.
    let words = 8 * 1024 * 1024 / 8;
    let mut region = Region::new_zeroed(words, 0x200000);
    region.poison(0, 0xdead);

    let mut args = args_single(120 * SECOND_NS, false);
    args.allow_multithread = true;
    let tester = Memtester::from_test_types(&args, vec![MemtestKind::RandomVal]);
    let list = tester.run(&mut region).expect("run should succeed");
    assert_eq!(list.reports.len(), 1);
    match list.reports[0].outcome {
        Ok(MemtestOutcome::Fail(MemtestFailure::MismatchedValues {
            address1, value1, ..
        })) => {
            assert_eq!(address1, region.addr(0));
            assert_eq!(value1, 0xdead);
        }
        ref other => panic!("unexpected outcome: {:?}", other),
    }
}

#[test]
fn insufficient_region_is_rejected() {
    let mut region = Region::new_zeroed(511, 0x1000);
    let tester = Memtester::from_test_types(&args_single(SECOND_NS, false), all_test_kinds_vec());
    let r = tester.run(&mut region);
    assert!(matches!(
        r,
        Err(MemtesterError::Other(ErrorCause::InsufficientMemoryLength))
    ));
}

#[test]
fn minimum_region_runs_to_completion() {
    let mut region = Region::new_zeroed(512, 0x1000);
    let tester = Memtester::from_test_types(&args_single(60 * SECOND_NS, false), all_test_kinds_vec());
    let list = tester.run(&mut region).expect("run should succeed");
    assert_eq!(list.reports.len(), 13);
    assert!(list.all_pass());
    assert_eq!(list.tested_men_len, 512);
}

#[test]
fn zero_timeout_times_every_test_out() {
    let mut region = Region::new_zeroed(4096, 0x1000);
    let tester = Memtester::from_test_types(&args_single(0, false), all_test_kinds_vec());
    let list = tester.run(&mut region).expect("run should succeed");
    assert_eq!(list.reports.len(), 13);
    for report in list.iter() {
        assert!(matches!(report.outcome, Err(MemtestError::Timeout)));
    }
    assert!(!list.all_pass());
}

#[test]
fn suite_is_deterministic_on_sound_region() {
    let mut region = Region::new_zeroed(1024, 0x1000);
    let tester = Memtester::from_test_types(&args_single(60 * SECOND_NS, false), all_test_kinds_vec());
    let first = tester.run(&mut region).expect("run should succeed");
    let second = tester.run(&mut region).expect("run should succeed");
    assert_eq!(first.reports.len(), second.reports.len());
    for (a, b) in first.iter().iter().zip(second.iter().iter()) {
        assert_eq!(a.test_type, b.test_type);
        assert!(matches!(a.outcome, Ok(MemtestOutcome::Pass)));
        assert!(matches!(b.outcome, Ok(MemtestOutcome::Pass)));
    }
}

#[test]
fn lock_modes_attempt_a_real_page_lock() {
    // Whether the lock quota of this machine admits 4 KiB is the operating
    // system's decision; either a locked run or a lock error is in order,
    // but a report must then say the region was locked.
    let mut region = Region::new_zeroed(512, 0x1000);
    let mut args = args_single(60 * SECOND_NS, false);
    args.mem_lock_mode = MemLockMode::Resizable;
    let tester = Memtester::from_test_types(&args, vec![MemtestKind::RandomVal]);
    match tester.run(&mut region) {
        Ok(list) => {
            assert!(list.mlocked);
            assert!(list.tested_men_len >= 1);
            assert!(list.tested_men_len <= 512);
        }
        Err(MemtesterError::MemLockFailed(_)) => {}
        Err(other) => panic!("unexpected error: {:?}", other),
    }
}

#[test]
fn fault_injection_two_region_xor_pass() {
    // After the reset every sound cell holds all-ones; the stuck cell keeps
    // its zero, so the XOR pass leaves the pair disagreeing.
    let n = 64;
    let half = n / 2;
    let mut region = Region::new_zeroed(n, 0x4000);
    let mut vals = Vec::new();
    for i in 0..half {
        vals.push(i);
    }
    region.poison(half + 3, 0);

    let mut checker = TimeoutChecker::new(u64::MAX);
    let r = rust_memtester::memtest::two_region_pass(
        &mut region,
        0,
        n,
        &vals,
        rust_memtester::memtest::TwoRegionOp::Xor,
        &mut checker,
    );
    match r {
        Ok(MemtestOutcome::Fail(MemtestFailure::MismatchedValues {
            address1,
            value1,
            address2,
            value2,
        })) => {
            assert_eq!(address1, region.addr(3));
            assert_eq!(value1, usize::MAX ^ 3);
            assert_eq!(address2, region.addr(half + 3));
            assert_eq!(value2, 0);
        }
        ref other => panic!("unexpected outcome: {:?}", other),
    }
}

#[test]
fn fixed_size_lock_tests_the_whole_region() {
    // FixedSize never shrinks: a successful run tests every word, and a
    // refusal is a lock error.
    let mut region = Region::new_zeroed(512, 0x1000);
    let mut args = args_single(60 * SECOND_NS, false);
    args.mem_lock_mode = MemLockMode::FixedSize;
    let tester = Memtester::from_test_types(&args, vec![MemtestKind::RandomVal]);
    match tester.run(&mut region) {
        Ok(list) => {
            assert!(list.mlocked);
            assert_eq!(list.tested_men_len, 512);
        }
        Err(MemtesterError::MemLockFailed(_)) => {}
        Err(other) => panic!("unexpected error: {:?}", other),
    }
}
