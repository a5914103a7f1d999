use mycelium::runner::{run_result, section_test_count, tally_outcomes, TestTally};

#[test]
fn tally_counts_each_outcome() {
    let t = tally_outcomes(&[true, false, true, true, false]);
    assert_eq!(t.passed, 3);
    assert_eq!(t.failed, 2);
    assert_eq!(t.result(), Err(()));
}

#[test]
fn empty_run_passes() {
    let t = tally_outcomes(&[]);
    assert_eq!((t.passed, t.failed), (0, 0));
    assert_eq!(t.result(), Ok(()));
    assert_eq!(run_result(&[]), Ok(()));
}

#[test]
fn run_fails_iff_a_test_failed() {
    assert_eq!(run_result(&[true, true, true]), Ok(()));
    assert_eq!(run_result(&[true, false, true]), Err(()));
    assert_eq!(run_result(&[false]), Err(()));
}

#[test]
fn record_step_by_step() {
    let mut t = TestTally::new();
    t.record(true);
    assert_eq!(t.result(), Ok(()));
    t.record(false);
    t.record(true);
    assert_eq!(t, TestTally { passed: 2, failed: 1 });
    assert_eq!(t.result(), Err(()));
}

#[test]
fn section_counts_whole_descriptors() {
    assert_eq!(section_test_count(0x1000, 0x1000, 48), 0);
    assert_eq!(section_test_count(0x1000, 0x1000 + 48 * 7, 48), 7);
}

#[test]
fn section_count_is_the_quotient() {
    assert_eq!(section_test_count(0x2000, 0x2000 + 96, 48), 2);
    assert_eq!(
        section_test_count(0x2000, 0x2000 + 96, 48),
        section_test_count(0x2000, 0x2000 + 96, 48)
    );
}
