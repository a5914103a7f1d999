use vstd::prelude::*;

verus! {

/// The number of passed outcomes in a sequence of test outcomes.
pub open spec fn count_passed(outcomes: Seq<bool>) -> nat
    decreases outcomes.len(),
{
    if outcomes.len() == 0 {
        0
    } else {
        count_passed(outcomes.drop_last()) + if outcomes.last() { 1nat } else { 0nat }
    }
}

/// The number of failed outcomes in a sequence of test outcomes.
pub open spec fn count_failed(outcomes: Seq<bool>) -> nat
    decreases outcomes.len(),
{
    if outcomes.len() == 0 {
        0
    } else {
        count_failed(outcomes.drop_last()) + if outcomes.last() { 0nat } else { 1nat }
    }
}

/// The tally of a test run: how many tests passed and how many failed.
#[derive(Copy, Clone, Debug, PartialEq, Eq)]
pub struct TestTally {
    pub passed: usize,
    pub failed: usize,
}

impl TestTally {
    /// The tally before any test has run.
    pub fn new() -> (t: Self)
        ensures
            t.passed == 0,
            t.failed == 0,
    {
        TestTally { passed: 0, failed: 0 }
    }

    /// Records the outcome of one test.
    pub fn record(&mut self, passed: bool)
        requires
            old(self).passed + old(self).failed < usize::MAX,
        ensures
            final(self).passed == old(self).passed + if passed { 1int } else { 0int },
            final(self).failed == old(self).failed + if passed { 0int } else { 1int },
    {
        if passed {
            self.passed = self.passed + 1;
        } else {
            self.failed = self.failed + 1;
        }
    }

    /// The result of the whole run: `Err(())` if any test failed, `Ok(())`
    /// if all tests passed.
    pub fn result(&self) -> (r: Result<(), ()>)
        ensures
            r is Ok <==> self.failed == 0,
    {
        if self.failed > 0 {
            Err(())
        } else {
            Ok(())
        }
    }
}

/// Tallies the outcomes of a test run, in order.
pub fn tally_outcomes(outcomes: &[bool]) -> (t: TestTally)
    ensures
        t.passed == count_passed(outcomes@),
        t.failed == count_failed(outcomes@),
{
    let mut t = TestTally::new();
    let mut i: usize = 0;
    while i < outcomes.len()
        invariant
            i <= outcomes@.len(),
            t.passed == count_passed(outcomes@.take(i as int)),
            t.failed == count_failed(outcomes@.take(i as int)),
            t.passed + t.failed == i,
        decreases outcomes@.len() - i,
    {
        proof {
            assert(outcomes@.take(i + 1).drop_last() =~= outcomes@.take(i as int));
        }
        t.record(outcomes[i]);
        i = i + 1;
    }
    proof {
        assert(outcomes@.take(i as int) =~= outcomes@);
    }
    t
}

/// The result of a test run with the given outcomes: `Err(())` if any test
/// failed, `Ok(())` if all tests passed.
pub fn run_result(outcomes: &[bool]) -> (r: Result<(), ()>)
    ensures
        r is Ok <==> forall|i: int| 0 <= i < outcomes@.len() ==> outcomes@[i],
{
    let t = tally_outcomes(outcomes);
    proof {
        lemma_no_failures_iff_all_passed(outcomes@);
    }
    t.result()
}

/// Every outcome is counted once, as passed or as failed.
pub proof fn lemma_counts_sum(outcomes: Seq<bool>)
    ensures
        count_passed(outcomes) + count_failed(outcomes) == outcomes.len(),
    decreases outcomes.len(),
{
    if outcomes.len() > 0 {
        lemma_counts_sum(outcomes.drop_last());
    }
}

/// No test failed exactly when every test passed.
pub proof fn lemma_no_failures_iff_all_passed(outcomes: Seq<bool>)
    ensures
        count_failed(outcomes) == 0 <==> forall|i: int| 0 <= i < outcomes.len() ==> outcomes[i],
    decreases outcomes.len(),
{
    if outcomes.len() > 0 {
        let init = outcomes.drop_last();
        lemma_no_failures_iff_all_passed(init);
        if count_failed(outcomes) == 0 {
            assert forall|i: int| 0 <= i < outcomes.len() implies outcomes[i] by {
                if i < outcomes.len() - 1 {
                    assert(init[i] == outcomes[i]);
                }
            }
        }
        if forall|i: int| 0 <= i < outcomes.len() ==> outcomes[i] {
            assert forall|i: int| 0 <= i < init.len() implies init[i] by {
                assert(outcomes[i] == init[i]);
            }
            assert(outcomes[outcomes.len() - 1]);
        }
    }
}

/// The number of test descriptors in a linker section that starts at
/// `start_addr` and ends at `stop_addr`, each `test_size` bytes long.
///
/// The section must hold a whole number of descriptors.
pub fn section_test_count(start_addr: usize, stop_addr: usize, test_size: usize) -> (n: usize)
    requires
        start_addr <= stop_addr,
        test_size > 0,
        (stop_addr - start_addr) % (test_size as int) == 0,
    ensures
        n == (stop_addr - start_addr) as int / (test_size as int),
        n * test_size == stop_addr - start_addr,
{
    let len_bytes = stop_addr - start_addr;
    let n = len_bytes / test_size;
    proof {
        vstd::arithmetic::div_mod::lemma_fundamental_div_mod(len_bytes as int, test_size as int);
        vstd::arithmetic::mul::lemma_mul_is_commutative(n as int, test_size as int);
    }
    n
}

} // verus!
