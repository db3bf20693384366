//! Per-test outcomes, the optional structured summary log, and the
//! aggregation rule: a run counts as failed exactly when some executed
//! test failed — a failure never stops the remaining tests, it only
//! decides the final status.

use vstd::prelude::*;
use crate::config::OsKind;

verus! {

/// The outcome of one executed test.
#[derive(PartialEq, Eq, Debug)]
pub enum TestOutcome {
    Passed,
    /// The test failed; carries its diagnostic.
    Failed(String),
    /// The test was not applicable and was skipped.
    Skipped,
}

impl Clone for TestOutcome {
    fn clone(&self) -> (res: Self)
        ensures
            res == *self,
    {
        match self {
            TestOutcome::Passed => TestOutcome::Passed,
            TestOutcome::Failed(d) => TestOutcome::Failed(d.clone()),
            TestOutcome::Skipped => TestOutcome::Skipped,
        }
    }
}

/// One recorded entry of the summary log.
#[derive(PartialEq, Eq, Debug)]
pub struct SummaryEntry {
    pub test_name: String,
    pub outcome: TestOutcome,
}

/// The structured recorder of per-test outcomes, bound at construction
/// to the VM name, OS kind and requested output path. Entirely
/// optional: a run without a report path has none.
#[derive(PartialEq, Eq, Debug)]
pub struct SummaryLog {
    pub vm_name: String,
    pub os: OsKind,
    pub output_path: String,
    pub entries: Vec<SummaryEntry>,
}

impl SummaryLog {
    /// A fresh, empty log bound to one run.
    pub fn new(vm_name: String, os: OsKind, output_path: String) -> (r: SummaryLog)
        ensures
            r.vm_name == vm_name,
            r.os == os,
            r.output_path == output_path,
            r.entries@ =~= Seq::<SummaryEntry>::empty(),
    {
        SummaryLog { vm_name, os, output_path, entries: Vec::new() }
    }

    /// Appends one test's outcome.
    pub fn record(&mut self, test_name: String, outcome: TestOutcome)
        ensures
            final(self).vm_name == old(self).vm_name,
            final(self).os == old(self).os,
            final(self).output_path == old(self).output_path,
            final(self).entries@ == old(self).entries@.push(
                (SummaryEntry { test_name, outcome }),
            ),
    {
        self.entries.push(SummaryEntry { test_name, outcome });
    }
}

/// Whether a sequence of outcomes contains a failure.
pub open spec fn any_failed(outcomes: Seq<TestOutcome>) -> bool {
    exists|i: int| 0 <= i < outcomes.len() && outcomes[i] is Failed
}

/// The aggregate of a run: success exactly when no executed test
/// failed (skipped tests do not count against it).
pub fn aggregate_success(outcomes: &Vec<TestOutcome>) -> (r: bool)
    ensures
        r == !any_failed(outcomes@),
{
    let n = outcomes.len();
    let mut i: usize = 0;
    while i < n
        invariant
            n == outcomes@.len(),
            0 <= i <= n,
            forall|k: int| 0 <= k < i ==> !(outcomes@[k] is Failed),
        decreases n - i,
    {
        match &outcomes[i] {
            TestOutcome::Failed(_) => {
                return false;
            }
            _ => {}
        }
        i += 1;
    }
    true
}

} // verus!
