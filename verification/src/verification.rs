//! The verification engine: what is compared once all mutating work has
//! stopped, and what the comparisons amount to.
//!
//! A scenario turns its observations into a battery of assertions. The
//! engine looks at every assertion of the battery, also after one has
//! failed, and reports all that failed. Only assertions that are expected to
//! hold whatever the interleaving was make a run fail; a comparison of what
//! the client counted with what the store holds is kept as a note.

use vstd::prelude::*;
use vstd::string::StringExecFns;
use crate::text::{decimal, push_decimal};

verus! {

/// What an assertion compares.
#[derive(Clone, Copy, Debug, PartialEq, Eq, Structural)]
pub enum Subject {
    /// The row count of the sink of a derived target, against the baseline's.
    SinkRows(u32),
    /// The sum of the value column in the sink of a derived target, against
    /// the baseline's.
    SinkSum(u32),
    /// The rows of the table beyond a whole number of batches, against none.
    PartialBatch,
    /// The batches whose row count is not the batch size, against none.
    UnevenBatches,
    /// The rows whose correlated column does not fit their batch, against
    /// none.
    BrokenCorrelation,
    /// The batches the store holds, against those the client saw applied.
    DistinctBatches,
    /// The rows the store holds, against those the client saw written.
    RowCount,
    /// The full scan of the table: one if it completed, against one.
    FullScan,
    /// The rows of one table of several that belong to another one, against
    /// none.
    MisplacedRows(u32),
    /// The rows that one table of several holds, against those the client
    /// saw written to it.
    TableRows(u32),
}

/// How much an assertion weighs.
#[derive(Clone, Copy, Debug, PartialEq, Eq, Structural)]
pub enum Weight {
    /// The assertion must hold; a mismatch is a consistency violation.
    Asserted,
    /// The assertion compares a client-side count with the store; a mismatch
    /// is reported and does not fail the run.
    Informational,
}

/// One comparison of the verification phase.
#[derive(Clone, Copy, Debug, PartialEq, Eq, Structural)]
pub struct VerificationAssertion {
    pub subject: Subject,
    pub expected: u64,
    pub observed: u64,
    pub weight: Weight,
}

impl VerificationAssertion {
    /// Whether what was observed is what was expected.
    pub open spec fn holds(self) -> bool {
        self.observed == self.expected
    }

    /// Whether the assertion is a consistency violation.
    pub open spec fn violated(self) -> bool {
        self.weight is Asserted && !self.holds()
    }

    /// Whether the assertion is a mismatch that is only noted.
    pub open spec fn noted(self) -> bool {
        self.weight is Informational && !self.holds()
    }

    /// An assertion that must hold.
    pub fn asserted(subject: Subject, expected: u64, observed: u64) -> (a: Self)
        ensures
            a == (VerificationAssertion { subject, expected, observed, weight: Weight::Asserted }),
    {
        VerificationAssertion { subject, expected, observed, weight: Weight::Asserted }
    }

    /// An assertion that is reported and fails nothing.
    pub fn informational(subject: Subject, expected: u64, observed: u64) -> (a: Self)
        ensures
            a == (VerificationAssertion {
                subject,
                expected,
                observed,
                weight: Weight::Informational,
            }),
    {
        VerificationAssertion { subject, expected, observed, weight: Weight::Informational }
    }

    /// Whether what was observed is what was expected.
    pub fn passes(&self) -> (ok: bool)
        ensures
            ok == self.holds(),
    {
        self.observed == self.expected
    }

    /// The text of the diagnostic.
    pub open spec fn diagnostic_text(self) -> Seq<char> {
        subject_text(self.subject) + ": observed "@ + decimal(self.observed as nat)
            + ", expected "@ + decimal(self.expected as nat)
    }

    /// A line for the report that names the subject and both values.
    pub fn diagnostic(&self) -> (line: String)
        ensures
            line@ == self.diagnostic_text(),
    {
        let mut line = subject_name(self.subject);
        line.append(": observed ");
        push_decimal(&mut line, self.observed);
        line.append(", expected ");
        push_decimal(&mut line, self.expected);
        line
    }
}

/// What stands for the outcome of a full scan in an assertion: one if the
/// scan ran to its end, zero if it raised an error.
pub open spec fn scan_flag(completed: bool) -> u64 {
    if completed {
        1
    } else {
        0
    }
}

/// The name of a subject in a diagnostic.
pub open spec fn subject_text(subject: Subject) -> Seq<char> {
    match subject {
        Subject::SinkRows(target) => "row count of sink_"@ + decimal(target as nat),
        Subject::SinkSum(target) => "sum of sink_"@ + decimal(target as nat),
        Subject::PartialBatch => "rows beyond whole batches"@,
        Subject::UnevenBatches => "batches of uneven size"@,
        Subject::BrokenCorrelation => "rows with a broken correlated column"@,
        Subject::DistinctBatches => "distinct batches"@,
        Subject::RowCount => "row count"@,
        Subject::FullScan => "full table scan"@,
        Subject::MisplacedRows(table) => "misplaced rows of t"@ + decimal(table as nat),
        Subject::TableRows(table) => "row count of t"@ + decimal(table as nat),
    }
}

/// The name of a subject in a diagnostic.
pub fn subject_name(subject: Subject) -> (name: String)
    ensures
        name@ == subject_text(subject),
{
    match subject {
        Subject::SinkRows(target) => {
            let mut name = String::from_str("row count of sink_");
            push_decimal(&mut name, target as u64);
            name
        },
        Subject::SinkSum(target) => {
            let mut name = String::from_str("sum of sink_");
            push_decimal(&mut name, target as u64);
            name
        },
        Subject::PartialBatch => String::from_str("rows beyond whole batches"),
        Subject::UnevenBatches => String::from_str("batches of uneven size"),
        Subject::BrokenCorrelation => String::from_str("rows with a broken correlated column"),
        Subject::DistinctBatches => String::from_str("distinct batches"),
        Subject::RowCount => String::from_str("row count"),
        Subject::FullScan => String::from_str("full table scan"),
        Subject::MisplacedRows(table) => {
            let mut name = String::from_str("misplaced rows of t");
            push_decimal(&mut name, table as u64);
            name
        },
        Subject::TableRows(table) => {
            let mut name = String::from_str("row count of t");
            push_decimal(&mut name, table as u64);
            name
        },
    }
}

/// The assertions of `battery` that are consistency violations, in order.
pub open spec fn violations_of(battery: Seq<VerificationAssertion>) -> Seq<VerificationAssertion>
    decreases battery.len(),
{
    if battery.len() == 0 {
        Seq::<VerificationAssertion>::empty()
    } else if battery.last().violated() {
        violations_of(battery.drop_last()).push(battery.last())
    } else {
        violations_of(battery.drop_last())
    }
}

/// The assertions of `battery` that are noted mismatches, in order.
pub open spec fn notes_of(battery: Seq<VerificationAssertion>) -> Seq<VerificationAssertion>
    decreases battery.len(),
{
    if battery.len() == 0 {
        Seq::<VerificationAssertion>::empty()
    } else if battery.last().noted() {
        notes_of(battery.drop_last()).push(battery.last())
    } else {
        notes_of(battery.drop_last())
    }
}

/// What the engine found in a battery.
pub struct VerificationReport {
    /// The consistency violations, in the order of the battery.
    pub violations: Vec<VerificationAssertion>,
    /// The mismatches that are only noted, in the order of the battery.
    pub notes: Vec<VerificationAssertion>,
}

/// The failure of the verification phase: the store broke at least one
/// invariant that must hold whatever the interleaving was.
pub struct ConsistencyViolation {
    /// Every assertion that was violated; never empty.
    pub violations: Vec<VerificationAssertion>,
}

impl VerificationReport {
    /// Whether the run passes: no assertion was violated.
    pub open spec fn passed(&self) -> bool {
        self.violations@.len() == 0
    }

    /// Whether the run passes.
    pub fn is_passed(&self) -> (ok: bool)
        ensures
            ok == self.passed(),
    {
        self.violations.len() == 0
    }

    /// `Ok` if nothing was violated, and all violations otherwise.
    pub fn verdict(self) -> (result: Result<(), ConsistencyViolation>)
        ensures
            result is Ok <==> self.passed(),
            result matches Err(failure) ==> failure.violations@ == self.violations@,
    {
        if self.violations.len() == 0 {
            Ok(())
        } else {
            Err(ConsistencyViolation { violations: self.violations })
        }
    }
}

/// Looks at every assertion of `battery` and reports those that failed: the
/// violations and the notes, each in the order of the battery.
pub fn evaluate(battery: &Vec<VerificationAssertion>) -> (report: VerificationReport)
    ensures
        report.violations@ == violations_of(battery@),
        report.notes@ == notes_of(battery@),
{
    let mut violations: Vec<VerificationAssertion> = Vec::new();
    let mut notes: Vec<VerificationAssertion> = Vec::new();
    let mut i: usize = 0;
    while i < battery.len()
        invariant
            i <= battery.len(),
            violations@ == violations_of(battery@.take(i as int)),
            notes@ == notes_of(battery@.take(i as int)),
        decreases battery.len() - i,
    {
        proof {
            assert(battery@.take(i + 1).drop_last() =~= battery@.take(i as int));
        }
        let assertion = battery[i];
        if !assertion.passes() {
            match assertion.weight {
                Weight::Asserted => violations.push(assertion),
                Weight::Informational => notes.push(assertion),
            }
        }
        i = i + 1;
    }
    proof {
        assert(battery@.take(i as int) =~= battery@);
    }
    VerificationReport { violations, notes }
}

/// The engine passes over nothing: an assertion is among the violations
/// exactly if it stands in the battery and is violated.
pub proof fn lemma_violations_are_complete(
    battery: Seq<VerificationAssertion>,
    assertion: VerificationAssertion,
)
    ensures
        violations_of(battery).contains(assertion) <==> battery.contains(assertion)
            && assertion.violated(),
    decreases battery.len(),
{
    if battery.len() == 0 {
    } else {
        let shorter = battery.drop_last();
        let last = battery.last();
        lemma_violations_are_complete(shorter, assertion);
        assert(battery =~= shorter.push(last));
        if battery.contains(assertion) {
            let i = choose|i: int| 0 <= i < battery.len() && battery[i] == assertion;
            if i < shorter.len() {
                assert(shorter[i] == assertion);
            }
        }
        if shorter.contains(assertion) {
            let i = choose|i: int| 0 <= i < shorter.len() && shorter[i] == assertion;
            assert(battery[i] == assertion);
        }
        if last.violated() {
            let found = violations_of(shorter).push(last);
            if found.contains(assertion) {
                let i = choose|i: int| 0 <= i < found.len() && found[i] == assertion;
                if i < found.len() - 1 {
                    assert(violations_of(shorter)[i] == assertion);
                } else {
                    assert(battery[battery.len() - 1] == assertion);
                }
            }
            if violations_of(shorter).contains(assertion) {
                let i = choose|i: int|
                    0 <= i < violations_of(shorter).len() && violations_of(shorter)[i]
                        == assertion;
                assert(found[i] == assertion);
            }
            if assertion == last {
                assert(found[found.len() - 1] == assertion);
            }
        }
    }
}

/// A battery passes exactly if none of its asserted comparisons fails;
/// informational ones have no say.
pub proof fn lemma_pass_means_all_hold(battery: Seq<VerificationAssertion>)
    ensures
        violations_of(battery).len() == 0 <==> forall|i: int|
            0 <= i < battery.len() ==> !(#[trigger] battery[i]).violated(),
    decreases battery.len(),
{
    if battery.len() > 0 {
        let shorter = battery.drop_last();
        lemma_pass_means_all_hold(shorter);
        if violations_of(battery).len() == 0 {
            assert forall|i: int| 0 <= i < battery.len() implies !(#[trigger] battery[i]).violated() by {
                if i < shorter.len() {
                    assert(shorter[i] == battery[i]);
                }
            }
        } else {
            if !battery.last().violated() {
                let i = choose|i: int| 0 <= i < shorter.len() && (#[trigger] shorter[i]).violated();
                assert(battery[i].violated());
            }
        }
    }
}

} // verus!
