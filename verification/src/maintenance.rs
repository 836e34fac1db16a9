//! Maintenance under load: rows are inserted into a table while the space
//! that old snapshots hold is reclaimed, with a retention so short that
//! maintenance and inserts get into each other's way.
//!
//! Whatever races there were, the table must not be damaged: a scan of the
//! whole table has to run to its end. How many rows are there is compared
//! with what the writers counted for information only, since an insert may
//! fail on a conflict.

use vstd::prelude::*;
use crate::verification::{
    evaluate, lemma_pass_means_all_hold, notes_of, scan_flag, violations_of, Subject,
    VerificationAssertion, VerificationReport, Weight,
};

verus! {

/// A row count of the client next to that of the store.
#[derive(Clone, Copy, Debug, PartialEq, Eq, Structural)]
pub struct RowCounts {
    /// The rows that the writers saw inserted.
    pub client: u64,
    /// The rows that the store holds.
    pub server: u64,
}

/// The assertion that the scan of the whole table ran to its end.
pub open spec fn scan_check(scan_completed: bool) -> VerificationAssertion {
    VerificationAssertion {
        subject: Subject::FullScan,
        expected: 1,
        observed: scan_flag(scan_completed),
        weight: Weight::Asserted,
    }
}

/// The comparison of the two row counts, which fails nothing.
pub open spec fn count_check(counts: RowCounts) -> VerificationAssertion {
    VerificationAssertion {
        subject: Subject::RowCount,
        expected: counts.client,
        observed: counts.server,
        weight: Weight::Informational,
    }
}

/// The battery of a table under maintenance: the comparison of the row
/// counts, where there are any, and the scan of the whole table.
pub open spec fn battery_of(scan_completed: bool, counts: Option<RowCounts>) -> Seq<
    VerificationAssertion,
> {
    match counts {
        Some(counts) => seq![count_check(counts), scan_check(scan_completed)],
        None => seq![scan_check(scan_completed)],
    }
}

/// The table passes exactly if the scan ran to its end, however many
/// inserts failed and whatever the row counts are.
pub proof fn lemma_verdict(scan_completed: bool, counts: Option<RowCounts>)
    ensures
        violations_of(battery_of(scan_completed, counts)).len() == 0 <==> scan_completed,
{
    let battery = battery_of(scan_completed, counts);
    lemma_pass_means_all_hold(battery);
    if scan_completed {
        assert forall|i: int| 0 <= i < battery.len() implies !(#[trigger] battery[i]).violated() by {
        }
    } else {
        assert(battery[battery.len() - 1].violated());
    }
}

/// The battery of a table under maintenance: `scan_completed` says whether
/// the scan of the whole table ran to its end, and `counts` holds the row
/// counts if they were taken.
pub fn battery(scan_completed: bool, counts: Option<RowCounts>) -> (battery: Vec<
    VerificationAssertion,
>)
    ensures
        battery@ == battery_of(scan_completed, counts),
{
    let mut battery: Vec<VerificationAssertion> = Vec::new();
    match counts {
        Some(counts) => {
            battery.push(
                VerificationAssertion::informational(
                    Subject::RowCount,
                    counts.client,
                    counts.server,
                ),
            );
        },
        None => {},
    }
    battery.push(
        VerificationAssertion::asserted(
            Subject::FullScan,
            1,
            if scan_completed {
                1
            } else {
                0
            },
        ),
    );
    assert(battery@ =~= battery_of(scan_completed, counts));
    battery
}

/// Checks the health of the table after the run. The table is healthy
/// exactly if the scan of the whole table ran to its end.
pub fn check_table_health(scan_completed: bool, counts: Option<RowCounts>) -> (report:
    VerificationReport)
    ensures
        report.violations@ == violations_of(battery_of(scan_completed, counts)),
        report.notes@ == notes_of(battery_of(scan_completed, counts)),
        report.passed() <==> scan_completed,
{
    let battery = battery(scan_completed, counts);
    proof {
        lemma_verdict(scan_completed, counts);
    }
    evaluate(&battery)
}

} // verus!
