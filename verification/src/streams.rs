//! Change-tracking consumption: the statements by which the changes of a
//! base table are consumed from its cursors into sinks, and the check that
//! all sinks have come to hold the same.
//!
//! One cursor, the baseline, is consumed once at the end of a run. Every
//! other one, a derived cursor, starts where the baseline starts and is
//! consumed many times by workers that race each other. After the drain
//! every sink must hold what the baseline's sink holds.

use vstd::prelude::*;
use vstd::string::StringExecFns;
use crate::text::{decimal, lemma_decimal_reads_back, push_decimal};
use crate::verification::{
    evaluate, lemma_pass_means_all_hold, notes_of, violations_of, Subject, VerificationAssertion,
    VerificationReport, Weight,
};

verus! {

/// What follows the sink's table name up to the columns, in the statement
/// that merges a change set by the identity column.
pub const MERGE_USING: &'static str = " as t using (select a, b, c, d, change$action, change$is_update from base_stream";

/// The end of that statement: rows are matched by the identity column; a
/// deletion deletes, an insertion that is part of an update updates, and an
/// insertion without a match inserts.
pub const MERGE_ON: &'static str = ") as s on t.c = s.c when matched and s.change$action = 'DELETE' and s.change$is_update=false then delete when matched and s.change$action = 'INSERT' and s.change$is_update=true then update * when not matched and s.change$action = 'INSERT' then insert values(s.a, s.b, s.c, s.d)";

/// The end of the statement that merges under a condition that never
/// holds, so that every row of the change set is inserted.
pub const BLIND_MERGE_ON: &'static str =
    ") as s on 1 <> 1 when matched then update * when not matched then insert *";

/// What the sink's name ends with: nothing for the baseline, and an
/// underscore and the number of the target for a derived one.
pub open spec fn target_suffix(target: Option<u32>) -> Seq<char> {
    match target {
        None => Seq::<char>::empty(),
        Some(index) => "_"@ + decimal(index as nat),
    }
}

/// Every target has a sink of its own: the names of the sinks of two
/// targets end alike only if the targets are the same.
pub proof fn lemma_targets_have_their_own_sink(left: Option<u32>, right: Option<u32>)
    requires
        target_suffix(left) == target_suffix(right),
    ensures
        left == right,
{
    reveal_strlit("_");
    match (left, right) {
        (Some(a), Some(b)) => {
            lemma_decimal_reads_back(a as nat);
            lemma_decimal_reads_back(b as nat);
            let x = "_"@ + decimal(a as nat);
            let y = "_"@ + decimal(b as nat);
            assert(x.subrange(1, x.len() as int) =~= decimal(a as nat));
            assert(y.subrange(1, y.len() as int) =~= decimal(b as nat));
        },
        (Some(a), None) => {
            assert(("_"@ + decimal(a as nat)).len() >= 1);
        },
        (None, Some(b)) => {
            assert(("_"@ + decimal(b as nat)).len() >= 1);
        },
        (None, None) => {},
    }
}

/// Appends to `out` what the name of the sink of `target` ends with.
pub fn push_suffix(out: &mut String, target: Option<u32>)
    ensures
        final(out)@ == old(out)@ + target_suffix(target),
{
    match target {
        None => {
            assert(out@ =~= old(out)@ + target_suffix(target));
        },
        Some(index) => {
            out.append("_");
            push_decimal(out, index as u64);
            assert(out@ =~= old(out)@ + target_suffix(target));
        },
    }
}

/// The gap between the sink and `select`: two blanks if `wide`, else one.
pub open spec fn gap(wide: bool) -> Seq<char> {
    if wide {
        "  select "@
    } else {
        " select "@
    }
}

/// The text of the statement that inserts the change set of the cursor of
/// `target` into its sink.
pub open spec fn insert_text(target: Option<u32>, wide: bool, columns: Seq<char>) -> Seq<char> {
    "insert into sink"@ + target_suffix(target) + gap(wide) + columns + " from base_stream"@
        + target_suffix(target)
}

/// The statement that consumes the cursor of `target` by inserting its
/// change set into the sink of `target`.
pub fn insert_statement(target: Option<u32>, wide: bool, columns: &str) -> (sql: String)
    ensures
        sql@ == insert_text(target, wide, columns@),
{
    let mut sql = String::from_str("insert into sink");
    push_suffix(&mut sql, target);
    if wide {
        sql.append("  select ");
    } else {
        sql.append(" select ");
    }
    sql.append(columns);
    sql.append(" from base_stream");
    push_suffix(&mut sql, target);
    sql
}

/// The text of the statement that merges the change set of the cursor of
/// `target` into its sink under a condition that never holds.
pub open spec fn blind_merge_text(target: Option<u32>, columns: Seq<char>) -> Seq<char> {
    "merge into sink"@ + target_suffix(target) + " using (select "@ + columns
        + " from base_stream"@ + target_suffix(target) + BLIND_MERGE_ON@
}

/// The statement that consumes the cursor of `target` by a merge that
/// matches nothing and so inserts the whole change set.
pub fn blind_merge_statement(target: Option<u32>, columns: &str) -> (sql: String)
    ensures
        sql@ == blind_merge_text(target, columns@),
{
    let mut sql = String::from_str("merge into sink");
    push_suffix(&mut sql, target);
    sql.append(" using (select ");
    sql.append(columns);
    sql.append(" from base_stream");
    push_suffix(&mut sql, target);
    sql.append(BLIND_MERGE_ON);
    sql
}

/// The text of the statement that merges the change set of the cursor of
/// `target` into its sink by the identity column.
pub open spec fn change_merge_text(target: Option<u32>) -> Seq<char> {
    "merge into sink"@ + target_suffix(target) + MERGE_USING@ + target_suffix(target) + MERGE_ON@
}

/// The statement that consumes the cursor of `target` by applying its
/// change set, insertions, updates and deletions, to the sink of `target`.
pub fn change_merge_statement(target: Option<u32>) -> (sql: String)
    ensures
        sql@ == change_merge_text(target),
{
    let mut sql = String::from_str("merge into sink");
    push_suffix(&mut sql, target);
    sql.append(MERGE_USING);
    push_suffix(&mut sql, target);
    sql.append(MERGE_ON);
    sql
}

/// The text of the statement that creates the sink of derived target
/// `index`.
pub open spec fn create_sink_text(index: u32) -> Seq<char> {
    "create table sink_"@ + decimal(index as nat) + " like base"@
}

/// The statement that creates the sink of derived target `index`, with the
/// columns of the base table.
pub fn create_sink_statement(index: u32) -> (sql: String)
    ensures
        sql@ == create_sink_text(index),
{
    let mut sql = String::from_str("create table sink_");
    push_decimal(&mut sql, index as u64);
    sql.append(" like base");
    sql
}

/// The text of the query for the row count of the sink of `target`.
pub open spec fn count_text(target: Option<u32>) -> Seq<char> {
    "select count() from sink"@ + target_suffix(target)
}

/// The query for the row count of the sink of `target`.
pub fn count_query(target: Option<u32>) -> (sql: String)
    ensures
        sql@ == count_text(target),
{
    let mut sql = String::from_str("select count() from sink");
    push_suffix(&mut sql, target);
    sql
}

/// The text of the query for the sum of `column` in the sink of `target`.
pub open spec fn sum_text(target: Option<u32>, column: Seq<char>) -> Seq<char> {
    "select sum("@ + column + ") from sink"@ + target_suffix(target)
}

/// The query for the sum of the value column `column` in the sink of
/// `target`.
pub fn sum_query(target: Option<u32>, column: &str) -> (sql: String)
    ensures
        sql@ == sum_text(target, column@),
{
    let mut sql = String::from_str("select sum(");
    sql.append(column);
    sql.append(") from sink");
    push_suffix(&mut sql, target);
    sql
}

/// What the verification phase reads of one sink.
#[derive(Clone, Copy, Debug, PartialEq, Eq, Structural)]
pub struct SinkStats {
    /// The number of rows of the sink.
    pub rows: u32,
    /// The sum of the value column over the rows of the sink.
    pub sum: u64,
}

/// The two assertions on derived target `index`: its sink has the row count
/// of the baseline's, and the sum of the baseline's.
pub open spec fn target_checks(baseline: SinkStats, index: u32, sink: SinkStats) -> Seq<
    VerificationAssertion,
> {
    seq![
        VerificationAssertion {
            subject: Subject::SinkRows(index),
            expected: baseline.rows as u64,
            observed: sink.rows as u64,
            weight: Weight::Asserted,
        },
        VerificationAssertion {
            subject: Subject::SinkSum(index),
            expected: baseline.sum,
            observed: sink.sum,
            weight: Weight::Asserted,
        },
    ]
}

/// The battery of a change-tracking run: the two assertions of
/// [`target_checks`] for every derived target, in the order of the targets.
/// The sinks are held against each other, not against a number known
/// beforehand: how much was written during the run is not determined.
pub open spec fn battery_of(baseline: SinkStats, derived: Seq<SinkStats>) -> Seq<
    VerificationAssertion,
>
    decreases derived.len(),
{
    if derived.len() == 0 {
        Seq::<VerificationAssertion>::empty()
    } else {
        battery_of(baseline, derived.drop_last()) + target_checks(
            baseline,
            (derived.len() - 1) as u32,
            derived.last(),
        )
    }
}

/// The battery of a change-tracking run, for what was read of the
/// baseline's sink and of the sinks of the derived targets.
pub fn battery(baseline: SinkStats, derived: &Vec<SinkStats>) -> (battery: Vec<
    VerificationAssertion,
>)
    requires
        derived.len() <= u32::MAX,
    ensures
        battery@ == battery_of(baseline, derived@),
{
    let mut battery: Vec<VerificationAssertion> = Vec::new();
    let mut i: usize = 0;
    while i < derived.len()
        invariant
            i <= derived.len() <= u32::MAX,
            battery@ == battery_of(baseline, derived@.take(i as int)),
        decreases derived.len() - i,
    {
        let sink = derived[i];
        proof {
            assert(derived@.take(i + 1).drop_last() =~= derived@.take(i as int));
        }
        battery.push(
            VerificationAssertion::asserted(
                Subject::SinkRows(i as u32),
                baseline.rows as u64,
                sink.rows as u64,
            ),
        );
        battery.push(
            VerificationAssertion::asserted(Subject::SinkSum(i as u32), baseline.sum, sink.sum),
        );
        i = i + 1;
        assert(battery@ =~= battery_of(baseline, derived@.take(i as int)));
    }
    proof {
        assert(derived@.take(i as int) =~= derived@);
    }
    battery
}

/// Whether every sink of `derived` holds what the baseline's sink holds, as
/// far as row count and sum tell.
pub open spec fn sinks_agree(baseline: SinkStats, derived: Seq<SinkStats>) -> bool {
    forall|i: int| 0 <= i < derived.len() ==> #[trigger] derived[i] == baseline
}

/// The shape of the battery: two assertions per target, the first on the
/// rows and the second on the sum of that target.
pub proof fn lemma_battery_shape(baseline: SinkStats, derived: Seq<SinkStats>)
    requires
        derived.len() <= u32::MAX,
    ensures
        battery_of(baseline, derived).len() == 2 * derived.len(),
        forall|k: int|
            0 <= k < 2 * derived.len() ==> #[trigger] battery_of(baseline, derived)[k]
                == target_checks(baseline, (k / 2) as u32, derived[k / 2])[k % 2],
    decreases derived.len(),
{
    if derived.len() > 0 {
        let shorter = derived.drop_last();
        lemma_battery_shape(baseline, shorter);
        let battery = battery_of(baseline, derived);
        assert forall|k: int| 0 <= k < 2 * derived.len() implies #[trigger] battery[k]
            == target_checks(baseline, (k / 2) as u32, derived[k / 2])[k % 2] by {
            if k < 2 * shorter.len() {
                assert(battery[k] == battery_of(baseline, shorter)[k]);
                assert(shorter[k / 2] == derived[k / 2]);
            }
        }
    }
}

/// A change-tracking run passes exactly if every derived sink has the row
/// count and the sum of the baseline's sink.
pub proof fn lemma_verdict(baseline: SinkStats, derived: Seq<SinkStats>)
    requires
        derived.len() <= u32::MAX,
    ensures
        violations_of(battery_of(baseline, derived)).len() == 0 <==> sinks_agree(
            baseline,
            derived,
        ),
{
    let battery = battery_of(baseline, derived);
    lemma_pass_means_all_hold(battery);
    lemma_battery_shape(baseline, derived);
    if sinks_agree(baseline, derived) {
        assert forall|k: int| 0 <= k < battery.len() implies !(#[trigger] battery[k]).violated() by {
            assert(derived[k / 2] == baseline);
        }
    } else {
        let i = choose|i: int| 0 <= i < derived.len() && #[trigger] derived[i] != baseline;
        let rows = battery[2 * i];
        let sum = battery[2 * i + 1];
        assert(rows == target_checks(baseline, i as u32, derived[i])[0]);
        assert(sum == target_checks(baseline, i as u32, derived[i])[1]);
        assert(rows.violated() || sum.violated());
    }
}

/// Holds the sinks of the derived targets against the baseline's sink. The
/// report lists every sink that differs, by rows and by sum; the run passes
/// exactly if none does.
pub fn verify(baseline: SinkStats, derived: &Vec<SinkStats>) -> (report: VerificationReport)
    requires
        derived.len() <= u32::MAX,
    ensures
        report.violations@ == violations_of(battery_of(baseline, derived@)),
        report.notes@ == notes_of(battery_of(baseline, derived@)),
        report.passed() <==> sinks_agree(baseline, derived@),
{
    let battery = battery(baseline, derived);
    proof {
        lemma_verdict(baseline, derived@);
    }
    evaluate(&battery)
}

} // verus!
