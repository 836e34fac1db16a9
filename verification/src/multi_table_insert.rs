//! The multi-table insert scenario: one script inserts into ten tables at a
//! time, over and over, while the first nine of them are compacted, purged
//! and reclustered.
//!
//! Every run of the script puts [`ROWS_PER_RUN`] rows into the tables, a
//! tenth into each: table `i` takes the rows whose value ends in `i`.

use vstd::prelude::*;
use vstd::string::StringExecFns;
use crate::text::{decimal, push_decimal, texts};
use crate::verification::{
    evaluate, lemma_pass_means_all_hold, notes_of, violations_of, Subject, VerificationAssertion,
    VerificationReport, Weight,
};
use crate::worker::{BoundedProgress, BoundedWorker, UnboundedProgress, UnboundedWorker};

verus! {

/// The path of the setup script.
pub const SET_UP: &'static str = "./sql/setup.sql";

/// The path of the script that inserts into all tables.
pub const MULTI_INSERT: &'static str = "./sql/multi_table_insert.sql";

/// The number of times the insert script is run.
pub const RUN: u32 = 100;

/// The number of tables.
pub const TABLES: u32 = 10;

/// The number of tables that are under maintenance during the run.
pub const MAINTAINED_TABLES: u32 = 9;

/// The number of rows that one run of the insert script writes.
pub const ROWS_PER_RUN: u32 = 10000;

/// The texts of one round of maintenance of table `table`.
pub open spec fn maintenance_texts(table: u32) -> Seq<Seq<char>> {
    seq![
        "optimize table t"@ + decimal(table as nat) + " compact segment;"@,
        "optimize table t"@ + decimal(table as nat) + " compact;"@,
        "optimize table t"@ + decimal(table as nat) + " purge;"@,
        "alter table t"@ + decimal(table as nat) + " recluster;"@,
    ]
}

/// A statement on table `table`: `head`, the table's number, and `tail`.
fn table_statement(head: &str, table: u32, tail: &str) -> (sql: String)
    ensures
        sql@ == head@ + decimal(table as nat) + tail@,
{
    let mut sql = String::from_str(head);
    push_decimal(&mut sql, table as u64);
    sql.append(tail);
    sql
}

/// The statements of one round of maintenance of table `table`: segments
/// and blocks are compacted, old snapshots purged, and the table
/// reclustered.
pub fn maintenance_statements(table: u32) -> (sqls: Vec<String>)
    ensures
        texts(sqls@) == maintenance_texts(table),
{
    let mut sqls: Vec<String> = Vec::new();
    sqls.push(table_statement("optimize table t", table, " compact segment;"));
    sqls.push(table_statement("optimize table t", table, " compact;"));
    sqls.push(table_statement("optimize table t", table, " purge;"));
    sqls.push(table_statement("alter table t", table, " recluster;"));
    assert(texts(sqls@) =~= maintenance_texts(table));
    sqls
}

/// The worker that maintains one table: it repeats its round of four
/// statements until it is told to stop, and keeps no count.
pub fn maintainer() -> (worker: UnboundedWorker)
    ensures
        worker@ == UnboundedProgress::start(4, false),
{
    UnboundedWorker::new(4, false)
}

/// The worker that runs the insert script [`RUN`] times and counts the runs
/// in which every statement of the script succeeded.
pub fn inserter() -> (worker: BoundedWorker)
    ensures
        worker@ == BoundedProgress::start(RUN as nat, true),
{
    BoundedWorker::new(RUN, true)
}

/// The text of the query for the rows of table `table` that belong to
/// another table.
pub open spec fn misplaced_rows_text(table: u32) -> Seq<char> {
    "SELECT count(*) FROM t"@ + decimal(table as nat) + " WHERE c % 10 <> "@ + decimal(
        table as nat,
    ) + ";"@
}

/// The query for the rows of table `table` that belong to another table.
pub fn misplaced_rows_query(table: u32) -> (sql: String)
    ensures
        sql@ == misplaced_rows_text(table),
{
    let mut sql = String::from_str("SELECT count(*) FROM t");
    push_decimal(&mut sql, table as u64);
    sql.append(" WHERE c % 10 <> ");
    push_decimal(&mut sql, table as u64);
    sql.append(";");
    sql
}

/// The text of the query for the number of rows of table `table`.
pub open spec fn count_text(table: u32) -> Seq<char> {
    "SELECT count(*) FROM t"@ + decimal(table as nat) + ";"@
}

/// The query for the number of rows of table `table`.
pub fn count_query(table: u32) -> (sql: String)
    ensures
        sql@ == count_text(table),
{
    let mut sql = String::from_str("SELECT count(*) FROM t");
    push_decimal(&mut sql, table as u64);
    sql.append(";");
    sql
}

/// The rows that each table holds after `successes` runs of the insert
/// script: a tenth of what the runs wrote.
pub open spec fn rows_per_table(successes: u32) -> nat {
    (successes as nat * ROWS_PER_RUN as nat) / TABLES as nat
}

/// The rows that each table holds after `successes` runs of the insert
/// script.
pub fn expected_rows(successes: u32) -> (rows: u64)
    ensures
        rows == rows_per_table(successes),
{
    successes as u64 * ROWS_PER_RUN as u64 / TABLES as u64
}

/// What the queries of the verification phase returned for one table.
#[derive(Clone, Copy, Debug, PartialEq, Eq, Structural)]
pub struct TableCounts {
    /// The rows of the table that belong to another table.
    pub misplaced: u64,
    /// The rows of the table.
    pub rows: u64,
}

/// The two assertions on table `table`: it holds no row of another table,
/// which is asserted, and it holds as many rows as the client saw written
/// to it, which is noted.
pub open spec fn table_checks(successes: u32, table: u32, counts: TableCounts) -> Seq<
    VerificationAssertion,
> {
    seq![
        VerificationAssertion {
            subject: Subject::MisplacedRows(table),
            expected: 0,
            observed: counts.misplaced,
            weight: Weight::Asserted,
        },
        VerificationAssertion {
            subject: Subject::TableRows(table),
            expected: rows_per_table(successes) as u64,
            observed: counts.rows,
            weight: Weight::Informational,
        },
    ]
}

/// The battery of the scenario: the assertions of [`table_checks`] for
/// every table, in the order of the tables.
pub open spec fn battery_of(successes: u32, tables: Seq<TableCounts>) -> Seq<
    VerificationAssertion,
>
    decreases tables.len(),
{
    if tables.len() == 0 {
        Seq::<VerificationAssertion>::empty()
    } else {
        battery_of(successes, tables.drop_last()) + table_checks(
            successes,
            (tables.len() - 1) as u32,
            tables.last(),
        )
    }
}

/// Whether no table holds a row of another table.
pub open spec fn rows_in_place(tables: Seq<TableCounts>) -> bool {
    forall|i: int| 0 <= i < tables.len() ==> (#[trigger] tables[i]).misplaced == 0
}

/// The shape of the battery: two assertions per table.
pub proof fn lemma_battery_shape(successes: u32, tables: Seq<TableCounts>)
    requires
        tables.len() <= u32::MAX,
    ensures
        battery_of(successes, tables).len() == 2 * tables.len(),
        forall|k: int|
            0 <= k < 2 * tables.len() ==> #[trigger] battery_of(successes, tables)[k]
                == table_checks(successes, (k / 2) as u32, tables[k / 2])[k % 2],
    decreases tables.len(),
{
    if tables.len() > 0 {
        let shorter = tables.drop_last();
        lemma_battery_shape(successes, shorter);
        let battery = battery_of(successes, tables);
        assert forall|k: int| 0 <= k < 2 * tables.len() implies #[trigger] battery[k]
            == table_checks(successes, (k / 2) as u32, tables[k / 2])[k % 2] by {
            if k < 2 * shorter.len() {
                assert(battery[k] == battery_of(successes, shorter)[k]);
                assert(shorter[k / 2] == tables[k / 2]);
            }
        }
    }
}

/// The run passes exactly if no table holds a row of another table; how
/// many rows the tables hold has no say in it.
pub proof fn lemma_verdict(successes: u32, tables: Seq<TableCounts>)
    requires
        tables.len() <= u32::MAX,
    ensures
        violations_of(battery_of(successes, tables)).len() == 0 <==> rows_in_place(tables),
{
    let battery = battery_of(successes, tables);
    lemma_pass_means_all_hold(battery);
    lemma_battery_shape(successes, tables);
    if rows_in_place(tables) {
        assert forall|k: int| 0 <= k < battery.len() implies !(#[trigger] battery[k]).violated() by {
            assert(tables[k / 2].misplaced == 0);
        }
    } else {
        let i = choose|i: int| 0 <= i < tables.len() && (#[trigger] tables[i]).misplaced != 0;
        let misplaced = battery[2 * i];
        assert(misplaced == table_checks(successes, i as u32, tables[i])[0]);
        assert(misplaced.violated());
    }
}

/// The battery of the scenario, given the number of runs of the insert
/// script that succeeded and what was read of each table.
pub fn battery(successes: u32, tables: &Vec<TableCounts>) -> (battery: Vec<VerificationAssertion>)
    requires
        tables.len() <= u32::MAX,
    ensures
        battery@ == battery_of(successes, tables@),
{
    let expected = expected_rows(successes);
    let mut battery: Vec<VerificationAssertion> = Vec::new();
    let mut i: usize = 0;
    while i < tables.len()
        invariant
            i <= tables.len() <= u32::MAX,
            expected == rows_per_table(successes),
            battery@ == battery_of(successes, tables@.take(i as int)),
        decreases tables.len() - i,
    {
        let counts = tables[i];
        proof {
            assert(tables@.take(i + 1).drop_last() =~= tables@.take(i as int));
        }
        battery.push(
            VerificationAssertion::asserted(Subject::MisplacedRows(i as u32), 0, counts.misplaced),
        );
        battery.push(
            VerificationAssertion::informational(
                Subject::TableRows(i as u32),
                expected,
                counts.rows,
            ),
        );
        i = i + 1;
        assert(battery@ =~= battery_of(successes, tables@.take(i as int)));
    }
    proof {
        assert(tables@.take(i as int) =~= tables@);
    }
    battery
}

/// Verifies the tables after the run. The run passes exactly if no table
/// holds a row of another table.
pub fn verify(successes: u32, tables: &Vec<TableCounts>) -> (report: VerificationReport)
    requires
        tables.len() <= u32::MAX,
    ensures
        report.violations@ == violations_of(battery_of(successes, tables@)),
        report.notes@ == notes_of(battery_of(successes, tables@)),
        report.passed() <==> rows_in_place(tables@),
{
    let battery = battery(successes, tables);
    proof {
        lemma_verdict(successes, tables@);
    }
    evaluate(&battery)
}

} // verus!
