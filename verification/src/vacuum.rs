//! The vacuum scenario in its plain form: writers insert rows one by one
//! into a table while vacuum workers purge everything the table does not
//! need for its latest state.

use vstd::prelude::*;
use vstd::string::StringExecFns;
use crate::maintenance::{battery_of, check_table_health, RowCounts};
use crate::text::{decimal, push_decimal};
use crate::verification::{notes_of, violations_of, VerificationReport};
use crate::worker::{BoundedProgress, BoundedWorker, UnboundedProgress, UnboundedWorker};

verus! {

/// The descriptor of the connection that is used if none is given: the
/// store on this machine, with a retention period of zero.
pub const DEFAULT_DSN: &'static str =
    "databend://root:@localhost:8000/default?sslmode=disable&retention_period=0";

/// The path of the setup script.
pub const SET_UP: &'static str = "tests/sql/setup.sql";

/// The statement of the vacuum workers.
pub const VACUUM: &'static str = "vacuum table test RETAIN 0 HOURS";

/// The query for the number of rows of the table.
pub const COUNT_ROWS: &'static str = "select count() from test";

/// The query that reads the whole table and discards the rows.
pub const FULL_SCAN: &'static str = "select * from test ignore_result";

/// The query for the metrics of the store that bear on this workload.
pub const METRICS: &'static str =
    "select metric, value from system.metrics where metric like '%replace%'  or metric like '%conflict%' order by metric";

/// The number of vacuum statements between two lines of a vacuum worker in
/// the log.
pub const REPORT_EVERY: u32 = 100;

/// The options of a run.
#[derive(Clone, Copy, Debug, PartialEq, Eq, Structural)]
pub struct Args {
    /// The number of writers.
    pub insertion_concurrency: u32,
    /// The number of inserts of each writer.
    pub insertion_iteration: u32,
    /// The number of vacuum workers.
    pub vacuum_concurrency: u32,
}

impl Default for Args {
    /// Five writers of a thousand inserts each, and five vacuum workers.
    fn default() -> (args: Self)
        ensures
            args == (Args {
                insertion_concurrency: 5,
                insertion_iteration: 1000,
                vacuum_concurrency: 5,
            }),
    {
        Args { insertion_concurrency: 5, insertion_iteration: 1000, vacuum_concurrency: 5 }
    }
}

/// The text of the insert of the writer with the number `batch`: one row
/// that holds the number and its double.
pub open spec fn insert_text(batch: u32) -> Seq<char> {
    "insert into test values("@ + decimal(batch as nat) + ", "@ + decimal(2 * batch as nat)
        + ")"@
}

/// The insert of the writer with the number `batch`.
pub fn insert_statement(batch: u32) -> (sql: String)
    ensures
        sql@ == insert_text(batch),
{
    let mut sql = String::from_str("insert into test values(");
    push_decimal(&mut sql, batch as u64);
    sql.append(", ");
    push_decimal(&mut sql, 2 * (batch as u64));
    sql.append(")");
    sql
}

/// A writer of a run with `args`: it makes its inserts one after the
/// other, passes over those that fail, and counts the others.
pub fn writer(args: Args) -> (worker: BoundedWorker)
    ensures
        worker@ == BoundedProgress::start(args.insertion_iteration as nat, false),
{
    BoundedWorker::new(args.insertion_iteration, false)
}

/// A vacuum worker: it repeats [`VACUUM`] until it is told to stop and
/// counts what it executed and what succeeded.
pub fn vacuumer() -> (worker: UnboundedWorker)
    ensures
        worker@ == UnboundedProgress::start(1, true),
{
    UnboundedWorker::new(1, true)
}

/// Verifies the table after the run: `scan_completed` says whether the scan
/// of the whole table ran to its end. The rows that the writers saw
/// inserted are held against those the store holds for information; the
/// run passes exactly if the scan ran to its end.
pub fn verify(success_insertions: u32, server_rows: u32, scan_completed: bool) -> (report:
    VerificationReport)
    ensures
        report.violations@ == violations_of(
            battery_of(
                scan_completed,
                Some(RowCounts { client: success_insertions as u64, server: server_rows as u64 }),
            ),
        ),
        report.notes@ == notes_of(
            battery_of(
                scan_completed,
                Some(RowCounts { client: success_insertions as u64, server: server_rows as u64 }),
            ),
        ),
        report.passed() <==> scan_completed,
{
    check_table_health(
        scan_completed,
        Some(RowCounts { client: success_insertions as u64, server: server_rows as u64 }),
    )
}

} // verus!
