//! The auto-vacuum scenario: writers insert into a table that keeps only a
//! few snapshots, so that the store reclaims space by itself after every
//! write.

use vstd::prelude::*;
use vstd::string::StringExecFns;
use crate::maintenance::{battery_of, check_table_health};
use crate::text::{decimal, push_decimal, texts};
use crate::verification::{notes_of, violations_of, VerificationReport};
use crate::worker::{BoundedProgress, BoundedWorker};

verus! {

/// The statement that creates the database of the scenario anew.
pub const CREATE_DATABASE: &'static str = "create or replace database auto_vacuum";

/// The statement that enters the database of the scenario.
pub const USE_DATABASE: &'static str = "use auto_vacuum";

/// The statement that creates the table of the scenario: a clustered table
/// that keeps no more than three snapshots.
pub const CREATE_TABLE: &'static str = "CREATE OR REPLACE TABLE test (\n                \
    id DECIMAL(38, 0) NOT NULL,\n                \
    a VARIANT NULL,\n                \
    b VARCHAR NULL,\n                \
    c TIMESTAMP NULL DEFAULT CAST(now() AS Timestamp NULL),\n                \
    d TIMESTAMP NULL,\n                \
    e DECIMAL(38, 0) NULL DEFAULT 0,\n                \
    f VARCHAR NULL,\n                \
    g VARCHAR NULL,\n                \
    h VARCHAR NULL\n            \
    ) CLUSTER BY linear(id)\n              \
    BLOCK_SIZE_THRESHOLD='419430400'\n              \
    CLUSTER_TYPE='linear'\n              \
    COMPRESSION='zstd'\n              \
    DATA_RETENTION_NUM_SNAPSHOTS_TO_KEEP='3'";

/// The statement that creates the random source that the writers read.
pub const CREATE_SOURCE: &'static str = "CREATE OR REPLACE TABLE r LIKE test ENGINE = random";

/// The statement that switches on the reclaiming of space after writes.
pub const ENABLE_AUTO_VACUUM: &'static str = "set enable_auto_vacuum=1";

/// The query that reads the whole table and discards the rows.
pub const FULL_SCAN: &'static str = "SELECT * FROM test ignore_result";

/// The options of an auto-vacuum run.
#[derive(Clone, Copy, Debug, PartialEq, Eq, Structural)]
pub struct Args {
    /// The number of writers.
    pub concurrency: u32,
    /// The number of inserts of each writer.
    pub inserts_per_iteration: u32,
    /// The number of rows of each insert.
    pub insert_batch_size: u32,
}

impl Default for Args {
    /// Ten writers of twenty inserts of ten rows each.
    fn default() -> (args: Self)
        ensures
            args == (Args { concurrency: 10, inserts_per_iteration: 20, insert_batch_size: 10 }),
    {
        Args { concurrency: 10, inserts_per_iteration: 20, insert_batch_size: 10 }
    }
}

/// The texts of the statements of setup.
pub open spec fn setup_texts() -> Seq<Seq<char>> {
    seq![CREATE_DATABASE@, USE_DATABASE@, CREATE_TABLE@, CREATE_SOURCE@]
}

/// The texts of the statements that a writer's connection begins with.
pub open spec fn session_texts() -> Seq<Seq<char>> {
    seq![ENABLE_AUTO_VACUUM@, USE_DATABASE@]
}

/// The text of the insert of `rows` rows.
pub open spec fn insert_text(rows: u32) -> Seq<char> {
    "INSERT INTO test SELECT * FROM r LIMIT "@ + decimal(rows as nat)
}

/// One auto-vacuum run: its options and the descriptor of the connection
/// to the store.
#[derive(Clone)]
pub struct AutoVacuumSuite {
    args: Args,
    dsn: String,
}

impl AutoVacuumSuite {
    /// The options of the run.
    pub closed spec fn args(&self) -> Args {
        self.args
    }

    /// The descriptor of the connection to the store.
    pub closed spec fn dsn(&self) -> Seq<char> {
        self.dsn@
    }

    /// A run with the options `args` against the store at `dsn`.
    pub fn new(args: Args, dsn: String) -> (suite: Self)
        ensures
            suite.args() == args,
            suite.dsn() == dsn@,
    {
        AutoVacuumSuite { args, dsn }
    }

    /// The options of the run.
    pub fn options(&self) -> (args: Args)
        ensures
            args == self.args(),
    {
        self.args
    }

    /// The descriptor of the connection to the store.
    pub fn connection_descriptor(&self) -> (dsn: &str)
        ensures
            dsn@ == self.dsn(),
    {
        self.dsn.as_str()
    }

    /// The statements of setup: the database, the table and the random
    /// source are created anew, whatever a run before left behind.
    pub fn setup_statements(&self) -> (sqls: Vec<String>)
        ensures
            texts(sqls@) == setup_texts(),
    {
        let mut sqls: Vec<String> = Vec::new();
        sqls.push(String::from_str(CREATE_DATABASE));
        sqls.push(String::from_str(USE_DATABASE));
        sqls.push(String::from_str(CREATE_TABLE));
        sqls.push(String::from_str(CREATE_SOURCE));
        assert(texts(sqls@) =~= setup_texts());
        sqls
    }

    /// The statements that a writer's connection begins with.
    pub fn session_statements(&self) -> (sqls: Vec<String>)
        ensures
            texts(sqls@) == session_texts(),
    {
        let mut sqls: Vec<String> = Vec::new();
        sqls.push(String::from_str(ENABLE_AUTO_VACUUM));
        sqls.push(String::from_str(USE_DATABASE));
        assert(texts(sqls@) =~= session_texts());
        sqls
    }

    /// The insert of one batch of rows from the random source.
    pub fn insert_statement(&self) -> (sql: String)
        ensures
            sql@ == insert_text(self.args().insert_batch_size),
    {
        let mut sql = String::from_str("INSERT INTO test SELECT * FROM r LIMIT ");
        push_decimal(&mut sql, self.args.insert_batch_size as u64);
        sql
    }

    /// A writer of the run: it makes its inserts one after the other, logs
    /// every one that fails, and goes on.
    pub fn writer(&self) -> (worker: BoundedWorker)
        ensures
            worker@ == BoundedProgress::start(self.args().inserts_per_iteration as nat, true),
    {
        BoundedWorker::new(self.args.inserts_per_iteration, true)
    }

    /// Checks the health of the table after the run: the run passes exactly
    /// if the scan of the whole table ran to its end.
    pub fn check_table_health(&self, scan_completed: bool) -> (report: VerificationReport)
        ensures
            report.violations@ == violations_of(battery_of(scan_completed, None)),
            report.notes@ == notes_of(battery_of(scan_completed, None)),
            report.passed() <==> scan_completed,
    {
        check_table_health(scan_completed, None)
    }
}

} // verus!
