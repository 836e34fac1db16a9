//! The vacuum scenario: writers insert into a table while vacuum workers
//! reclaim its space with a retention of zero days.
//!
//! The writers either insert statement by statement or put all their
//! inserts into one explicit transaction.

use vstd::prelude::*;
use vstd::string::StringExecFns;
use crate::maintenance::{battery_of, check_table_health};
use crate::pool::JoinOutcome;
use crate::text::{decimal, push_decimal, texts};
use crate::verification::{notes_of, violations_of, VerificationReport};
use crate::worker::{UnboundedProgress, UnboundedWorker};

verus! {

/// The statement that creates the database of the scenario anew.
pub const CREATE_DATABASE: &'static str = "CREATE OR REPLACE DATABASE test_vacuum2";

/// The statement that enters the database of the scenario.
pub const USE_DATABASE: &'static str = "USE test_vacuum2";

/// The statement that creates the table of the scenario.
pub const CREATE_TABLE: &'static str = "CREATE OR REPLACE TABLE t1 (\n                \
    id DECIMAL(38, 0) NOT NULL,\n                \
    a VARIANT NULL,\n                \
    b VARCHAR NULL,\n                \
    c TIMESTAMP NULL DEFAULT CAST(now() AS Timestamp NULL),\n                \
    d TIMESTAMP NULL,\n                \
    e DECIMAL(38, 0) NULL DEFAULT 0,\n                \
    f VARCHAR NULL,\n                \
    g VARCHAR NULL,\n                \
    h VARCHAR NULL\n            \
    )";

/// The statement that creates the random source that the writers read.
pub const CREATE_SOURCE: &'static str = "CREATE OR REPLACE TABLE r LIKE t1 ENGINE = random";

/// The statement that sets the retention to zero days, so that vacuum
/// reclaims whatever is not in the latest snapshot.
pub const NO_RETENTION: &'static str = "SET data_retention_time_in_days = 0";

/// The statement that reclaims the space of the table.
pub const VACUUM: &'static str = "CALL system$fuse_vacuum2('test_vacuum2', 't1')";

/// The query that reads the whole table and discards the rows.
pub const FULL_SCAN: &'static str = "SELECT * FROM t1 ignore_result";

/// The options of a vacuum run.
#[derive(Clone, Copy, Debug, PartialEq, Eq, Structural)]
pub struct Args {
    /// The number of writers.
    pub writers: u32,
    /// The number of vacuum workers.
    pub vacuumers: u32,
    /// The number of inserts of each writer.
    pub inserts_per_thread: u32,
    /// The number of rows of each insert.
    pub insert_batch_size: u32,
    /// Whether each writer puts its inserts into one explicit transaction.
    pub explicit_txn: bool,
}

impl Default for Args {
    /// Ten writers of twenty inserts of ten rows each, three vacuum
    /// workers, and no explicit transactions.
    fn default() -> (args: Self)
        ensures
            args == (Args {
                writers: 10,
                vacuumers: 3,
                inserts_per_thread: 20,
                insert_batch_size: 10,
                explicit_txn: false,
            }),
    {
        Args {
            writers: 10,
            vacuumers: 3,
            inserts_per_thread: 20,
            insert_batch_size: 10,
            explicit_txn: false,
        }
    }
}

/// One statement of a writer.
#[derive(Clone, Copy, Debug, PartialEq, Eq, Structural)]
pub enum WriterStep {
    /// Begin the transaction.
    Begin,
    /// Insert one batch; `iteration` counts the inserts from zero.
    Insert { iteration: u32 },
    /// Roll the transaction back.
    Rollback,
    /// Commit the transaction.
    Commit,
}

/// Where a writer stands.
#[derive(Clone, Copy, Debug, PartialEq, Eq, Structural)]
pub enum Stage {
    /// The transaction is to be begun.
    Opening,
    /// Inserts are due.
    Inserting,
    /// An insert has failed inside the transaction, which is to be rolled
    /// back.
    RollingBack,
    /// All inserts are made and the transaction is to be committed.
    Committing,
    /// The writer is done.
    Closed,
}

/// What is known of a writer.
pub struct WriterProgress {
    /// Whether the writer works inside one explicit transaction.
    pub explicit_txn: bool,
    /// The number of inserts to make.
    pub iterations: nat,
    pub stage: Stage,
    /// The number of inserts made.
    pub iteration: nat,
    /// The number of inserts that succeeded.
    pub succeeded: nat,
    /// The transaction could not be begun: the writer has broken down.
    pub failed: bool,
}

impl WriterProgress {
    /// The stage in which a writer is after `iteration` inserts, if none of
    /// them has ended it.
    pub open spec fn stage_after(explicit_txn: bool, iterations: nat, iteration: nat) -> Stage {
        if iteration < iterations {
            Stage::Inserting
        } else if explicit_txn {
            Stage::Committing
        } else {
            Stage::Closed
        }
    }

    /// A writer that has not run yet.
    pub open spec fn start(explicit_txn: bool, iterations: nat) -> Self {
        WriterProgress {
            explicit_txn,
            iterations,
            stage: if explicit_txn {
                Stage::Opening
            } else {
                Self::stage_after(explicit_txn, iterations, 0)
            },
            iteration: 0,
            succeeded: 0,
            failed: false,
        }
    }

    /// The statement that is due; none once the writer is done.
    pub open spec fn due(self) -> Option<WriterStep> {
        match self.stage {
            Stage::Opening => Some(WriterStep::Begin),
            Stage::Inserting => Some(WriterStep::Insert { iteration: self.iteration as u32 }),
            Stage::RollingBack => Some(WriterStep::Rollback),
            Stage::Committing => Some(WriterStep::Commit),
            Stage::Closed => None,
        }
    }

    /// The writer after the statement that was due ended as `ok` says.
    ///
    /// A transaction that cannot be begun breaks the writer. Outside of a
    /// transaction a failed insert is passed over. Inside one, the first
    /// failed insert ends the inserts: the transaction is rolled back and
    /// the writer is done, without fault. How the rollback or the commit
    /// ends makes no difference.
    pub open spec fn record(self, ok: bool) -> Self {
        match self.stage {
            Stage::Opening => if ok {
                WriterProgress {
                    stage: Self::stage_after(true, self.iterations, 0),
                    ..self
                }
            } else {
                WriterProgress { stage: Stage::Closed, failed: true, ..self }
            },
            Stage::Inserting => if ok || !self.explicit_txn {
                WriterProgress {
                    stage: Self::stage_after(
                        self.explicit_txn,
                        self.iterations,
                        self.iteration + 1,
                    ),
                    iteration: self.iteration + 1,
                    succeeded: if ok {
                        self.succeeded + 1
                    } else {
                        self.succeeded
                    },
                    ..self
                }
            } else {
                WriterProgress {
                    stage: Stage::RollingBack,
                    iteration: self.iteration + 1,
                    ..self
                }
            },
            Stage::RollingBack => WriterProgress { stage: Stage::Closed, ..self },
            Stage::Committing => WriterProgress { stage: Stage::Closed, ..self },
            Stage::Closed => self,
        }
    }

    /// How the writer's task ends: broken down if the transaction could not
    /// be begun, and finished with its tally otherwise.
    pub open spec fn outcome(self) -> JoinOutcome {
        if self.failed {
            JoinOutcome::Failed
        } else {
            JoinOutcome::Finished(self.succeeded as u32)
        }
    }
}

/// A writer of the scenario.
pub struct Writer {
    explicit_txn: bool,
    iterations: u32,
    stage: Stage,
    iteration: u32,
    succeeded: u32,
    failed: bool,
}

impl View for Writer {
    type V = WriterProgress;

    closed spec fn view(&self) -> WriterProgress {
        WriterProgress {
            explicit_txn: self.explicit_txn,
            iterations: self.iterations as nat,
            stage: self.stage,
            iteration: self.iteration as nat,
            succeeded: self.succeeded as nat,
            failed: self.failed,
        }
    }
}

impl Writer {
    #[verifier::type_invariant]
    spec fn well_formed(self) -> bool {
        &&& self.succeeded <= self.iteration <= self.iterations
        &&& self.stage is Inserting ==> self.iteration < self.iterations
        &&& self.stage is Opening ==> self.iteration == 0
    }

    /// The stage after `iteration` inserts.
    fn stage_after(explicit_txn: bool, iterations: u32, iteration: u32) -> (stage: Stage)
        ensures
            stage == WriterProgress::stage_after(explicit_txn, iterations as nat, iteration as nat),
    {
        if iteration < iterations {
            Stage::Inserting
        } else if explicit_txn {
            Stage::Committing
        } else {
            Stage::Closed
        }
    }

    /// A writer that is to make `iterations` inserts, inside one explicit
    /// transaction if `explicit_txn` is set.
    pub fn new(explicit_txn: bool, iterations: u32) -> (writer: Self)
        ensures
            writer@ == WriterProgress::start(explicit_txn, iterations as nat),
    {
        let stage = if explicit_txn {
            Stage::Opening
        } else {
            Self::stage_after(explicit_txn, iterations, 0)
        };
        Writer { explicit_txn, iterations, stage, iteration: 0, succeeded: 0, failed: false }
    }

    /// The statement to execute now, or `None` if the writer is done.
    pub fn next(&self) -> (step: Option<WriterStep>)
        ensures
            step == self@.due(),
            step is None <==> self@.stage is Closed,
    {
        match self.stage {
            Stage::Opening => Some(WriterStep::Begin),
            Stage::Inserting => Some(WriterStep::Insert { iteration: self.iteration }),
            Stage::RollingBack => Some(WriterStep::Rollback),
            Stage::Committing => Some(WriterStep::Commit),
            Stage::Closed => None,
        }
    }

    /// Takes note of the outcome of the statement that was due.
    pub fn record(&mut self, ok: bool)
        ensures
            final(self)@ == old(self)@.record(ok),
    {
        proof {
            use_type_invariant(&*self);
        }
        let explicit_txn = self.explicit_txn;
        let iterations = self.iterations;
        let iteration = self.iteration;
        let succeeded = self.succeeded;
        let failed = self.failed;
        match self.stage {
            Stage::Opening => {
                if ok {
                    let stage = Self::stage_after(true, iterations, 0);
                    *self = Writer { explicit_txn, iterations, stage, iteration, succeeded, failed };
                } else {
                    *self = Writer {
                        explicit_txn,
                        iterations,
                        stage: Stage::Closed,
                        iteration,
                        succeeded,
                        failed: true,
                    };
                }
            },
            Stage::Inserting => {
                if ok || !explicit_txn {
                    let stage = Self::stage_after(explicit_txn, iterations, iteration + 1);
                    *self = Writer {
                        explicit_txn,
                        iterations,
                        stage,
                        iteration: iteration + 1,
                        succeeded: if ok {
                            succeeded + 1
                        } else {
                            succeeded
                        },
                        failed,
                    };
                } else {
                    *self = Writer {
                        explicit_txn,
                        iterations,
                        stage: Stage::RollingBack,
                        iteration: iteration + 1,
                        succeeded,
                        failed,
                    };
                }
            },
            Stage::RollingBack => {
                *self = Writer {
                    explicit_txn,
                    iterations,
                    stage: Stage::Closed,
                    iteration,
                    succeeded,
                    failed,
                };
            },
            Stage::Committing => {
                *self = Writer {
                    explicit_txn,
                    iterations,
                    stage: Stage::Closed,
                    iteration,
                    succeeded,
                    failed,
                };
            },
            Stage::Closed => {},
        }
    }

    /// Where the writer stands.
    pub fn stage(&self) -> (stage: Stage)
        ensures
            stage == self@.stage,
    {
        self.stage
    }

    /// How the writer's task ends.
    pub fn outcome(&self) -> (outcome: JoinOutcome)
        ensures
            outcome == self@.outcome(),
    {
        if self.failed {
            JoinOutcome::Failed
        } else {
            JoinOutcome::Finished(self.succeeded)
        }
    }
}

/// A transaction that was begun is ended before the writer is done: with
/// a transaction, the writer comes to its end only from a commit or a
/// rollback, or from a begin that failed, and a failed insert is followed
/// by a rollback.
pub proof fn lemma_transaction_is_ended(writer: WriterProgress, ok: bool)
    requires
        writer.explicit_txn,
        !(writer.stage is Closed),
    ensures
        writer.record(ok).stage is Closed ==> writer.due() == Some(WriterStep::Commit)
            || writer.due() == Some(WriterStep::Rollback) || (writer.due() == Some(
            WriterStep::Begin,
        ) && !ok),
        writer.stage is Inserting && !ok ==> writer.record(ok).due() == Some(WriterStep::Rollback),
{
}

/// Outside of a transaction a failed insert ends nothing: the writer goes
/// on as after a success, and only its tally differs.
pub proof fn lemma_failed_insert_is_passed_over(writer: WriterProgress)
    requires
        !writer.explicit_txn,
        writer.stage is Inserting,
    ensures
        writer.record(false).stage == writer.record(true).stage,
        writer.record(false).iteration == writer.record(true).iteration,
        writer.record(false).succeeded == writer.succeeded,
        writer.record(false).failed == writer.failed,
{
}

/// A writer without inserts and without a transaction is done before it
/// runs, with a tally of zero.
pub proof fn lemma_no_inserts()
    ensures
        WriterProgress::start(false, 0).due() is None,
        WriterProgress::start(false, 0).outcome() == JoinOutcome::Finished(0),
{
}

/// The texts of the statements of setup.
pub open spec fn setup_texts() -> Seq<Seq<char>> {
    seq![CREATE_DATABASE@, USE_DATABASE@, CREATE_TABLE@, CREATE_SOURCE@]
}

/// The texts of the statements that a writer's connection begins with.
pub open spec fn writer_session_texts() -> Seq<Seq<char>> {
    seq![NO_RETENTION@, USE_DATABASE@]
}

/// The texts of one round of a vacuum worker.
pub open spec fn vacuum_round_texts() -> Seq<Seq<char>> {
    seq![NO_RETENTION@, VACUUM@]
}

/// The text of the insert of `rows` rows.
pub open spec fn insert_text(rows: u32) -> Seq<char> {
    "INSERT INTO t1 SELECT * FROM r LIMIT "@ + decimal(rows as nat)
}

/// The text of the statement of `step`.
pub open spec fn step_text(step: WriterStep, rows: u32) -> Seq<char> {
    match step {
        WriterStep::Begin => "BEGIN"@,
        WriterStep::Insert { .. } => insert_text(rows),
        WriterStep::Rollback => "ROLLBACK"@,
        WriterStep::Commit => "COMMIT"@,
    }
}

/// The name of the workload, for the log.
pub open spec fn scenario_text(explicit_txn: bool) -> Seq<char> {
    if explicit_txn {
        "explicit transaction"@
    } else {
        "simple concurrent writes"@
    }
}

/// One vacuum run: its options and the descriptor of the connection to the
/// store.
#[derive(Clone)]
pub struct Vacuum2Suite {
    args: Args,
    dsn: String,
}

impl Vacuum2Suite {
    /// The options of the run.
    pub closed spec fn args(&self) -> Args {
        self.args
    }

    /// The descriptor of the connection to the store.
    pub closed spec fn dsn(&self) -> Seq<char> {
        self.dsn@
    }

    /// A run with the options `args` against the store at `dsn`.
    pub fn new(args: Args, dsn: String) -> (suite: Self)
        ensures
            suite.args() == args,
            suite.dsn() == dsn@,
    {
        Vacuum2Suite { args, dsn }
    }

    /// The options of the run.
    pub fn options(&self) -> (args: Args)
        ensures
            args == self.args(),
    {
        self.args
    }

    /// The descriptor of the connection to the store.
    pub fn connection_descriptor(&self) -> (dsn: &str)
        ensures
            dsn@ == self.dsn(),
    {
        self.dsn.as_str()
    }

    /// The name of the workload, for the log.
    pub fn scenario_name(&self) -> (name: &'static str)
        ensures
            name@ == scenario_text(self.args().explicit_txn),
    {
        if self.args.explicit_txn {
            "explicit transaction"
        } else {
            "simple concurrent writes"
        }
    }

    /// The statements of setup: the database, the table and the random
    /// source are created anew, whatever a run before left behind.
    pub fn setup_statements(&self) -> (sqls: Vec<String>)
        ensures
            texts(sqls@) == setup_texts(),
    {
        let mut sqls: Vec<String> = Vec::new();
        sqls.push(String::from_str(CREATE_DATABASE));
        sqls.push(String::from_str(USE_DATABASE));
        sqls.push(String::from_str(CREATE_TABLE));
        sqls.push(String::from_str(CREATE_SOURCE));
        assert(texts(sqls@) =~= setup_texts());
        sqls
    }

    /// The statements that a writer's connection begins with.
    pub fn writer_session_statements(&self) -> (sqls: Vec<String>)
        ensures
            texts(sqls@) == writer_session_texts(),
    {
        let mut sqls: Vec<String> = Vec::new();
        sqls.push(String::from_str(NO_RETENTION));
        sqls.push(String::from_str(USE_DATABASE));
        assert(texts(sqls@) =~= writer_session_texts());
        sqls
    }

    /// The statements of one round of a vacuum worker: the retention is set
    /// to zero, then the table is vacuumed.
    pub fn vacuum_round_statements(&self) -> (sqls: Vec<String>)
        ensures
            texts(sqls@) == vacuum_round_texts(),
    {
        let mut sqls: Vec<String> = Vec::new();
        sqls.push(String::from_str(NO_RETENTION));
        sqls.push(String::from_str(VACUUM));
        assert(texts(sqls@) =~= vacuum_round_texts());
        sqls
    }

    /// The insert of one batch of rows from the random source.
    pub fn insert_statement(&self) -> (sql: String)
        ensures
            sql@ == insert_text(self.args().insert_batch_size),
    {
        let mut sql = String::from_str("INSERT INTO t1 SELECT * FROM r LIMIT ");
        push_decimal(&mut sql, self.args.insert_batch_size as u64);
        sql
    }

    /// The statement of `step`.
    pub fn step_statement(&self, step: WriterStep) -> (sql: String)
        ensures
            sql@ == step_text(step, self.args().insert_batch_size),
    {
        match step {
            WriterStep::Begin => String::from_str("BEGIN"),
            WriterStep::Insert { .. } => self.insert_statement(),
            WriterStep::Rollback => String::from_str("ROLLBACK"),
            WriterStep::Commit => String::from_str("COMMIT"),
        }
    }

    /// A writer of the run.
    pub fn writer(&self) -> (writer: Writer)
        ensures
            writer@ == WriterProgress::start(
                self.args().explicit_txn,
                self.args().inserts_per_thread as nat,
            ),
    {
        Writer::new(self.args.explicit_txn, self.args.inserts_per_thread)
    }

    /// A vacuum worker of the run: it repeats its round of two statements
    /// until it is told to stop, and keeps no count.
    pub fn vacuumer(&self) -> (worker: UnboundedWorker)
        ensures
            worker@ == UnboundedProgress::start(2, false),
    {
        UnboundedWorker::new(2, false)
    }

    /// Checks the health of the table after the run: the run passes exactly
    /// if the scan of the whole table ran to its end.
    pub fn check_table_health(&self, scan_completed: bool) -> (report: VerificationReport)
        ensures
            report.violations@ == violations_of(battery_of(scan_completed, None)),
            report.notes@ == notes_of(battery_of(scan_completed, None)),
            report.passed() <==> scan_completed,
    {
        check_table_health(scan_completed, None)
    }
}

} // verus!
