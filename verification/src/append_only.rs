//! The append-only change-tracking scenario in its plain form: rows are
//! inserted into a base table and the table is compacted, while cursors over
//! it are consumed into sinks by inserts and by merges that match nothing.

use vstd::prelude::*;
use vstd::string::StringExecFns;
use crate::script::{split_statements, statements};
use crate::streams::{
    blind_merge_statement, blind_merge_text, create_sink_statement, create_sink_text,
    insert_statement, insert_text, sinks_agree, SinkStats,
};
use crate::text::{decimal, push_decimal, texts};
use crate::verification::{notes_of, violations_of, VerificationReport};
use crate::worker::{BoundedProgress, BoundedWorker, UnboundedProgress, UnboundedWorker};

verus! {

/// The descriptor of the connection that is used if none is given.
pub const DEFAULT_DSN: &'static str = "databend://root:@localhost:8000/default?sslmode=disable";

/// The path of the setup script.
pub const SET_UP: &'static str = "tests/sql/setup.sql";

/// The statement that drops the database of a run before.
pub const DROP_DATABASE: &'static str = "drop database if exists test_stream";

/// The statement that creates the database of the scenario.
pub const CREATE_DATABASE: &'static str = "create database test_stream";

/// The statement that every connection of the scenario begins with.
pub const USE_DATABASE: &'static str = "use test_stream";

/// The statement that puts a few rows into the base table before the
/// workers start.
pub const SEED: &'static str = "insert into base select * from rand limit 10";

/// The statement of the insertion worker.
pub const INSERTION: &'static str = "insert into base select * from rand limit 1";

/// The statement of the compaction worker.
pub const COMPACTION: &'static str = "optimize table base compact";

/// The statement that creates the baseline cursor.
pub const CREATE_BASE_STREAM: &'static str = "create stream base_stream on table base";

/// The columns of the base table that the sinks take over: all of them.
pub const COLUMNS: &'static str = "*";

/// The value column, whose sum is compared between the sinks.
pub const VALUE_COLUMN: &'static str = "c";

/// The options of a run.
#[derive(Clone, Copy, Debug, PartialEq, Eq, Structural)]
pub struct Args {
    /// The number of derived cursors.
    pub num_derived_streams: u32,
    /// The number of workers that consume one cursor at a time.
    pub stream_consumption_concurrency: u32,
    /// The number of times each of these workers consumes its cursor.
    pub times_consumption_per_stream: u32,
    /// Whether failed consumptions are logged one by one.
    pub show_stream_consumption_errors: bool,
}

impl Default for Args {
    /// Five derived cursors, three workers on each, ten consumptions by
    /// each worker.
    fn default() -> (args: Self)
        ensures
            args == (Args {
                num_derived_streams: 5,
                stream_consumption_concurrency: 3,
                times_consumption_per_stream: 10,
                show_stream_consumption_errors: false,
            }),
    {
        Args {
            num_derived_streams: 5,
            stream_consumption_concurrency: 3,
            times_consumption_per_stream: 10,
            show_stream_consumption_errors: false,
        }
    }
}

/// The texts of the statements of setup: the database of a run before is
/// dropped, the database is created and entered, then the statements of the
/// setup script follow.
pub open spec fn setup_texts(script: Seq<char>) -> Seq<Seq<char>> {
    seq![DROP_DATABASE@, CREATE_DATABASE@, USE_DATABASE@] + statements(script)
}

/// The text of the statement that creates derived cursor `index` at the
/// position of the baseline cursor.
pub open spec fn create_derived_stream_text(index: u32) -> Seq<char> {
    "create stream base_stream_"@ + decimal(index as nat)
        + " on table base at (STREAM => base_stream)"@
}

/// The texts of the statements that create the derived cursors and their
/// sinks: for each target its cursor, then its sink.
pub open spec fn create_derived_texts(targets: u32) -> Seq<Seq<char>> {
    Seq::new(
        2 * targets as nat,
        |k: int|
            if k % 2 == 0 {
                create_derived_stream_text((k / 2) as u32)
            } else {
                create_sink_text((k / 2) as u32)
            },
    )
}

/// The text of the statement by which a worker consumes derived cursor
/// `stream` during the run: an insert for a cursor with an even number, and
/// a merge that matches nothing for one with an odd number.
pub open spec fn consume_text(stream: u32) -> Seq<char> {
    if stream % 2 == 0 {
        insert_text(Some(stream), true, COLUMNS@)
    } else {
        blind_merge_text(Some(stream), COLUMNS@)
    }
}

/// The text of the statement that drains the cursor of `target`.
pub open spec fn drain_text(target: Option<u32>) -> Seq<char> {
    insert_text(target, target is Some, COLUMNS@)
}

/// The texts of the drain: one statement per derived target, in order, and
/// one for the baseline at the end.
pub open spec fn drain_texts(targets: u32) -> Seq<Seq<char>> {
    Seq::new(
        targets as nat + 1,
        |i: int|
            if i < targets {
                drain_text(Some(i as u32))
            } else {
                drain_text(None)
            },
    )
}

/// The number of consumptions that a run with `args` attempts in all.
pub open spec fn planned_consumptions(args: Args) -> nat {
    args.stream_consumption_concurrency as nat * args.times_consumption_per_stream as nat
        * args.num_derived_streams as nat
}

/// One run of the scenario: its options and the descriptor of the
/// connection to the store.
pub struct Driver {
    args: Args,
    dsn: String,
}

impl Driver {
    /// The options of the run.
    pub closed spec fn args(&self) -> Args {
        self.args
    }

    /// The descriptor of the connection to the store.
    pub closed spec fn dsn(&self) -> Seq<char> {
        self.dsn@
    }

    /// A run with the options `args` against the store at [`DEFAULT_DSN`].
    pub fn new(args: Args) -> (driver: Self)
        ensures
            driver.args() == args,
            driver.dsn() == DEFAULT_DSN@,
    {
        Driver { args, dsn: String::from_str(DEFAULT_DSN) }
    }

    /// The same run against the store at `dsn`.
    pub fn with_dsn(self, dsn: String) -> (driver: Self)
        ensures
            driver.args() == self.args(),
            driver.dsn() == dsn@,
    {
        Driver { args: self.args, dsn }
    }

    /// The options of the run.
    pub fn options(&self) -> (args: Args)
        ensures
            args == self.args(),
    {
        self.args
    }

    /// The descriptor of the connection to the store.
    pub fn connection_descriptor(&self) -> (dsn: &str)
        ensures
            dsn@ == self.dsn(),
    {
        self.dsn.as_str()
    }

    /// The statements of setup for the setup script `script`. They do not
    /// depend on what a run before left behind: its database is dropped
    /// before anything else.
    pub fn setup_statements(&self, script: &str) -> (sqls: Vec<String>)
        ensures
            texts(sqls@) == setup_texts(script@),
    {
        let mut sqls: Vec<String> = Vec::new();
        sqls.push(String::from_str(DROP_DATABASE));
        sqls.push(String::from_str(CREATE_DATABASE));
        sqls.push(String::from_str(USE_DATABASE));
        let mut rest = split_statements(script);
        let ghost head = sqls@;
        let ghost tail = rest@;
        sqls.append(&mut rest);
        proof {
            assert(sqls@ =~= head + tail);
            assert(texts(sqls@) =~= setup_texts(script@));
        }
        sqls
    }

    /// The insertion worker: it repeats [`INSERTION`] and keeps no count.
    pub fn inserter(&self) -> (worker: UnboundedWorker)
        ensures
            worker@ == UnboundedProgress::start(1, false),
    {
        UnboundedWorker::new(1, false)
    }

    /// The compaction worker: it repeats [`COMPACTION`] and counts its
    /// successes.
    pub fn compactor(&self) -> (worker: UnboundedWorker)
        ensures
            worker@ == UnboundedProgress::start(1, true),
    {
        UnboundedWorker::new(1, true)
    }

    /// The statement that creates derived cursor `index`.
    pub fn create_derived_stream_statement(&self, index: u32) -> (sql: String)
        ensures
            sql@ == create_derived_stream_text(index),
    {
        let mut sql = String::from_str("create stream base_stream_");
        push_decimal(&mut sql, index as u64);
        sql.append(" on table base at (STREAM => base_stream)");
        sql
    }

    /// The statements that create the derived cursors and their sinks.
    pub fn create_derived_statements(&self) -> (sqls: Vec<String>)
        ensures
            texts(sqls@) == create_derived_texts(self.args().num_derived_streams),
    {
        let targets = self.args.num_derived_streams;
        let mut sqls: Vec<String> = Vec::new();
        let mut index: u32 = 0;
        while index < targets
            invariant
                index <= targets == self.args().num_derived_streams,
                texts(sqls@) == create_derived_texts(index),
            decreases targets - index,
        {
            let ghost before = texts(sqls@);
            sqls.push(self.create_derived_stream_statement(index));
            sqls.push(create_sink_statement(index));
            proof {
                let now = create_derived_texts((index + 1) as u32);
                assert(before.len() == 2 * index);
                assert(sqls@.len() == before.len() + 2);
                assert forall|k: int| 0 <= k < now.len() implies texts(sqls@)[k] == now[k] by {
                    if k < 2 * index {
                        assert(texts(sqls@)[k] == before[k]);
                    } else if k == 2 * index {
                        assert(k / 2 == index && k % 2 == 0);
                    } else {
                        assert(k / 2 == index && k % 2 == 1);
                    }
                }
            }
            index = index + 1;
            assert(texts(sqls@) =~= create_derived_texts(index));
        }
        sqls
    }

    /// The statement by which the workers on derived cursor `stream_id`
    /// consume it during the run.
    pub fn consume_statement(&self, stream_id: u32) -> (sql: String)
        ensures
            sql@ == consume_text(stream_id),
    {
        if stream_id % 2 == 0 {
            insert_statement(Some(stream_id), true, COLUMNS)
        } else {
            blind_merge_statement(Some(stream_id), COLUMNS)
        }
    }

    /// A worker that consumes a cursor as often as the options say.
    pub fn consumer(&self) -> (worker: BoundedWorker)
        ensures
            worker@ == BoundedProgress::start(
                self.args().times_consumption_per_stream as nat,
                self.args().show_stream_consumption_errors,
            ),
    {
        BoundedWorker::new(
            self.args.times_consumption_per_stream,
            self.args.show_stream_consumption_errors,
        )
    }

    /// The statement that drains the cursor of `target`.
    pub fn drain_statement(&self, target: Option<u32>) -> (sql: String)
        ensures
            sql@ == drain_text(target),
    {
        insert_statement(target, target.is_some(), COLUMNS)
    }

    /// The statements of the drain, to be executed once and in this order
    /// after all workers have stopped: every derived cursor is consumed
    /// into its sink, and the baseline cursor into the baseline's sink.
    pub fn final_consume_statements(&self) -> (sqls: Vec<String>)
        ensures
            texts(sqls@) == drain_texts(self.args().num_derived_streams),
    {
        let targets = self.args.num_derived_streams;
        let mut sqls: Vec<String> = Vec::new();
        let mut index: u32 = 0;
        while index < targets
            invariant
                index <= targets == self.args().num_derived_streams,
                sqls@.len() == index,
                forall|i: int|
                    0 <= i < index ==> (#[trigger] sqls@[i])@ == drain_text(Some(i as u32)),
            decreases targets - index,
        {
            sqls.push(self.drain_statement(Some(index)));
            index = index + 1;
        }
        sqls.push(self.drain_statement(None));
        assert(texts(sqls@) =~= drain_texts(self.args().num_derived_streams));
        sqls
    }

    /// Holds the sinks of the derived targets against the baseline's sink,
    /// after the drain. The run passes exactly if every sink has the row
    /// count and the sum of the baseline's.
    pub fn verify(&self, baseline: SinkStats, derived: &Vec<SinkStats>) -> (report:
        VerificationReport)
        requires
            derived.len() <= u32::MAX,
        ensures
            report.violations@ == violations_of(crate::streams::battery_of(baseline, derived@)),
            report.notes@ == notes_of(crate::streams::battery_of(baseline, derived@)),
            report.passed() <==> sinks_agree(baseline, derived@),
    {
        crate::streams::verify(baseline, derived)
    }
}

} // verus!
