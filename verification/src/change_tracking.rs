//! The change-tracking scenario: cursors over a base table are consumed
//! into sinks while the table is written to, compacted and reclustered.
//!
//! With append-only cursors the change sets are inserted; with standard
//! cursors they are merged, so that updates and deletions of the base table
//! are carried over too.

use vstd::prelude::*;
use vstd::string::StringExecFns;
use crate::script::{split_statements, statements};
use crate::streams::{
    blind_merge_statement, blind_merge_text, change_merge_statement, change_merge_text,
    create_sink_statement, create_sink_text, insert_statement, insert_text, sinks_agree,
    SinkStats,
};
use crate::text::{decimal, push_decimal, texts};
use crate::verification::{notes_of, violations_of, VerificationReport};
use crate::worker::{BoundedProgress, BoundedWorker, UnboundedProgress, UnboundedWorker};

verus! {

/// The setup script for a base table without a cluster key.
pub const SET_UP: &'static str = "./sql/change_tracking/setup.sql";

/// The setup script for a base table with a cluster key.
pub const SET_UP_CLUSTERED: &'static str = "./sql/change_tracking/setup_clustered.sql";

/// The statement that creates the database of the scenario anew.
pub const CREATE_DATABASE: &'static str = "create or replace database test_stream";

/// The statement that every connection of the scenario begins with.
pub const USE_DATABASE: &'static str = "use test_stream";

/// The statement that puts a few rows into the base table before the
/// workers start.
pub const SEED: &'static str = "insert into base select a, b, uuid() as c, d from rand limit 10";

/// The columns of the base table that the sinks take over.
pub const COLUMNS: &'static str = "a, b, c, d";

/// The value column, whose sum is compared between the sinks.
pub const VALUE_COLUMN: &'static str = "b";

/// The statement of the insertion worker.
pub const INSERTION: &'static str =
    "insert into base select a, b, uuid() as c, d from rand limit 100";

/// The statement of the deletion worker.
pub const DELETION: &'static str =
    "delete from base where a < -15000 and d < '1970-01-01 00:00:00'";

/// The statement of the replace worker.
pub const REPLACEMENT: &'static str =
    "replace into base on(a) select a, b, uuid() as c, d from rand limit 2";

/// The statement of the update worker.
pub const UPDATE: &'static str =
    "update base set d = now() where d > '2099-01-01 00:00:00' and a > 15000";

/// The statement of the merge worker.
pub const MERGE: &'static str = "merge into base using (select a, b, uuid() as c, d from rand limit 10) as s on base.a = s.a when matched and s.d > '2099-01-01 00:00:00' then update set base.b = s.b and base.d = now() when matched and s.d < '1970-01-01 00:00:00' then delete when not matched then insert *";

/// The statement of the compaction worker.
pub const COMPACTION: &'static str = "optimize table base compact";

/// The statement of the recluster worker.
pub const RECLUSTER: &'static str = "alter table base recluster";

/// The options of a change-tracking run.
#[derive(Clone, Copy, Debug, PartialEq, Eq, Structural)]
pub struct Args {
    /// The number of derived cursors.
    pub num_derived_streams: u32,
    /// The number of workers that consume one cursor at a time.
    pub stream_consumption_concurrency: u32,
    /// The number of times each of these workers consumes its cursor.
    pub times_consumption_per_stream: u32,
    /// Whether failed consumptions are logged one by one.
    pub show_stream_consumption_errors: bool,
    /// Whether the cursors are append-only; standard otherwise.
    pub append_only_stream: bool,
    /// Whether the base table has a cluster key.
    pub clustered_table: bool,
}

impl Default for Args {
    /// Five derived cursors, three workers on each, ten consumptions by
    /// each worker; standard cursors on a table without a cluster key.
    fn default() -> (args: Self)
        ensures
            args == (Args {
                num_derived_streams: 5,
                stream_consumption_concurrency: 3,
                times_consumption_per_stream: 10,
                show_stream_consumption_errors: false,
                append_only_stream: false,
                clustered_table: false,
            }),
    {
        Args {
            num_derived_streams: 5,
            stream_consumption_concurrency: 3,
            times_consumption_per_stream: 10,
            show_stream_consumption_errors: false,
            append_only_stream: false,
            clustered_table: false,
        }
    }
}

/// The unbounded workers of the scenario, by what they do to the base
/// table.
#[derive(Clone, Copy, Debug, PartialEq, Eq, Structural)]
pub enum Role {
    Insertion,
    Compaction,
    Deletion,
    Update,
    Merge,
    Replace,
    Recluster,
}

/// The text of the statement that a worker of `role` repeats.
pub open spec fn role_text(role: Role) -> Seq<char> {
    match role {
        Role::Insertion => INSERTION@,
        Role::Compaction => COMPACTION@,
        Role::Deletion => DELETION@,
        Role::Update => UPDATE@,
        Role::Merge => MERGE@,
        Role::Replace => REPLACEMENT@,
        Role::Recluster => RECLUSTER@,
    }
}

/// The statement that a worker of `role` repeats.
pub fn role_statement(role: Role) -> (sql: &'static str)
    ensures
        sql@ == role_text(role),
{
    match role {
        Role::Insertion => INSERTION,
        Role::Compaction => COMPACTION,
        Role::Deletion => DELETION,
        Role::Update => UPDATE,
        Role::Merge => MERGE,
        Role::Replace => REPLACEMENT,
        Role::Recluster => RECLUSTER,
    }
}

/// Whether the successes of a worker of `role` are counted: those of the
/// maintenance workers are.
pub open spec fn role_is_counted(role: Role) -> bool {
    role is Compaction || role is Recluster
}

/// The worker of `role`: it repeats one statement, and counts if its role
/// is a counted one.
pub fn role_worker(role: Role) -> (worker: UnboundedWorker)
    ensures
        worker@ == UnboundedProgress::start(1, role_is_counted(role)),
{
    let counted = match role {
        Role::Compaction => true,
        Role::Recluster => true,
        _ => false,
    };
    UnboundedWorker::new(1, counted)
}

/// The roles of a run, in the order in which their workers are started:
/// insertion, compaction and deletion always; update, merge and replace
/// with standard cursors only, since append-only cursors do not carry
/// them; recluster if the base table has a cluster key.
pub open spec fn roles_of(append_only: bool, clustered: bool) -> Seq<Role> {
    seq![Role::Insertion, Role::Compaction, Role::Deletion] + (if append_only {
        Seq::<Role>::empty()
    } else {
        seq![Role::Update, Role::Merge, Role::Replace]
    }) + (if clustered {
        seq![Role::Recluster]
    } else {
        Seq::<Role>::empty()
    })
}

/// The text of `true` or `false`.
pub open spec fn bool_text(value: bool) -> Seq<char> {
    if value {
        "true"@
    } else {
        "false"@
    }
}

/// The text of the statement that creates the baseline cursor.
pub open spec fn create_base_stream_text(append_only: bool) -> Seq<char> {
    "create stream base_stream on table base append_only = "@ + bool_text(append_only)
}

/// The text of the statement that creates derived cursor `index` at the
/// position of the baseline cursor.
pub open spec fn create_derived_stream_text(append_only: bool, index: u32) -> Seq<char> {
    "create stream base_stream_"@ + decimal(index as nat)
        + " on table base at (STREAM => base_stream) append_only = "@ + bool_text(append_only)
}

/// The texts of the statements that create the derived cursors and their
/// sinks: for each target its cursor, then its sink.
pub open spec fn create_derived_texts(append_only: bool, targets: u32) -> Seq<Seq<char>> {
    Seq::new(
        2 * targets as nat,
        |k: int|
            if k % 2 == 0 {
                create_derived_stream_text(append_only, (k / 2) as u32)
            } else {
                create_sink_text((k / 2) as u32)
            },
    )
}

/// The text of the statement by which a worker consumes derived cursor
/// `stream` during the run. Append-only cursors with an even number are
/// consumed by an insert and those with an odd number by a merge that
/// matches nothing; standard cursors are consumed by a merge on the
/// identity column.
pub open spec fn consume_text(append_only: bool, stream: u32) -> Seq<char> {
    if append_only {
        if stream % 2 == 0 {
            insert_text(Some(stream), true, COLUMNS@)
        } else {
            blind_merge_text(Some(stream), COLUMNS@)
        }
    } else {
        change_merge_text(Some(stream))
    }
}

/// The text of the statement that drains the cursor of `target`.
pub open spec fn drain_text(append_only: bool, target: Option<u32>) -> Seq<char> {
    if append_only {
        insert_text(target, false, COLUMNS@)
    } else {
        change_merge_text(target)
    }
}

/// The texts of the drain: one statement per derived target, in order, and
/// one for the baseline at the end.
pub open spec fn drain_texts(append_only: bool, targets: u32) -> Seq<Seq<char>> {
    Seq::new(
        targets as nat + 1,
        |i: int|
            if i < targets {
                drain_text(append_only, Some(i as u32))
            } else {
                drain_text(append_only, None)
            },
    )
}

/// The texts of the statements of setup: the database is created anew and
/// entered, then the statements of the setup script follow.
pub open spec fn setup_texts(script: Seq<char>) -> Seq<Seq<char>> {
    seq![CREATE_DATABASE@, USE_DATABASE@] + statements(script)
}

/// The number of consumptions that a run with `args` attempts in all.
pub open spec fn planned_consumptions(args: Args) -> nat {
    args.stream_consumption_concurrency as nat * args.times_consumption_per_stream as nat
        * args.num_derived_streams as nat
}

/// One change-tracking run: its options and the descriptor of the
/// connection to the store.
pub struct ChangeTrackingSuite {
    args: Args,
    dsn: String,
}

impl ChangeTrackingSuite {
    /// The options of the run.
    pub closed spec fn args(&self) -> Args {
        self.args
    }

    /// The descriptor of the connection to the store.
    pub closed spec fn dsn(&self) -> Seq<char> {
        self.dsn@
    }

    /// A run with the options `args` against the store at `dsn`.
    pub fn new(args: Args, dsn: String) -> (suite: Self)
        ensures
            suite.args() == args,
            suite.dsn() == dsn@,
    {
        ChangeTrackingSuite { args, dsn }
    }

    /// The options of the run.
    pub fn options(&self) -> (args: Args)
        ensures
            args == self.args(),
    {
        self.args
    }

    /// The descriptor of the connection to the store.
    pub fn connection_descriptor(&self) -> (dsn: &str)
        ensures
            dsn@ == self.dsn(),
    {
        self.dsn.as_str()
    }

    /// The path of the setup script: the clustered one if the base table is
    /// to have a cluster key.
    pub fn setup_path(&self) -> (path: &'static str)
        ensures
            path@ == if self.args().clustered_table {
                SET_UP_CLUSTERED@
            } else {
                SET_UP@
            },
    {
        if self.args.clustered_table {
            SET_UP_CLUSTERED
        } else {
            SET_UP
        }
    }

    /// The statements of setup for the setup script `script`. They do not
    /// depend on what a run before left behind: the database is created
    /// anew before anything else.
    pub fn setup_statements(&self, script: &str) -> (sqls: Vec<String>)
        ensures
            texts(sqls@) == setup_texts(script@),
    {
        let mut sqls: Vec<String> = Vec::new();
        sqls.push(String::from_str(CREATE_DATABASE));
        sqls.push(String::from_str(USE_DATABASE));
        let mut rest = split_statements(script);
        let ghost head = sqls@;
        let ghost tail = rest@;
        sqls.append(&mut rest);
        proof {
            assert(sqls@ =~= head + tail);
            assert(texts(sqls@) =~= setup_texts(script@));
        }
        sqls
    }

    /// The roles of the unbounded workers of the run, in the order in which
    /// they are started.
    pub fn background_roles(&self) -> (roles: Vec<Role>)
        ensures
            roles@ == roles_of(self.args().append_only_stream, self.args().clustered_table),
    {
        let mut roles: Vec<Role> = Vec::new();
        roles.push(Role::Insertion);
        roles.push(Role::Compaction);
        roles.push(Role::Deletion);
        if !self.args.append_only_stream {
            roles.push(Role::Update);
            roles.push(Role::Merge);
            roles.push(Role::Replace);
        }
        if self.args.clustered_table {
            roles.push(Role::Recluster);
        }
        assert(roles@ =~= roles_of(self.args().append_only_stream, self.args().clustered_table));
        roles
    }

    /// Appends `true` or `false` to `out`.
    fn push_bool(out: &mut String, value: bool)
        ensures
            final(out)@ == old(out)@ + bool_text(value),
    {
        if value {
            out.append("true");
        } else {
            out.append("false");
        }
    }

    /// The statement that creates the baseline cursor on the base table.
    pub fn create_base_stream_statement(&self) -> (sql: String)
        ensures
            sql@ == create_base_stream_text(self.args().append_only_stream),
    {
        let mut sql = String::from_str("create stream base_stream on table base append_only = ");
        Self::push_bool(&mut sql, self.args.append_only_stream);
        sql
    }

    /// The statement that creates derived cursor `index`.
    pub fn create_derived_stream_statement(&self, index: u32) -> (sql: String)
        ensures
            sql@ == create_derived_stream_text(self.args().append_only_stream, index),
    {
        let mut sql = String::from_str("create stream base_stream_");
        push_decimal(&mut sql, index as u64);
        sql.append(" on table base at (STREAM => base_stream) append_only = ");
        Self::push_bool(&mut sql, self.args.append_only_stream);
        sql
    }

    /// The statements that create the derived cursors and their sinks.
    pub fn create_derived_statements(&self) -> (sqls: Vec<String>)
        ensures
            texts(sqls@) == create_derived_texts(
                self.args().append_only_stream,
                self.args().num_derived_streams,
            ),
    {
        let targets = self.args.num_derived_streams;
        let mut sqls: Vec<String> = Vec::new();
        let mut index: u32 = 0;
        while index < targets
            invariant
                index <= targets == self.args().num_derived_streams,
                texts(sqls@) == create_derived_texts(self.args().append_only_stream, index),
            decreases targets - index,
        {
            let ghost before = texts(sqls@);
            sqls.push(self.create_derived_stream_statement(index));
            sqls.push(create_sink_statement(index));
            proof {
                let now = create_derived_texts(self.args().append_only_stream, (index + 1) as u32);
                assert(before.len() == 2 * index);
                assert(sqls@.len() == before.len() + 2);
                assert(texts(sqls@).len() == now.len());
                assert forall|k: int| 0 <= k < now.len() implies texts(sqls@)[k] == now[k] by {
                    if k < 2 * index {
                        assert(texts(sqls@)[k] == before[k]);
                    } else if k == 2 * index {
                        assert(k / 2 == index && k % 2 == 0);
                    } else {
                        assert(k / 2 == index && k % 2 == 1);
                    }
                }
            }
            index = index + 1;
            assert(texts(sqls@) =~= create_derived_texts(self.args().append_only_stream, index));
        }
        sqls
    }

    /// The statement by which the workers on derived cursor `stream_id`
    /// consume it during the run.
    pub fn consume_statement(&self, stream_id: u32) -> (sql: String)
        ensures
            sql@ == consume_text(self.args().append_only_stream, stream_id),
    {
        if self.args.append_only_stream {
            if stream_id % 2 == 0 {
                insert_statement(Some(stream_id), true, COLUMNS)
            } else {
                blind_merge_statement(Some(stream_id), COLUMNS)
            }
        } else {
            change_merge_statement(Some(stream_id))
        }
    }

    /// A worker that consumes a cursor as often as the options say.
    pub fn consumer(&self) -> (worker: BoundedWorker)
        ensures
            worker@ == BoundedProgress::start(
                self.args().times_consumption_per_stream as nat,
                self.args().show_stream_consumption_errors,
            ),
    {
        BoundedWorker::new(
            self.args.times_consumption_per_stream,
            self.args.show_stream_consumption_errors,
        )
    }

    /// The statement that drains the cursor of `target`.
    pub fn drain_statement(&self, target: Option<u32>) -> (sql: String)
        ensures
            sql@ == drain_text(self.args().append_only_stream, target),
    {
        if self.args.append_only_stream {
            insert_statement(target, false, COLUMNS)
        } else {
            change_merge_statement(target)
        }
    }

    /// The statements of the drain, to be executed once and in this order
    /// after all workers have stopped: every derived cursor is consumed
    /// into its sink, and the baseline cursor into the baseline's sink.
    pub fn final_consume_statements(&self) -> (sqls: Vec<String>)
        ensures
            texts(sqls@) == drain_texts(
                self.args().append_only_stream,
                self.args().num_derived_streams,
            ),
    {
        let targets = self.args.num_derived_streams;
        let mut sqls: Vec<String> = Vec::new();
        let mut index: u32 = 0;
        while index < targets
            invariant
                index <= targets == self.args().num_derived_streams,
                sqls@.len() == index,
                forall|i: int|
                    0 <= i < index ==> (#[trigger] sqls@[i])@ == drain_text(
                        self.args().append_only_stream,
                        Some(i as u32),
                    ),
            decreases targets - index,
        {
            sqls.push(self.drain_statement(Some(index)));
            index = index + 1;
        }
        sqls.push(self.drain_statement(None));
        assert(texts(sqls@) =~= drain_texts(
            self.args().append_only_stream,
            self.args().num_derived_streams,
        ));
        sqls
    }

    /// The number of consumptions that the run attempts in all.
    pub fn total_consumptions(&self) -> (total: u32)
        requires
            planned_consumptions(self.args()) <= u32::MAX,
        ensures
            total == planned_consumptions(self.args()),
    {
        let a = self.args.stream_consumption_concurrency as u64;
        let b = self.args.times_consumption_per_stream as u64;
        let c = self.args.num_derived_streams as u64;
        if a == 0 || b == 0 || c == 0 {
            assert(planned_consumptions(self.args()) == 0) by (nonlinear_arith)
                requires
                    a == 0 || b == 0 || c == 0,
                    planned_consumptions(self.args()) == a * b * c,
            ;
            return 0;
        }
        assert(a * b <= a * b * c && a * b * c <= u32::MAX) by (nonlinear_arith)
            requires
                a >= 1,
                b >= 1,
                c >= 1,
                a * b * c == planned_consumptions(self.args()),
                planned_consumptions(self.args()) <= u32::MAX,
        ;
        let ab: u64 = a * b;
        let abc: u64 = ab * c;
        abc as u32
    }

    /// Holds the sinks of the derived targets against the baseline's sink,
    /// after the drain. The run passes exactly if every sink has the row
    /// count and the sum of the baseline's.
    pub fn verify(&self, baseline: SinkStats, derived: &Vec<SinkStats>) -> (report:
        VerificationReport)
        requires
            derived.len() <= u32::MAX,
        ensures
            report.violations@ == violations_of(crate::streams::battery_of(baseline, derived@)),
            report.notes@ == notes_of(crate::streams::battery_of(baseline, derived@)),
            report.passed() <==> sinks_agree(baseline, derived@),
    {
        crate::streams::verify(baseline, derived)
    }
}

} // verus!
