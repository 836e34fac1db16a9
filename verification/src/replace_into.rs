//! The replace scenario: batches of rows are replaced into a table, some of
//! them more than once, while the table is compacted, purged and
//! reclustered.
//!
//! Every batch holds [`BATCH_ROWS`] rows that carry the batch id and, in a
//! correlated column, the batch id times [`CORRELATION`]. Whatever the
//! interleaving was, the table must hold whole batches only.

use vstd::prelude::*;
use vstd::string::StringExecFns;
use crate::text::{decimal, push_decimal, texts};
use crate::verification::{
    evaluate, scan_flag, violations_of, Subject, VerificationAssertion, VerificationReport,
    Weight,
};

verus! {

/// The number of rows of one batch.
pub const BATCH_ROWS: u32 = 1000;

/// The factor between the batch id of a row and its correlated value.
pub const CORRELATION: u32 = 7;

/// The number of batches of a run for which none is asked.
pub const DEFAULT_ITERATIONS: u32 = 100;

/// The number of batches of a run with deletions for which none is asked.
pub const DEFAULT_GUARDED_ITERATIONS: u32 = 1000;

/// The statement that replaces one batch into the table, up to the batch id.
pub const REPLACE_HEAD: &'static str = "\n         \
    replace into test_order on(id, insert_time)\n          \
    select\n                \
    id,\n                \
    ";

/// The same, with a delete-when clause that no row of the batch meets.
pub const GUARDED_HEAD: &'static str = "\n         \
    replace into test_order \n            \
    on(id, insert_time)\n            \
    delete when deleted = 1\n          \
    select\n                \
    0 as deleted,\n                \
    id,\n                \
    ";

/// What stands between the batch id and the correlated value.
pub const REPLACE_ID1: &'static str = " as id1,\n                \
    ";

/// What follows the correlated value.
pub const REPLACE_TAIL: &'static str = " as id2,\n                \
    id3, id4, id5, id6, id7,\n                \
    s1, s2, s3, s4, s5, s6, s7, s8, s9, s10, s11, s12, s13,\n                \
    d1, d2, d3, d4, d5, d6, d7, d8, d9, d10,\n                \
    insert_time,\n                \
    insert_time1,\n                \
    insert_time2,\n                \
    insert_time3,\n                \
    i\n          \
    from random_source limit 1000\n          \
    ";

/// The statement that replaces batches of the table into the table itself, up
/// to the filter that picks the batches.
pub const OVERLAP_HEAD: &'static str =
    "replace into test_order on(id, insert_time) (select * from test_order where ";

/// The statement that deletes one batch by replacing it with rows marked as
/// deleted, up to the batch id.
pub const DELETE_HEAD: &'static str = "replace into test_order \n            \
    on(id, insert_time)\n            \
    delete when deleted = 1\n            \
    (select *, 1 as deleted  from \n          \
    (select * from test_order where id1 = ";

/// What follows the batch id.
pub const DELETE_TAIL: &'static str = "))";

/// The query for the number of rows of the table.
pub const COUNT_ROWS: &'static str = "select count() from test_order";

/// The query for the number of batches whose row count is not the batch size.
pub const COUNT_UNEVEN_BATCHES: &'static str = "\n            \
    select count() from\n                \
    (select count() a, id1 from test_order  group by id1)\n                \
    where a != 1000";

/// The query for the number of distinct correlated values.
pub const COUNT_DISTINCT_BATCHES: &'static str = "select count(distinct(id2)) from test_order";

/// The query for the number of rows whose correlated value does not fit
/// their batch id.
pub const COUNT_BROKEN_CORRELATION: &'static str =
    "select count() from test_order where id2 != id1 * 7";

/// The query that reads the whole table and discards the rows.
pub const FULL_SCAN: &'static str = "select * from test_order ignore_result";

/// The query for the metrics of the store that bear on this workload.
pub const METRICS: &'static str =
    "select metric, value from system.metrics where metric like '%replace%'  or metric like '%conflict%' order by metric";

/// The query for the clustering state of the table.
pub const CLUSTERING_INFORMATION: &'static str =
    "select * from clustering_information('default', 'test_order')";

/// The two workloads of the scenario.
#[derive(Clone, Copy, Debug, PartialEq, Eq, Structural)]
pub enum Variant {
    /// Batches are replaced, and every seventh time earlier batches are
    /// replaced into the table again to provoke conflicts.
    Conflicts,
    /// Batches are replaced under a delete-when clause, every second batch
    /// is deleted again, and every seventh time earlier batches are replaced
    /// into the table again.
    Deletions,
}

/// One statement of the replace worker.
#[derive(Clone, Copy, Debug, PartialEq, Eq, Structural)]
pub enum ReplaceStep {
    /// Replace the batch into the table.
    Replace { batch: u32 },
    /// Replace the batch, and two earlier ones, into the table again.
    Overlap { batch: u32 },
    /// Delete the batch.
    Delete { batch: u32 },
}

/// What the replace worker counted.
#[derive(Clone, Copy, Debug, PartialEq, Eq, Structural)]
pub struct ExecSummary {
    /// The batches that were replaced into the table with success.
    pub num_success_replace_append: u32,
    /// The batches that were deleted with success.
    pub num_success_replace_del: u32,
}

/// The number of batches to run, given what was asked for. A run with
/// deletions takes an even number, so that an odd one is raised by one; it
/// does not run at all if no batch is asked for. Without a request the
/// default of the variant holds.
pub open spec fn planned_iterations(variant: Variant, requested: Option<u32>) -> Option<nat> {
    match (variant, requested) {
        (Variant::Conflicts, None) => Some(DEFAULT_ITERATIONS as nat),
        (Variant::Conflicts, Some(n)) => Some(n as nat),
        (Variant::Deletions, None) => Some(DEFAULT_GUARDED_ITERATIONS as nat),
        (Variant::Deletions, Some(n)) => if n == 0 {
            None
        } else if n % 2 != 0 {
            Some((n + 1) as nat)
        } else {
            Some(n as nat)
        },
    }
}

/// The number of batches to run, or `None` if there is nothing to do.
pub fn iterations_for(variant: Variant, requested: Option<u32>) -> (planned: Option<u32>)
    requires
        variant is Deletions ==> requested != Some(u32::MAX),
    ensures
        match planned {
            Some(n) => planned_iterations(variant, requested) == Some(n as nat),
            None => planned_iterations(variant, requested) is None,
        },
{
    match variant {
        Variant::Conflicts => match requested {
            None => Some(DEFAULT_ITERATIONS),
            Some(n) => Some(n),
        },
        Variant::Deletions => match requested {
            None => Some(DEFAULT_GUARDED_ITERATIONS),
            Some(n) => if n == 0 {
                None
            } else if n % 2 != 0 {
                Some(n + 1)
            } else {
                Some(n)
            },
        },
    }
}

/// The statement that follows the replacement of `batch`, if one does. In
/// both variants earlier batches are replaced again after every seventh
/// batch; with deletions every second batch is deleted instead.
pub open spec fn follow_up(variant: Variant, batch: u32) -> Option<ReplaceStep> {
    let slot = batch + 1;
    match variant {
        Variant::Conflicts => if slot % 7 == 0 {
            Some(ReplaceStep::Overlap { batch })
        } else {
            None
        },
        Variant::Deletions => if slot % 2 == 0 {
            Some(ReplaceStep::Delete { batch })
        } else if slot % 7 == 0 {
            Some(ReplaceStep::Overlap { batch })
        } else {
            None
        },
    }
}

/// The statement that follows the replacement of `batch`, if one does.
pub fn follow_up_of(variant: Variant, batch: u32) -> (step: Option<ReplaceStep>)
    requires
        batch < u32::MAX,
    ensures
        step == follow_up(variant, batch),
{
    let slot = batch + 1;
    match variant {
        Variant::Conflicts => if slot % 7 == 0 {
            Some(ReplaceStep::Overlap { batch })
        } else {
            None
        },
        Variant::Deletions => if slot % 2 == 0 {
            Some(ReplaceStep::Delete { batch })
        } else if slot % 7 == 0 {
            Some(ReplaceStep::Overlap { batch })
        } else {
            None
        },
    }
}

/// The batches that are replaced again together with `batch`: the batch
/// itself, the one with half its id and the one with a third of it.
pub open spec fn overlap_ids(batch: u32) -> Seq<u32> {
    seq![batch, batch / 2, batch / 3]
}

/// The batches that are replaced again together with `batch`.
pub fn overlap_batches(batch: u32) -> (ids: Vec<u32>)
    ensures
        ids@ == overlap_ids(batch),
{
    let mut ids: Vec<u32> = Vec::new();
    ids.push(batch);
    ids.push(batch / 2);
    ids.push(batch / 3);
    assert(ids@ =~= overlap_ids(batch));
    ids
}

/// The text of the statement that replaces `batch` into the table.
pub open spec fn replace_text(variant: Variant, batch: u32) -> Seq<char> {
    (if variant is Conflicts {
        REPLACE_HEAD@
    } else {
        GUARDED_HEAD@
    }) + decimal(batch as nat) + REPLACE_ID1@ + decimal((batch * CORRELATION) as nat)
        + REPLACE_TAIL@
}

/// The statement that replaces `batch` into the table: a batch of rows from
/// the random source with the batch id and its correlated value.
pub fn replace_statement(variant: Variant, batch: u32) -> (sql: String)
    ensures
        sql@ == replace_text(variant, batch),
{
    let mut sql = match variant {
        Variant::Conflicts => String::from_str(REPLACE_HEAD),
        Variant::Deletions => String::from_str(GUARDED_HEAD),
    };
    push_decimal(&mut sql, batch as u64);
    sql.append(REPLACE_ID1);
    push_decimal(&mut sql, batch as u64 * CORRELATION as u64);
    sql.append(REPLACE_TAIL);
    sql
}

/// The filter that picks the batches `ids`: one comparison per batch,
/// joined by `or`.
pub open spec fn overlap_filter(ids: Seq<u32>) -> Seq<char>
    decreases ids.len(),
{
    if ids.len() == 0 {
        Seq::<char>::empty()
    } else if ids.len() == 1 {
        "id1 = "@ + decimal(ids[0] as nat)
    } else {
        overlap_filter(ids.drop_last()) + " or "@ + "id1 = "@ + decimal(ids.last() as nat)
    }
}

/// The text of the statement that replaces the batches `ids` again.
pub open spec fn overlap_text(ids: Seq<u32>) -> Seq<char> {
    OVERLAP_HEAD@ + overlap_filter(ids) + ")"@
}

/// The statement that replaces the batches `ids` of the table into the
/// table itself. While the table is compacted and reclustered this updates
/// blocks in part and in whole.
pub fn overlap_statement(ids: &Vec<u32>) -> (sql: String)
    ensures
        sql@ == overlap_text(ids@),
{
    let mut sql = String::from_str(OVERLAP_HEAD);
    let mut i: usize = 0;
    while i < ids.len()
        invariant
            i <= ids.len(),
            sql@ == OVERLAP_HEAD@ + overlap_filter(ids@.take(i as int)),
        decreases ids.len() - i,
    {
        let ghost before = sql@;
        if i > 0 {
            sql.append(" or ");
        }
        sql.append("id1 = ");
        push_decimal(&mut sql, ids[i] as u64);
        proof {
            let done = ids@.take(i as int);
            let now = ids@.take(i + 1);
            assert(now.drop_last() =~= done);
            assert(now.last() == ids@[i as int]);
            if i == 0 {
                assert(overlap_filter(done) =~= Seq::<char>::empty());
                assert(now[0] == ids@[0]);
            }
            assert(sql@ =~= OVERLAP_HEAD@ + overlap_filter(now));
        }
        i = i + 1;
    }
    proof {
        assert(ids@.take(i as int) =~= ids@);
    }
    sql.append(")");
    sql
}

/// The text of the statement that deletes `batch`.
pub open spec fn delete_text(batch: u32) -> Seq<char> {
    DELETE_HEAD@ + decimal(batch as nat) + DELETE_TAIL@
}

/// The statement that deletes `batch`: its rows are replaced into the table
/// marked as deleted, under a clause that deletes what is so marked.
pub fn delete_statement(batch: u32) -> (sql: String)
    ensures
        sql@ == delete_text(batch),
{
    let mut sql = String::from_str(DELETE_HEAD);
    push_decimal(&mut sql, batch as u64);
    sql.append(DELETE_TAIL);
    sql
}

/// The text of the statement of `step`.
pub open spec fn step_text(variant: Variant, step: ReplaceStep) -> Seq<char> {
    match step {
        ReplaceStep::Replace { batch } => replace_text(variant, batch),
        ReplaceStep::Overlap { batch } => overlap_text(overlap_ids(batch)),
        ReplaceStep::Delete { batch } => delete_text(batch),
    }
}

/// The statement of `step`.
pub fn step_statement(variant: Variant, step: ReplaceStep) -> (sql: String)
    ensures
        sql@ == step_text(variant, step),
{
    match step {
        ReplaceStep::Replace { batch } => replace_statement(variant, batch),
        ReplaceStep::Overlap { batch } => {
            let ids = overlap_batches(batch);
            overlap_statement(&ids)
        },
        ReplaceStep::Delete { batch } => delete_statement(batch),
    }
}

/// The texts of one round of table maintenance.
pub open spec fn maintenance_texts() -> Seq<Seq<char>> {
    seq![
        "optimize table test_order compact segment"@,
        "optimize table test_order compact"@,
        "optimize table test_order purge"@,
        "alter table test_order recluster"@,
    ]
}

/// The statements of one round of table maintenance, which an unbounded
/// worker repeats while batches are replaced: segments and blocks are
/// compacted, old snapshots purged, and the table reclustered.
pub fn maintenance_statements() -> (statements: Vec<String>)
    ensures
        texts(statements@) == maintenance_texts(),
{
    let mut statements: Vec<String> = Vec::new();
    statements.push(String::from_str("optimize table test_order compact segment"));
    statements.push(String::from_str("optimize table test_order compact"));
    statements.push(String::from_str("optimize table test_order purge"));
    statements.push(String::from_str("alter table test_order recluster"));
    assert(texts(statements@) =~= maintenance_texts());
    statements
}

/// What is known of the replace worker.
pub struct ReplaceProgress {
    pub variant: Variant,
    /// The number of batches to replace.
    pub iterations: nat,
    /// The batch that is being worked on.
    pub batch: nat,
    /// The batch has been replaced and its follow-up is due.
    pub follow_up_due: bool,
    /// The batches replaced with success.
    pub appended: nat,
    /// The batches deleted with success.
    pub deleted: nat,
}

impl ReplaceProgress {
    /// A worker that has not run yet.
    pub open spec fn start(variant: Variant, iterations: nat) -> Self {
        ReplaceProgress {
            variant,
            iterations,
            batch: 0,
            follow_up_due: false,
            appended: 0,
            deleted: 0,
        }
    }

    /// Whether all batches are done.
    pub open spec fn finished(self) -> bool {
        self.batch >= self.iterations
    }

    /// The statement that is due, if the worker is not finished.
    pub open spec fn due(self) -> Option<ReplaceStep> {
        if self.finished() {
            None
        } else if self.follow_up_due {
            follow_up(self.variant, self.batch as u32)
        } else {
            Some(ReplaceStep::Replace { batch: self.batch as u32 })
        }
    }

    /// The worker after the statement that was due ended as `ok` says. A
    /// replacement is counted if it succeeded, and so is a deletion; a
    /// failure is not counted and ends nothing.
    pub open spec fn record(self, ok: bool) -> Self {
        if self.follow_up_due {
            ReplaceProgress {
                batch: self.batch + 1,
                follow_up_due: false,
                deleted: if ok && follow_up(self.variant, self.batch as u32) matches Some(
                    ReplaceStep::Delete { .. },
                ) {
                    self.deleted + 1
                } else {
                    self.deleted
                },
                ..self
            }
        } else {
            let appended = if ok {
                self.appended + 1
            } else {
                self.appended
            };
            if follow_up(self.variant, self.batch as u32) is Some {
                ReplaceProgress { follow_up_due: true, appended, ..self }
            } else {
                ReplaceProgress { batch: self.batch + 1, appended, ..self }
            }
        }
    }
}

/// The bounded worker of the scenario: it replaces batch after batch, each
/// followed by the statement that [`follow_up`] names, and counts the
/// replacements and deletions that succeed.
pub struct ReplaceWorker {
    variant: Variant,
    iterations: u32,
    batch: u32,
    follow_up_due: bool,
    appended: u32,
    deleted: u32,
}

impl View for ReplaceWorker {
    type V = ReplaceProgress;

    closed spec fn view(&self) -> ReplaceProgress {
        ReplaceProgress {
            variant: self.variant,
            iterations: self.iterations as nat,
            batch: self.batch as nat,
            follow_up_due: self.follow_up_due,
            appended: self.appended as nat,
            deleted: self.deleted as nat,
        }
    }
}

impl ReplaceWorker {
    #[verifier::type_invariant]
    spec fn well_formed(self) -> bool {
        self@.well_formed()
    }

    /// A worker that is to replace `iterations` batches.
    pub fn new(variant: Variant, iterations: u32) -> (worker: Self)
        ensures
            worker@ == ReplaceProgress::start(variant, iterations as nat),
    {
        ReplaceWorker {
            variant,
            iterations,
            batch: 0,
            follow_up_due: false,
            appended: 0,
            deleted: 0,
        }
    }

    /// The statement to execute now, or `None` if all batches are done.
    pub fn next(&self) -> (step: Option<ReplaceStep>)
        ensures
            step == self@.due(),
            step is None <==> self@.finished(),
    {
        proof {
            use_type_invariant(self);
        }
        if self.batch >= self.iterations {
            None
        } else if self.follow_up_due {
            follow_up_of(self.variant, self.batch)
        } else {
            Some(ReplaceStep::Replace { batch: self.batch })
        }
    }

    /// Takes note of the outcome of the statement that was due.
    pub fn record(&mut self, ok: bool)
        requires
            !old(self)@.finished(),
        ensures
            final(self)@ == old(self)@.record(ok),
    {
        proof {
            use_type_invariant(&*self);
        }
        let follow = follow_up_of(self.variant, self.batch);
        if self.follow_up_due {
            let deleted = match follow {
                Some(ReplaceStep::Delete { .. }) => if ok {
                    self.deleted + 1
                } else {
                    self.deleted
                },
                _ => self.deleted,
            };
            *self = ReplaceWorker {
                variant: self.variant,
                iterations: self.iterations,
                batch: self.batch + 1,
                follow_up_due: false,
                appended: self.appended,
                deleted,
            };
        } else {
            let appended = if ok {
                self.appended + 1
            } else {
                self.appended
            };
            let waits = follow.is_some();
            *self = ReplaceWorker {
                variant: self.variant,
                iterations: self.iterations,
                batch: if waits {
                    self.batch
                } else {
                    self.batch + 1
                },
                follow_up_due: waits,
                appended,
                deleted: self.deleted,
            };
        }
    }

    /// What the worker has counted so far.
    pub fn summary(&self) -> (summary: ExecSummary)
        ensures
            summary.num_success_replace_append == self@.appended,
            summary.num_success_replace_del == self@.deleted,
    {
        ExecSummary {
            num_success_replace_append: self.appended,
            num_success_replace_del: self.deleted,
        }
    }
}

/// The statements of one batch: its replacement, and its follow-up if it
/// has one.
pub open spec fn steps_of(variant: Variant, batch: u32) -> Seq<ReplaceStep> {
    match follow_up(variant, batch) {
        Some(step) => seq![ReplaceStep::Replace { batch }, step],
        None => seq![ReplaceStep::Replace { batch }],
    }
}

/// The statements of the first `batches` batches, in the order in which
/// they are due: batch after batch, each batch once.
pub open spec fn plan(variant: Variant, batches: nat) -> Seq<ReplaceStep>
    decreases batches,
{
    if batches == 0 {
        Seq::<ReplaceStep>::empty()
    } else {
        plan(variant, (batches - 1) as nat) + steps_of(variant, (batches - 1) as u32)
    }
}

impl ReplaceProgress {
    /// The number of statements whose outcome the worker has taken note of.
    pub open spec fn done(self) -> nat {
        plan(self.variant, self.batch).len() + if self.follow_up_due {
            1nat
        } else {
            0nat
        }
    }

    /// What holds of every worker: it is within its batches, a follow-up is
    /// due only where there is one, and no more is counted than was done.
    pub open spec fn well_formed(self) -> bool {
        &&& self.batch <= self.iterations <= u32::MAX
        &&& self.follow_up_due ==> self.batch < self.iterations && follow_up(
            self.variant,
            self.batch as u32,
        ) is Some
        &&& self.appended <= self.batch + if self.follow_up_due {
            1int
        } else {
            0int
        }
        &&& self.deleted <= self.batch
    }
}

/// The plan of a run begins with the plan of every shorter run.
pub proof fn lemma_plan_grows(variant: Variant, fewer: nat, batches: nat)
    requires
        fewer <= batches,
    ensures
        plan(variant, fewer).len() <= plan(variant, batches).len(),
        plan(variant, batches).take(plan(variant, fewer).len() as int) == plan(variant, fewer),
        fewer < batches ==> plan(variant, fewer).len() < plan(variant, batches).len(),
    decreases batches,
{
    if fewer == batches {
        assert(plan(variant, batches).take(plan(variant, fewer).len() as int) =~= plan(
            variant,
            fewer,
        ));
    } else {
        lemma_plan_grows(variant, fewer, (batches - 1) as nat);
        let shorter = plan(variant, (batches - 1) as nat);
        assert(plan(variant, batches).take(plan(variant, fewer).len() as int) =~= shorter.take(
            plan(variant, fewer).len() as int,
        ));
    }
}

/// The worker goes by the plan: the statement that is due is the next one
/// of the plan of all its batches, every outcome moves the worker on by
/// one statement, and the worker is finished exactly at the end of the
/// plan. So every batch is replaced once, in the order of the batches, and
/// is followed by its follow-up and by nothing else.
pub proof fn lemma_worker_follows_plan(worker: ReplaceProgress, ok: bool)
    requires
        worker.well_formed(),
    ensures
        ReplaceProgress::start(worker.variant, worker.iterations).well_formed(),
        ReplaceProgress::start(worker.variant, worker.iterations).done() == 0,
        worker.done() <= plan(worker.variant, worker.iterations).len(),
        worker.finished() <==> worker.done() == plan(worker.variant, worker.iterations).len(),
        !worker.finished() ==> worker.due() == Some(
            plan(worker.variant, worker.iterations)[worker.done() as int],
        ),
        !worker.finished() ==> worker.record(ok).well_formed() && worker.record(ok).done()
            == worker.done() + 1,
{
    let variant = worker.variant;
    let all = plan(variant, worker.iterations);
    lemma_plan_grows(variant, worker.batch, worker.iterations);
    if !worker.finished() {
        let batch = worker.batch;
        let upto = plan(variant, batch);
        let with = plan(variant, batch + 1);
        lemma_plan_grows(variant, batch + 1, worker.iterations);
        assert(with == upto + steps_of(variant, batch as u32));
        let k = worker.done() as int;
        assert(k < with.len());
        assert(all.take(with.len() as int)[k] == all[k]);
        assert(with[k] == steps_of(variant, batch as u32)[k - upto.len()]);
    }
}

/// A worker without batches is finished before it runs and has counted
/// nothing.
pub proof fn lemma_no_batches(variant: Variant)
    ensures
        ReplaceProgress::start(variant, 0).finished(),
        ReplaceProgress::start(variant, 0).due() is None,
        ReplaceProgress::start(variant, 0).appended == 0,
        ReplaceProgress::start(variant, 0).deleted == 0,
{
}

/// What the queries of the verification phase returned.
#[derive(Clone, Copy, Debug, PartialEq, Eq, Structural)]
pub struct TableState {
    /// The answer to [`COUNT_ROWS`].
    pub rows: u32,
    /// The answer to [`COUNT_UNEVEN_BATCHES`].
    pub uneven_batches: u32,
    /// The answer to [`COUNT_DISTINCT_BATCHES`].
    pub distinct_batches: u32,
    /// The answer to [`COUNT_BROKEN_CORRELATION`].
    pub broken_correlation: u64,
    /// Whether [`FULL_SCAN`] ran to its end without an error.
    pub scan_completed: bool,
}

/// The number of batches the client expects in the table: those it saw
/// replaced, less those it saw deleted.
pub open spec fn expected_batches(variant: Variant, summary: ExecSummary) -> int {
    match variant {
        Variant::Conflicts => summary.num_success_replace_append as int,
        Variant::Deletions => summary.num_success_replace_append
            - summary.num_success_replace_del,
    }
}

/// The battery of the scenario. What the client counted is compared with
/// the store for information only: a statement may have been applied
/// without the client learning of it. Asserted is what holds whatever the
/// interleaving was: the table holds whole batches, every batch has the
/// batch size, every row has the correlated value of its batch, and the
/// table can be read from end to end.
pub open spec fn battery_of(
    variant: Variant,
    summary: ExecSummary,
    seen: TableState,
) -> Seq<VerificationAssertion> {
    let batches = expected_batches(variant, summary);
    seq![
        VerificationAssertion {
            subject: Subject::RowCount,
            expected: (batches * BATCH_ROWS) as u64,
            observed: seen.rows as u64,
            weight: Weight::Informational,
        },
        VerificationAssertion {
            subject: Subject::PartialBatch,
            expected: 0,
            observed: (seen.rows % BATCH_ROWS) as u64,
            weight: Weight::Asserted,
        },
        VerificationAssertion {
            subject: Subject::UnevenBatches,
            expected: 0,
            observed: seen.uneven_batches as u64,
            weight: Weight::Asserted,
        },
        VerificationAssertion {
            subject: Subject::DistinctBatches,
            expected: batches as u64,
            observed: seen.distinct_batches as u64,
            weight: Weight::Informational,
        },
        VerificationAssertion {
            subject: Subject::BrokenCorrelation,
            expected: 0,
            observed: seen.broken_correlation,
            weight: Weight::Asserted,
        },
        VerificationAssertion {
            subject: Subject::FullScan,
            expected: 1,
            observed: scan_flag(seen.scan_completed),
            weight: Weight::Asserted,
        },
    ]
}

/// The battery of the scenario for what the worker counted and what the
/// queries returned.
pub fn battery(variant: Variant, summary: ExecSummary, seen: TableState) -> (battery: Vec<
    VerificationAssertion,
>)
    requires
        variant is Deletions ==> summary.num_success_replace_del
            <= summary.num_success_replace_append,
    ensures
        battery@ == battery_of(variant, summary, seen),
{
    let batches: u64 = match variant {
        Variant::Conflicts => summary.num_success_replace_append as u64,
        Variant::Deletions => (summary.num_success_replace_append
            - summary.num_success_replace_del) as u64,
    };
    let mut battery: Vec<VerificationAssertion> = Vec::new();
    battery.push(
        VerificationAssertion::informational(
            Subject::RowCount,
            batches * BATCH_ROWS as u64,
            seen.rows as u64,
        ),
    );
    battery.push(
        VerificationAssertion::asserted(Subject::PartialBatch, 0, (seen.rows % BATCH_ROWS) as u64),
    );
    battery.push(
        VerificationAssertion::asserted(Subject::UnevenBatches, 0, seen.uneven_batches as u64),
    );
    battery.push(
        VerificationAssertion::informational(
            Subject::DistinctBatches,
            batches,
            seen.distinct_batches as u64,
        ),
    );
    battery.push(
        VerificationAssertion::asserted(Subject::BrokenCorrelation, 0, seen.broken_correlation),
    );
    battery.push(
        VerificationAssertion::asserted(
            Subject::FullScan,
            1,
            if seen.scan_completed {
                1
            } else {
                0
            },
        ),
    );
    assert(battery@ =~= battery_of(variant, summary, seen));
    battery
}

/// Verifies the final state of the table.
pub fn verify(variant: Variant, summary: ExecSummary, seen: TableState) -> (report:
    VerificationReport)
    requires
        variant is Deletions ==> summary.num_success_replace_del
            <= summary.num_success_replace_append,
    ensures
        report.violations@ == violations_of(battery_of(variant, summary, seen)),
        report.notes@ == crate::verification::notes_of(battery_of(variant, summary, seen)),
        report.passed() <==> table_is_consistent(seen),
{
    let battery = battery(variant, summary, seen);
    proof {
        lemma_verdict(variant, summary, seen);
    }
    evaluate(&battery)
}

/// Whether the table holds whole batches of the batch size whose rows carry
/// the correlated value of their batch, and can be read from end to end.
pub open spec fn table_is_consistent(seen: TableState) -> bool {
    &&& seen.rows % BATCH_ROWS == 0
    &&& seen.uneven_batches == 0
    &&& seen.broken_correlation == 0
    &&& seen.scan_completed
}

/// The run passes exactly if the table is consistent. What the client
/// counted has no say in it.
pub proof fn lemma_verdict(variant: Variant, summary: ExecSummary, seen: TableState)
    ensures
        violations_of(battery_of(variant, summary, seen)).len() == 0 <==> table_is_consistent(
            seen,
        ),
{
    let battery = battery_of(variant, summary, seen);
    crate::verification::lemma_pass_means_all_hold(battery);
    assert(battery.len() == 6);
    if table_is_consistent(seen) {
        assert forall|i: int| 0 <= i < battery.len() implies !(#[trigger] battery[i]).violated() by {
        }
    } else {
        assert(battery[1].violated() || battery[2].violated() || battery[4].violated()
            || battery[5].violated());
    }
}

} // verus!
