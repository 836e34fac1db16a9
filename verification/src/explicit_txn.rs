//! Scripted scenarios for explicit transactions on several connections.
//!
//! A script is a list of steps. Each step names the connection it runs on,
//! what it does there, and what is expected of the outcome: that the
//! statement succeeds, that it fails, or that a query returns given rows.
//! The caller executes the steps one after the other and hands each outcome
//! to [`judge`], which says whether the script goes on.

use vstd::prelude::*;
use vstd::string::StringExecFns;

verus! {

/// What a step does on its connection.
#[derive(Clone, Copy, Debug, PartialEq, Eq, Structural)]
pub enum Action {
    /// Opens the connection. Connections are numbered in the order in which
    /// they are opened.
    Connect,
    /// Begins a transaction.
    Begin,
    /// Commits the transaction.
    Commit,
    /// Executes a statement.
    Execute,
    /// Runs a query and collects one integer per row.
    Query,
}

/// What is expected of the outcome of a step.
#[derive(Clone, Copy, Debug, PartialEq, Eq, Structural)]
pub enum Expectation {
    /// The step has to succeed for the script to go on; a failure is an
    /// error of the run and ends it.
    Required,
    /// The step is asserted to succeed.
    Succeeds,
    /// The step is asserted to fail.
    Fails,
    /// The query is asserted to return the rows of the step.
    Rows,
}

/// What came of a step.
#[derive(Clone, Debug)]
pub enum Observation {
    /// The step succeeded.
    Succeeded,
    /// The step failed.
    Failed,
    /// The query succeeded and returned these rows.
    Rows(Vec<i32>),
}

/// What follows from the outcome of a step.
#[derive(Clone, Copy, Debug, PartialEq, Eq, Structural)]
pub enum Verdict {
    /// The outcome is the expected one; the script goes on.
    Proceed,
    /// A required step failed; the run ends with an error.
    Abort,
    /// An assertion of the script does not hold.
    Violation,
}

/// One step of a script.
#[derive(Clone, Debug)]
pub struct Step {
    /// The connection the step runs on.
    pub conn: usize,
    /// What the step does.
    pub action: Action,
    /// The statement or query; empty for `Connect`.
    pub sql: String,
    /// What is expected of the outcome.
    pub expect: Expectation,
    /// The rows expected of a query, in order; empty otherwise.
    pub rows: Vec<i32>,
}

/// A step as a plain value.
#[verifier::ext_equal]
pub struct StepModel {
    pub conn: nat,
    pub action: Action,
    pub sql: Seq<char>,
    pub expect: Expectation,
    pub rows: Seq<i32>,
}

impl View for Step {
    type V = StepModel;

    open spec fn view(&self) -> StepModel {
        StepModel {
            conn: self.conn as nat,
            action: self.action,
            sql: self.sql@,
            expect: self.expect,
            rows: self.rows@,
        }
    }
}

/// An observation as a plain value.
pub enum ObservationModel {
    Succeeded,
    Failed,
    Rows(Seq<i32>),
}

impl View for Observation {
    type V = ObservationModel;

    open spec fn view(&self) -> ObservationModel {
        match self {
            Observation::Succeeded => ObservationModel::Succeeded,
            Observation::Failed => ObservationModel::Failed,
            Observation::Rows(rows) => ObservationModel::Rows(rows@),
        }
    }
}

/// The steps of a list as plain values.
pub open spec fn models(steps: Seq<Step>) -> Seq<StepModel> {
    Seq::new(steps.len(), |i: int| steps[i]@)
}

/// What follows from `observation` for a step with the expectation and the
/// rows of `step`.
pub open spec fn verdict_of(step: StepModel, observation: ObservationModel) -> Verdict {
    match step.expect {
        Expectation::Required => if observation is Failed {
            Verdict::Abort
        } else {
            Verdict::Proceed
        },
        Expectation::Succeeds => if observation is Failed {
            Verdict::Violation
        } else {
            Verdict::Proceed
        },
        Expectation::Fails => if observation is Failed {
            Verdict::Proceed
        } else {
            Verdict::Violation
        },
        Expectation::Rows => if observation matches ObservationModel::Rows(rows) && rows
            == step.rows {
            Verdict::Proceed
        } else {
            Verdict::Violation
        },
    }
}

/// Whether two lists of rows are the same.
pub fn same_rows(left: &Vec<i32>, right: &Vec<i32>) -> (same: bool)
    ensures
        same == (left@ == right@),
{
    if left.len() != right.len() {
        return false;
    }
    let mut i: usize = 0;
    while i < left.len()
        invariant
            i <= left.len() == right.len(),
            forall|k: int| 0 <= k < i ==> left@[k] == right@[k],
        decreases left.len() - i,
    {
        if left[i] != right[i] {
            return false;
        }
        i = i + 1;
    }
    assert(left@ =~= right@);
    true
}

/// Says what follows from the outcome of a step: the script goes on if the
/// outcome is the expected one; it ends with an error if a required step
/// failed; and in every other case an assertion of the script is violated.
pub fn judge(step: &Step, observation: &Observation) -> (verdict: Verdict)
    ensures
        verdict == verdict_of(step@, observation@),
{
    let failed = match observation {
        Observation::Failed => true,
        _ => false,
    };
    match step.expect {
        Expectation::Required => if failed {
            Verdict::Abort
        } else {
            Verdict::Proceed
        },
        Expectation::Succeeds => if failed {
            Verdict::Violation
        } else {
            Verdict::Proceed
        },
        Expectation::Fails => if failed {
            Verdict::Proceed
        } else {
            Verdict::Violation
        },
        Expectation::Rows => match observation {
            Observation::Rows(rows) => if same_rows(rows, &step.rows) {
                Verdict::Proceed
            } else {
                Verdict::Violation
            },
            _ => Verdict::Violation,
        },
    }
}

/// The transactions that are open after `step`, if `open` are those before
/// it; `None` if the step cannot stand there: it runs on a connection that
/// is not open, begins a transaction inside one, or commits outside of one.
/// A connection is open from its `Connect` on, and the connections are
/// numbered as they are opened.
pub open spec fn after_step(open: Seq<bool>, step: StepModel) -> Option<Seq<bool>> {
    match step.action {
        Action::Connect => if step.conn == open.len() {
            Some(open.push(false))
        } else {
            None
        },
        Action::Begin => if step.conn < open.len() && !open[step.conn as int] {
            Some(open.update(step.conn as int, true))
        } else {
            None
        },
        Action::Commit => if step.conn < open.len() && open[step.conn as int] {
            Some(open.update(step.conn as int, false))
        } else {
            None
        },
        _ => if step.conn < open.len() {
            Some(open)
        } else {
            None
        },
    }
}

/// The transactions that are open after `steps`, one entry per connection;
/// `None` if a step of the list cannot stand where it does.
pub open spec fn replay(steps: Seq<StepModel>) -> Option<Seq<bool>>
    decreases steps.len(),
{
    if steps.len() == 0 {
        Some(Seq::<bool>::empty())
    } else {
        match replay(steps.drop_last()) {
            Some(open) => after_step(open, steps.last()),
            None => None,
        }
    }
}

/// Whether no transaction is open.
pub open spec fn all_closed(open: Seq<bool>) -> bool {
    forall|c: int| 0 <= c < open.len() ==> !#[trigger] open[c]
}

/// Whether `steps` can be run as they stand: every step runs on a
/// connection that was opened before, transactions are begun and committed
/// in turn on each connection, and none is left open at the end.
pub open spec fn runnable(steps: Seq<StepModel>) -> bool {
    replay(steps) matches Some(open) && all_closed(open)
}

/// The step that opens connection `conn`.
pub open spec fn connect_step(conn: nat) -> StepModel {
    StepModel {
        conn,
        action: Action::Connect,
        sql: Seq::<char>::empty(),
        expect: Expectation::Required,
        rows: Seq::<i32>::empty(),
    }
}

/// The step that begins a transaction on `conn`.
pub open spec fn begin_step(conn: nat) -> StepModel {
    StepModel {
        conn,
        action: Action::Begin,
        sql: "BEGIN"@,
        expect: Expectation::Required,
        rows: Seq::<i32>::empty(),
    }
}

/// The step that commits the transaction on `conn`.
pub open spec fn commit_step(conn: nat, expect: Expectation) -> StepModel {
    StepModel { conn, action: Action::Commit, sql: "COMMIT"@, expect, rows: Seq::<i32>::empty() }
}

/// The step that executes `sql` on `conn`.
pub open spec fn execute_step(conn: nat, sql: Seq<char>, expect: Expectation) -> StepModel {
    StepModel { conn, action: Action::Execute, sql, expect, rows: Seq::<i32>::empty() }
}

/// The step that runs the query `sql` on `conn` and expects `rows`.
pub open spec fn query_step(conn: nat, sql: Seq<char>, rows: Seq<i32>) -> StepModel {
    StepModel { conn, action: Action::Query, sql, expect: Expectation::Rows, rows }
}

/// A script: steps that can be run in their order.
pub struct Script {
    steps: Vec<Step>,
    open: Vec<bool>,
}

impl View for Script {
    type V = Seq<StepModel>;

    closed spec fn view(&self) -> Seq<StepModel> {
        models(self.steps@)
    }
}

impl Script {
    #[verifier::type_invariant]
    spec fn well_formed(self) -> bool {
        replay(models(self.steps@)) == Some(self.open@)
    }

    /// The transactions open at the end of the script, one per connection.
    pub closed spec fn open(&self) -> Seq<bool> {
        self.open@
    }

    /// A script without steps.
    pub(crate) fn new() -> (script: Self)
        ensures
            script@ == Seq::<StepModel>::empty(),
            script.open() == Seq::<bool>::empty(),
    {
        let script = Script { steps: Vec::new(), open: Vec::new() };
        assert(models(script.steps@) =~= Seq::<StepModel>::empty());
        script
    }

    /// The number of steps.
    pub fn len(&self) -> (n: usize)
        ensures
            n == self@.len(),
    {
        self.steps.len()
    }

    /// The number of connections the script opens.
    pub fn connections(&self) -> (n: usize)
        ensures
            n == self.open().len(),
            replay(self@) == Some(self.open()),
    {
        proof {
            use_type_invariant(self);
        }
        self.open.len()
    }

    /// The step at place `i`.
    pub fn step(&self, i: usize) -> (step: &Step)
        requires
            i < self@.len(),
        ensures
            step@ == self@[i as int],
    {
        &self.steps[i]
    }

    /// The steps, in order.
    pub fn steps(&self) -> (steps: &Vec<Step>)
        ensures
            models(steps@) == self@,
    {
        &self.steps
    }

    /// Whether connection `conn` is open and has no transaction open.
    pub open spec fn idle(&self, conn: usize) -> bool {
        conn < self.open().len() && !self.open()[conn as int]
    }

    /// Whether connection `conn` has a transaction open.
    pub open spec fn in_transaction(&self, conn: usize) -> bool {
        conn < self.open().len() && self.open()[conn as int]
    }

    /// Whether the script can be run as it stands.
    pub fn is_runnable(&self) -> (ok: bool)
        ensures
            ok == runnable(self@),
    {
        proof {
            use_type_invariant(self);
        }
        let mut c: usize = 0;
        while c < self.open.len()
            invariant
                c <= self.open.len(),
                replay(self@) == Some(self.open@),
                forall|k: int| 0 <= k < c ==> !#[trigger] self.open@[k],
            decreases self.open.len() - c,
        {
            if self.open[c] {
                assert(!all_closed(self.open@)) by {
                    assert(self.open@[c as int]);
                }
                return false;
            }
            c = c + 1;
        }
        true
    }

    /// The script with `step` at its end; `open` are the transactions that
    /// are open after it.
    fn with(self, step: Step, open: Vec<bool>) -> (script: Self)
        requires
            after_step(self.open(), step@) == Some(open@),
        ensures
            script@ == self@.push(step@),
            script.open() == open@,
    {
        proof {
            use_type_invariant(&self);
        }
        let ghost before = self.steps@;
        let Script { steps, open: _ } = self;
        let mut steps = steps;
        steps.push(step);
        proof {
            assert(models(steps@) =~= models(before).push(step@));
            assert(models(steps@).drop_last() =~= models(before));
        }
        Script { steps, open }
    }

    /// The script with one more connection opened at its end.
    pub(crate) fn connect(self) -> (script: Self)
        ensures
            script@ == self@.push(connect_step(self.open().len())),
            script.open() == self.open().push(false),
    {
        let conn = self.open.len();
        let mut open = self.open.clone();
        open.push(false);
        let step = Step {
            conn,
            action: Action::Connect,
            sql: String::new(),
            expect: Expectation::Required,
            rows: Vec::new(),
        };
        self.with(step, open)
    }

    /// The script with a statement on `conn` at its end.
    pub(crate) fn execute(self, conn: usize, sql: &str, expect: Expectation) -> (script: Self)
        requires
            conn < self.open().len(),
            !(expect is Rows),
        ensures
            script@ == self@.push(execute_step(conn as nat, sql@, expect)),
            script.open() == self.open(),
    {
        let open = self.open.clone();
        let step = Step {
            conn,
            action: Action::Execute,
            sql: String::from_str(sql),
            expect,
            rows: Vec::new(),
        };
        self.with(step, open)
    }

    /// The script with a query on `conn` at its end, which is asserted to
    /// return `rows`.
    pub(crate) fn query(self, conn: usize, sql: &str, rows: Vec<i32>) -> (script: Self)
        requires
            conn < self.open().len(),
        ensures
            script@ == self@.push(query_step(conn as nat, sql@, rows@)),
            script.open() == self.open(),
    {
        let open = self.open.clone();
        let step = Step {
            conn,
            action: Action::Query,
            sql: String::from_str(sql),
            expect: Expectation::Rows,
            rows,
        };
        self.with(step, open)
    }

    /// The script with the begin of a transaction on `conn` at its end.
    pub(crate) fn begin(self, conn: usize) -> (script: Self)
        requires
            self.idle(conn),
        ensures
            script@ == self@.push(begin_step(conn as nat)),
            script.open() == self.open().update(conn as int, true),
    {
        let mut open = self.open.clone();
        open.set(conn, true);
        let step = Step {
            conn,
            action: Action::Begin,
            sql: String::from_str("BEGIN"),
            expect: Expectation::Required,
            rows: Vec::new(),
        };
        self.with(step, open)
    }

    /// The script with the commit of the transaction on `conn` at its end.
    pub(crate) fn commit(self, conn: usize, expect: Expectation) -> (script: Self)
        requires
            self.in_transaction(conn),
            !(expect is Rows),
        ensures
            script@ == self@.push(commit_step(conn as nat, expect)),
            script.open() == self.open().update(conn as int, false),
    {
        let mut open = self.open.clone();
        open.set(conn, false);
        let step = Step {
            conn,
            action: Action::Commit,
            sql: String::from_str("COMMIT"),
            expect,
            rows: Vec::new(),
        };
        self.with(step, open)
    }
}

/// The rows of the shared table once both transactions of the isolation
/// scenario have ended: both rows if the store settled the conflict, and
/// the row of the first committer if it did not.
pub open spec fn settled(resolves: bool) -> Seq<i32> {
    if resolves {
        seq![1i32, 2i32]
    } else {
        seq![2i32]
    }
}

/// The rows of [`settled`].
fn settled_rows(resolves: bool) -> (rows: Vec<i32>)
    ensures
        rows@ == settled(resolves),
{
    if resolves {
        vec![1, 2]
    } else {
        vec![2]
    }
}

/// The rows of the shared table after one more row with the value one was
/// written to it.
pub open spec fn merged(resolves: bool) -> Seq<i32> {
    if resolves {
        seq![1i32, 1i32, 2i32]
    } else {
        seq![1i32, 2i32]
    }
}

/// The rows of [`merged`].
fn merged_rows(resolves: bool) -> (rows: Vec<i32>)
    ensures
        rows@ == merged(resolves),
{
    if resolves {
        vec![1, 1, 2]
    } else {
        vec![1, 2]
    }
}

/// What is expected of the commit of a transaction that wrote to a table
/// to which another transaction has committed since: success if the store
/// settles such conflicts, and failure if it does not.
pub open spec fn late_commit(resolves: bool) -> Expectation {
    if resolves {
        Expectation::Succeeds
    } else {
        Expectation::Fails
    }
}

/// The expectation of [`late_commit`].
fn late_commit_expectation(resolves: bool) -> (expect: Expectation)
    ensures
        expect == late_commit(resolves),
        !(expect is Rows),
{
    if resolves {
        Expectation::Succeeds
    } else {
        Expectation::Fails
    }
}

/// The opening of the conflict matrix: the database is created anew on a
/// connection of its own, two connections are opened on it, and the table of
/// the first scenarios is created.
pub open spec fn suite_prologue_steps() -> Seq<StepModel> {
    seq![
        connect_step(0),
        execute_step(0, "create or replace database test_txn"@, Expectation::Required),
        connect_step(1),
        execute_step(1, "use test_txn"@, Expectation::Required),
        connect_step(2),
        execute_step(2, "use test_txn"@, Expectation::Required),
        execute_step(1, "CREATE OR REPLACE TABLE t(c int);"@, Expectation::Required),
    ]
}

/// The script of [`suite_prologue_steps`].
fn suite_prologue() -> (extended: Script)
    ensures
        extended@ == suite_prologue_steps(),
        extended.open() == Seq::new(3, |c: int| false),
{
    let s = Script::new();
    let s = s.connect();
    let s = s.execute(0, "create or replace database test_txn", Expectation::Required);
    let s = s.connect();
    let s = s.execute(1, "use test_txn", Expectation::Required);
    let s = s.connect();
    let s = s.execute(2, "use test_txn", Expectation::Required);
    let s = s.execute(1, "CREATE OR REPLACE TABLE t(c int);", Expectation::Required);
    proof {
        assert(s@ =~= suite_prologue_steps());
        assert(s.open() =~= Seq::new(3, |c: int| false));
    }
    s
}

/// The opening of the first-committer-wins script: two connections are
/// opened and the table of the scenarios is created.
pub open spec fn plain_prologue_steps() -> Seq<StepModel> {
    seq![
        connect_step(0),
        connect_step(1),
        execute_step(0, "CREATE OR REPLACE TABLE t(c int);"@, Expectation::Required),
    ]
}

/// The script of [`plain_prologue_steps`].
fn plain_prologue() -> (extended: Script)
    ensures
        extended@ == plain_prologue_steps(),
        extended.open() == Seq::new(2, |c: int| false),
{
    let s = Script::new();
    let s = s.connect();
    let s = s.connect();
    let s = s.execute(0, "CREATE OR REPLACE TABLE t(c int);", Expectation::Required);
    proof {
        assert(s@ =~= plain_prologue_steps());
        assert(s.open() =~= Seq::new(2, |c: int| false));
    }
    s
}

/// Two transactions write to one table at a time. Each reads its own write
/// and not the other's, also after the other has committed. With `resolves`
/// the store settles the conflict and the second commit succeeds, so that
/// both rows are there; without, the second commit fails, its row is
/// discarded and the row of the first committer stays.
pub open spec fn isolation_steps(c1: nat, c2: nat, resolves: bool) -> Seq<StepModel> {
    seq![
        begin_step(c1),
        execute_step(c1, "INSERT INTO t VALUES(1);"@, Expectation::Required),
        query_step(c1, "SELECT * FROM t ORDER BY c;"@, seq![1i32]),
        query_step(c2, "SELECT * FROM t ORDER BY c;"@, Seq::<i32>::empty()),
        begin_step(c2),
        execute_step(c2, "INSERT INTO t VALUES(2);"@, Expectation::Required),
        query_step(c1, "SELECT * FROM t ORDER BY c;"@, seq![1i32]),
        query_step(c2, "SELECT * FROM t ORDER BY c;"@, seq![2i32]),
        commit_step(c2, Expectation::Required),
        query_step(c1, "SELECT * FROM t ORDER BY c;"@, seq![1i32]),
        query_step(c2, "SELECT * FROM t ORDER BY c;"@, seq![2i32]),
        commit_step(c1, late_commit(resolves)),
        query_step(c1, "SELECT * FROM t ORDER BY c;"@, settled(resolves)),
        query_step(c2, "SELECT * FROM t ORDER BY c;"@, settled(resolves)),
    ]
}

/// Appends the steps of [`isolation_steps`] to `script`.
fn isolation(script: Script, c1: usize, c2: usize, resolves: bool) -> (extended: Script)
    requires
        script.idle(c1),
        script.idle(c2),
        c1 != c2,
    ensures
        extended@ == script@ + isolation_steps(c1 as nat, c2 as nat, resolves),
        extended.open() == script.open(),
{
    let ghost before = script@;
    let s = script;
    let s = s.begin(c1);
    let s = s.execute(c1, "INSERT INTO t VALUES(1);", Expectation::Required);
    let s = s.query(c1, "SELECT * FROM t ORDER BY c;", vec![1]);
    let s = s.query(c2, "SELECT * FROM t ORDER BY c;", Vec::new());
    let s = s.begin(c2);
    let s = s.execute(c2, "INSERT INTO t VALUES(2);", Expectation::Required);
    let s = s.query(c1, "SELECT * FROM t ORDER BY c;", vec![1]);
    let s = s.query(c2, "SELECT * FROM t ORDER BY c;", vec![2]);
    let s = s.commit(c2, Expectation::Required);
    let s = s.query(c1, "SELECT * FROM t ORDER BY c;", vec![1]);
    let s = s.query(c2, "SELECT * FROM t ORDER BY c;", vec![2]);
    let s = s.commit(c1, late_commit_expectation(resolves));
    let s = s.query(c1, "SELECT * FROM t ORDER BY c;", settled_rows(resolves));
    let s = s.query(c2, "SELECT * FROM t ORDER BY c;", settled_rows(resolves));
    proof {
        assert(s@ =~~= before + isolation_steps(c1 as nat, c2 as nat, resolves));
        assert(s.open() =~= script.open());
    }
    s
}

/// A statement that cannot be parsed fails inside a transaction. The commit
/// that follows goes through and leaves the table as it was: the write of
/// the transaction is gone with it.
pub open spec fn failed_statement_steps(c1: nat, c2: nat, resolves: bool) -> Seq<StepModel> {
    seq![
        begin_step(c1),
        execute_step(c1, "INSERT INTO t VALUES(1);"@, Expectation::Required),
        execute_step(c1, "qwerty"@, Expectation::Fails),
        commit_step(c1, Expectation::Required),
        query_step(c1, "SELECT * FROM t ORDER BY c;"@, settled(resolves)),
        query_step(c2, "SELECT * FROM t ORDER BY c;"@, settled(resolves)),
    ]
}

/// Appends the steps of [`failed_statement_steps`] to `script`.
fn failed_statement(script: Script, c1: usize, c2: usize, resolves: bool) -> (extended: Script)
    requires
        script.idle(c1),
        script.idle(c2),
        c1 != c2,
    ensures
        extended@ == script@ + failed_statement_steps(c1 as nat, c2 as nat, resolves),
        extended.open() == script.open(),
{
    let ghost before = script@;
    let s = script;
    let s = s.begin(c1);
    let s = s.execute(c1, "INSERT INTO t VALUES(1);", Expectation::Required);
    let s = s.execute(c1, "qwerty", Expectation::Fails);
    let s = s.commit(c1, Expectation::Required);
    let s = s.query(c1, "SELECT * FROM t ORDER BY c;", settled_rows(resolves));
    let s = s.query(c2, "SELECT * FROM t ORDER BY c;", settled_rows(resolves));
    proof {
        assert(s@ =~~= before + failed_statement_steps(c1 as nat, c2 as nat, resolves));
        assert(s.open() =~= script.open());
    }
    s
}

/// A statement on a table that does not exist fails inside a transaction,
/// with the same end: the commit goes through and the table is as before.
pub open spec fn missing_table_steps(c1: nat, c2: nat, resolves: bool) -> Seq<StepModel> {
    seq![
        execute_step(c1, "drop table if exists t1;"@, Expectation::Required),
        begin_step(c1),
        execute_step(c1, "INSERT INTO t VALUES(1);"@, Expectation::Required),
        execute_step(c1, "select * from t1"@, Expectation::Fails),
        commit_step(c1, Expectation::Required),
        query_step(c1, "SELECT * FROM t ORDER BY c;"@, settled(resolves)),
        query_step(c2, "SELECT * FROM t ORDER BY c;"@, settled(resolves)),
    ]
}

/// Appends the steps of [`missing_table_steps`] to `script`.
fn missing_table(script: Script, c1: usize, c2: usize, resolves: bool) -> (extended: Script)
    requires
        script.idle(c1),
        script.idle(c2),
        c1 != c2,
    ensures
        extended@ == script@ + missing_table_steps(c1 as nat, c2 as nat, resolves),
        extended.open() == script.open(),
{
    let ghost before = script@;
    let s = script;
    let s = s.execute(c1, "drop table if exists t1;", Expectation::Required);
    let s = s.begin(c1);
    let s = s.execute(c1, "INSERT INTO t VALUES(1);", Expectation::Required);
    let s = s.execute(c1, "select * from t1", Expectation::Fails);
    let s = s.commit(c1, Expectation::Required);
    let s = s.query(c1, "SELECT * FROM t ORDER BY c;", settled_rows(resolves));
    let s = s.query(c2, "SELECT * FROM t ORDER BY c;", settled_rows(resolves));
    proof {
        assert(s@ =~~= before + missing_table_steps(c1 as nat, c2 as nat, resolves));
        assert(s.open() =~= script.open());
    }
    s
}

/// A transaction reads a change-tracking cursor three times while it and
/// another transaction write to the tracked table. All three reads give what
/// the first one gave. With `resolves` the commit then succeeds; without, it
/// fails.
pub open spec fn stream_snapshot_steps(c1: nat, c2: nat, resolves: bool) -> Seq<StepModel> {
    seq![
        execute_step(c1, "create or replace table base(c int);"@, Expectation::Required),
        execute_step(
            c1,
            "CREATE or replace STREAM s ON TABLE base APPEND_ONLY=true;"@,
            Expectation::Required,
        ),
        begin_step(c1),
        execute_step(c1, "INSERT INTO base VALUES(1);"@, Expectation::Required),
        query_step(c1, "SELECT c FROM s;"@, seq![1i32]),
        begin_step(c2),
        execute_step(c2, "INSERT INTO base VALUES(2);"@, Expectation::Required),
        commit_step(c2, Expectation::Required),
        query_step(c1, "SELECT c FROM s;"@, seq![1i32]),
        execute_step(c1, "Insert into base values(3);"@, Expectation::Required),
        query_step(c1, "SELECT c FROM s;"@, seq![1i32]),
        commit_step(c1, late_commit(resolves)),
    ]
}

/// Appends the steps of [`stream_snapshot_steps`] to `script`.
fn stream_snapshot(script: Script, c1: usize, c2: usize, resolves: bool) -> (extended: Script)
    requires
        script.idle(c1),
        script.idle(c2),
        c1 != c2,
    ensures
        extended@ == script@ + stream_snapshot_steps(c1 as nat, c2 as nat, resolves),
        extended.open() == script.open(),
{
    let ghost before = script@;
    let s = script;
    let s = s.execute(c1, "create or replace table base(c int);", Expectation::Required);
    let s = s.execute(
        c1,
        "CREATE or replace STREAM s ON TABLE base APPEND_ONLY=true;",
        Expectation::Required,
    );
    let s = s.begin(c1);
    let s = s.execute(c1, "INSERT INTO base VALUES(1);", Expectation::Required);
    let s = s.query(c1, "SELECT c FROM s;", vec![1]);
    let s = s.begin(c2);
    let s = s.execute(c2, "INSERT INTO base VALUES(2);", Expectation::Required);
    let s = s.commit(c2, Expectation::Required);
    let s = s.query(c1, "SELECT c FROM s;", vec![1]);
    let s = s.execute(c1, "Insert into base values(3);", Expectation::Required);
    let s = s.query(c1, "SELECT c FROM s;", vec![1]);
    let s = s.commit(c1, late_commit_expectation(resolves));
    proof {
        assert(s@ =~~= before + stream_snapshot_steps(c1 as nat, c2 as nat, resolves));
        assert(s.open() =~= script.open());
    }
    s
}

/// Two transactions write to two different tables. There is no conflict:
/// both commit, and each table holds what was written to it.
pub open spec fn disjoint_tables_steps(c1: nat, c2: nat, resolves: bool) -> Seq<StepModel> {
    seq![
        query_step(c1, "SELECT * FROM t ORDER BY c;"@, settled(resolves)),
        query_step(c2, "SELECT * FROM t ORDER BY c;"@, settled(resolves)),
        execute_step(c1, "CREATE OR REPLACE TABLE t1(c int);"@, Expectation::Required),
        begin_step(c1),
        execute_step(c1, "INSERT INTO t VALUES(1);"@, Expectation::Required),
        query_step(c1, "SELECT * FROM t ORDER BY c;"@, merged(resolves)),
        query_step(c2, "SELECT * FROM t ORDER BY c;"@, settled(resolves)),
        begin_step(c2),
        execute_step(c2, "INSERT INTO t1 VALUES(3);"@, Expectation::Required),
        query_step(c1, "SELECT * FROM t1 ORDER BY c;"@, Seq::<i32>::empty()),
        query_step(c2, "SELECT * FROM t1 ORDER BY c;"@, seq![3i32]),
        commit_step(c2, Expectation::Required),
        commit_step(c1, Expectation::Required),
        query_step(c1, "SELECT * FROM t ORDER BY c;"@, merged(resolves)),
        query_step(c2, "SELECT * FROM t ORDER BY c;"@, merged(resolves)),
        query_step(c1, "SELECT * FROM t1 ORDER BY c;"@, seq![3i32]),
        query_step(c2, "SELECT * FROM t1 ORDER BY c;"@, seq![3i32]),
    ]
}

/// Appends the steps of [`disjoint_tables_steps`] to `script`.
fn disjoint_tables(script: Script, c1: usize, c2: usize, resolves: bool) -> (extended: Script)
    requires
        script.idle(c1),
        script.idle(c2),
        c1 != c2,
    ensures
        extended@ == script@ + disjoint_tables_steps(c1 as nat, c2 as nat, resolves),
        extended.open() == script.open(),
{
    let ghost before = script@;
    let s = script;
    let s = s.query(c1, "SELECT * FROM t ORDER BY c;", settled_rows(resolves));
    let s = s.query(c2, "SELECT * FROM t ORDER BY c;", settled_rows(resolves));
    let s = s.execute(c1, "CREATE OR REPLACE TABLE t1(c int);", Expectation::Required);
    let s = s.begin(c1);
    let s = s.execute(c1, "INSERT INTO t VALUES(1);", Expectation::Required);
    let s = s.query(c1, "SELECT * FROM t ORDER BY c;", merged_rows(resolves));
    let s = s.query(c2, "SELECT * FROM t ORDER BY c;", settled_rows(resolves));
    let s = s.begin(c2);
    let s = s.execute(c2, "INSERT INTO t1 VALUES(3);", Expectation::Required);
    let s = s.query(c1, "SELECT * FROM t1 ORDER BY c;", Vec::new());
    let s = s.query(c2, "SELECT * FROM t1 ORDER BY c;", vec![3]);
    let s = s.commit(c2, Expectation::Required);
    let s = s.commit(c1, Expectation::Required);
    let s = s.query(c1, "SELECT * FROM t ORDER BY c;", merged_rows(resolves));
    let s = s.query(c2, "SELECT * FROM t ORDER BY c;", merged_rows(resolves));
    let s = s.query(c1, "SELECT * FROM t1 ORDER BY c;", vec![3]);
    let s = s.query(c2, "SELECT * FROM t1 ORDER BY c;", vec![3]);
    proof {
        assert(s@ =~~= before + disjoint_tables_steps(c1 as nat, c2 as nat, resolves));
        assert(s.open() =~= script.open());
    }
    s
}

/// A transaction consumes a change-tracking cursor while another one
/// commits to the tracked table and to the target. The consumer's commit
/// succeeds: the cursor has moved past what was consumed and shows what
/// came after, and the target holds what both wrote.
pub open spec fn consume_and_commit_steps(c1: nat, c2: nat) -> Seq<StepModel> {
    seq![
        execute_step(c1, "create or replace table base(c int);"@, Expectation::Required),
        execute_step(c1, "create or replace table target(c int);"@, Expectation::Required),
        execute_step(
            c1,
            "CREATE or replace STREAM s ON TABLE base APPEND_ONLY=true;"@,
            Expectation::Required,
        ),
        begin_step(c1),
        execute_step(c1, "INSERT INTO base VALUES(1);"@, Expectation::Required),
        query_step(c1, "SELECT c FROM s;"@, seq![1i32]),
        begin_step(c2),
        execute_step(c2, "INSERT INTO base VALUES(2);"@, Expectation::Required),
        execute_step(c2, "INSERT INTO target VALUES(3);"@, Expectation::Required),
        commit_step(c2, Expectation::Required),
        query_step(c1, "SELECT c FROM s;"@, seq![1i32]),
        execute_step(c1, "Insert into base values(3);"@, Expectation::Required),
        query_step(c1, "SELECT c FROM s;"@, seq![1i32]),
        execute_step(c1, "Insert into target select c from s;"@, Expectation::Required),
        commit_step(c1, Expectation::Succeeds),
        query_step(c1, "SELECT c FROM s order by c;"@, seq![2i32, 3i32]),
        query_step(c2, "SELECT c FROM target order by c;"@, seq![1i32, 3i32]),
    ]
}

/// Appends the steps of [`consume_and_commit_steps`] to `script`.
fn consume_and_commit(script: Script, c1: usize, c2: usize) -> (extended: Script)
    requires
        script.idle(c1),
        script.idle(c2),
        c1 != c2,
    ensures
        extended@ == script@ + consume_and_commit_steps(c1 as nat, c2 as nat),
        extended.open() == script.open(),
{
    let ghost before = script@;
    let s = script;
    let s = s.execute(c1, "create or replace table base(c int);", Expectation::Required);
    let s = s.execute(c1, "create or replace table target(c int);", Expectation::Required);
    let s = s.execute(
        c1,
        "CREATE or replace STREAM s ON TABLE base APPEND_ONLY=true;",
        Expectation::Required,
    );
    let s = s.begin(c1);
    let s = s.execute(c1, "INSERT INTO base VALUES(1);", Expectation::Required);
    let s = s.query(c1, "SELECT c FROM s;", vec![1]);
    let s = s.begin(c2);
    let s = s.execute(c2, "INSERT INTO base VALUES(2);", Expectation::Required);
    let s = s.execute(c2, "INSERT INTO target VALUES(3);", Expectation::Required);
    let s = s.commit(c2, Expectation::Required);
    let s = s.query(c1, "SELECT c FROM s;", vec![1]);
    let s = s.execute(c1, "Insert into base values(3);", Expectation::Required);
    let s = s.query(c1, "SELECT c FROM s;", vec![1]);
    let s = s.execute(c1, "Insert into target select c from s;", Expectation::Required);
    let s = s.commit(c1, Expectation::Succeeds);
    let s = s.query(c1, "SELECT c FROM s order by c;", vec![2, 3]);
    let s = s.query(c2, "SELECT c FROM target order by c;", vec![1, 3]);
    proof {
        assert(s@ =~~= before + consume_and_commit_steps(c1 as nat, c2 as nat));
        assert(s.open() =~= script.open());
    }
    s
}

/// A transaction consumes a cursor and updates a row that another
/// transaction updates and commits first. The consumer's commit fails: the
/// cursor has not moved, and the target is empty.
pub open spec fn conflicting_update_steps(c1: nat, c2: nat) -> Seq<StepModel> {
    seq![
        execute_step(c1, "create or replace table base(c int);"@, Expectation::Required),
        execute_step(c1, "create or replace table target(c int);"@, Expectation::Required),
        execute_step(
            c1,
            "CREATE or replace STREAM s ON TABLE base APPEND_ONLY=true;"@,
            Expectation::Required,
        ),
        execute_step(c1, "INSERT INTO base VALUES(1);"@, Expectation::Required),
        begin_step(c1),
        query_step(c1, "SELECT c FROM s;"@, seq![1i32]),
        execute_step(c1, "update base set c = 4 where c = 1;"@, Expectation::Required),
        begin_step(c2),
        execute_step(c2, "INSERT INTO base VALUES(2);"@, Expectation::Required),
        execute_step(c2, "update base set c = 100 where c = 1;"@, Expectation::Required),
        commit_step(c2, Expectation::Required),
        query_step(c1, "SELECT c FROM s;"@, seq![1i32]),
        execute_step(c1, "Insert into target select c from s;"@, Expectation::Required),
        commit_step(c1, Expectation::Fails),
        query_step(c1, "SELECT c FROM s order by c;"@, seq![2i32, 100i32]),
        query_step(c2, "SELECT count(*) FROM target;"@, seq![0i32]),
    ]
}

/// Appends the steps of [`conflicting_update_steps`] to `script`.
fn conflicting_update(script: Script, c1: usize, c2: usize) -> (extended: Script)
    requires
        script.idle(c1),
        script.idle(c2),
        c1 != c2,
    ensures
        extended@ == script@ + conflicting_update_steps(c1 as nat, c2 as nat),
        extended.open() == script.open(),
{
    let ghost before = script@;
    let s = script;
    let s = s.execute(c1, "create or replace table base(c int);", Expectation::Required);
    let s = s.execute(c1, "create or replace table target(c int);", Expectation::Required);
    let s = s.execute(
        c1,
        "CREATE or replace STREAM s ON TABLE base APPEND_ONLY=true;",
        Expectation::Required,
    );
    let s = s.execute(c1, "INSERT INTO base VALUES(1);", Expectation::Required);
    let s = s.begin(c1);
    let s = s.query(c1, "SELECT c FROM s;", vec![1]);
    let s = s.execute(c1, "update base set c = 4 where c = 1;", Expectation::Required);
    let s = s.begin(c2);
    let s = s.execute(c2, "INSERT INTO base VALUES(2);", Expectation::Required);
    let s = s.execute(c2, "update base set c = 100 where c = 1;", Expectation::Required);
    let s = s.commit(c2, Expectation::Required);
    let s = s.query(c1, "SELECT c FROM s;", vec![1]);
    let s = s.execute(c1, "Insert into target select c from s;", Expectation::Required);
    let s = s.commit(c1, Expectation::Fails);
    let s = s.query(c1, "SELECT c FROM s order by c;", vec![2, 100]);
    let s = s.query(c2, "SELECT count(*) FROM target;", vec![0]);
    proof {
        assert(s@ =~~= before + conflicting_update_steps(c1 as nat, c2 as nat));
        assert(s.open() =~= script.open());
    }
    s
}

/// Two transactions consume the same cursor. The one that commits first
/// advances it; the commit of the other fails and consumes nothing.
pub open spec fn contended_cursor_steps(c1: nat, c2: nat) -> Seq<StepModel> {
    seq![
        execute_step(c1, "create or replace table base(c int);"@, Expectation::Required),
        execute_step(c1, "create or replace table target(c int);"@, Expectation::Required),
        execute_step(
            c1,
            "CREATE or replace STREAM s ON TABLE base APPEND_ONLY=true;"@,
            Expectation::Required,
        ),
        execute_step(c1, "INSERT INTO base VALUES(1);"@, Expectation::Required),
        begin_step(c1),
        query_step(c1, "SELECT c FROM s;"@, seq![1i32]),
        begin_step(c2),
        execute_step(c2, "INSERT INTO base VALUES(2);"@, Expectation::Required),
        execute_step(c2, "Insert into target select c from s;"@, Expectation::Required),
        commit_step(c2, Expectation::Required),
        query_step(c1, "SELECT c FROM s;"@, seq![1i32]),
        execute_step(c1, "Insert into target select c from s;"@, Expectation::Required),
        commit_step(c1, Expectation::Fails),
        query_step(c1, "SELECT count(*) FROM s;"@, seq![0i32]),
        query_step(c2, "SELECT * FROM target order by c;"@, seq![1i32, 2i32]),
    ]
}

/// Appends the steps of [`contended_cursor_steps`] to `script`.
fn contended_cursor(script: Script, c1: usize, c2: usize) -> (extended: Script)
    requires
        script.idle(c1),
        script.idle(c2),
        c1 != c2,
    ensures
        extended@ == script@ + contended_cursor_steps(c1 as nat, c2 as nat),
        extended.open() == script.open(),
{
    let ghost before = script@;
    let s = script;
    let s = s.execute(c1, "create or replace table base(c int);", Expectation::Required);
    let s = s.execute(c1, "create or replace table target(c int);", Expectation::Required);
    let s = s.execute(
        c1,
        "CREATE or replace STREAM s ON TABLE base APPEND_ONLY=true;",
        Expectation::Required,
    );
    let s = s.execute(c1, "INSERT INTO base VALUES(1);", Expectation::Required);
    let s = s.begin(c1);
    let s = s.query(c1, "SELECT c FROM s;", vec![1]);
    let s = s.begin(c2);
    let s = s.execute(c2, "INSERT INTO base VALUES(2);", Expectation::Required);
    let s = s.execute(c2, "Insert into target select c from s;", Expectation::Required);
    let s = s.commit(c2, Expectation::Required);
    let s = s.query(c1, "SELECT c FROM s;", vec![1]);
    let s = s.execute(c1, "Insert into target select c from s;", Expectation::Required);
    let s = s.commit(c1, Expectation::Fails);
    let s = s.query(c1, "SELECT count(*) FROM s;", vec![0]);
    let s = s.query(c2, "SELECT * FROM target order by c;", vec![1, 2]);
    proof {
        assert(s@ =~~= before + contended_cursor_steps(c1 as nat, c2 as nat));
        assert(s.open() =~= script.open());
    }
    s
}

/// A transaction consumes a cursor and writes to a table of its own while
/// a new connection commits a row to the tracked table. Nothing conflicts:
/// the consumer commits, the cursor has moved past what it consumed and
/// shows the row of the other.
pub open spec fn unrelated_commit_steps(c1: nat, fresh: nat) -> Seq<StepModel> {
    seq![
        execute_step(c1, "create or replace table base1_new(c int);"@, Expectation::Required),
        execute_step(c1, "create or replace table base2_new(c int);"@, Expectation::Required),
        execute_step(c1, "create or replace table target1_new(c int);"@, Expectation::Required),
        execute_step(
            c1,
            "CREATE or replace STREAM s1_new ON TABLE base1_new APPEND_ONLY=true;"@,
            Expectation::Required,
        ),
        execute_step(c1, "INSERT INTO base1_new VALUES(10);"@, Expectation::Required),
        begin_step(c1),
        query_step(c1, "SELECT c FROM s1_new;"@, seq![10i32]),
        execute_step(c1, "INSERT INTO target1_new SELECT c FROM s1_new;"@, Expectation::Required),
        connect_step(fresh),
        execute_step(fresh, "use test_txn"@, Expectation::Required),
        begin_step(fresh),
        execute_step(fresh, "INSERT INTO base1_new VALUES(20);"@, Expectation::Required),
        commit_step(fresh, Expectation::Required),
        execute_step(c1, "INSERT INTO base2_new VALUES(30);"@, Expectation::Required),
        commit_step(c1, Expectation::Succeeds),
        query_step(c1, "SELECT c FROM s1_new;"@, seq![20i32]),
        query_step(c1, "SELECT * FROM target1_new ORDER BY c;"@, seq![10i32]),
        query_step(c1, "SELECT * FROM base1_new ORDER BY c;"@, seq![10i32, 20i32]),
        query_step(c1, "SELECT * FROM base2_new ORDER BY c;"@, seq![30i32]),
    ]
}

/// Appends the steps of [`unrelated_commit_steps`] to `script`.
fn unrelated_commit(script: Script, c1: usize) -> (extended: Script)
    requires
        script.idle(c1),
    ensures
        extended@ == script@ + unrelated_commit_steps(c1 as nat, script.open().len()),
        extended.open() == script.open().push(false),
{
    let ghost before = script@;
    let fresh = script.connections();
    let s = script;
    let s = s.execute(c1, "create or replace table base1_new(c int);", Expectation::Required);
    let s = s.execute(c1, "create or replace table base2_new(c int);", Expectation::Required);
    let s = s.execute(c1, "create or replace table target1_new(c int);", Expectation::Required);
    let s = s.execute(
        c1,
        "CREATE or replace STREAM s1_new ON TABLE base1_new APPEND_ONLY=true;",
        Expectation::Required,
    );
    let s = s.execute(c1, "INSERT INTO base1_new VALUES(10);", Expectation::Required);
    let s = s.begin(c1);
    let s = s.query(c1, "SELECT c FROM s1_new;", vec![10]);
    let s = s.execute(c1, "INSERT INTO target1_new SELECT c FROM s1_new;", Expectation::Required);
    let s = s.connect();
    let s = s.execute(fresh, "use test_txn", Expectation::Required);
    let s = s.begin(fresh);
    let s = s.execute(fresh, "INSERT INTO base1_new VALUES(20);", Expectation::Required);
    let s = s.commit(fresh, Expectation::Required);
    let s = s.execute(c1, "INSERT INTO base2_new VALUES(30);", Expectation::Required);
    let s = s.commit(c1, Expectation::Succeeds);
    let s = s.query(c1, "SELECT c FROM s1_new;", vec![20]);
    let s = s.query(c1, "SELECT * FROM target1_new ORDER BY c;", vec![10]);
    let s = s.query(c1, "SELECT * FROM base1_new ORDER BY c;", vec![10, 20]);
    let s = s.query(c1, "SELECT * FROM base2_new ORDER BY c;", vec![30]);
    proof {
        assert(s@ =~~= before + unrelated_commit_steps(c1 as nat, fresh as nat));
        assert(s.open() =~= script.open().push(false));
    }
    s
}

/// A transaction writes to the tracked table, reads the cursor, writes
/// again after a new connection has committed a row, and consumes the
/// cursor. Its view of the cursor is that of its first read throughout; its
/// commit succeeds and leaves to the cursor what it did not see.
pub open spec fn interleaved_writes_steps(c1: nat, fresh: nat) -> Seq<StepModel> {
    seq![
        execute_step(c1, "create or replace table base_s7(c int);"@, Expectation::Required),
        execute_step(c1, "create or replace table target_s7(c int);"@, Expectation::Required),
        execute_step(
            c1,
            "CREATE or replace STREAM s_s7 ON TABLE base_s7 APPEND_ONLY=true;"@,
            Expectation::Required,
        ),
        execute_step(c1, "INSERT INTO base_s7 VALUES(1);"@, Expectation::Required),
        begin_step(c1),
        execute_step(c1, "INSERT INTO base_s7 VALUES(10);"@, Expectation::Required),
        query_step(c1, "SELECT c FROM s_s7 ORDER BY c;"@, seq![1i32, 10i32]),
        connect_step(fresh),
        execute_step(fresh, "use test_txn"@, Expectation::Required),
        begin_step(fresh),
        execute_step(fresh, "INSERT INTO base_s7 VALUES(20);"@, Expectation::Required),
        commit_step(fresh, Expectation::Required),
        execute_step(c1, "INSERT INTO base_s7 VALUES(30);"@, Expectation::Required),
        query_step(c1, "SELECT c FROM s_s7 ORDER BY c;"@, seq![1i32, 10i32]),
        execute_step(
            c1,
            "INSERT INTO target_s7 SELECT c FROM s_s7 WHERE c > 5;"@,
            Expectation::Required,
        ),
        commit_step(c1, Expectation::Succeeds),
        query_step(c1, "SELECT * FROM base_s7 ORDER BY c;"@, seq![1i32, 10i32, 20i32, 30i32]),
        query_step(c1, "SELECT * FROM target_s7 ORDER BY c;"@, seq![10i32]),
        query_step(c1, "SELECT c FROM s_s7 ORDER BY c;"@, seq![20i32, 30i32]),
    ]
}

/// Appends the steps of [`interleaved_writes_steps`] to `script`.
fn interleaved_writes(script: Script, c1: usize) -> (extended: Script)
    requires
        script.idle(c1),
    ensures
        extended@ == script@ + interleaved_writes_steps(c1 as nat, script.open().len()),
        extended.open() == script.open().push(false),
{
    let ghost before = script@;
    let fresh = script.connections();
    let s = script;
    let s = s.execute(c1, "create or replace table base_s7(c int);", Expectation::Required);
    let s = s.execute(c1, "create or replace table target_s7(c int);", Expectation::Required);
    let s = s.execute(
        c1,
        "CREATE or replace STREAM s_s7 ON TABLE base_s7 APPEND_ONLY=true;",
        Expectation::Required,
    );
    let s = s.execute(c1, "INSERT INTO base_s7 VALUES(1);", Expectation::Required);
    let s = s.begin(c1);
    let s = s.execute(c1, "INSERT INTO base_s7 VALUES(10);", Expectation::Required);
    let s = s.query(c1, "SELECT c FROM s_s7 ORDER BY c;", vec![1, 10]);
    let s = s.connect();
    let s = s.execute(fresh, "use test_txn", Expectation::Required);
    let s = s.begin(fresh);
    let s = s.execute(fresh, "INSERT INTO base_s7 VALUES(20);", Expectation::Required);
    let s = s.commit(fresh, Expectation::Required);
    let s = s.execute(c1, "INSERT INTO base_s7 VALUES(30);", Expectation::Required);
    let s = s.query(c1, "SELECT c FROM s_s7 ORDER BY c;", vec![1, 10]);
    let s = s.execute(
        c1,
        "INSERT INTO target_s7 SELECT c FROM s_s7 WHERE c > 5;",
        Expectation::Required,
    );
    let s = s.commit(c1, Expectation::Succeeds);
    let s = s.query(c1, "SELECT * FROM base_s7 ORDER BY c;", vec![1, 10, 20, 30]);
    let s = s.query(c1, "SELECT * FROM target_s7 ORDER BY c;", vec![10]);
    let s = s.query(c1, "SELECT c FROM s_s7 ORDER BY c;", vec![20, 30]);
    proof {
        assert(s@ =~~= before + interleaved_writes_steps(c1 as nat, fresh as nat));
        assert(s.open() =~= script.open().push(false));
    }
    s
}

/// A transaction consumes a cursor and then runs into an error. What it
/// consumed is given back: the cursor is where it was, the target is empty,
/// and a transaction on a new connection consumes the same rows and
/// commits.
pub open spec fn rolled_back_consumption_steps(c1: nat, fresh: nat) -> Seq<StepModel> {
    seq![
        execute_step(c1, "create or replace table base_rb(c int);"@, Expectation::Required),
        execute_step(c1, "create or replace table target_rb(c int);"@, Expectation::Required),
        execute_step(
            c1,
            "CREATE or replace STREAM s_rb ON TABLE base_rb APPEND_ONLY=true;"@,
            Expectation::Required,
        ),
        execute_step(c1, "INSERT INTO base_rb VALUES(100);"@, Expectation::Required),
        execute_step(c1, "INSERT INTO base_rb VALUES(200);"@, Expectation::Required),
        query_step(c1, "SELECT c FROM s_rb ORDER BY c;"@, seq![100i32, 200i32]),
        begin_step(c1),
        execute_step(
            c1,
            "INSERT INTO target_rb SELECT c FROM s_rb WHERE c = 100;"@,
            Expectation::Required,
        ),
        query_step(c1, "SELECT * FROM target_rb;"@, seq![100i32]),
        execute_step(c1, "SELECT * FROM non_existent_table_to_cause_error;"@, Expectation::Fails),
        commit_step(c1, Expectation::Required),
        query_step(c1, "SELECT c FROM s_rb ORDER BY c;"@, seq![100i32, 200i32]),
        query_step(c1, "SELECT * FROM target_rb;"@, Seq::<i32>::empty()),
        query_step(c1, "SELECT * FROM base_rb ORDER BY c;"@, seq![100i32, 200i32]),
        connect_step(fresh),
        execute_step(fresh, "use test_txn"@, Expectation::Required),
        begin_step(fresh),
        execute_step(
            fresh,
            "INSERT INTO target_rb SELECT c FROM s_rb WHERE c = 100;"@,
            Expectation::Required,
        ),
        commit_step(fresh, Expectation::Succeeds),
        query_step(fresh, "SELECT * FROM target_rb;"@, seq![100i32]),
        query_step(fresh, "SELECT count(*) FROM s_rb;"@, seq![0i32]),
    ]
}

/// Appends the steps of [`rolled_back_consumption_steps`] to `script`.
fn rolled_back_consumption(script: Script, c1: usize) -> (extended: Script)
    requires
        script.idle(c1),
    ensures
        extended@ == script@ + rolled_back_consumption_steps(c1 as nat, script.open().len()),
        extended.open() == script.open().push(false),
{
    let ghost before = script@;
    let fresh = script.connections();
    let s = script;
    let s = s.execute(c1, "create or replace table base_rb(c int);", Expectation::Required);
    let s = s.execute(c1, "create or replace table target_rb(c int);", Expectation::Required);
    let s = s.execute(
        c1,
        "CREATE or replace STREAM s_rb ON TABLE base_rb APPEND_ONLY=true;",
        Expectation::Required,
    );
    let s = s.execute(c1, "INSERT INTO base_rb VALUES(100);", Expectation::Required);
    let s = s.execute(c1, "INSERT INTO base_rb VALUES(200);", Expectation::Required);
    let s = s.query(c1, "SELECT c FROM s_rb ORDER BY c;", vec![100, 200]);
    let s = s.begin(c1);
    let s = s.execute(
        c1,
        "INSERT INTO target_rb SELECT c FROM s_rb WHERE c = 100;",
        Expectation::Required,
    );
    let s = s.query(c1, "SELECT * FROM target_rb;", vec![100]);
    let s = s.execute(c1, "SELECT * FROM non_existent_table_to_cause_error;", Expectation::Fails);
    let s = s.commit(c1, Expectation::Required);
    let s = s.query(c1, "SELECT c FROM s_rb ORDER BY c;", vec![100, 200]);
    let s = s.query(c1, "SELECT * FROM target_rb;", Vec::new());
    let s = s.query(c1, "SELECT * FROM base_rb ORDER BY c;", vec![100, 200]);
    let s = s.connect();
    let s = s.execute(fresh, "use test_txn", Expectation::Required);
    let s = s.begin(fresh);
    let s = s.execute(
        fresh,
        "INSERT INTO target_rb SELECT c FROM s_rb WHERE c = 100;",
        Expectation::Required,
    );
    let s = s.commit(fresh, Expectation::Succeeds);
    let s = s.query(fresh, "SELECT * FROM target_rb;", vec![100]);
    let s = s.query(fresh, "SELECT count(*) FROM s_rb;", vec![0]);
    proof {
        assert(s@ =~~= before + rolled_back_consumption_steps(c1 as nat, fresh as nat));
        assert(s.open() =~= script.open().push(false));
    }
    s
}

/// The steps of the conflict matrix, for a store that settles the conflict
/// of two transactions that insert into one table: connection 0 creates the
/// database, connections 1 and 2 run the scenarios, and connections 3, 4
/// and 5 are opened by the scenarios that need a third party.
pub open spec fn conflict_matrix_steps() -> Seq<StepModel> {
    suite_prologue_steps() + isolation_steps(1, 2, true) + failed_statement_steps(1, 2, true)
        + missing_table_steps(1, 2, true) + stream_snapshot_steps(1, 2, true)
        + disjoint_tables_steps(1, 2, true) + consume_and_commit_steps(1, 2)
        + conflicting_update_steps(1, 2) + contended_cursor_steps(1, 2) + unrelated_commit_steps(
        1,
        3,
    ) + interleaved_writes_steps(1, 4) + rolled_back_consumption_steps(1, 5)
}

/// The steps of the first-committer-wins script, for a store that refuses
/// the commit of a transaction whose table another one has written to:
/// connections 0 and 1 run the scenarios.
pub open spec fn first_committer_wins_steps() -> Seq<StepModel> {
    plain_prologue_steps() + isolation_steps(0, 1, false) + failed_statement_steps(0, 1, false)
        + missing_table_steps(0, 1, false) + stream_snapshot_steps(0, 1, false)
        + disjoint_tables_steps(0, 1, false)
}

/// The conflict matrix: a script of scenarios in which transactions on
/// several connections read, write, commit and fail next to each other.
pub fn conflict_matrix() -> (script: Script)
    ensures
        script@ == conflict_matrix_steps(),
        script.open() == Seq::new(6, |c: int| false),
        runnable(script@),
{
    let s = suite_prologue();
    let s = isolation(s, 1, 2, true);
    let s = failed_statement(s, 1, 2, true);
    let s = missing_table(s, 1, 2, true);
    let s = stream_snapshot(s, 1, 2, true);
    let s = disjoint_tables(s, 1, 2, true);
    let s = consume_and_commit(s, 1, 2);
    let s = conflicting_update(s, 1, 2);
    let s = contended_cursor(s, 1, 2);
    let s = unrelated_commit(s, 1);
    let s = interleaved_writes(s, 1);
    let s = rolled_back_consumption(s, 1);
    proof {
        use_type_invariant(&s);
        assert(s.open() =~= Seq::new(6, |c: int| false));
    }
    s
}

/// The first-committer-wins script: the scenarios of the conflict matrix
/// that need no change-tracking consumption, with the outcome expected of a
/// store that does not settle write conflicts.
pub fn first_committer_wins() -> (script: Script)
    ensures
        script@ == first_committer_wins_steps(),
        script.open() == Seq::new(2, |c: int| false),
        runnable(script@),
{
    let s = plain_prologue();
    let s = isolation(s, 0, 1, false);
    let s = failed_statement(s, 0, 1, false);
    let s = missing_table(s, 0, 1, false);
    let s = stream_snapshot(s, 0, 1, false);
    let s = disjoint_tables(s, 0, 1, false);
    proof {
        use_type_invariant(&s);
        assert(s.open() =~= Seq::new(2, |c: int| false));
    }
    s
}

/// What came of a script so far: `Proceed` if every step up to now was
/// observed as expected, and else what followed from the first step that
/// was not. Steps without an observation do not count, nor do observations
/// after the script has ended.
pub open spec fn outcome_of(steps: Seq<StepModel>, observations: Seq<ObservationModel>) -> Verdict
    decreases observations.len(),
{
    if observations.len() == 0 {
        Verdict::Proceed
    } else {
        let before = outcome_of(steps, observations.drop_last());
        if before is Proceed && observations.len() <= steps.len() {
            verdict_of(steps[observations.len() - 1], observations.last())
        } else {
            before
        }
    }
}

/// What is known of the run of a script.
pub struct ScriptProgress {
    /// The steps of the script.
    pub steps: Seq<StepModel>,
    /// The number of steps that were observed as expected.
    pub position: nat,
    /// `Proceed` while the script goes on, and else what ended it.
    pub verdict: Verdict,
}

impl ScriptProgress {
    /// The step that is due, if the script goes on.
    pub open spec fn due(self) -> Option<StepModel> {
        if self.verdict is Proceed && self.position < self.steps.len() {
            Some(self.steps[self.position as int])
        } else {
            None
        }
    }

    /// The run after the step that was due was observed.
    pub open spec fn observe(self, observation: ObservationModel) -> Self {
        match self.due() {
            Some(step) => {
                let verdict = verdict_of(step, observation);
                ScriptProgress {
                    position: if verdict is Proceed {
                        self.position + 1
                    } else {
                        self.position
                    },
                    verdict,
                    ..self
                }
            },
            None => self,
        }
    }

    /// Whether the script has run to its end with every step as expected.
    pub open spec fn passed(self) -> bool {
        self.verdict is Proceed && self.position == self.steps.len()
    }

    /// A run of `steps` that has not begun.
    pub open spec fn start(steps: Seq<StepModel>) -> Self {
        ScriptProgress { steps, position: 0, verdict: Verdict::Proceed }
    }

    /// The run after `observations` were taken, in order.
    pub open spec fn after(self, observations: Seq<ObservationModel>) -> Self
        decreases observations.len(),
    {
        if observations.len() == 0 {
            self
        } else {
            self.after(observations.drop_last()).observe(observations.last())
        }
    }
}

/// The run of a script: it hands out the steps in their order, takes the
/// observations, and stops at the first step that is not as expected.
pub struct ScriptRun {
    script: Script,
    position: usize,
    verdict: Verdict,
}

impl View for ScriptRun {
    type V = ScriptProgress;

    closed spec fn view(&self) -> ScriptProgress {
        ScriptProgress {
            steps: self.script@,
            position: self.position as nat,
            verdict: self.verdict,
        }
    }
}

impl ScriptRun {
    #[verifier::type_invariant]
    spec fn well_formed(self) -> bool {
        self.position <= self.script@.len()
    }

    /// A run of `script` that has not begun.
    pub fn new(script: Script) -> (run: Self)
        ensures
            run@ == ScriptProgress::start(script@),
    {
        ScriptRun { script, position: 0, verdict: Verdict::Proceed }
    }

    /// The step to execute now; `None` once the script has ended.
    pub fn current(&self) -> (step: Option<&Step>)
        ensures
            match step {
                Some(step) => self@.due() == Some(step@),
                None => self@.due() is None,
            },
    {
        proof {
            use_type_invariant(self);
        }
        if self.verdict == Verdict::Proceed && self.position < self.script.len() {
            Some(self.script.step(self.position))
        } else {
            None
        }
    }

    /// Takes the observation of the step that was due and says what
    /// follows from it. After the end of the script nothing is due, and
    /// what ended the script is said again.
    pub fn observe(&mut self, observation: &Observation) -> (verdict: Verdict)
        ensures
            final(self)@ == old(self)@.observe(observation@),
            verdict == final(self)@.verdict,
    {
        proof {
            use_type_invariant(&*self);
        }
        if self.verdict == Verdict::Proceed && self.position < self.script.len() {
            let verdict = judge(self.script.step(self.position), observation);
            if verdict == Verdict::Proceed {
                self.position = self.position + 1;
            } else {
                self.verdict = verdict;
            }
        }
        self.verdict
    }

    /// Whether the script has run to its end with every step as expected.
    pub fn has_passed(&self) -> (passed: bool)
        ensures
            passed == self@.passed(),
    {
        proof {
            use_type_invariant(self);
        }
        self.verdict == Verdict::Proceed && self.position == self.script.len()
    }

    /// The number of steps that were observed as expected.
    pub fn position(&self) -> (position: usize)
        ensures
            position == self@.position,
    {
        self.position
    }
}

/// A script passes exactly if each of its steps is observed as expected:
/// one observation that is not ends it, and nothing after that mends it.
pub proof fn lemma_script_passes(steps: Seq<StepModel>, observations: Seq<ObservationModel>)
    requires
        observations.len() <= steps.len(),
    ensures
        outcome_of(steps, observations) is Proceed <==> forall|i: int|
            0 <= i < observations.len() ==> verdict_of(steps[i], #[trigger] observations[i])
                is Proceed,
    decreases observations.len(),
{
    if observations.len() > 0 {
        let shorter = observations.drop_last();
        lemma_script_passes(steps, shorter);
        if outcome_of(steps, observations) is Proceed {
            assert forall|i: int| 0 <= i < observations.len() implies verdict_of(
                steps[i],
                #[trigger] observations[i],
            ) is Proceed by {
                if i < shorter.len() {
                    assert(shorter[i] == observations[i]);
                }
            }
        } else {
            if outcome_of(steps, shorter) is Proceed {
                assert(!(verdict_of(
                    steps[observations.len() - 1],
                    observations[observations.len() - 1],
                ) is Proceed));
            } else {
                let i = choose|i: int|
                    0 <= i < shorter.len() && !(verdict_of(steps[i], #[trigger] shorter[i])
                        is Proceed);
                assert(observations[i] == shorter[i]);
            }
        }
    }
}

/// The run of a script goes by the script: after any observations, one per
/// step from the first step on, the run has ended exactly if one of them
/// was not as expected, with what followed from the first such one; and if
/// none was, as many steps are done as there are observations.
pub proof fn lemma_run_follows_script(steps: Seq<StepModel>, observations: Seq<ObservationModel>)
    requires
        observations.len() <= steps.len(),
    ensures
        ScriptProgress::start(steps).after(observations).steps == steps,
        ScriptProgress::start(steps).after(observations).verdict == outcome_of(
            steps,
            observations,
        ),
        outcome_of(steps, observations) is Proceed ==> ScriptProgress::start(steps).after(
            observations,
        ).position == observations.len(),
        ScriptProgress::start(steps).after(observations).passed() <==> observations.len()
            == steps.len() && outcome_of(steps, observations) is Proceed,
    decreases observations.len(),
{
    if observations.len() > 0 {
        lemma_run_follows_script(steps, observations.drop_last());
    }
}

} // verus!
