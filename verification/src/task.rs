//! The merge scenario: a change set of a fixed size is merged from a cursor
//! into tables in three ways, by a plain merge, by a merge inside a
//! transaction, and by a task that runs the merge inside a transaction.
//!
//! Before each round the tables are set up anew. After it the source table
//! holds what it held, and the cursor is consumed if the merge ran inside a
//! transaction.

use vstd::prelude::*;
use vstd::string::StringExecFns;
use crate::text::{decimal, push_decimal};

verus! {

/// The path of the setup script.
pub const SET_UP: &'static str = "set_up.sql";

/// The path of the script of the plain merge.
pub const MERGE: &'static str = "merge.sql";

/// The path of the script of the merge inside a transaction.
pub const TXN_MERGE: &'static str = "txn_merge.sql";

/// The path of the script that creates the task.
pub const TASK_TXN_MERGE: &'static str = "task_txn_merge.sql";

/// The statement that drops the task of a run before.
pub const DROP_TASK: &'static str = "drop task if exists merge_task;";

/// The statement that runs the task.
pub const EXECUTE_TASK: &'static str = "execute task merge_task";

/// The query for the number of rows of the source table.
pub const COUNT_TABLE: &'static str = "select count(*) from json_table;";

/// The query for the number of rows of the change set of the cursor.
pub const COUNT_STREAM: &'static str = "select count(*) from json_table_stream;";

/// The number of rows that setup puts into the source table.
pub const ROWS: i32 = 10000;

/// The number of tables that the merge sorts the change set into.
pub const FLAG_TABLES: u32 = 4;

/// The three rounds of the scenario.
#[derive(Clone, Copy, Debug, PartialEq, Eq, Structural)]
pub enum Round {
    /// The merge runs by itself.
    Merge,
    /// The merge runs inside a transaction.
    TxnMerge,
    /// A task runs the merge inside a transaction.
    TaskTxnMerge,
}

/// The text of the path of the script of `round`.
pub open spec fn script_text(round: Round) -> Seq<char> {
    match round {
        Round::Merge => MERGE@,
        Round::TxnMerge => TXN_MERGE@,
        Round::TaskTxnMerge => TASK_TXN_MERGE@,
    }
}

/// The path of the script of `round`.
pub fn script_path(round: Round) -> (path: &'static str)
    ensures
        path@ == script_text(round),
{
    match round {
        Round::Merge => MERGE,
        Round::TxnMerge => TXN_MERGE,
        Round::TaskTxnMerge => TASK_TXN_MERGE,
    }
}

/// Whether the script of `round` is executed statement by statement; the
/// script that creates the task is one statement as a whole.
pub fn runs_by_statement(round: Round) -> (split: bool)
    ensures
        split == !(round is TaskTxnMerge),
{
    match round {
        Round::TaskTxnMerge => false,
        _ => true,
    }
}

/// The rows that the cursor shows after `round`: all of them after a plain
/// merge, which does not consume the cursor, and none after a merge inside
/// a transaction, which does.
pub open spec fn stream_rows_after(round: Round) -> i32 {
    if round is Merge {
        ROWS
    } else {
        0
    }
}

/// The rows that the cursor is expected to show after `round`.
pub fn expected_stream_rows(round: Round) -> (rows: i32)
    ensures
        rows == stream_rows_after(round),
{
    match round {
        Round::Merge => ROWS,
        _ => 0,
    }
}

/// The heading of the result of `round` in the output.
pub fn heading(round: Round) -> (text: &'static str)
    ensures
        text@ == match round {
            Round::Merge => "merge result:"@,
            Round::TxnMerge => "merge + txn result:"@,
            Round::TaskTxnMerge => "merge + txn + task result:"@,
        },
{
    match round {
        Round::Merge => "merge result:",
        Round::TxnMerge => "merge + txn result:",
        Round::TaskTxnMerge => "merge + txn + task result:",
    }
}

/// The text of the query for the number of rows of flag table `flag`.
pub open spec fn flag_count_text(flag: u32) -> Seq<char> {
    "select count(*) from json_table_flag_"@ + decimal(flag as nat) + ";"@
}

/// The query for the number of rows that the merge put into flag table
/// `flag`; the tables are numbered from one to [`FLAG_TABLES`].
pub fn flag_count_query(flag: u32) -> (sql: String)
    ensures
        sql@ == flag_count_text(flag),
{
    let mut sql = String::from_str("select count(*) from json_table_flag_");
    push_decimal(&mut sql, flag as u64);
    sql.append(";");
    sql
}

} // verus!
