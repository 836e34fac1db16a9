//! Orchestration and verification logic for concurrent workloads that are
//! driven against a shared transactional store.
//!
//! The crate holds the decisions of such a run: which statements are issued,
//! how workers count their outcomes, in which order the phases of a run
//! follow each other, and which observations make a run pass or fail.
//! Connections, tasks and files are the caller's business; the caller hands
//! plain values in and gets plain values back.
//!
//! What every scenario shares:
//!
//! - [`run`]: the phases of a run and their order;
//! - [`worker`]: bounded and unbounded workers;
//! - [`pool`]: the joining of workers into one tally;
//! - [`shutdown`]: the flag that ends the unbounded workers;
//! - [`verification`]: assertions on the final state, and what they amount
//!   to;
//! - [`script`] and [`text`]: setup scripts and statement text.
//!
//! The scenarios:
//!
//! - [`change_tracking`] and [`append_only`], on top of [`streams`]: cursors
//!   over a base table are consumed into sinks that must agree in the end;
//! - [`replace_into`]: batches are replaced into a table under maintenance;
//! - [`vacuum`], [`vacuum2`] and [`auto_vacuum`], on top of
//!   [`maintenance`]: rows are inserted into a table whose space is
//!   reclaimed at the same time;
//! - [`explicit_txn`]: scripted transactions on several connections;
//! - [`multi_table_insert`] and [`task`]: inserts into several tables at a
//!   time, and merges by a task.

pub mod text;
pub mod script;
pub mod shutdown;
pub mod worker;
pub mod pool;
pub mod verification;
pub mod run;
pub mod streams;
pub mod change_tracking;
pub mod append_only;
pub mod replace_into;
pub mod maintenance;
pub mod vacuum;
pub mod vacuum2;
pub mod auto_vacuum;
pub mod explicit_txn;
pub mod multi_table_insert;
pub mod task;
