use stress_suite::pool::JoinOutcome;
use stress_suite::vacuum2::{
    Args, Stage, Vacuum2Suite, Writer, WriterStep, CREATE_TABLE, FULL_SCAN, NO_RETENTION, VACUUM,
};
use stress_suite::verification::{Subject, VerificationAssertion};

fn suite(explicit_txn: bool) -> Vacuum2Suite {
    Vacuum2Suite::new(Args { explicit_txn, ..Args::default() }, "databend://localhost".to_string())
}

fn run_writer(writer: &mut Writer, outcome: impl Fn(WriterStep) -> bool) -> Vec<WriterStep> {
    let mut steps = Vec::new();
    while let Some(step) = writer.next() {
        steps.push(step);
        writer.record(outcome(step));
    }
    steps
}

#[test]
fn vacuum2_defaults() {
    let args = Args::default();
    assert_eq!(args.writers, 10);
    assert_eq!(args.vacuumers, 3);
    assert_eq!(args.inserts_per_thread, 20);
    assert_eq!(args.insert_batch_size, 10);
    assert!(!args.explicit_txn);
}

#[test]
fn vacuum2_suite_keeps_what_it_is_given() {
    let options =
        Args { writers: 1, vacuumers: 2, inserts_per_thread: 3, insert_batch_size: 4, explicit_txn: true };
    let suite = Vacuum2Suite::new(options, "databend://vacuum".to_string());
    assert_eq!(suite.options(), options);
    assert_eq!(suite.connection_descriptor(), "databend://vacuum");
    let copy = suite.clone();
    assert_eq!(copy.options(), options);
    assert_eq!(copy.connection_descriptor(), "databend://vacuum");
}

#[test]
fn vacuum2_setup_statements() {
    let sqls = suite(false).setup_statements();
    assert_eq!(sqls.len(), 4);
    assert_eq!(sqls[0], "CREATE OR REPLACE DATABASE test_vacuum2");
    assert_eq!(sqls[1], "USE test_vacuum2");
    assert_eq!(
        sqls[2],
        "CREATE OR REPLACE TABLE t1 (
                id DECIMAL(38, 0) NOT NULL,
                a VARIANT NULL,
                b VARCHAR NULL,
                c TIMESTAMP NULL DEFAULT CAST(now() AS Timestamp NULL),
                d TIMESTAMP NULL,
                e DECIMAL(38, 0) NULL DEFAULT 0,
                f VARCHAR NULL,
                g VARCHAR NULL,
                h VARCHAR NULL
            )"
    );
    assert_eq!(sqls[2], CREATE_TABLE);
    assert_eq!(sqls[3], "CREATE OR REPLACE TABLE r LIKE t1 ENGINE = random");
    assert_eq!(suite(true).setup_statements(), sqls);
}

#[test]
fn vacuum2_session_and_round_statements() {
    let suite = suite(false);
    assert_eq!(
        suite.writer_session_statements(),
        vec!["SET data_retention_time_in_days = 0".to_string(), "USE test_vacuum2".to_string()]
    );
    assert_eq!(
        suite.vacuum_round_statements(),
        vec![
            "SET data_retention_time_in_days = 0".to_string(),
            "CALL system$fuse_vacuum2('test_vacuum2', 't1')".to_string()
        ]
    );
    assert_eq!(NO_RETENTION, "SET data_retention_time_in_days = 0");
    assert_eq!(VACUUM, "CALL system$fuse_vacuum2('test_vacuum2', 't1')");
    assert_eq!(FULL_SCAN, "SELECT * FROM t1 ignore_result");
}

#[test]
fn vacuum2_insert_statement() {
    assert_eq!(suite(false).insert_statement(), "INSERT INTO t1 SELECT * FROM r LIMIT 10");
    let options = Args { insert_batch_size: 12345, ..Args::default() };
    assert_eq!(
        Vacuum2Suite::new(options, String::new()).insert_statement(),
        "INSERT INTO t1 SELECT * FROM r LIMIT 12345"
    );
}

#[test]
fn vacuum2_step_statements() {
    let suite = suite(true);
    assert_eq!(suite.step_statement(WriterStep::Begin), "BEGIN");
    assert_eq!(
        suite.step_statement(WriterStep::Insert { iteration: 7 }),
        "INSERT INTO t1 SELECT * FROM r LIMIT 10"
    );
    assert_eq!(suite.step_statement(WriterStep::Rollback), "ROLLBACK");
    assert_eq!(suite.step_statement(WriterStep::Commit), "COMMIT");
}

#[test]
fn vacuum2_scenario_names() {
    assert_eq!(suite(true).scenario_name(), "explicit transaction");
    assert_eq!(suite(false).scenario_name(), "simple concurrent writes");
}

#[test]
fn plain_writer_makes_all_its_inserts() {
    let mut writer = Writer::new(false, 3);
    let steps = run_writer(&mut writer, |_| true);
    assert_eq!(
        steps,
        vec![
            WriterStep::Insert { iteration: 0 },
            WriterStep::Insert { iteration: 1 },
            WriterStep::Insert { iteration: 2 },
        ]
    );
    assert_eq!(writer.outcome(), JoinOutcome::Finished(3));
    assert_eq!(writer.stage(), Stage::Closed);
}

#[test]
fn plain_writer_passes_over_failed_inserts() {
    let mut writer = Writer::new(false, 4);
    let steps = run_writer(&mut writer, |step| step == WriterStep::Insert { iteration: 2 });
    assert_eq!(steps.len(), 4);
    assert_eq!(writer.outcome(), JoinOutcome::Finished(1));
}

#[test]
fn plain_writer_without_inserts_is_done_at_once() {
    let mut writer = Writer::new(false, 0);
    assert_eq!(writer.next(), None);
    assert_eq!(writer.stage(), Stage::Closed);
    assert_eq!(writer.outcome(), JoinOutcome::Finished(0));
    writer.record(true);
    assert_eq!(writer.stage(), Stage::Closed);
    assert_eq!(writer.outcome(), JoinOutcome::Finished(0));
}

#[test]
fn transaction_writer_commits_after_its_inserts() {
    let mut writer = Writer::new(true, 2);
    let steps = run_writer(&mut writer, |_| true);
    assert_eq!(
        steps,
        vec![
            WriterStep::Begin,
            WriterStep::Insert { iteration: 0 },
            WriterStep::Insert { iteration: 1 },
            WriterStep::Commit,
        ]
    );
    assert_eq!(writer.outcome(), JoinOutcome::Finished(2));
}

#[test]
fn transaction_writer_rolls_back_after_a_failed_insert() {
    let mut writer = Writer::new(true, 5);
    let steps = run_writer(&mut writer, |step| step != WriterStep::Insert { iteration: 1 });
    assert_eq!(
        steps,
        vec![
            WriterStep::Begin,
            WriterStep::Insert { iteration: 0 },
            WriterStep::Insert { iteration: 1 },
            WriterStep::Rollback,
        ]
    );
    assert_eq!(writer.outcome(), JoinOutcome::Finished(1));
}

#[test]
fn transaction_writer_ends_without_fault_when_the_rollback_fails() {
    let mut writer = Writer::new(true, 2);
    let steps = run_writer(&mut writer, |step| step == WriterStep::Begin);
    assert_eq!(
        steps,
        vec![WriterStep::Begin, WriterStep::Insert { iteration: 0 }, WriterStep::Rollback]
    );
    assert_eq!(writer.outcome(), JoinOutcome::Finished(0));
}

#[test]
fn transaction_writer_ends_without_fault_when_the_commit_fails() {
    let mut writer = Writer::new(true, 1);
    let steps = run_writer(&mut writer, |step| step != WriterStep::Commit);
    assert_eq!(
        steps,
        vec![WriterStep::Begin, WriterStep::Insert { iteration: 0 }, WriterStep::Commit]
    );
    assert_eq!(writer.outcome(), JoinOutcome::Finished(1));
}

#[test]
fn transaction_writer_breaks_down_when_the_begin_fails() {
    let mut writer = Writer::new(true, 3);
    let steps = run_writer(&mut writer, |_| false);
    assert_eq!(steps, vec![WriterStep::Begin]);
    assert_eq!(writer.outcome(), JoinOutcome::Failed);
    assert_eq!(writer.stage(), Stage::Closed);
}

#[test]
fn transaction_writer_without_inserts_begins_and_commits() {
    let mut writer = Writer::new(true, 0);
    let steps = run_writer(&mut writer, |_| true);
    assert_eq!(steps, vec![WriterStep::Begin, WriterStep::Commit]);
    assert_eq!(writer.outcome(), JoinOutcome::Finished(0));
}

#[test]
fn writer_stages() {
    let mut writer = Writer::new(true, 1);
    assert_eq!(writer.stage(), Stage::Opening);
    writer.record(true);
    assert_eq!(writer.stage(), Stage::Inserting);
    writer.record(false);
    assert_eq!(writer.stage(), Stage::RollingBack);
    writer.record(true);
    assert_eq!(writer.stage(), Stage::Closed);
    let mut other = Writer::new(true, 1);
    other.record(true);
    other.record(true);
    assert_eq!(other.stage(), Stage::Committing);
}

#[test]
fn vacuum2_suite_makes_its_workers() {
    let options = Args { inserts_per_thread: 2, explicit_txn: true, ..Args::default() };
    let suite = Vacuum2Suite::new(options, String::new());
    let mut writer = suite.writer();
    assert_eq!(run_writer(&mut writer, |_| true).len(), 4);
    let mut vacuumer = suite.vacuumer();
    assert_eq!(vacuumer.next(false), Some(0));
    vacuumer.record(false);
    assert_eq!(vacuumer.next(true), Some(1));
    vacuumer.record(true);
    assert_eq!(vacuumer.next(true), None);
    assert_eq!(vacuumer.successes(), 0);
}

#[test]
fn vacuum2_table_is_healthy_when_the_scan_completes() {
    let report = suite(false).check_table_health(true);
    assert!(report.is_passed());
    assert!(report.violations.is_empty());
    assert!(report.notes.is_empty());
}

#[test]
fn vacuum2_table_is_damaged_when_the_scan_fails() {
    let report = suite(true).check_table_health(false);
    assert!(!report.is_passed());
    assert_eq!(report.violations, vec![VerificationAssertion::asserted(Subject::FullScan, 1, 0)]);
    assert!(report.verdict().is_err());
}
