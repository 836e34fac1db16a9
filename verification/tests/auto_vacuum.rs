use stress_suite::auto_vacuum::{Args, AutoVacuumSuite, CREATE_TABLE, FULL_SCAN};
use stress_suite::verification::{Subject, VerificationAssertion};

fn suite() -> AutoVacuumSuite {
    AutoVacuumSuite::new(Args::default(), "databend://localhost".to_string())
}

#[test]
fn auto_vacuum_defaults() {
    let args = Args::default();
    assert_eq!(args.concurrency, 10);
    assert_eq!(args.inserts_per_iteration, 20);
    assert_eq!(args.insert_batch_size, 10);
}

#[test]
fn auto_vacuum_suite_keeps_what_it_is_given() {
    let options = Args { concurrency: 2, inserts_per_iteration: 3, insert_batch_size: 4 };
    let suite = AutoVacuumSuite::new(options, "databend://auto".to_string());
    assert_eq!(suite.options(), options);
    assert_eq!(suite.connection_descriptor(), "databend://auto");
    let copy = suite.clone();
    assert_eq!(copy.options(), options);
    assert_eq!(copy.connection_descriptor(), "databend://auto");
}

#[test]
fn auto_vacuum_setup_statements() {
    let sqls = suite().setup_statements();
    assert_eq!(sqls.len(), 4);
    assert_eq!(sqls[0], "create or replace database auto_vacuum");
    assert_eq!(sqls[1], "use auto_vacuum");
    assert_eq!(
        sqls[2],
        "CREATE OR REPLACE TABLE test (
                id DECIMAL(38, 0) NOT NULL,
                a VARIANT NULL,
                b VARCHAR NULL,
                c TIMESTAMP NULL DEFAULT CAST(now() AS Timestamp NULL),
                d TIMESTAMP NULL,
                e DECIMAL(38, 0) NULL DEFAULT 0,
                f VARCHAR NULL,
                g VARCHAR NULL,
                h VARCHAR NULL
            ) CLUSTER BY linear(id)
              BLOCK_SIZE_THRESHOLD='419430400'
              CLUSTER_TYPE='linear'
              COMPRESSION='zstd'
              DATA_RETENTION_NUM_SNAPSHOTS_TO_KEEP='3'"
    );
    assert_eq!(sqls[2], CREATE_TABLE);
    assert_eq!(sqls[3], "CREATE OR REPLACE TABLE r LIKE test ENGINE = random");
}

#[test]
fn auto_vacuum_setup_is_the_same_every_time() {
    assert_eq!(suite().setup_statements(), suite().setup_statements());
}

#[test]
fn auto_vacuum_session_statements() {
    assert_eq!(
        suite().session_statements(),
        vec!["set enable_auto_vacuum=1".to_string(), "use auto_vacuum".to_string()]
    );
}

#[test]
fn auto_vacuum_insert_statement() {
    assert_eq!(suite().insert_statement(), "INSERT INTO test SELECT * FROM r LIMIT 10");
    let options = Args { insert_batch_size: 1, ..Args::default() };
    assert_eq!(
        AutoVacuumSuite::new(options, String::new()).insert_statement(),
        "INSERT INTO test SELECT * FROM r LIMIT 1"
    );
    assert_eq!(FULL_SCAN, "SELECT * FROM test ignore_result");
}

#[test]
fn auto_vacuum_writer_logs_failures_and_goes_on() {
    let options = Args { inserts_per_iteration: 3, ..Args::default() };
    let mut writer = AutoVacuumSuite::new(options, String::new()).writer();
    assert!(writer.record(false).failure);
    assert!(!writer.record(true).failure);
    assert!(!writer.is_finished());
    assert!(writer.record(false).failure);
    assert!(writer.is_finished());
    assert_eq!(writer.successes(), 1);
}

#[test]
fn auto_vacuum_writer_without_inserts_is_finished() {
    let options = Args { inserts_per_iteration: 0, ..Args::default() };
    let writer = AutoVacuumSuite::new(options, String::new()).writer();
    assert!(writer.is_finished());
    assert_eq!(writer.successes(), 0);
}

#[test]
fn auto_vacuum_table_is_healthy_when_the_scan_completes() {
    assert!(suite().check_table_health(true).is_passed());
}

#[test]
fn auto_vacuum_table_is_damaged_when_the_scan_fails() {
    let report = suite().check_table_health(false);
    assert!(!report.is_passed());
    assert_eq!(report.violations, vec![VerificationAssertion::asserted(Subject::FullScan, 1, 0)]);
}
