use stress_suite::maintenance::{check_table_health, RowCounts};
use stress_suite::vacuum::{
    insert_statement, vacuumer, verify, writer, Args, COUNT_ROWS, DEFAULT_DSN, FULL_SCAN,
    REPORT_EVERY, SET_UP, VACUUM,
};
use stress_suite::verification::{Subject, VerificationAssertion};

#[test]
fn vacuum_defaults() {
    let args = Args::default();
    assert_eq!(args.insertion_concurrency, 5);
    assert_eq!(args.insertion_iteration, 1000);
    assert_eq!(args.vacuum_concurrency, 5);
    assert_eq!(
        DEFAULT_DSN,
        "databend://root:@localhost:8000/default?sslmode=disable&retention_period=0"
    );
    assert_eq!(SET_UP, "tests/sql/setup.sql");
}

#[test]
fn vacuum_insert_statement() {
    let batch_id = 3;
    let val = batch_id * 2;
    assert_eq!(insert_statement(batch_id), format!("insert into test values({batch_id}, {val})"));
    assert_eq!(insert_statement(0), "insert into test values(0, 0)");
    assert_eq!(insert_statement(u32::MAX), "insert into test values(4294967295, 8589934590)");
}

#[test]
fn vacuum_statements_and_queries() {
    assert_eq!(VACUUM, "vacuum table test RETAIN 0 HOURS");
    assert_eq!(COUNT_ROWS, "select count() from test");
    assert_eq!(FULL_SCAN, "select * from test ignore_result");
    assert_eq!(REPORT_EVERY, 100);
}

#[test]
fn vacuum_writer_counts_its_inserts() {
    let mut worker = writer(Args { insertion_iteration: 3, ..Args::default() });
    assert!(!worker.record(true).failure);
    assert!(!worker.record(false).failure);
    assert!(!worker.record(true).failure);
    assert!(worker.is_finished());
    assert_eq!(worker.successes(), 2);
}

#[test]
fn vacuum_worker_counts_what_it_executed() {
    let mut worker = vacuumer();
    for i in 0..5 {
        assert_eq!(worker.next(false), Some(0));
        worker.record(i % 2 == 0);
    }
    assert_eq!(worker.next(true), None);
    assert_eq!(worker.attempted(), 5);
    assert_eq!(worker.successes(), 3);
}

#[test]
fn vacuum_run_passes_when_the_scan_completes() {
    let report = verify(5000, 5000, true);
    assert!(report.is_passed());
    assert!(report.notes.is_empty());
}

#[test]
fn vacuum_run_tolerates_an_undercount() {
    let report = verify(5000, 4321, true);
    assert!(report.is_passed());
    assert_eq!(
        report.notes,
        vec![VerificationAssertion::informational(Subject::RowCount, 5000, 4321)]
    );
    let report = verify(0, 17, true);
    assert!(report.is_passed());
}

#[test]
fn vacuum_run_fails_when_the_scan_fails() {
    let report = verify(5000, 5000, false);
    assert!(!report.is_passed());
    assert_eq!(report.violations, vec![VerificationAssertion::asserted(Subject::FullScan, 1, 0)]);
    let report = verify(5000, 1, false);
    assert!(!report.is_passed());
    assert_eq!(report.notes.len(), 1);
}

#[test]
fn table_health_goes_by_the_scan_alone() {
    for counts in [
        None,
        Some(RowCounts { client: 0, server: 0 }),
        Some(RowCounts { client: 10, server: 3 }),
        Some(RowCounts { client: 3, server: 10 }),
        Some(RowCounts { client: u64::MAX, server: 0 }),
    ] {
        assert!(check_table_health(true, counts).is_passed());
        assert!(!check_table_health(false, counts).is_passed());
    }
}
