use stress_suite::multi_table_insert::{
    count_query, expected_rows, inserter, maintainer, maintenance_statements, misplaced_rows_query,
    verify, TableCounts, MAINTAINED_TABLES, MULTI_INSERT, ROWS_PER_RUN, RUN, SET_UP, TABLES,
};
use stress_suite::verification::{Subject, VerificationAssertion};

#[test]
fn multi_table_insert_constants() {
    assert_eq!(SET_UP, "./sql/setup.sql");
    assert_eq!(MULTI_INSERT, "./sql/multi_table_insert.sql");
    assert_eq!(RUN, 100);
    assert_eq!(TABLES, 10);
    assert_eq!(MAINTAINED_TABLES, 9);
    assert_eq!(ROWS_PER_RUN, 10000);
}

#[test]
fn multi_table_insert_maintenance_round() {
    for i in 0..9u32 {
        assert_eq!(
            maintenance_statements(i),
            vec![
                format!("optimize table t{} compact segment;", i),
                format!("optimize table t{} compact;", i),
                format!("optimize table t{} purge;", i),
                format!("alter table t{} recluster;", i),
            ]
        );
    }
}

#[test]
fn multi_table_insert_queries() {
    for i in 0..10u32 {
        assert_eq!(
            misplaced_rows_query(i),
            format!("SELECT count(*) FROM t{} WHERE c % 10 <> {};", i, i)
        );
        assert_eq!(count_query(i), format!("SELECT count(*) FROM t{};", i));
    }
}

#[test]
fn multi_table_insert_expected_rows() {
    assert_eq!(expected_rows(0), 0);
    assert_eq!(expected_rows(1), 1000);
    assert_eq!(expected_rows(100), 100 * 10000 / 10);
    assert_eq!(expected_rows(u32::MAX), 4294967295000);
}

#[test]
fn multi_table_insert_workers() {
    let mut worker = inserter();
    let mut runs = 0;
    while !worker.is_finished() {
        worker.record(runs % 4 != 0);
        runs += 1;
    }
    assert_eq!(runs, 100);
    assert_eq!(worker.successes(), 75);
    let mut maintainer = maintainer();
    let mut seen = Vec::new();
    for _ in 0..6 {
        seen.push(maintainer.next(false).unwrap());
        maintainer.record(true);
    }
    assert_eq!(seen, vec![0, 1, 2, 3, 0, 1]);
}

#[test]
fn multi_table_insert_passes_when_rows_are_in_place() {
    let tables = vec![TableCounts { misplaced: 0, rows: 97000 }; 10];
    let report = verify(97, &tables);
    assert!(report.is_passed());
    assert!(report.notes.is_empty());
}

#[test]
fn multi_table_insert_notes_row_counts_that_differ() {
    let mut tables = vec![TableCounts { misplaced: 0, rows: 97000 }; 10];
    tables[3].rows = 98000;
    let report = verify(97, &tables);
    assert!(report.is_passed());
    assert_eq!(
        report.notes,
        vec![VerificationAssertion::informational(Subject::TableRows(3), 97000, 98000)]
    );
}

#[test]
fn multi_table_insert_fails_on_misplaced_rows() {
    let mut tables = vec![TableCounts { misplaced: 0, rows: 1000 }; 10];
    tables[0].misplaced = 1;
    tables[9].misplaced = 250;
    let report = verify(1, &tables);
    assert!(!report.is_passed());
    assert_eq!(
        report.violations,
        vec![
            VerificationAssertion::asserted(Subject::MisplacedRows(0), 0, 1),
            VerificationAssertion::asserted(Subject::MisplacedRows(9), 0, 250),
        ]
    );
}

#[test]
fn multi_table_insert_without_tables_passes() {
    assert!(verify(5, &vec![]).is_passed());
}
