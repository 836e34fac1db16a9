use stress_suite::explicit_txn::{conflict_matrix, first_committer_wins, Action, Expectation, Script};

fn conflict_matrix_steps() -> Vec<(usize, Action, &'static str, Expectation, Vec<i32>)> {
    vec![
        (0, Action::Connect, "", Expectation::Required, vec![]),
        (0, Action::Execute, "create or replace database test_txn", Expectation::Required, vec![]),
        (1, Action::Connect, "", Expectation::Required, vec![]),
        (1, Action::Execute, "use test_txn", Expectation::Required, vec![]),
        (2, Action::Connect, "", Expectation::Required, vec![]),
        (2, Action::Execute, "use test_txn", Expectation::Required, vec![]),
        (1, Action::Execute, "CREATE OR REPLACE TABLE t(c int);", Expectation::Required, vec![]),
        (1, Action::Begin, "BEGIN", Expectation::Required, vec![]),
        (1, Action::Execute, "INSERT INTO t VALUES(1);", Expectation::Required, vec![]),
        (1, Action::Query, "SELECT * FROM t ORDER BY c;", Expectation::Rows, vec![1]),
        (2, Action::Query, "SELECT * FROM t ORDER BY c;", Expectation::Rows, vec![]),
        (2, Action::Begin, "BEGIN", Expectation::Required, vec![]),
        (2, Action::Execute, "INSERT INTO t VALUES(2);", Expectation::Required, vec![]),
        (1, Action::Query, "SELECT * FROM t ORDER BY c;", Expectation::Rows, vec![1]),
        (2, Action::Query, "SELECT * FROM t ORDER BY c;", Expectation::Rows, vec![2]),
        (2, Action::Commit, "COMMIT", Expectation::Required, vec![]),
        (1, Action::Query, "SELECT * FROM t ORDER BY c;", Expectation::Rows, vec![1]),
        (2, Action::Query, "SELECT * FROM t ORDER BY c;", Expectation::Rows, vec![2]),
        (1, Action::Commit, "COMMIT", Expectation::Succeeds, vec![]),
        (1, Action::Query, "SELECT * FROM t ORDER BY c;", Expectation::Rows, vec![1, 2]),
        (2, Action::Query, "SELECT * FROM t ORDER BY c;", Expectation::Rows, vec![1, 2]),
        (1, Action::Begin, "BEGIN", Expectation::Required, vec![]),
        (1, Action::Execute, "INSERT INTO t VALUES(1);", Expectation::Required, vec![]),
        (1, Action::Execute, "qwerty", Expectation::Fails, vec![]),
        (1, Action::Commit, "COMMIT", Expectation::Required, vec![]),
        (1, Action::Query, "SELECT * FROM t ORDER BY c;", Expectation::Rows, vec![1, 2]),
        (2, Action::Query, "SELECT * FROM t ORDER BY c;", Expectation::Rows, vec![1, 2]),
        (1, Action::Execute, "drop table if exists t1;", Expectation::Required, vec![]),
        (1, Action::Begin, "BEGIN", Expectation::Required, vec![]),
        (1, Action::Execute, "INSERT INTO t VALUES(1);", Expectation::Required, vec![]),
        (1, Action::Execute, "select * from t1", Expectation::Fails, vec![]),
        (1, Action::Commit, "COMMIT", Expectation::Required, vec![]),
        (1, Action::Query, "SELECT * FROM t ORDER BY c;", Expectation::Rows, vec![1, 2]),
        (2, Action::Query, "SELECT * FROM t ORDER BY c;", Expectation::Rows, vec![1, 2]),
        (1, Action::Execute, "create or replace table base(c int);", Expectation::Required, vec![]),
        (1, Action::Execute, "CREATE or replace STREAM s ON TABLE base APPEND_ONLY=true;", Expectation::Required, vec![]),
        (1, Action::Begin, "BEGIN", Expectation::Required, vec![]),
        (1, Action::Execute, "INSERT INTO base VALUES(1);", Expectation::Required, vec![]),
        (1, Action::Query, "SELECT c FROM s;", Expectation::Rows, vec![1]),
        (2, Action::Begin, "BEGIN", Expectation::Required, vec![]),
        (2, Action::Execute, "INSERT INTO base VALUES(2);", Expectation::Required, vec![]),
        (2, Action::Commit, "COMMIT", Expectation::Required, vec![]),
        (1, Action::Query, "SELECT c FROM s;", Expectation::Rows, vec![1]),
        (1, Action::Execute, "Insert into base values(3);", Expectation::Required, vec![]),
        (1, Action::Query, "SELECT c FROM s;", Expectation::Rows, vec![1]),
        (1, Action::Commit, "COMMIT", Expectation::Succeeds, vec![]),
        (1, Action::Query, "SELECT * FROM t ORDER BY c;", Expectation::Rows, vec![1, 2]),
        (2, Action::Query, "SELECT * FROM t ORDER BY c;", Expectation::Rows, vec![1, 2]),
        (1, Action::Execute, "CREATE OR REPLACE TABLE t1(c int);", Expectation::Required, vec![]),
        (1, Action::Begin, "BEGIN", Expectation::Required, vec![]),
        (1, Action::Execute, "INSERT INTO t VALUES(1);", Expectation::Required, vec![]),
        (1, Action::Query, "SELECT * FROM t ORDER BY c;", Expectation::Rows, vec![1, 1, 2]),
        (2, Action::Query, "SELECT * FROM t ORDER BY c;", Expectation::Rows, vec![1, 2]),
        (2, Action::Begin, "BEGIN", Expectation::Required, vec![]),
        (2, Action::Execute, "INSERT INTO t1 VALUES(3);", Expectation::Required, vec![]),
        (1, Action::Query, "SELECT * FROM t1 ORDER BY c;", Expectation::Rows, vec![]),
        (2, Action::Query, "SELECT * FROM t1 ORDER BY c;", Expectation::Rows, vec![3]),
        (2, Action::Commit, "COMMIT", Expectation::Required, vec![]),
        (1, Action::Commit, "COMMIT", Expectation::Required, vec![]),
        (1, Action::Query, "SELECT * FROM t ORDER BY c;", Expectation::Rows, vec![1, 1, 2]),
        (2, Action::Query, "SELECT * FROM t ORDER BY c;", Expectation::Rows, vec![1, 1, 2]),
        (1, Action::Query, "SELECT * FROM t1 ORDER BY c;", Expectation::Rows, vec![3]),
        (2, Action::Query, "SELECT * FROM t1 ORDER BY c;", Expectation::Rows, vec![3]),
        (1, Action::Execute, "create or replace table base(c int);", Expectation::Required, vec![]),
        (1, Action::Execute, "create or replace table target(c int);", Expectation::Required, vec![]),
        (1, Action::Execute, "CREATE or replace STREAM s ON TABLE base APPEND_ONLY=true;", Expectation::Required, vec![]),
        (1, Action::Begin, "BEGIN", Expectation::Required, vec![]),
        (1, Action::Execute, "INSERT INTO base VALUES(1);", Expectation::Required, vec![]),
        (1, Action::Query, "SELECT c FROM s;", Expectation::Rows, vec![1]),
        (2, Action::Begin, "BEGIN", Expectation::Required, vec![]),
        (2, Action::Execute, "INSERT INTO base VALUES(2);", Expectation::Required, vec![]),
        (2, Action::Execute, "INSERT INTO target VALUES(3);", Expectation::Required, vec![]),
        (2, Action::Commit, "COMMIT", Expectation::Required, vec![]),
        (1, Action::Query, "SELECT c FROM s;", Expectation::Rows, vec![1]),
        (1, Action::Execute, "Insert into base values(3);", Expectation::Required, vec![]),
        (1, Action::Query, "SELECT c FROM s;", Expectation::Rows, vec![1]),
        (1, Action::Execute, "Insert into target select c from s;", Expectation::Required, vec![]),
        (1, Action::Commit, "COMMIT", Expectation::Succeeds, vec![]),
        (1, Action::Query, "SELECT c FROM s order by c;", Expectation::Rows, vec![2, 3]),
        (2, Action::Query, "SELECT c FROM target order by c;", Expectation::Rows, vec![1, 3]),
        (1, Action::Execute, "create or replace table base(c int);", Expectation::Required, vec![]),
        (1, Action::Execute, "create or replace table target(c int);", Expectation::Required, vec![]),
        (1, Action::Execute, "CREATE or replace STREAM s ON TABLE base APPEND_ONLY=true;", Expectation::Required, vec![]),
        (1, Action::Execute, "INSERT INTO base VALUES(1);", Expectation::Required, vec![]),
        (1, Action::Begin, "BEGIN", Expectation::Required, vec![]),
        (1, Action::Query, "SELECT c FROM s;", Expectation::Rows, vec![1]),
        (1, Action::Execute, "update base set c = 4 where c = 1;", Expectation::Required, vec![]),
        (2, Action::Begin, "BEGIN", Expectation::Required, vec![]),
        (2, Action::Execute, "INSERT INTO base VALUES(2);", Expectation::Required, vec![]),
        (2, Action::Execute, "update base set c = 100 where c = 1;", Expectation::Required, vec![]),
        (2, Action::Commit, "COMMIT", Expectation::Required, vec![]),
        (1, Action::Query, "SELECT c FROM s;", Expectation::Rows, vec![1]),
        (1, Action::Execute, "Insert into target select c from s;", Expectation::Required, vec![]),
        (1, Action::Commit, "COMMIT", Expectation::Fails, vec![]),
        (1, Action::Query, "SELECT c FROM s order by c;", Expectation::Rows, vec![2, 100]),
        (2, Action::Query, "SELECT count(*) FROM target;", Expectation::Rows, vec![0]),
        (1, Action::Execute, "create or replace table base(c int);", Expectation::Required, vec![]),
        (1, Action::Execute, "create or replace table target(c int);", Expectation::Required, vec![]),
        (1, Action::Execute, "CREATE or replace STREAM s ON TABLE base APPEND_ONLY=true;", Expectation::Required, vec![]),
        (1, Action::Execute, "INSERT INTO base VALUES(1);", Expectation::Required, vec![]),
        (1, Action::Begin, "BEGIN", Expectation::Required, vec![]),
        (1, Action::Query, "SELECT c FROM s;", Expectation::Rows, vec![1]),
        (2, Action::Begin, "BEGIN", Expectation::Required, vec![]),
        (2, Action::Execute, "INSERT INTO base VALUES(2);", Expectation::Required, vec![]),
        (2, Action::Execute, "Insert into target select c from s;", Expectation::Required, vec![]),
        (2, Action::Commit, "COMMIT", Expectation::Required, vec![]),
        (1, Action::Query, "SELECT c FROM s;", Expectation::Rows, vec![1]),
        (1, Action::Execute, "Insert into target select c from s;", Expectation::Required, vec![]),
        (1, Action::Commit, "COMMIT", Expectation::Fails, vec![]),
        (1, Action::Query, "SELECT count(*) FROM s;", Expectation::Rows, vec![0]),
        (2, Action::Query, "SELECT * FROM target order by c;", Expectation::Rows, vec![1, 2]),
        (1, Action::Execute, "create or replace table base1_new(c int);", Expectation::Required, vec![]),
        (1, Action::Execute, "create or replace table base2_new(c int);", Expectation::Required, vec![]),
        (1, Action::Execute, "create or replace table target1_new(c int);", Expectation::Required, vec![]),
        (1, Action::Execute, "CREATE or replace STREAM s1_new ON TABLE base1_new APPEND_ONLY=true;", Expectation::Required, vec![]),
        (1, Action::Execute, "INSERT INTO base1_new VALUES(10);", Expectation::Required, vec![]),
        (1, Action::Begin, "BEGIN", Expectation::Required, vec![]),
        (1, Action::Query, "SELECT c FROM s1_new;", Expectation::Rows, vec![10]),
        (1, Action::Execute, "INSERT INTO target1_new SELECT c FROM s1_new;", Expectation::Required, vec![]),
        (3, Action::Connect, "", Expectation::Required, vec![]),
        (3, Action::Execute, "use test_txn", Expectation::Required, vec![]),
        (3, Action::Begin, "BEGIN", Expectation::Required, vec![]),
        (3, Action::Execute, "INSERT INTO base1_new VALUES(20);", Expectation::Required, vec![]),
        (3, Action::Commit, "COMMIT", Expectation::Required, vec![]),
        (1, Action::Execute, "INSERT INTO base2_new VALUES(30);", Expectation::Required, vec![]),
        (1, Action::Commit, "COMMIT", Expectation::Succeeds, vec![]),
        (1, Action::Query, "SELECT c FROM s1_new;", Expectation::Rows, vec![20]),
        (1, Action::Query, "SELECT * FROM target1_new ORDER BY c;", Expectation::Rows, vec![10]),
        (1, Action::Query, "SELECT * FROM base1_new ORDER BY c;", Expectation::Rows, vec![10, 20]),
        (1, Action::Query, "SELECT * FROM base2_new ORDER BY c;", Expectation::Rows, vec![30]),
        (1, Action::Execute, "create or replace table base_s7(c int);", Expectation::Required, vec![]),
        (1, Action::Execute, "create or replace table target_s7(c int);", Expectation::Required, vec![]),
        (1, Action::Execute, "CREATE or replace STREAM s_s7 ON TABLE base_s7 APPEND_ONLY=true;", Expectation::Required, vec![]),
        (1, Action::Execute, "INSERT INTO base_s7 VALUES(1);", Expectation::Required, vec![]),
        (1, Action::Begin, "BEGIN", Expectation::Required, vec![]),
        (1, Action::Execute, "INSERT INTO base_s7 VALUES(10);", Expectation::Required, vec![]),
        (1, Action::Query, "SELECT c FROM s_s7 ORDER BY c;", Expectation::Rows, vec![1, 10]),
        (4, Action::Connect, "", Expectation::Required, vec![]),
        (4, Action::Execute, "use test_txn", Expectation::Required, vec![]),
        (4, Action::Begin, "BEGIN", Expectation::Required, vec![]),
        (4, Action::Execute, "INSERT INTO base_s7 VALUES(20);", Expectation::Required, vec![]),
        (4, Action::Commit, "COMMIT", Expectation::Required, vec![]),
        (1, Action::Execute, "INSERT INTO base_s7 VALUES(30);", Expectation::Required, vec![]),
        (1, Action::Query, "SELECT c FROM s_s7 ORDER BY c;", Expectation::Rows, vec![1, 10]),
        (1, Action::Execute, "INSERT INTO target_s7 SELECT c FROM s_s7 WHERE c > 5;", Expectation::Required, vec![]),
        (1, Action::Commit, "COMMIT", Expectation::Succeeds, vec![]),
        (1, Action::Query, "SELECT * FROM base_s7 ORDER BY c;", Expectation::Rows, vec![1, 10, 20, 30]),
        (1, Action::Query, "SELECT * FROM target_s7 ORDER BY c;", Expectation::Rows, vec![10]),
        (1, Action::Query, "SELECT c FROM s_s7 ORDER BY c;", Expectation::Rows, vec![20, 30]),
        (1, Action::Execute, "create or replace table base_rb(c int);", Expectation::Required, vec![]),
        (1, Action::Execute, "create or replace table target_rb(c int);", Expectation::Required, vec![]),
        (1, Action::Execute, "CREATE or replace STREAM s_rb ON TABLE base_rb APPEND_ONLY=true;", Expectation::Required, vec![]),
        (1, Action::Execute, "INSERT INTO base_rb VALUES(100);", Expectation::Required, vec![]),
        (1, Action::Execute, "INSERT INTO base_rb VALUES(200);", Expectation::Required, vec![]),
        (1, Action::Query, "SELECT c FROM s_rb ORDER BY c;", Expectation::Rows, vec![100, 200]),
        (1, Action::Begin, "BEGIN", Expectation::Required, vec![]),
        (1, Action::Execute, "INSERT INTO target_rb SELECT c FROM s_rb WHERE c = 100;", Expectation::Required, vec![]),
        (1, Action::Query, "SELECT * FROM target_rb;", Expectation::Rows, vec![100]),
        (1, Action::Execute, "SELECT * FROM non_existent_table_to_cause_error;", Expectation::Fails, vec![]),
        (1, Action::Commit, "COMMIT", Expectation::Required, vec![]),
        (1, Action::Query, "SELECT c FROM s_rb ORDER BY c;", Expectation::Rows, vec![100, 200]),
        (1, Action::Query, "SELECT * FROM target_rb;", Expectation::Rows, vec![]),
        (1, Action::Query, "SELECT * FROM base_rb ORDER BY c;", Expectation::Rows, vec![100, 200]),
        (5, Action::Connect, "", Expectation::Required, vec![]),
        (5, Action::Execute, "use test_txn", Expectation::Required, vec![]),
        (5, Action::Begin, "BEGIN", Expectation::Required, vec![]),
        (5, Action::Execute, "INSERT INTO target_rb SELECT c FROM s_rb WHERE c = 100;", Expectation::Required, vec![]),
        (5, Action::Commit, "COMMIT", Expectation::Succeeds, vec![]),
        (5, Action::Query, "SELECT * FROM target_rb;", Expectation::Rows, vec![100]),
        (5, Action::Query, "SELECT count(*) FROM s_rb;", Expectation::Rows, vec![0]),
    ]
}

fn first_committer_wins_steps() -> Vec<(usize, Action, &'static str, Expectation, Vec<i32>)> {
    vec![
        (0, Action::Connect, "", Expectation::Required, vec![]),
        (1, Action::Connect, "", Expectation::Required, vec![]),
        (0, Action::Execute, "CREATE OR REPLACE TABLE t(c int);", Expectation::Required, vec![]),
        (0, Action::Begin, "BEGIN", Expectation::Required, vec![]),
        (0, Action::Execute, "INSERT INTO t VALUES(1);", Expectation::Required, vec![]),
        (0, Action::Query, "SELECT * FROM t ORDER BY c;", Expectation::Rows, vec![1]),
        (1, Action::Query, "SELECT * FROM t ORDER BY c;", Expectation::Rows, vec![]),
        (1, Action::Begin, "BEGIN", Expectation::Required, vec![]),
        (1, Action::Execute, "INSERT INTO t VALUES(2);", Expectation::Required, vec![]),
        (0, Action::Query, "SELECT * FROM t ORDER BY c;", Expectation::Rows, vec![1]),
        (1, Action::Query, "SELECT * FROM t ORDER BY c;", Expectation::Rows, vec![2]),
        (1, Action::Commit, "COMMIT", Expectation::Required, vec![]),
        (0, Action::Query, "SELECT * FROM t ORDER BY c;", Expectation::Rows, vec![1]),
        (1, Action::Query, "SELECT * FROM t ORDER BY c;", Expectation::Rows, vec![2]),
        (0, Action::Commit, "COMMIT", Expectation::Fails, vec![]),
        (0, Action::Query, "SELECT * FROM t ORDER BY c;", Expectation::Rows, vec![2]),
        (1, Action::Query, "SELECT * FROM t ORDER BY c;", Expectation::Rows, vec![2]),
        (0, Action::Begin, "BEGIN", Expectation::Required, vec![]),
        (0, Action::Execute, "INSERT INTO t VALUES(1);", Expectation::Required, vec![]),
        (0, Action::Execute, "qwerty", Expectation::Fails, vec![]),
        (0, Action::Commit, "COMMIT", Expectation::Required, vec![]),
        (0, Action::Query, "SELECT * FROM t ORDER BY c;", Expectation::Rows, vec![2]),
        (1, Action::Query, "SELECT * FROM t ORDER BY c;", Expectation::Rows, vec![2]),
        (0, Action::Execute, "drop table if exists t1;", Expectation::Required, vec![]),
        (0, Action::Begin, "BEGIN", Expectation::Required, vec![]),
        (0, Action::Execute, "INSERT INTO t VALUES(1);", Expectation::Required, vec![]),
        (0, Action::Execute, "select * from t1", Expectation::Fails, vec![]),
        (0, Action::Commit, "COMMIT", Expectation::Required, vec![]),
        (0, Action::Query, "SELECT * FROM t ORDER BY c;", Expectation::Rows, vec![2]),
        (1, Action::Query, "SELECT * FROM t ORDER BY c;", Expectation::Rows, vec![2]),
        (0, Action::Execute, "create or replace table base(c int);", Expectation::Required, vec![]),
        (0, Action::Execute, "CREATE or replace STREAM s ON TABLE base APPEND_ONLY=true;", Expectation::Required, vec![]),
        (0, Action::Begin, "BEGIN", Expectation::Required, vec![]),
        (0, Action::Execute, "INSERT INTO base VALUES(1);", Expectation::Required, vec![]),
        (0, Action::Query, "SELECT c FROM s;", Expectation::Rows, vec![1]),
        (1, Action::Begin, "BEGIN", Expectation::Required, vec![]),
        (1, Action::Execute, "INSERT INTO base VALUES(2);", Expectation::Required, vec![]),
        (1, Action::Commit, "COMMIT", Expectation::Required, vec![]),
        (0, Action::Query, "SELECT c FROM s;", Expectation::Rows, vec![1]),
        (0, Action::Execute, "Insert into base values(3);", Expectation::Required, vec![]),
        (0, Action::Query, "SELECT c FROM s;", Expectation::Rows, vec![1]),
        (0, Action::Commit, "COMMIT", Expectation::Fails, vec![]),
        (0, Action::Query, "SELECT * FROM t ORDER BY c;", Expectation::Rows, vec![2]),
        (1, Action::Query, "SELECT * FROM t ORDER BY c;", Expectation::Rows, vec![2]),
        (0, Action::Execute, "CREATE OR REPLACE TABLE t1(c int);", Expectation::Required, vec![]),
        (0, Action::Begin, "BEGIN", Expectation::Required, vec![]),
        (0, Action::Execute, "INSERT INTO t VALUES(1);", Expectation::Required, vec![]),
        (0, Action::Query, "SELECT * FROM t ORDER BY c;", Expectation::Rows, vec![1, 2]),
        (1, Action::Query, "SELECT * FROM t ORDER BY c;", Expectation::Rows, vec![2]),
        (1, Action::Begin, "BEGIN", Expectation::Required, vec![]),
        (1, Action::Execute, "INSERT INTO t1 VALUES(3);", Expectation::Required, vec![]),
        (0, Action::Query, "SELECT * FROM t1 ORDER BY c;", Expectation::Rows, vec![]),
        (1, Action::Query, "SELECT * FROM t1 ORDER BY c;", Expectation::Rows, vec![3]),
        (1, Action::Commit, "COMMIT", Expectation::Required, vec![]),
        (0, Action::Commit, "COMMIT", Expectation::Required, vec![]),
        (0, Action::Query, "SELECT * FROM t ORDER BY c;", Expectation::Rows, vec![1, 2]),
        (1, Action::Query, "SELECT * FROM t ORDER BY c;", Expectation::Rows, vec![1, 2]),
        (0, Action::Query, "SELECT * FROM t1 ORDER BY c;", Expectation::Rows, vec![3]),
        (1, Action::Query, "SELECT * FROM t1 ORDER BY c;", Expectation::Rows, vec![3]),
    ]
}

fn assert_script(script: &Script, expected: &[(usize, Action, &'static str, Expectation, Vec<i32>)]) {
    assert_eq!(script.len(), expected.len());
    for (i, (conn, action, sql, expect, rows)) in expected.iter().enumerate() {
        let step = script.step(i);
        assert_eq!(step.conn, *conn, "connection of step {}", i);
        assert_eq!(step.action, *action, "action of step {}", i);
        assert_eq!(step.sql, *sql, "statement of step {}", i);
        assert_eq!(step.expect, *expect, "expectation of step {}", i);
        assert_eq!(&step.rows, rows, "rows of step {}", i);
    }
}

#[test]
fn conflict_matrix_step_by_step() {
    assert_script(&conflict_matrix(), &conflict_matrix_steps());
}

#[test]
fn first_committer_wins_step_by_step() {
    assert_script(&first_committer_wins(), &first_committer_wins_steps());
}
