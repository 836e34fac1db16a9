use stress_suite::streams::{
    battery, blind_merge_statement, change_merge_statement, count_query, create_sink_statement,
    insert_statement, sum_query, verify, SinkStats,
};
use stress_suite::verification::{Subject, VerificationAssertion};

#[test]
fn insert_statement_for_a_derived_target() {
    assert_eq!(
        insert_statement(Some(3), true, "a, b, c, d"),
        "insert into sink_3  select a, b, c, d from base_stream_3"
    );
    assert_eq!(
        insert_statement(Some(12), false, "a, b, c, d"),
        "insert into sink_12 select a, b, c, d from base_stream_12"
    );
    assert_eq!(insert_statement(Some(0), true, "*"), "insert into sink_0  select * from base_stream_0");
}

#[test]
fn insert_statement_for_the_baseline() {
    assert_eq!(
        insert_statement(None, false, "a, b, c, d"),
        "insert into sink select a, b, c, d from base_stream"
    );
    assert_eq!(insert_statement(None, false, "*"), "insert into sink select * from base_stream");
}

#[test]
fn blind_merge_statement_text() {
    let stream_id = 5;
    assert_eq!(
        blind_merge_statement(Some(stream_id), "a, b, c, d"),
        format!("merge into sink_{stream_id} using (select a, b, c, d from base_stream_{stream_id}) as s on 1 <> 1 \
                 when matched then update * when not matched then insert *")
    );
    assert_eq!(
        blind_merge_statement(Some(stream_id), "*"),
        format!("merge into sink_{stream_id} using (select * from base_stream_{stream_id}) as s on 1 <> 1 when matched then update * when not matched then insert *")
    );
}

#[test]
fn change_merge_statement_for_a_derived_target() {
    let stream_id = 4;
    assert_eq!(
        change_merge_statement(Some(stream_id)),
        format!("merge into sink_{stream_id} as t using \
                (select a, b, c, d, change$action, change$is_update from base_stream_{stream_id}) as s \
                on t.c = s.c when matched and s.change$action = 'DELETE' and s.change$is_update=false then delete \
                when matched and s.change$action = 'INSERT' and s.change$is_update=true then update * \
                when not matched and s.change$action = 'INSERT' then insert values(s.a, s.b, s.c, s.d)")
    );
}

#[test]
fn change_merge_statement_for_the_baseline() {
    assert_eq!(
        change_merge_statement(None),
        "merge into sink as t using (select a, b, c, d, change$action, change$is_update from base_stream) as s \
         on t.c = s.c when matched and s.change$action = 'DELETE' and s.change$is_update=false then delete \
         when matched and s.change$action = 'INSERT' and s.change$is_update=true then update * \
         when not matched and s.change$action = 'INSERT' then insert values(s.a, s.b, s.c, s.d)"
    );
}

#[test]
fn sink_statements_and_queries() {
    assert_eq!(create_sink_statement(0), "create table sink_0 like base");
    assert_eq!(create_sink_statement(21), "create table sink_21 like base");
    assert_eq!(count_query(None), "select count() from sink");
    assert_eq!(count_query(Some(2)), "select count() from sink_2");
    assert_eq!(sum_query(None, "b"), "select sum(b) from sink");
    assert_eq!(sum_query(Some(2), "b"), "select sum(b) from sink_2");
    assert_eq!(sum_query(Some(4), "c"), "select sum(c) from sink_4");
}

#[test]
fn sinks_that_agree_pass() {
    let baseline = SinkStats { rows: 1310, sum: 987654321 };
    let derived = vec![baseline; 5];
    let report = verify(baseline, &derived);
    assert!(report.is_passed());
    assert!(report.violations.is_empty());
    assert!(report.notes.is_empty());
}

#[test]
fn no_derived_targets_pass() {
    let report = verify(SinkStats { rows: 10, sum: 100 }, &vec![]);
    assert!(report.is_passed());
}

#[test]
fn empty_sinks_agree() {
    let empty = SinkStats { rows: 0, sum: 0 };
    assert!(verify(empty, &vec![empty, empty, empty]).is_passed());
}

#[test]
fn a_sink_with_other_rows_is_reported() {
    let baseline = SinkStats { rows: 100, sum: 5000 };
    let derived = vec![baseline, SinkStats { rows: 99, sum: 5000 }, baseline];
    let report = verify(baseline, &derived);
    assert!(!report.is_passed());
    assert_eq!(
        report.violations,
        vec![VerificationAssertion::asserted(Subject::SinkRows(1), 100, 99)]
    );
}

#[test]
fn a_sink_with_another_sum_is_reported() {
    let baseline = SinkStats { rows: 100, sum: 5000 };
    let derived = vec![SinkStats { rows: 100, sum: 5001 }];
    let report = verify(baseline, &derived);
    assert!(!report.is_passed());
    assert_eq!(
        report.violations,
        vec![VerificationAssertion::asserted(Subject::SinkSum(0), 5000, 5001)]
    );
}

#[test]
fn every_diverging_sink_is_reported() {
    let baseline = SinkStats { rows: 100, sum: 5000 };
    let derived = vec![
        SinkStats { rows: 101, sum: 5050 },
        baseline,
        SinkStats { rows: 100, sum: 4999 },
        SinkStats { rows: 0, sum: 0 },
    ];
    let report = verify(baseline, &derived);
    assert_eq!(
        report.violations,
        vec![
            VerificationAssertion::asserted(Subject::SinkRows(0), 100, 101),
            VerificationAssertion::asserted(Subject::SinkSum(0), 5000, 5050),
            VerificationAssertion::asserted(Subject::SinkSum(2), 5000, 4999),
            VerificationAssertion::asserted(Subject::SinkRows(3), 100, 0),
            VerificationAssertion::asserted(Subject::SinkSum(3), 5000, 0),
        ]
    );
}

#[test]
fn the_battery_holds_two_assertions_per_target() {
    let baseline = SinkStats { rows: 7, sum: 70 };
    let derived = vec![SinkStats { rows: 7, sum: 70 }, SinkStats { rows: 8, sum: 80 }];
    assert_eq!(
        battery(baseline, &derived),
        vec![
            VerificationAssertion::asserted(Subject::SinkRows(0), 7, 7),
            VerificationAssertion::asserted(Subject::SinkSum(0), 70, 70),
            VerificationAssertion::asserted(Subject::SinkRows(1), 7, 8),
            VerificationAssertion::asserted(Subject::SinkSum(1), 70, 80),
        ]
    );
}

#[test]
fn every_target_has_a_sink_of_its_own() {
    let mut names = vec![count_query(None)];
    for target in 0..120u32 {
        names.push(count_query(Some(target)));
    }
    for (i, name) in names.iter().enumerate() {
        for other in &names[i + 1..] {
            assert_ne!(name, other);
        }
    }
}
