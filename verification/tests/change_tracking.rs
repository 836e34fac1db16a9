use stress_suite::change_tracking::{
    role_statement, role_worker, Args, ChangeTrackingSuite, Role, CREATE_DATABASE, SEED, SET_UP,
    SET_UP_CLUSTERED, USE_DATABASE,
};
use stress_suite::streams::SinkStats;

fn args(append_only: bool, clustered: bool) -> Args {
    Args { append_only_stream: append_only, clustered_table: clustered, ..Args::default() }
}

fn suite(append_only: bool, clustered: bool) -> ChangeTrackingSuite {
    ChangeTrackingSuite::new(args(append_only, clustered), "databend://localhost".to_string())
}

#[test]
fn change_tracking_defaults() {
    let args = Args::default();
    assert_eq!(args.num_derived_streams, 5);
    assert_eq!(args.stream_consumption_concurrency, 3);
    assert_eq!(args.times_consumption_per_stream, 10);
    assert!(!args.show_stream_consumption_errors);
    assert!(!args.append_only_stream);
    assert!(!args.clustered_table);
}

#[test]
fn change_tracking_suite_keeps_what_it_is_given() {
    let options = Args {
        num_derived_streams: 2,
        stream_consumption_concurrency: 4,
        times_consumption_per_stream: 6,
        show_stream_consumption_errors: true,
        append_only_stream: true,
        clustered_table: false,
    };
    let suite = ChangeTrackingSuite::new(options, "databend://host:8000/db".to_string());
    assert_eq!(suite.options(), options);
    assert_eq!(suite.connection_descriptor(), "databend://host:8000/db");
}

#[test]
fn change_tracking_setup_path_follows_the_cluster_key() {
    assert_eq!(suite(false, false).setup_path(), "./sql/change_tracking/setup.sql");
    assert_eq!(suite(true, true).setup_path(), "./sql/change_tracking/setup_clustered.sql");
    assert_eq!(SET_UP, "./sql/change_tracking/setup.sql");
    assert_eq!(SET_UP_CLUSTERED, "./sql/change_tracking/setup_clustered.sql");
}

#[test]
fn change_tracking_setup_begins_with_a_new_database() {
    let script = "create table base(a int, b int, c string, d timestamp);\n\ncreate table sink like base;\n";
    assert_eq!(
        suite(false, false).setup_statements(script),
        vec![
            "create or replace database test_stream".to_string(),
            "use test_stream".to_string(),
            "create table base(a int, b int, c string, d timestamp)".to_string(),
            "create table sink like base".to_string(),
        ]
    );
    assert_eq!(CREATE_DATABASE, "create or replace database test_stream");
    assert_eq!(USE_DATABASE, "use test_stream");
}

#[test]
fn change_tracking_setup_is_the_same_every_time() {
    let script = " drop table if exists base ; create table base(a int) ";
    let suite = suite(true, false);
    let first = suite.setup_statements(script);
    let second = suite.setup_statements(script);
    assert_eq!(first, second);
    assert_eq!(first[0], "create or replace database test_stream");
    assert_eq!(suite.setup_statements(""), vec![CREATE_DATABASE.to_string(), USE_DATABASE.to_string()]);
}

#[test]
fn change_tracking_seed_statement() {
    assert_eq!(SEED, "insert into base select a, b, uuid() as c, d from rand limit 10");
}

#[test]
fn change_tracking_roles_with_standard_cursors() {
    assert_eq!(
        suite(false, false).background_roles(),
        vec![
            Role::Insertion,
            Role::Compaction,
            Role::Deletion,
            Role::Update,
            Role::Merge,
            Role::Replace
        ]
    );
    assert_eq!(
        suite(false, true).background_roles(),
        vec![
            Role::Insertion,
            Role::Compaction,
            Role::Deletion,
            Role::Update,
            Role::Merge,
            Role::Replace,
            Role::Recluster
        ]
    );
}

#[test]
fn change_tracking_roles_with_append_only_cursors() {
    assert_eq!(
        suite(true, false).background_roles(),
        vec![Role::Insertion, Role::Compaction, Role::Deletion]
    );
    assert_eq!(
        suite(true, true).background_roles(),
        vec![Role::Insertion, Role::Compaction, Role::Deletion, Role::Recluster]
    );
}

#[test]
fn change_tracking_role_statements() {
    assert_eq!(
        role_statement(Role::Insertion),
        "insert into base select a, b, uuid() as c, d from rand limit 100"
    );
    assert_eq!(
        role_statement(Role::Deletion),
        "delete from base where a < -15000 and d < '1970-01-01 00:00:00'"
    );
    assert_eq!(
        role_statement(Role::Replace),
        "replace into base on(a) select a, b, uuid() as c, d from rand limit 2"
    );
    assert_eq!(
        role_statement(Role::Update),
        "update base set d = now() where d > '2099-01-01 00:00:00' and a > 15000"
    );
    assert_eq!(
        role_statement(Role::Merge),
        "merge into base using (select a, b, uuid() as c, d from rand limit 10) as s on base.a = s.a \
                        when matched and s.d > '2099-01-01 00:00:00' then update set base.b = s.b and base.d = now() \
                        when matched and s.d < '1970-01-01 00:00:00' then delete when not matched then insert *"
    );
    assert_eq!(role_statement(Role::Compaction), "optimize table base compact");
    assert_eq!(role_statement(Role::Recluster), "alter table base recluster");
}

#[test]
fn change_tracking_maintenance_workers_count() {
    for (role, counted) in [
        (Role::Insertion, false),
        (Role::Compaction, true),
        (Role::Deletion, false),
        (Role::Update, false),
        (Role::Merge, false),
        (Role::Replace, false),
        (Role::Recluster, true),
    ] {
        let mut worker = role_worker(role);
        assert_eq!(worker.next(false), Some(0));
        worker.record(true);
        assert_eq!(worker.next(false), Some(0));
        worker.record(false);
        assert_eq!(worker.next(true), None);
        assert_eq!(worker.successes(), if counted { 1 } else { 0 });
    }
}

#[test]
fn change_tracking_base_stream_statement() {
    assert_eq!(
        suite(true, false).create_base_stream_statement(),
        "create stream base_stream on table base append_only = true"
    );
    assert_eq!(
        suite(false, false).create_base_stream_statement(),
        "create stream base_stream on table base append_only = false"
    );
}

#[test]
fn change_tracking_derived_statements() {
    let mut options = args(true, false);
    options.num_derived_streams = 2;
    let suite = ChangeTrackingSuite::new(options, String::new());
    assert_eq!(
        suite.create_derived_statements(),
        vec![
            "create stream base_stream_0 on table base at (STREAM => base_stream) append_only = true".to_string(),
            "create table sink_0 like base".to_string(),
            "create stream base_stream_1 on table base at (STREAM => base_stream) append_only = true".to_string(),
            "create table sink_1 like base".to_string(),
        ]
    );
    options.append_only_stream = false;
    let suite = ChangeTrackingSuite::new(options, String::new());
    assert_eq!(
        suite.create_derived_stream_statement(7),
        "create stream base_stream_7 on table base at (STREAM => base_stream) append_only = false"
    );
}

#[test]
fn change_tracking_no_derived_statements_without_targets() {
    let mut options = args(false, false);
    options.num_derived_streams = 0;
    let suite = ChangeTrackingSuite::new(options, String::new());
    assert!(suite.create_derived_statements().is_empty());
}

#[test]
fn change_tracking_consume_statements_for_append_only_cursors() {
    let suite = suite(true, false);
    assert_eq!(
        suite.consume_statement(2),
        "insert into sink_2  select a, b, c, d from base_stream_2"
    );
    assert_eq!(
        suite.consume_statement(3),
        "merge into sink_3 using (select a, b, c, d from base_stream_3) as s on 1 <> 1 when matched then update * when not matched then insert *"
    );
    assert_eq!(
        suite.consume_statement(0),
        "insert into sink_0  select a, b, c, d from base_stream_0"
    );
}

#[test]
fn change_tracking_consume_statements_for_standard_cursors() {
    let suite = suite(false, false);
    for stream_id in [0u32, 1, 2, 13] {
        assert_eq!(
            suite.consume_statement(stream_id),
            format!("merge into sink_{stream_id} as t using \
                    (select a, b, c, d, change$action, change$is_update from base_stream_{stream_id}) as s \
                    on t.c = s.c when matched and s.change$action = 'DELETE' and s.change$is_update=false then delete \
                    when matched and s.change$action = 'INSERT' and s.change$is_update=true then update * \
                    when not matched and s.change$action = 'INSERT' then insert values(s.a, s.b, s.c, s.d)")
        );
    }
}

#[test]
fn change_tracking_drain_for_append_only_cursors() {
    let mut options = args(true, false);
    options.num_derived_streams = 3;
    let suite = ChangeTrackingSuite::new(options, String::new());
    assert_eq!(
        suite.final_consume_statements(),
        vec![
            "insert into sink_0 select a, b, c, d from base_stream_0".to_string(),
            "insert into sink_1 select a, b, c, d from base_stream_1".to_string(),
            "insert into sink_2 select a, b, c, d from base_stream_2".to_string(),
            "insert into sink select a, b, c, d from base_stream".to_string(),
        ]
    );
}

#[test]
fn change_tracking_drain_for_standard_cursors() {
    let mut options = args(false, false);
    options.num_derived_streams = 2;
    let suite = ChangeTrackingSuite::new(options, String::new());
    let drain = suite.final_consume_statements();
    assert_eq!(drain.len(), 3);
    for idx in 0..2u32 {
        assert_eq!(
            drain[idx as usize],
            format!("merge into sink_{idx} as t using \
                        (select a, b, c, d, change$action, change$is_update from base_stream_{idx}) as s \
                        on t.c = s.c when matched and s.change$action = 'DELETE' and s.change$is_update=false then delete \
                        when matched and s.change$action = 'INSERT' and s.change$is_update=true then update * \
                        when not matched and s.change$action = 'INSERT' then insert values(s.a, s.b, s.c, s.d)")
        );
    }
    assert_eq!(
        drain[2],
        "merge into sink as t using (select a, b, c, d, change$action, change$is_update from base_stream) as s \
             on t.c = s.c when matched and s.change$action = 'DELETE' and s.change$is_update=false then delete \
             when matched and s.change$action = 'INSERT' and s.change$is_update=true then update * \
             when not matched and s.change$action = 'INSERT' then insert values(s.a, s.b, s.c, s.d)"
    );
}

#[test]
fn change_tracking_drain_without_targets_consumes_the_baseline() {
    let mut options = args(true, false);
    options.num_derived_streams = 0;
    let suite = ChangeTrackingSuite::new(options, String::new());
    assert_eq!(
        suite.final_consume_statements(),
        vec!["insert into sink select a, b, c, d from base_stream".to_string()]
    );
}

#[test]
fn change_tracking_consumer_runs_as_often_as_asked() {
    let mut options = args(false, false);
    options.times_consumption_per_stream = 4;
    options.show_stream_consumption_errors = true;
    let suite = ChangeTrackingSuite::new(options, String::new());
    let mut worker = suite.consumer();
    let mut failures_logged = 0;
    for ok in [true, false, false, true] {
        assert!(!worker.is_finished());
        if worker.record(ok).failure {
            failures_logged += 1;
        }
    }
    assert!(worker.is_finished());
    assert_eq!(worker.successes(), 2);
    assert_eq!(failures_logged, 2);
}

#[test]
fn change_tracking_consumer_without_iterations_does_nothing() {
    let mut options = args(true, false);
    options.times_consumption_per_stream = 0;
    let suite = ChangeTrackingSuite::new(options, String::new());
    let worker = suite.consumer();
    assert!(worker.is_finished());
    assert_eq!(worker.successes(), 0);
}

#[test]
fn change_tracking_total_consumptions() {
    assert_eq!(suite(false, false).total_consumptions(), 150);
    let options = Args {
        num_derived_streams: 7,
        stream_consumption_concurrency: 11,
        times_consumption_per_stream: 13,
        ..Args::default()
    };
    assert_eq!(ChangeTrackingSuite::new(options, String::new()).total_consumptions(), 1001);
    let none = Args { times_consumption_per_stream: 0, ..Args::default() };
    assert_eq!(ChangeTrackingSuite::new(none, String::new()).total_consumptions(), 0);
    let large = Args {
        num_derived_streams: 65535,
        stream_consumption_concurrency: 65537,
        times_consumption_per_stream: 1,
        ..Args::default()
    };
    assert_eq!(ChangeTrackingSuite::new(large, String::new()).total_consumptions(), u32::MAX);
}

#[test]
fn append_only_run_passes_when_every_sink_matches_the_baseline() {
    let suite = suite(true, false);
    let baseline = SinkStats { rows: 4210, sum: 123456789012 };
    assert!(suite.verify(baseline, &vec![baseline; 5]).is_passed());
    let mut derived = vec![baseline; 5];
    derived[4] = SinkStats { rows: 4209, sum: 123456789012 };
    assert!(!suite.verify(baseline, &derived).is_passed());
    derived[4] = SinkStats { rows: 4210, sum: 123456789011 };
    assert!(!suite.verify(baseline, &derived).is_passed());
}

#[test]
fn full_change_tracking_run_passes_when_every_sink_matches_the_baseline() {
    let suite = suite(false, true);
    let baseline = SinkStats { rows: 10, sum: 55 };
    let report = suite.verify(baseline, &vec![baseline; 3]);
    assert!(report.is_passed());
    let report = suite.verify(baseline, &vec![baseline, SinkStats { rows: 11, sum: 66 }, baseline]);
    assert_eq!(report.violations.len(), 2);
    assert!(report.verdict().is_err());
}
