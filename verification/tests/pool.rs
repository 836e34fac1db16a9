use stress_suite::pool::{join_all, tally_fits, JoinOutcome, WorkerFault};

#[test]
fn joining_no_workers_gives_zero() {
    assert_eq!(join_all(&vec![]), Ok(0));
}

#[test]
fn joining_adds_up_the_tallies() {
    let outcomes =
        vec![JoinOutcome::Finished(3), JoinOutcome::Finished(0), JoinOutcome::Finished(10)];
    assert_eq!(join_all(&outcomes), Ok(13));
}

#[test]
fn joining_idle_workers_gives_zero() {
    let outcomes = vec![JoinOutcome::Finished(0); 15];
    assert_eq!(join_all(&outcomes), Ok(0));
}

#[test]
fn a_failed_worker_fails_the_join() {
    let outcomes = vec![JoinOutcome::Finished(3), JoinOutcome::Failed, JoinOutcome::Finished(10)];
    assert_eq!(join_all(&outcomes), Err(WorkerFault { worker: 1, outcome: JoinOutcome::Failed }));
}

#[test]
fn an_aborted_worker_fails_the_join() {
    let outcomes = vec![JoinOutcome::Aborted, JoinOutcome::Finished(10)];
    assert_eq!(join_all(&outcomes), Err(WorkerFault { worker: 0, outcome: JoinOutcome::Aborted }));
}

#[test]
fn the_first_fault_is_named() {
    let outcomes = vec![
        JoinOutcome::Finished(1),
        JoinOutcome::Finished(2),
        JoinOutcome::Aborted,
        JoinOutcome::Failed,
    ];
    assert_eq!(join_all(&outcomes), Err(WorkerFault { worker: 2, outcome: JoinOutcome::Aborted }));
}

#[test]
fn tally_fits_up_to_the_limit() {
    assert!(tally_fits(&vec![]));
    assert!(tally_fits(&vec![JoinOutcome::Finished(u32::MAX)]));
    assert!(tally_fits(&vec![JoinOutcome::Finished(u32::MAX - 1), JoinOutcome::Finished(1)]));
    assert!(tally_fits(&vec![JoinOutcome::Finished(u32::MAX), JoinOutcome::Failed]));
    assert_eq!(
        join_all(&vec![JoinOutcome::Finished(u32::MAX - 1), JoinOutcome::Finished(1)]),
        Ok(u32::MAX)
    );
}

#[test]
fn tally_does_not_fit_beyond_the_limit() {
    assert!(!tally_fits(&vec![JoinOutcome::Finished(u32::MAX), JoinOutcome::Finished(1)]));
    assert!(!tally_fits(&vec![
        JoinOutcome::Finished(u32::MAX / 2 + 1),
        JoinOutcome::Aborted,
        JoinOutcome::Finished(u32::MAX / 2 + 1),
    ]));
}

#[test]
fn the_tally_is_bounded_by_the_plan() {
    let iterations = 10;
    let outcomes = vec![
        JoinOutcome::Finished(10),
        JoinOutcome::Finished(0),
        JoinOutcome::Finished(7),
        JoinOutcome::Finished(10),
    ];
    let total = join_all(&outcomes).unwrap();
    assert_eq!(total, 27);
    assert!(total <= outcomes.len() as u32 * iterations);
}
