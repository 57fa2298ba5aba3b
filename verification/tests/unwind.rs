use mybox::unwind::join;
use mybox::unwind::step;
use mybox::unwind::Computation;
use mybox::unwind::Event;
use mybox::unwind::Phase;

#[test]
fn test_raise_starts_unwinding() {
    assert_eq!(step(Phase::Running, Event::Raise), Phase::Unwinding);
}

#[test]
fn test_boundary_recovers_unwinding() {
    assert_eq!(step(Phase::Unwinding, Event::CatchBoundary), Phase::Recovered);
}

#[test]
fn test_destructor_failure_aborts() {
    assert_eq!(step(Phase::Unwinding, Event::DestructorFailure), Phase::Aborted);
}

#[test]
fn test_aborted_is_uncatchable() {
    assert_eq!(step(Phase::Aborted, Event::CatchBoundary), Phase::Aborted);
    assert_eq!(step(Phase::Aborted, Event::Raise), Phase::Aborted);
    assert_eq!(step(Phase::Aborted, Event::DestructorFailure), Phase::Aborted);
}

#[test]
fn test_unwind_cleanup_runs_in_reverse_order() {
    let mut c = Computation::new();
    c.acquire(1);
    c.acquire(2);
    c.raise();
    let (dropped, info) = c.catch_at_boundary();
    assert_eq!(dropped, vec![2, 1]);
    assert!(!info.during_cleanup);
}

#[test]
fn test_join_reports_worker_failure_as_value() {
    let mut joiner = Computation::new();
    joiner.acquire(7);
    let outcome = join(&mut joiner, Phase::Unwinding);
    assert!(outcome.is_err());
}

#[test]
fn test_join_leaves_joiner_running() {
    let mut joiner = Computation::new();
    let failed = join(&mut joiner, Phase::Unwinding);
    assert!(failed.is_err());
    let finished = join(&mut joiner, Phase::Running);
    assert!(finished.is_ok());
    let recovered = join(&mut joiner, Phase::Recovered);
    assert!(recovered.is_ok());
    joiner.acquire(1);
    joiner.raise();
    let (dropped, _info) = joiner.catch_at_boundary();
    assert_eq!(dropped, vec![1]);
}
