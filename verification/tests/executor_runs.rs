use wamr_rust_pthreadcall::erased::erase;
use wamr_rust_pthreadcall::erased::recover_typed;
use wamr_rust_pthreadcall::executor::run_outcome;
use wamr_rust_pthreadcall::executor::worker_execute;
use wamr_rust_pthreadcall::failure::Failure;
use wamr_rust_pthreadcall::failure::FailureKind;

#[test]
fn clean_run_delivers_fixed_value() {
    let r = run_outcome(0, 0, 1, 1, || 42i32);
    assert_eq!(r, Ok(42));
}

#[test]
fn clean_run_delivers_inner_error_as_value() {
    let r = run_outcome(0, 0, 1, 1, || -> Result<i32, String> { Err("boom".into()) });
    assert_eq!(r, Ok(Err("boom".to_string())));
}

#[test]
fn creation_failure_surfaces_simulated_status() {
    let r = run_outcome(11, 0, 1, 1, || 0i32);
    assert_eq!(r, Err(Failure { kind: FailureKind::ThreadCreation, status: 11 }));
}

#[test]
fn join_failure_surfaces_simulated_status() {
    let r = run_outcome(0, -5, 1, 1, || 0i32);
    assert_eq!(r, Err(Failure { kind: FailureKind::ThreadJoin, status: -5 }));
}

#[test]
fn tag_mismatch_fails_the_run() {
    let r = run_outcome(0, 0, 2, 3, || 0i32);
    assert_eq!(r, Err(Failure { kind: FailureKind::TypeMismatch, status: 1 }));
}

#[test]
fn erase_recover_round_trip() {
    let sealed = erase(9, vec![1u8, 2, 3]);
    assert_eq!(recover_typed(9, sealed), Ok(vec![1u8, 2, 3]));
}

#[test]
fn recover_against_wrong_tag_never_yields_value() {
    let sealed = erase(9, vec![1u8, 2, 3]);
    assert_eq!(
        recover_typed(8, sealed),
        Err(Failure { kind: FailureKind::TypeMismatch, status: 1 })
    );
}

#[test]
fn worker_seals_result_under_given_tag() {
    let sealed = worker_execute(77, || String::from("done"));
    assert_eq!(recover_typed(77, sealed), Ok(String::from("done")));
}
