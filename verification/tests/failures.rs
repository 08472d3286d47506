use wamr_rust_pthreadcall::failure::Failure;
use wamr_rust_pthreadcall::failure::FailureKind;

#[test]
fn creation_failure_keeps_status() {
    let f = Failure::creation(11);
    assert_eq!(f.kind, FailureKind::ThreadCreation);
    assert_eq!(f.status, 11);
    assert_eq!(f.code(), 11);
    assert_eq!(f.message(), "Failed to create thread: 11");
}

#[test]
fn creation_failure_negative_status() {
    let f = Failure::creation(-7);
    assert_eq!(f.kind, FailureKind::ThreadCreation);
    assert_eq!(f.status, -7);
    assert_eq!(f.code(), 7);
    assert_eq!(f.message(), "Failed to create thread: -7");
}

#[test]
fn creation_failure_smallest_status() {
    let f = Failure::creation(i32::MIN);
    assert_eq!(f.code(), 2147483648);
    assert_eq!(f.message(), "Failed to create thread: -2147483648");
}

#[test]
fn join_failure_keeps_status() {
    let f = Failure::join_loss(3);
    assert_eq!(f.kind, FailureKind::ThreadJoin);
    assert_eq!(f.status, 3);
    assert_eq!(f.code(), 3);
    assert_eq!(f.message(), "Failed to join thread: 3");
}

#[test]
fn mismatch_failure_carries_one() {
    let f = Failure::mismatch();
    assert_eq!(f.kind, FailureKind::TypeMismatch);
    assert_eq!(f.status, 1);
    assert_eq!(f.code(), 1);
    assert_eq!(f.message(), "Type mismatch in thread result");
}
