use wamr_rust_pthreadcall::adapter::invoke_outcome;
use wamr_rust_pthreadcall::failure::Failure;
use wamr_rust_pthreadcall::failure::FailureKind;

struct Context {
    base: i64,
}

fn callable(ctx: &Context, params: &[i64]) -> Vec<i64> {
    let mut out = vec![ctx.base];
    out.extend_from_slice(params);
    out
}

#[test]
fn adapter_matches_synchronous_call() {
    let ctx = Context { base: 40 };
    let params: Vec<i64> = vec![];
    let direct = callable(&ctx, &params);
    let r = invoke_outcome(0, 0, || callable(&ctx, &params));
    assert_eq!(r, Ok(direct));
}

#[test]
fn adapter_creation_failure() {
    let ctx = Context { base: 1 };
    let r = invoke_outcome(12, 0, || callable(&ctx, &[]));
    assert_eq!(r, Err(Failure { kind: FailureKind::ThreadCreation, status: 12 }));
}

#[test]
fn adapter_join_failure() {
    let ctx = Context { base: 1 };
    let r = invoke_outcome(0, 22, || callable(&ctx, &[]));
    assert_eq!(r, Err(Failure { kind: FailureKind::ThreadJoin, status: 22 }));
}
