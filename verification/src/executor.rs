use vstd::prelude::*;

use crate::erased::Erased;
use crate::erased::erase;
use crate::erased::recover_typed;
use crate::failure::Failure;
use crate::failure::FailureKind;

verus! {

/// The worker thread's half of the generic executor: run the reclaimed
/// unit of work and seal its result into an erased container under `tag`,
/// the runtime tag of the operation's result type.  The container is what
/// the worker leaves behind as its exit value.
pub fn worker_execute<T, F: FnOnce() -> T>(tag: u64, op: F) -> (r: Erased<T>)
    requires
        call_requires(op, ()),
    ensures
        r.tag() == tag,
        call_ensures(op, (), r.value()),
{
    let value = op();
    erase(tag, value)
}

/// The caller's half of the generic executor, with the host thread
/// interface abstracted out: the host driver attempts to create the worker
/// thread and, when that succeeded, joins it, and hands the two status
/// codes in here.  For every combination of statuses this fixes what the
/// call delivers:
///
/// - a non-zero creation status fails the call at the creation stage, the
///   unit of work never runs, and no join is attempted (`join_status` is
///   ignored);
/// - a non-zero join status fails the call at the join stage;
/// - with both stages clean, the result sealed under `tag` is recovered
///   against `expected`, the tag of the result type the caller awaits: a
///   mismatch fails the call at the type-check stage, and a match delivers
///   the operation's own result.
///
/// A unit of work that panics tears the worker thread down and is
/// unsupported: the executor neither catches nor reports it, which is why
/// the operation's precondition is required up front.
pub fn run_outcome<T, F: FnOnce() -> T>(
    create_status: i32,
    join_status: i32,
    expected: u64,
    tag: u64,
    op: F,
) -> (r: Result<T, Failure>)
    requires
        call_requires(op, ()),
    ensures
        create_status != 0 ==> r == Err::<T, Failure>(
            Failure { kind: FailureKind::ThreadCreation, status: create_status },
        ),
        create_status == 0 && join_status != 0 ==> r == Err::<T, Failure>(
            Failure { kind: FailureKind::ThreadJoin, status: join_status },
        ),
        create_status == 0 && join_status == 0 && tag != expected ==> r == Err::<T, Failure>(
            Failure { kind: FailureKind::TypeMismatch, status: 1i32 },
        ),
        create_status == 0 && join_status == 0 && tag == expected ==> r is Ok && call_ensures(
            op,
            (),
            r->Ok_0,
        ),
{
    if create_status != 0 {
        return Err(Failure::creation(create_status));
    }
    let sealed = worker_execute(tag, op);
    if join_status != 0 {
        return Err(Failure::join_loss(join_status));
    }
    recover_typed(expected, sealed)
}

} // verus!
