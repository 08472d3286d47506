use vstd::prelude::*;

use crate::failure::Failure;
use crate::failure::FailureKind;

verus! {

/// The typed invocation adapter's decision core, with the host thread
/// interface abstracted out as in `executor::run_outcome`.  The adapter
/// binds an already-constructed callable, its execution context and its
/// argument list into the zero-argument unit of work `work`; because the
/// result type is fixed and known on both sides of the thread boundary, no
/// erasure and no runtime type check are needed.
///
/// - a non-zero creation status fails the call at the creation stage and
///   the unit of work never runs (`join_status` is ignored);
/// - a non-zero join status fails the call at the join stage;
/// - with both stages clean, the call delivers exactly what invoking the
///   callable synchronously would have produced.
pub fn invoke_outcome<T, F: FnOnce() -> T>(create_status: i32, join_status: i32, work: F) -> (r:
    Result<T, Failure>)
    requires
        call_requires(work, ()),
    ensures
        create_status != 0 ==> r == Err::<T, Failure>(
            Failure { kind: FailureKind::ThreadCreation, status: create_status },
        ),
        create_status == 0 && join_status != 0 ==> r == Err::<T, Failure>(
            Failure { kind: FailureKind::ThreadJoin, status: join_status },
        ),
        create_status == 0 && join_status == 0 ==> r is Ok && call_ensures(work, (), r->Ok_0),
{
    if create_status != 0 {
        return Err(Failure::creation(create_status));
    }
    let value = work();
    if join_status != 0 {
        return Err(Failure::join_loss(join_status));
    }
    Ok(value)
}

} // verus!
