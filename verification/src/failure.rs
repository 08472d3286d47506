use vstd::prelude::*;

use crate::digits::signed_decimal_rep;
use crate::digits::signed_decimal_string;

verus! {

/// The stage of a dispatched call at which a failure arose.
#[derive(Clone, Copy, Debug, PartialEq, Eq, Structural)]
pub enum FailureKind {
    /// The host could not create the worker thread.
    ThreadCreation,
    /// The host could not join the worker thread after dispatch.
    ThreadJoin,
    /// The value recovered from the worker does not have the expected type.
    TypeMismatch,
}

/// A structured failure: the stage that failed, together with the numeric
/// status carried out of that stage.  For the two thread stages the status
/// is the host's own non-zero status for the call; a type mismatch always
/// carries 1.
#[derive(Clone, Copy, Debug, PartialEq, Eq, Structural)]
pub struct Failure {
    pub kind: FailureKind,
    pub status: i32,
}

/// The numeric code a failure reports outward: the magnitude of the
/// carried status.
pub open spec fn status_code(status: i32) -> u32 {
    if status < 0 {
        (-(status as int)) as u32
    } else {
        status as u32
    }
}

impl Failure {
    /// The failure reported when the worker thread cannot be created;
    /// `status` is the host's non-zero status for the attempt.
    pub fn creation(status: i32) -> (r: Failure)
        ensures
            r == (Failure { kind: FailureKind::ThreadCreation, status }),
    {
        Failure { kind: FailureKind::ThreadCreation, status }
    }

    /// The failure reported when the worker thread cannot be joined;
    /// `status` is the host's non-zero status for the join.
    pub fn join_loss(status: i32) -> (r: Failure)
        ensures
            r == (Failure { kind: FailureKind::ThreadJoin, status }),
    {
        Failure { kind: FailureKind::ThreadJoin, status }
    }

    /// The failure reported when the recovered result has the wrong type.
    pub fn mismatch() -> (r: Failure)
        ensures
            r == (Failure { kind: FailureKind::TypeMismatch, status: 1i32 }),
    {
        Failure { kind: FailureKind::TypeMismatch, status: 1 }
    }

    /// The numeric code this failure reports outward: the magnitude of the
    /// carried status; total, also at the smallest `i32`.
    pub fn code(&self) -> (r: u32)
        ensures
            r == status_code(self.status),
    {
        if self.status >= 0 {
            self.status as u32
        } else {
            let wide: i64 = self.status as i64;
            (-wide) as u32
        }
    }

    /// The human-readable description of this failure: the failed stage,
    /// and for the two thread stages the carried status in decimal.
    pub open spec fn spec_message(self) -> Seq<char> {
        match self.kind {
            FailureKind::ThreadCreation => "Failed to create thread: "@ + signed_decimal_rep(
                self.status as int,
            ),
            FailureKind::ThreadJoin => "Failed to join thread: "@ + signed_decimal_rep(
                self.status as int,
            ),
            FailureKind::TypeMismatch => "Type mismatch in thread result"@,
        }
    }

    /// Renders the human-readable description of this failure.
    pub fn message(&self) -> (r: String)
        ensures
            r@ == self.spec_message(),
    {
        match self.kind {
            FailureKind::ThreadCreation => {
                let mut r = String::from_str("Failed to create thread: ");
                r.append(signed_decimal_string(self.status).as_str());
                proof {
                    assert(r@ =~= self.spec_message());
                }
                r
            },
            FailureKind::ThreadJoin => {
                let mut r = String::from_str("Failed to join thread: ");
                r.append(signed_decimal_string(self.status).as_str());
                proof {
                    assert(r@ =~= self.spec_message());
                }
                r
            },
            FailureKind::TypeMismatch => String::from_str("Type mismatch in thread result"),
        }
    }
}

} // verus!
