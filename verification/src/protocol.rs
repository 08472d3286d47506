use vstd::prelude::*;

use crate::failure::FailureKind;

verus! {

/// The phase of one dispatched call, as seen by the dispatching caller.
#[derive(Clone, Copy, Debug, PartialEq, Eq, Structural)]
pub enum Phase {
    /// Nothing dispatched yet.
    Idle,
    /// The worker thread exists and has not been joined.
    Running,
    /// The worker thread terminated and its container was reclaimed, but
    /// the container's type has not been checked yet.
    Reclaimed,
    /// The call delivered a typed result.
    Delivered,
    /// The call failed at the carried stage.
    Failed(FailureKind),
}

/// One observation that the host driver hands back to the call protocol.
#[derive(Clone, Copy, Debug, PartialEq, Eq, Structural)]
pub enum Event {
    /// A worker-thread creation was attempted; carries the host's status.
    Created(i32),
    /// The worker thread was joined; carries the host's status.
    Joined(i32),
    /// The reclaimed container's tag was checked against the expected
    /// type; carries whether it matched.
    Checked(bool),
}

/// The call protocol: which event each phase admits, and the phase that
/// follows it.  `None` is a protocol violation — an event the phase never
/// produces, such as a join before a creation or any event after the call
/// has settled.
pub open spec fn step(p: Phase, e: Event) -> Option<Phase> {
    match (p, e) {
        (Phase::Idle, Event::Created(status)) => Some(
            if status == 0 {
                Phase::Running
            } else {
                Phase::Failed(FailureKind::ThreadCreation)
            },
        ),
        (Phase::Running, Event::Joined(status)) => Some(
            if status == 0 {
                Phase::Reclaimed
            } else {
                Phase::Failed(FailureKind::ThreadJoin)
            },
        ),
        (Phase::Reclaimed, Event::Checked(matched)) => Some(
            if matched {
                Phase::Delivered
            } else {
                Phase::Failed(FailureKind::TypeMismatch)
            },
        ),
        _ => None,
    }
}

/// A phase from which the call admits no further event.
pub open spec fn is_terminal(p: Phase) -> bool {
    p == Phase::Delivered || p is Failed
}

/// Replays a trace of events from phase `p`; `None` as soon as one event
/// violates the protocol.
pub open spec fn run(p: Phase, t: Seq<Event>) -> Option<Phase>
    decreases t.len(),
{
    if t.len() == 0 {
        Some(p)
    } else {
        match step(p, t[0]) {
            Some(q) => run(q, t.drop_first()),
            None => None,
        }
    }
}

/// How many worker-thread creations a trace attempts.
pub open spec fn creations(t: Seq<Event>) -> nat
    decreases t.len(),
{
    if t.len() == 0 {
        0
    } else {
        (if t[0] is Created {
            1nat
        } else {
            0nat
        }) + creations(t.drop_first())
    }
}

/// How many joins a trace attempts.
pub open spec fn joins(t: Seq<Event>) -> nat
    decreases t.len(),
{
    if t.len() == 0 {
        0
    } else {
        (if t[0] is Joined {
            1nat
        } else {
            0nat
        }) + joins(t.drop_first())
    }
}

/// How many type checks a trace performs.
pub open spec fn checks(t: Seq<Event>) -> nat
    decreases t.len(),
{
    if t.len() == 0 {
        0
    } else {
        (if t[0] is Checked {
            1nat
        } else {
            0nat
        }) + checks(t.drop_first())
    }
}

/// The executable protocol step for the host driver.
pub fn advance(p: Phase, e: Event) -> (r: Option<Phase>)
    ensures
        r == step(p, e),
{
    match (p, e) {
        (Phase::Idle, Event::Created(status)) => Some(
            if status == 0 {
                Phase::Running
            } else {
                Phase::Failed(FailureKind::ThreadCreation)
            },
        ),
        (Phase::Running, Event::Joined(status)) => Some(
            if status == 0 {
                Phase::Reclaimed
            } else {
                Phase::Failed(FailureKind::ThreadJoin)
            },
        ),
        (Phase::Reclaimed, Event::Checked(matched)) => Some(
            if matched {
                Phase::Delivered
            } else {
                Phase::Failed(FailureKind::TypeMismatch)
            },
        ),
        _ => None,
    }
}

/// Every complete call — a trace the protocol admits from `Idle` to a
/// terminal phase — attempts exactly one worker-thread creation.  It joins
/// exactly once when the creation succeeded and never when it failed, and
/// it checks the reclaimed container's type exactly once when creation and
/// join both succeeded and never otherwise: no worker is created twice, no
/// worker outlives its join, and no container is consumed twice.
pub proof fn lemma_one_creation_one_join(t: Seq<Event>, end: Phase)
    requires
        run(Phase::Idle, t) == Some(end),
        is_terminal(end),
    ensures
        creations(t) == 1,
        end != Phase::Failed(FailureKind::ThreadCreation) ==> joins(t) == 1,
        end == Phase::Failed(FailureKind::ThreadCreation) ==> joins(t) == 0,
        end == Phase::Delivered || end == Phase::Failed(FailureKind::TypeMismatch) ==> checks(t)
            == 1,
        end == Phase::Failed(FailureKind::ThreadCreation) || end == Phase::Failed(
            FailureKind::ThreadJoin,
        ) ==> checks(t) == 0,
{
    lemma_counts_from(Phase::Idle, t, end);
}

/// The per-phase accounting behind `lemma_one_creation_one_join`: what a
/// trace that the protocol admits from `p` to the terminal phase `end`
/// still has ahead of it.
proof fn lemma_counts_from(p: Phase, t: Seq<Event>, end: Phase)
    requires
        run(p, t) == Some(end),
        is_terminal(end),
    ensures
        p == Phase::Idle ==> creations(t) == 1,
        p != Phase::Idle ==> creations(t) == 0,
        (p == Phase::Idle || p == Phase::Running) && end != Phase::Failed(
            FailureKind::ThreadCreation,
        ) ==> joins(t) == 1,
        is_terminal(p) || end == Phase::Failed(FailureKind::ThreadCreation) ==> joins(t) == 0,
        p == Phase::Reclaimed ==> joins(t) == 0,
        !is_terminal(p) && (end == Phase::Delivered || end == Phase::Failed(
            FailureKind::TypeMismatch,
        )) ==> checks(t) == 1,
        is_terminal(p) || end == Phase::Failed(FailureKind::ThreadCreation) || end
            == Phase::Failed(FailureKind::ThreadJoin) ==> checks(t) == 0,
        is_terminal(p) ==> end == p && t.len() == 0,
    decreases t.len(),
{
    if t.len() == 0 {
    } else {
        let q = step(p, t[0])->Some_0;
        lemma_counts_from(q, t.drop_first(), end);
    }
}

} // verus!
