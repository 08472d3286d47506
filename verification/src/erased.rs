use vstd::prelude::*;

use crate::failure::Failure;
use crate::failure::FailureKind;

verus! {

/// The erased result container: the value a worker thread produced,
/// carried across the thread boundary together with a runtime tag that
/// identifies the value's concrete type.  While the container crosses the
/// boundary it is referenced only through an opaque handle, so the tag is
/// the only type information left; the caller must present the matching
/// tag to get the value back out.
pub struct Erased<T> {
    tag: u64,
    value: T,
}

impl<T> Erased<T> {
    /// The runtime type tag this container was sealed with.
    pub closed spec fn tag(self) -> u64 {
        self.tag
    }

    /// The value this container carries.
    pub closed spec fn value(self) -> T {
        self.value
    }
}

/// The container that sealing `value` under `tag` produces.
pub closed spec fn spec_erase<T>(tag: u64, value: T) -> Erased<T> {
    Erased { tag, value }
}

/// The outcome of presenting `expected` to a container: the carried value
/// when the tag matches, and the type-mismatch failure when it does not.
pub open spec fn spec_recover<T>(expected: u64, e: Erased<T>) -> Result<T, Failure> {
    if e.tag() == expected {
        Ok(e.value())
    } else {
        Err(Failure { kind: FailureKind::TypeMismatch, status: 1i32 })
    }
}

/// Seals `value` into an erased container under the runtime tag `tag`.
pub fn erase<T>(tag: u64, value: T) -> (r: Erased<T>)
    ensures
        r == spec_erase(tag, value),
        r.tag() == tag,
        r.value() == value,
{
    Erased { tag, value }
}

/// Takes the value back out of an erased container, against the tag of
/// the type the caller expects.  Returns the value exactly when the tags
/// match, and the type-mismatch failure otherwise — never a value of an
/// unconfirmed type.
pub fn recover_typed<T>(expected: u64, e: Erased<T>) -> (r: Result<T, Failure>)
    ensures
        r == spec_recover(expected, e),
{
    if e.tag == expected {
        Ok(e.value)
    } else {
        Err(Failure::mismatch())
    }
}

/// Round trip: a value sealed under a tag is recovered unchanged by
/// presenting that same tag.
pub proof fn lemma_erase_recover_round_trip<T>(tag: u64, value: T)
    ensures
        spec_recover(tag, spec_erase(tag, value)) == Ok::<T, Failure>(value),
{
}

/// Presenting a tag other than the one a container was sealed with yields
/// the type-mismatch failure, never a value.
pub proof fn lemma_recover_wrong_tag<T>(expected: u64, e: Erased<T>)
    requires
        e.tag() != expected,
    ensures
        spec_recover(expected, e) == Err::<T, Failure>(
            Failure { kind: FailureKind::TypeMismatch, status: 1i32 },
        ),
{
}

} // verus!
