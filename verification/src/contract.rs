//! The contract's entry points, and what it means for a call to be carried out.

use crate::env::State;
use crate::types::ErrorCode;
use vstd::prelude::*;

verus! {

/// The anchor registry. Its entry points are grouped by purpose in the other
/// modules of the crate; each one takes the environment of the call.
pub struct AnchorKitContract;

/// A call is refused with `refusal`, and then changes nothing, or it succeeds
/// and leaves the state `effect`.
pub open spec fn carried_out<T>(
    r: Result<T, ErrorCode>,
    before: State,
    after: State,
    refusal: Option<ErrorCode>,
    effect: State,
) -> bool {
    match refusal {
        Some(e) => r == Err::<T, ErrorCode>(e) && after == before,
        None => r is Ok && after == effect,
    }
}

/// The first of two reasons to refuse a call.
pub open spec fn first_of(a: Option<ErrorCode>, b: Option<ErrorCode>) -> Option<ErrorCode> {
    match a {
        Some(_) => a,
        None => b,
    }
}

/// A reason to refuse a call, if `condition` does not hold.
pub open spec fn unless(condition: bool, e: ErrorCode) -> Option<ErrorCode> {
    if condition {
        None
    } else {
        Some(e)
    }
}

/// A refused call fails with the reason for the refusal and changes nothing; any other
/// call succeeds and leaves its effect.
pub proof fn calls_are_refused_or_carried_out<T>(
    r: Result<T, ErrorCode>,
    before: State,
    after: State,
    refusal: Option<ErrorCode>,
    effect: State,
)
    requires
        carried_out(r, before, after, refusal, effect),
    ensures
        r is Err <==> refusal is Some,
        r matches Err(e) ==> refusal == Some(e) && after == before,
        r is Ok ==> after == effect,
{
}

/// Of two reasons to refuse a call the first one counts, and the second one only
/// without it. A reason holds exactly if its condition does not.
pub proof fn first_reason_counts(
    a: Option<ErrorCode>,
    b: Option<ErrorCode>,
    condition: bool,
    e: ErrorCode,
)
    ensures
        a is Some ==> first_of(a, b) == a,
        a is None ==> first_of(a, b) == b,
        condition <==> unless(condition, e) is None,
        !condition ==> unless(condition, e) == Some(e),
{
}

} // verus!
