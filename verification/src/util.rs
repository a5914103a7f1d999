use vstd::prelude::*;

verus! {

/// Returns the value of a result that is known to be `Ok`.
///
/// `msg` says what was expected of the result; an `Err` is ruled out by the
/// precondition, so the message is never shown.
pub fn expect_display<T, E>(result: Result<T, E>, msg: &str) -> (t: T)
    requires
        result is Ok,
    ensures
        t == result->Ok_0,
{
    match result {
        Ok(t) => t,
        Err(_) => vstd::pervasive::unreached(),
    }
}

} // verus!
