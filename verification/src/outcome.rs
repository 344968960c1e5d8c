//! The poll result shared by both contexts, and how a catching poll turns the
//! inner poll and a taken exception into its own output.
use vstd::prelude::*;

verus! {

/// The state of a polled computation: finished with a value, or not yet.
#[derive(Debug, PartialEq, Eq, Structural)]
pub enum Poll<T> {
    Ready(T),
    Pending,
}

/// What a catching poll outputs: a taken exception wins over whatever the
/// inner poll gave; otherwise the inner result is passed on, wrapped in `Ok`.
pub open spec fn spec_settle<T, E>(inner: Poll<T>, exception: Option<E>) -> Poll<Result<T, E>> {
    match exception {
        Some(e) => Poll::Ready(Err(e)),
        None => match inner {
            Poll::Ready(v) => Poll::Ready(Ok(v)),
            Poll::Pending => Poll::Pending,
        },
    }
}

/// Combines the inner poll with the exception taken from the context.
pub fn settle<T, E>(inner: Poll<T>, exception: Option<E>) -> (out: Poll<Result<T, E>>)
    ensures
        out == spec_settle(inner, exception),
        exception matches Some(e) ==> out == Poll::<Result<T, E>>::Ready(Err(e)),
        exception is None ==> (inner matches Poll::Ready(v) ==> out == Poll::<Result<T, E>>::Ready(Ok(v))),
        exception is None ==> (inner is Pending ==> out is Pending),
{
    match exception {
        Some(e) => Poll::Ready(Err(e)),
        None => match inner {
            Poll::Ready(v) => Poll::Ready(Ok(v)),
            Poll::Pending => Poll::Pending,
        },
    }
}

} // verus!
