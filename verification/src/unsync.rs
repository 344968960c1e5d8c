//! The unsync exception context: a counter of running catching polls and a
//! slot for the exception thrown while one of them runs.
use vstd::prelude::*;

use crate::outcome::{settle, spec_settle, Poll};

verus! {

/// What an unsync context holds: how many catching polls are running on it
/// (nested catches each count one), and the exception thrown and not yet
/// taken, if any.
pub struct ContextState<E> {
    pub depth: nat,
    pub exception: Option<E>,
}

impl<E> ContextState<E> {
    /// The state of a fresh context.
    pub open spec fn initial() -> Self {
        ContextState { depth: 0, exception: None }
    }

    /// A catching poll starts.
    pub open spec fn entered(self) -> Self {
        ContextState { depth: self.depth + 1, exception: self.exception }
    }

    /// A catching poll ends.
    pub open spec fn exited(self) -> Self {
        ContextState { depth: (self.depth - 1) as nat, exception: self.exception }
    }

    /// An exception is recorded; it replaces one that was not yet taken.
    pub open spec fn thrown(self, e: E) -> Self {
        ContextState { depth: self.depth, exception: Some(e) }
    }

    /// After the inner poll, the catching poll takes the exception out of the
    /// context and decides its own output.
    pub open spec fn settled<T>(self, inner: Poll<T>) -> (Self, Poll<Result<T, E>>) {
        (ContextState { depth: self.depth, exception: None }, spec_settle(inner, self.exception))
    }
}

/// `ExceptionContext` provides the context for throwing and catching exception.
///
/// A catching poll runs `enter_catch`, polls the inner computation (during
/// which `throw` may be called), then `settle_catch` and `exit_catch`.
pub struct ExceptionContext<E> {
    catch_cnt: usize,
    exception: Option<E>,
}

impl<E> View for ExceptionContext<E> {
    type V = ContextState<E>;

    closed spec fn view(&self) -> ContextState<E> {
        ContextState { depth: self.catch_cnt as nat, exception: self.exception }
    }
}

impl<E> Default for ExceptionContext<E> {
    fn default() -> (ctx: Self)
        ensures
            ctx@ == ContextState::<E>::initial(),
            ctx@.depth == 0,
            ctx@.exception is None,
    {
        Self::new()
    }
}

/// Records `exception` in the context, whether or not a catch is running.
pub fn set_exception<E>(ctx: &mut ExceptionContext<E>, exception: E)
    ensures
        final(ctx)@ == old(ctx)@.thrown(exception),
        final(ctx)@.depth == old(ctx)@.depth,
        final(ctx)@.exception == Some(exception),
{
    ctx.exception = Some(exception);
}

impl<E> ExceptionContext<E> {
    /// Create a new exception context.
    pub fn new() -> (ctx: Self)
        ensures
            ctx@ == ContextState::<E>::initial(),
            ctx@.depth == 0,
            ctx@.exception is None,
    {
        ExceptionContext { catch_cnt: 0, exception: None }
    }

    /// The number of catching polls running on this context.
    pub fn catch_depth(&self) -> (depth: usize)
        ensures
            depth == self@.depth,
    {
        self.catch_cnt
    }

    /// Throws an exception: records it for the innermost running catch.
    /// Throwing outside of any catch is refused (the caller panics there).
    pub fn throw(&mut self, exception: E)
        requires
            old(self)@.depth > 0,
        ensures
            final(self)@ == old(self)@.thrown(exception),
            final(self)@.depth == old(self)@.depth,
            final(self)@.exception == Some(exception),
    {
        set_exception(self, exception);
    }

    /// A catching poll starts: one more catch is running.
    pub fn enter_catch(&mut self)
        requires
            old(self)@.depth < usize::MAX,
        ensures
            final(self)@ == old(self)@.entered(),
            final(self)@.depth == old(self)@.depth + 1,
            final(self)@.exception == old(self)@.exception,
    {
        self.catch_cnt = self.catch_cnt + 1;
    }

    /// After the inner poll: takes the exception, if one was thrown, and gives
    /// the catching poll's output.
    pub fn settle_catch<T>(&mut self, inner: Poll<T>) -> (out: Poll<Result<T, E>>)
        ensures
            (final(self)@, out) == old(self)@.settled(inner),
            final(self)@.depth == old(self)@.depth,
            final(self)@.exception is None,
            old(self)@.exception matches Some(e) ==> out == Poll::<Result<T, E>>::Ready(Err(e)),
            old(self)@.exception is None ==> (inner matches Poll::Ready(v) ==> out
                == Poll::<Result<T, E>>::Ready(Ok(v))),
            old(self)@.exception is None ==> (inner is Pending ==> out is Pending),
    {
        let exception = self.exception.take();
        settle(inner, exception)
    }

    /// A catching poll ends: one catch fewer is running.
    pub fn exit_catch(&mut self)
        requires
            old(self)@.depth > 0,
        ensures
            final(self)@ == old(self)@.exited(),
            final(self)@.depth + 1 == old(self)@.depth,
            final(self)@.exception == old(self)@.exception,
    {
        self.catch_cnt = self.catch_cnt - 1;
    }
}

/// An exception thrown while a catch runs is what that catch outputs, as
/// `Err`, whatever the inner poll gave, and the context is left without it.
pub proof fn lemma_thrown_is_caught<E, T>(s: ContextState<E>, e: E, inner: Poll<T>)
    ensures
        s.thrown(e).settled(inner) == (
            ContextState { depth: s.depth, exception: None::<E> },
            Poll::<Result<T, E>>::Ready(Err(e)),
        ),
{
}

/// Without a thrown exception, a catch passes the inner poll on: a value as
/// `Ok`, and not-ready as not-ready; the context is unchanged.
pub proof fn lemma_no_exception_passes_through<E, T>(s: ContextState<E>, inner: Poll<T>)
    requires
        s.exception is None,
    ensures
        s.settled(inner).0 == s,
        inner matches Poll::Ready(v) ==> s.settled(inner).1 == Poll::<Result<T, E>>::Ready(Ok(v)),
        inner is Pending ==> s.settled(inner).1 == Poll::<Result<T, E>>::Pending,
{
}

/// A whole catching poll, with or without a throw in it, leaves the context as
/// deep as before and without an exception; so catch can be used again and
/// again on one context, and nested catches do not disturb the outer one.
pub proof fn lemma_catch_round_restores<E, T>(s: ContextState<E>, thrown: Option<E>, inner: Poll<T>)
    ensures
        ({
            let during = match thrown {
                Some(e) => s.entered().thrown(e),
                None => s.entered(),
            };
            during.settled(inner).0.exited()
        }) == (ContextState { depth: s.depth, exception: None::<E> }),
{
}

/// Entering a catch counts exactly one more running catch and touches
/// nothing else; leaving one counts exactly one fewer; leaving undoes entering.
pub proof fn lemma_enter_counts_one<E>(s: ContextState<E>)
    ensures
        s.entered().depth == s.depth + 1,
        s.entered().exception == s.exception,
        s.entered().depth > 0,
        s.entered().exited() == s,
        s.depth > 0 ==> s.exited().depth + 1 == s.depth,
        s.depth > 0 ==> s.exited().exception == s.exception,
        s.depth > 0 ==> s.exited().entered() == s,
{
}

/// The context after entering `n` nested catches.
pub open spec fn entered_times<E>(s: ContextState<E>, n: nat) -> ContextState<E>
    decreases n,
{
    if n == 0 {
        s
    } else {
        entered_times(s, (n - 1) as nat).entered()
    }
}

/// Inside `n` nested catches the context counts `n` more running catches, so
/// a throw in the innermost one is accepted (depth above zero) and is what
/// that innermost catch outputs, as `Err`; leaving it gives back the context
/// inside `n - 1` catches, without an exception.
pub proof fn lemma_nested_catches<E, T>(s: ContextState<E>, n: nat, e: E, inner: Poll<T>)
    requires
        n > 0,
    ensures
        entered_times(s, n).depth == s.depth + n,
        entered_times(s, n).depth > 0,
        entered_times(s, n).thrown(e).settled(inner).1 == Poll::<Result<T, E>>::Ready(Err(e)),
        entered_times(s, n).thrown(e).settled(inner).0.exited() == (ContextState {
            depth: (s.depth + n - 1) as nat,
            exception: None::<E>,
        }),
    decreases n,
{
    if n > 1 {
        lemma_nested_catches(s, (n - 1) as nat, e, inner);
    } else {
        assert(entered_times(s, 0) == s);
    }
}

/// A throw records exactly the thrown exception and keeps the count of
/// running catches.
pub proof fn lemma_throw_records<E>(s: ContextState<E>, e: E)
    ensures
        s.thrown(e).depth == s.depth,
        s.thrown(e).exception == Some(e),
{
}

/// A later throw replaces an exception that was not taken yet.
pub proof fn lemma_latest_throw_wins<E>(s: ContextState<E>, e1: E, e2: E)
    ensures
        s.thrown(e1).thrown(e2) == s.thrown(e2),
{
}

} // verus!
