//! The sync exception context: one exception, thrown once and let out once,
//! with the status moving forward through
//! `NoException -> Throwing -> Thrown -> Moved`.
use vstd::prelude::*;

use crate::outcome::{settle, spec_settle, Poll};

verus! {

/// Where a sync context stands. `Throwing` is held between reserving the
/// exception slot and publishing the exception into it; only `Thrown`
/// holds an exception.
#[derive(Debug, PartialEq, Eq, Structural)]
pub enum ThrowState<E> {
    NoException,
    Throwing,
    Thrown(E),
    Moved,
}

impl<E> ThrowState<E> {
    /// How far the status has moved.
    pub open spec fn rank(self) -> nat {
        match self {
            ThrowState::NoException => 0,
            ThrowState::Throwing => 1,
            ThrowState::Thrown(_) => 2,
            ThrowState::Moved => 3,
        }
    }

    /// The compare-exchange from `NoException` to `Throwing`: it succeeds only
    /// from `NoException`, and changes nothing otherwise.
    pub open spec fn reserved(self) -> (Self, bool) {
        match self {
            ThrowState::NoException => (ThrowState::Throwing, true),
            _ => (self, false),
        }
    }

    /// The exception is written into the reserved slot.
    pub open spec fn published(self, e: E) -> Self
        recommends
            self is Throwing,
    {
        ThrowState::Thrown(e)
    }

    /// The compare-exchange from `Thrown` to `Moved`, which moves the exception
    /// out; from any other status nothing changes and nothing comes out.
    pub open spec fn taken(self) -> (Self, Option<E>) {
        match self {
            ThrowState::Thrown(e) => (ThrowState::Moved, Some(e)),
            _ => (self, None),
        }
    }

    /// After the inner poll, the catching poll tries to take the exception and
    /// decides its own output.
    pub open spec fn settled<T>(self, inner: Poll<T>) -> (Self, Poll<Result<T, E>>) {
        (self.taken().0, spec_settle(inner, self.taken().1))
    }
}

/// What a sync context holds: where its throw stands, and whether a catch
/// has been begun on it.
pub struct SyncState<E> {
    pub status: ThrowState<E>,
    pub caught: bool,
}

impl<E> SyncState<E> {
    /// The state of a fresh context.
    pub open spec fn initial() -> Self {
        SyncState { status: ThrowState::NoException, caught: false }
    }

    /// The same context with another status.
    pub open spec fn with_status(self, status: ThrowState<E>) -> Self {
        SyncState { status, caught: self.caught }
    }

    /// The first half of a throw: the compare-exchange to `Throwing`.
    pub open spec fn reserved(self) -> (Self, bool) {
        (self.with_status(self.status.reserved().0), self.status.reserved().1)
    }

    /// The second half of a throw: the exception is written.
    pub open spec fn published(self, e: E) -> Self {
        self.with_status(self.status.published(e))
    }

    /// A whole throw: reserve, then publish. When the reservation is refused
    /// nothing changes and the exception is handed back.
    pub open spec fn thrown(self, e: E) -> (Self, Option<E>) {
        if self.status is NoException {
            (self.published(e), None)
        } else {
            (self, Some(e))
        }
    }

    /// Takes the exception out if it was published and not yet taken.
    pub open spec fn taken(self) -> (Self, Option<E>) {
        (self.with_status(self.status.taken().0), self.status.taken().1)
    }

    /// The catching poll's step after the inner poll.
    pub open spec fn settled<T>(self, inner: Poll<T>) -> (Self, Poll<Result<T, E>>) {
        (self.with_status(self.status.settled(inner).0), self.status.settled(inner).1)
    }

    /// A catch begins: allowed only once per context.
    pub open spec fn catch_begun(self) -> (Self, bool) {
        (SyncState { status: self.status, caught: true }, !self.caught)
    }

    /// One step of the context, and whether it was accepted.
    pub open spec fn step(self, op: SyncStep<E>) -> (Self, bool) {
        match op {
            SyncStep::Reserve => self.reserved(),
            SyncStep::Publish(e) => if self.status is Throwing {
                (self.published(e), true)
            } else {
                (self, false)
            },
            SyncStep::Throw(e) => (self.thrown(e).0, self.thrown(e).1 is None),
            SyncStep::Take => (self.taken().0, self.taken().1 is Some),
            SyncStep::BeginCatch => self.catch_begun(),
        }
    }
}

/// The steps a sync context takes. A catching poll's settling step is `Take`.
/// `Publish` is only ever taken on a context that is `Throwing` (its
/// precondition); elsewhere it is not accepted.
pub enum SyncStep<E> {
    Reserve,
    Publish(E),
    Throw(E),
    Take,
    BeginCatch,
}

/// The context after a sequence of steps.
pub open spec fn run<E>(s: SyncState<E>, ops: Seq<SyncStep<E>>) -> SyncState<E>
    decreases ops.len(),
{
    if ops.len() == 0 {
        s
    } else {
        run(s.step(ops[0]).0, ops.drop_first())
    }
}

/// How many throws (whole, or first halves) a sequence of steps accepted.
pub open spec fn accepted_throws<E>(s: SyncState<E>, ops: Seq<SyncStep<E>>) -> nat
    decreases ops.len(),
{
    if ops.len() == 0 {
        0
    } else {
        let counted: nat = match ops[0] {
            SyncStep::Reserve => if s.step(ops[0]).1 { 1 } else { 0 },
            SyncStep::Throw(_) => if s.step(ops[0]).1 { 1 } else { 0 },
            _ => 0,
        };
        counted + accepted_throws(s.step(ops[0]).0, ops.drop_first())
    }
}

/// How many catches a sequence of steps accepted.
pub open spec fn accepted_catches<E>(s: SyncState<E>, ops: Seq<SyncStep<E>>) -> nat
    decreases ops.len(),
{
    if ops.len() == 0 {
        0
    } else {
        let counted: nat = match ops[0] {
            SyncStep::BeginCatch => if s.step(ops[0]).1 { 1 } else { 0 },
            _ => 0,
        };
        counted + accepted_catches(s.step(ops[0]).0, ops.drop_first())
    }
}

/// `ExceptionContext` provides the context for throwing and catching exception.
///
/// Each context serves one catch and one throw: `begin_catch` refuses a second
/// catch and `throw` a second throw (the callers panic there). A throw may also
/// be taken in two halves, `reserve_throw` and then `publish_exception`; a
/// catching poll calls `settle_catch` after polling the inner computation.
pub struct ExceptionContext<E> {
    state: ThrowState<E>,
    caught: bool,
}

impl<E> View for ExceptionContext<E> {
    type V = SyncState<E>;

    closed spec fn view(&self) -> SyncState<E> {
        SyncState { status: self.state, caught: self.caught }
    }
}

impl<E> Default for ExceptionContext<E> {
    fn default() -> (ctx: Self)
        ensures
            ctx@ == SyncState::<E>::initial(),
            ctx@.status is NoException,
            !ctx@.caught,
    {
        Self::new()
    }
}

impl<E> ExceptionContext<E> {
    /// Create a new exception context.
    pub fn new() -> (ctx: Self)
        ensures
            ctx@ == SyncState::<E>::initial(),
            ctx@.status is NoException,
            !ctx@.caught,
    {
        ExceptionContext { state: ThrowState::NoException, caught: false }
    }

    /// Begins the one catch of this context. Returns `false`, and changes
    /// nothing, when a catch was already begun on it (the caller panics there).
    pub fn begin_catch(&mut self) -> (begun: bool)
        ensures
            (final(self)@, begun) == old(self)@.catch_begun(),
            begun == !old(self)@.caught,
            final(self)@.caught,
            final(self)@.status == old(self)@.status,
    {
        if self.caught {
            false
        } else {
            self.caught = true;
            true
        }
    }

    /// Throws an exception: reserves the slot and writes the exception into
    /// it. When an exception was already thrown on this context, nothing
    /// changes and the exception is handed back (the caller panics there).
    pub fn throw(&mut self, exception: E) -> (refused: Option<E>)
        ensures
            (final(self)@, refused) == old(self)@.thrown(exception),
            final(self)@.caught == old(self)@.caught,
            old(self)@.status is NoException ==> refused is None && final(self)@.status
                == ThrowState::Thrown(exception),
            !(old(self)@.status is NoException) ==> refused == Some(exception) && final(self)@
                == old(self)@,
    {
        if self.reserve_throw() {
            self.publish_exception(exception);
            None
        } else {
            Some(exception)
        }
    }

    /// First half of a throw: claims the exception slot. Returns `false`, and
    /// changes nothing, when an exception was already thrown on this context.
    pub fn reserve_throw(&mut self) -> (reserved: bool)
        ensures
            (final(self)@, reserved) == old(self)@.reserved(),
            final(self)@.caught == old(self)@.caught,
            reserved <==> old(self)@.status is NoException,
            reserved ==> final(self)@.status is Throwing,
            !reserved ==> final(self)@ == old(self)@,
    {
        match self.state {
            ThrowState::NoException => {
                self.state = ThrowState::Throwing;
                true
            },
            _ => false,
        }
    }

    /// Second half of a throw: writes the exception into the claimed slot.
    pub fn publish_exception(&mut self, exception: E)
        requires
            old(self)@.status is Throwing,
        ensures
            final(self)@ == old(self)@.published(exception),
            final(self)@.status == ThrowState::Thrown(exception),
            final(self)@.caught == old(self)@.caught,
    {
        self.state = ThrowState::Thrown(exception);
    }

    /// Moves the exception out if it has been published and not yet taken.
    pub fn try_take_exception(&mut self) -> (taken: Option<E>)
        ensures
            (final(self)@, taken) == old(self)@.taken(),
            final(self)@.caught == old(self)@.caught,
            old(self)@.status matches ThrowState::Thrown(e) ==> taken == Some(e)
                && final(self)@.status is Moved,
            !(old(self)@.status is Thrown) ==> taken is None && final(self)@ == old(self)@,
    {
        let mut current = ThrowState::Moved;
        core::mem::swap(&mut current, &mut self.state);
        match current {
            ThrowState::Thrown(e) => Some(e),
            other => {
                self.state = other;
                None
            },
        }
    }

    /// After the inner poll: takes the exception, if one was published, and
    /// gives the catching poll's output.
    pub fn settle_catch<T>(&mut self, inner: Poll<T>) -> (out: Poll<Result<T, E>>)
        ensures
            (final(self)@, out) == old(self)@.settled(inner),
            final(self)@.caught == old(self)@.caught,
            old(self)@.status matches ThrowState::Thrown(e) ==> out
                == Poll::<Result<T, E>>::Ready(Err(e)) && final(self)@.status is Moved,
            !(old(self)@.status is Thrown) ==> final(self)@ == old(self)@,
            !(old(self)@.status is Thrown) ==> (inner matches Poll::Ready(v) ==> out
                == Poll::<Result<T, E>>::Ready(Ok(v))),
            !(old(self)@.status is Thrown) ==> (inner is Pending ==> out is Pending),
    {
        let exception = self.try_take_exception();
        settle(inner, exception)
    }
}

/// Over any sequence of steps, the status only moves forward along
/// `NoException -> Throwing -> Thrown -> Moved`, a begun catch stays begun,
/// at most one throw is accepted (none once one was), and at most one catch is
/// accepted (none once one was begun).
pub proof fn lemma_run_moves_forward<E>(s: SyncState<E>, ops: Seq<SyncStep<E>>)
    ensures
        run(s, ops).status.rank() >= s.status.rank(),
        s.caught ==> run(s, ops).caught,
        accepted_throws(s, ops) <= (if s.status is NoException { 1nat } else { 0nat }),
        accepted_catches(s, ops) <= (if s.caught { 0nat } else { 1nat }),
    decreases ops.len(),
{
    if ops.len() > 0 {
        lemma_run_moves_forward(s.step(ops[0]).0, ops.drop_first());
    }
}

/// A catching poll that finds no published exception leaves the context as
/// it was; so a catch whose inner computation is pending first and throws on
/// a later poll still has its throw accepted, and outputs it as `Err` then.
pub proof fn lemma_pending_poll_keeps_throw_open<E, T>(s: SyncState<E>, inner: Poll<T>, e: E)
    ensures
        !(s.status is Thrown) ==> s.settled(inner).0 == s,
        s.status is NoException ==> s.settled(inner).0.thrown(e).1 is None,
        s.status is NoException ==> s.settled(inner).0.thrown(e).0.settled(inner).1
            == Poll::<Result<T, E>>::Ready(Err(e)),
        s.status is NoException ==> s.settled(inner).0.thrown(e).0.settled(inner).0.status
            is Moved,
{
}

/// The steps of a throw, a take and a catch change exactly what they say: a
/// reservation only from `NoException`, to `Throwing`; a publish to
/// `Thrown(e)`; a take only from `Thrown(e)`, to `Moved`, handing `e` out;
/// throw and take never touch the catch marker.
pub proof fn lemma_steps_change_what_they_say<E, T>(s: SyncState<E>, e: E, inner: Poll<T>)
    ensures
        s.reserved().1 <==> s.status is NoException,
        s.reserved().1 ==> s.reserved().0 == (SyncState { status: ThrowState::<E>::Throwing, caught: s.caught }),
        !s.reserved().1 ==> s.reserved().0 == s,
        s.published(e) == (SyncState { status: ThrowState::Thrown(e), caught: s.caught }),
        s.status matches ThrowState::Thrown(x) ==> s.taken() == (
            SyncState { status: ThrowState::<E>::Moved, caught: s.caught },
            Some(x),
        ),
        !(s.status is Thrown) ==> s.taken() == (s, None::<E>),
        s.thrown(e).0.caught == s.caught,
        s.settled(inner).0.caught == s.caught,
{
}

/// A context serves one catch: the first catch is accepted, and once one has
/// been begun every later catch is refused and changes nothing.
pub proof fn lemma_catch_at_most_once<E>(s: SyncState<E>)
    ensures
        s.catch_begun().1 <==> !s.caught,
        s.catch_begun().0.caught,
        !s.catch_begun().0.catch_begun().1,
        s.caught ==> s.catch_begun().0 == s,
{
}

/// A whole throw on a context that was not thrown on is accepted and is what
/// the catch outputs, as `Err`; a second throw is refused, changes nothing and
/// hands its exception back.
pub proof fn lemma_whole_throw_is_caught<E, T>(s: SyncState<E>, e: E, e2: E, inner: Poll<T>)
    requires
        s.status is NoException,
    ensures
        s.thrown(e).1 is None,
        s.thrown(e).0.thrown(e2) == (s.thrown(e).0, Some(e2)),
        s.thrown(e).0.settled(inner) == (
            s.with_status(ThrowState::<E>::Moved),
            Poll::<Result<T, E>>::Ready(Err(e)),
        ),
{
}

/// The status only moves forward: no step of a context takes it back.
pub proof fn lemma_status_never_regresses<E, T>(s: ThrowState<E>, e: E, inner: Poll<T>)
    ensures
        s.reserved().0.rank() >= s.rank(),
        s is Throwing ==> s.published(e).rank() > s.rank(),
        s.taken().0.rank() >= s.rank(),
        s.settled(inner).0.rank() >= s.rank(),
{
}

/// A context takes one throw: a reservation succeeds only on a fresh context,
/// and once it has succeeded, or an exception was published or moved out,
/// every later reservation is refused.
pub proof fn lemma_throw_at_most_once<E>(s: ThrowState<E>, e: E)
    ensures
        s.reserved().1 <==> s is NoException,
        !s.reserved().0.reserved().1,
        s is Throwing ==> !s.published(e).reserved().1,
        s.rank() > 0 ==> !s.taken().0.reserved().1,
{
}

/// A throw on a fresh context is what the catch outputs, as `Err`, whatever
/// the inner poll gave; the exception has then moved out of the context.
pub proof fn lemma_thrown_is_caught<E, T>(s: ThrowState<E>, e: E, inner: Poll<T>)
    requires
        s is NoException,
    ensures
        s.reserved().1,
        s.reserved().0.published(e).settled(inner) == (
            ThrowState::<E>::Moved,
            Poll::<Result<T, E>>::Ready(Err(e)),
        ),
{
}

/// While a throw holds the slot reserved, no other step changes the context:
/// a second reservation, a take or a catching poll leave it `Throwing`, so the
/// throw that reserved the slot is the one that fills it.
pub proof fn lemma_throwing_held_until_published<E, T>(s: ThrowState<E>, inner: Poll<T>)
    requires
        s is Throwing,
    ensures
        s.reserved() == (s, false),
        s.taken() == (s, None::<E>),
        s.settled(inner) == (s, spec_settle(inner, None::<E>)),
{
}

/// The exception comes out at most once: after a take, another take gives
/// nothing.
pub proof fn lemma_taken_once<E>(s: ThrowState<E>)
    ensures
        s.taken().0.taken().1 is None,
{
}

/// Without a published exception, a catch passes the inner poll on and the
/// context is unchanged.
pub proof fn lemma_no_exception_passes_through<E, T>(s: ThrowState<E>, inner: Poll<T>)
    requires
        !(s is Thrown),
    ensures
        s.settled(inner).0 == s,
        inner matches Poll::Ready(v) ==> s.settled(inner).1 == Poll::<Result<T, E>>::Ready(Ok(v)),
        inner is Pending ==> s.settled(inner).1 == Poll::<Result<T, E>>::Pending,
{
}

} // verus!
