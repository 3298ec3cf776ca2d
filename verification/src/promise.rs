//! Promises and futures.
//!
//! - A [`Future`] stands for a value that may only arrive later.
//! - A [`Promise`] is used to complete (fulfil) the future it was made with.
//!
//! A `Future<T>` is in essence an [`Await<T>`] that remembers its value once
//! it has been forced.
use vstd::prelude::*;
use std::sync::mpsc::{RecvError, SyncSender};
use crate::sync::offer;
use crate::{Await, AwaitSend};

verus! {

/// The three states of a [`Future`].
#[verifier::reject_recursive_types(T)]
enum FutureState<T> {
    /// The value is here. Nothing leads out of this state.
    Value(T),
    /// The value has to be awaited first.
    Deferred(Box<dyn AwaitSend<T>>),
    /// The deferred capability has been taken out and is being forced. This
    /// state is entered and left within one call of `resolve`.
    Evaluating,
}

impl<T> FutureState<T> {
    spec fn awaitable(&self) -> bool {
        match self {
            FutureState::Value(_) => true,
            FutureState::Deferred(a) => a.awaitable_send(),
            FutureState::Evaluating => false,
        }
    }

    spec fn yields(&self, value: T) -> bool {
        match self {
            FutureState::Value(v) => value == v,
            FutureState::Deferred(a) => a.yields_send(value),
            FutureState::Evaluating => false,
        }
    }

    /// Moves the state to `Value`, forcing the deferred capability if there is
    /// one.
    fn resolve(&mut self)
        requires
            old(self).awaitable(),
        ensures
            *final(self) matches FutureState::Value(v) && old(self).yields(v),
    {
        let mut state = FutureState::Evaluating;
        core::mem::swap(self, &mut state);
        let v = match state {
            FutureState::Value(v) => v,
            FutureState::Deferred(a) => a.await_send(),
            FutureState::Evaluating => unreached(),
        };
        *self = FutureState::Value(v);
    }
}

/// At some point in time, it will hold a value `T`.
///
/// Its view is the value it holds by now: `Some(v)` once the value is here,
/// `None` while it still has to be awaited.
#[verifier::reject_recursive_types(T)]
pub struct Future<T> {
    inner: FutureState<T>,
}

impl<T> View for Future<T> {
    type V = Option<T>;

    closed spec fn view(&self) -> Option<T> {
        match self.inner {
            FutureState::Value(v) => Some(v),
            _ => None,
        }
    }
}

impl<T> Future<T> {
    /// The future is at rest: it either holds its value or still holds the
    /// capability that will produce it. Every future that this module hands
    /// out is at rest.
    pub closed spec fn wf(&self) -> bool {
        !(self.inner is Evaluating)
    }

    /// `self` holds `value`: it is at rest, may be forced at any time, and
    /// forcing it yields `value` and nothing else.
    pub open spec fn holds(&self, value: T) -> bool {
        &&& self@ == Some(value)
        &&& self.wf()
        &&& self.awaitable()
        &&& forall|other: T| #[trigger] self.yields(other) <==> other == value
    }

    /// `self` still waits, for a capability that behaves like `x`: it may be
    /// forced when `x` may, and yields what `x` yields.
    pub open spec fn defers<A: Await<T>>(&self, x: A) -> bool {
        &&& self@ is None
        &&& self.wf()
        &&& self.awaitable() == x.awaitable()
        &&& forall|value: T| #[trigger] self.yields(value) == x.yields(value)
    }

    /// Creates a future that holds `value` from the start.
    pub fn constant(value: T) -> (f: Self)
        ensures
            f.holds(value),
    {
        Future { inner: FutureState::Value(value) }
    }

    /// Creates a future from anything that can be awaited. Nothing is awaited
    /// yet.
    pub fn deferred<A: Await<T> + 'static + Send>(x: A) -> (f: Self)
        ensures
            f.defers(x),
    {
        Future { inner: FutureState::Deferred(Box::new(x)) }
    }

    /// Returns a reference to the value if it is here, without waiting.
    pub fn poll(&self) -> (r: Option<&T>)
        requires
            self.wf(),
        ensures
            match r {
                Some(v) => self@ == Some(*v),
                None => self@ is None,
            },
    {
        match &self.inner {
            FutureState::Value(v) => Some(v),
            FutureState::Deferred(_) => None,
            FutureState::Evaluating => unreached(),
        }
    }

    /// Returns a reference to the value, and waits for it first if it is not
    /// here yet. From then on the future holds the value.
    pub fn value(&mut self) -> (r: &T)
        requires
            old(self).awaitable(),
        ensures
            old(self).yields(*r),
            final(self).holds(*r),
            old(self)@ is Some ==> final(self)@ == old(self)@,
    {
        self.inner.resolve();
        match &self.inner {
            FutureState::Value(v) => v,
            _ => unreached(),
        }
    }
}

/// A future whose value is here holds it: it is at rest, can be forced, and
/// yields that value and no other. What it was made from no longer matters.
pub proof fn lemma_value_is_held<T>(f: Future<T>, value: T)
    requires
        f@ == Some(value),
    ensures
        f.holds(value),
{
}

/// Forcing a future that holds `value` gives `value`. That is so for one made
/// with `constant(value)`, and for one that was forced before and returned
/// `value`: forcing twice gives the same value twice.
pub proof fn lemma_held_value_is_forced<T>(f: Future<T>, value: T, forced: T)
    requires
        f.holds(value),
        f.yields(forced),
    ensures
        forced == value,
{
}

/// Forcing a future that was made with `deferred(x)` gives what forcing `x`
/// gives: if `x` can only yield `value`, so can the future.
pub proof fn lemma_deferred_is_forced<T, A: Await<T>>(f: Future<T>, x: A, value: T, forced: T)
    requires
        f.defers(x),
        x.awaitable(),
        forall|other: T| x.yields(other) ==> other == value,
        f.yields(forced),
    ensures
        f.awaitable(),
        forced == value,
{
}

/// A future that can be forced is at rest, and so is one that yields
/// anything.
pub proof fn lemma_awaitable_is_at_rest<T>(f: Future<T>)
    ensures
        f.awaitable() ==> f.wf(),
        forall|value: T| f.yields(value) ==> f.wf(),
{
}

impl<T> Await<T> for Future<T> {
    closed spec fn awaitable(&self) -> bool {
        self.inner.awaitable()
    }

    closed spec fn yields(&self, value: T) -> bool {
        self.inner.yields(value)
    }

    fn force(self) -> (value: T)
        ensures
            self@ is Some ==> self@ == Some(value),
    {
        match self.inner {
            FutureState::Value(v) => v,
            FutureState::Deferred(a) => a.await_send(),
            FutureState::Evaluating => unreached(),
        }
    }
}

/// Signals that every [`Promise`] of a future was dropped before any of them
/// was fulfilled.
#[derive(Debug, Clone, Copy, PartialEq, Eq)]
pub struct PromiseDroppedError;

/// What the future of a promise makes of what its channel handed over: the
/// value that was sent, or [`PromiseDroppedError`] when no sender is left.
pub fn settle<T>(received: Result<T, RecvError>) -> (settled: Result<T, PromiseDroppedError>)
    ensures
        match received {
            Ok(value) => settled == Ok::<T, PromiseDroppedError>(value),
            Err(_) => settled == Err::<T, PromiseDroppedError>(PromiseDroppedError),
        },
{
    match received {
        Ok(value) => Ok(value),
        Err(_) => Err(PromiseDroppedError),
    }
}

impl<T: 'static + Send> Future<Result<T, PromiseDroppedError>> {
    /// Creates a future together with the promise that completes it.
    ///
    /// The two are joined by a channel that holds one value. Forcing the
    /// future blocks until a promise has delivered a value or every promise
    /// is gone, and then gives `Ok` of that value or
    /// `Err(PromiseDroppedError)`.
    pub fn new() -> (pair: (Future<Result<T, PromiseDroppedError>>, Promise<T>))
        ensures
            pair.0@ is None,
            pair.0.wf(),
            pair.0.awaitable(),
    {
        let (tx, rx) = std::sync::mpsc::sync_channel(1);
        let promise = Promise { tx };
        let waiting = move || -> (settled: Result<T, PromiseDroppedError>) { settle(rx.recv()) };
        proof {
            crate::lemma_callable(waiting);
        }
        let future = Future::deferred(waiting);
        (future, promise)
    }
}

/// Used to fulfil a promise, in other words to complete its [`Future`].
///
/// A promise is owned by one thread, and can be cloned to hand it to others:
/// all clones share the one slot of the channel.
#[verifier::reject_recursive_types(T)]
pub struct Promise<T> {
    tx: SyncSender<T>,
}

impl<T> Clone for Promise<T> {
    /// Another handle to the same promise.
    fn clone(&self) -> (other: Self) {
        Promise { tx: self.tx.clone() }
    }
}

impl<T> Promise<T> {
    /// Fulfils the promise. A promise can be used only once.
    ///
    /// Returns `None` if the value was delivered. If it was not, because the
    /// future is gone or another clone of the promise was first, the value
    /// comes back as `Some(value)`. The call never blocks.
    pub fn set(self, value: T) -> (back: Option<T>)
        ensures
            back matches Some(v) ==> v == value,
    {
        offer(&self.tx, value).handed_back()
    }
}

/// What comes back from a success that was not delivered: the value inside
/// the result that `set` handed back, and `None` if `set` handed nothing back.
///
/// What `set` hands back is what it was given, so for a success it is never
/// an `Err`.
pub fn undelivered_ok<T, E>(back: Option<Result<T, E>>) -> (value: Option<T>)
    requires
        back matches Some(result) ==> result is Ok,
    ensures
        value == match back {
            Some(Ok(v)) => Some(v),
            _ => None,
        },
{
    match back {
        Some(Ok(v)) => Some(v),
        Some(Err(_)) => unreached(),
        None => None,
    }
}

/// What comes back from a failure that was not delivered: the error inside
/// the result that `set` handed back, and `None` if `set` handed nothing back.
///
/// What `set` hands back is what it was given, so for a failure it is never
/// an `Ok`.
pub fn undelivered_err<T, E>(back: Option<Result<T, E>>) -> (err: Option<E>)
    requires
        back matches Some(result) ==> result is Err,
    ensures
        err == match back {
            Some(Err(e)) => Some(e),
            _ => None,
        },
{
    match back {
        Some(Err(e)) => Some(e),
        Some(Ok(_)) => unreached(),
        None => None,
    }
}

impl<T, E> Promise<Result<T, E>> {
    /// Delivers a successful result: `set` with `Ok(value)`.
    ///
    /// Whether the result is delivered is up to the channel, as for `set`. If
    /// it is not, `value` comes back.
    pub fn success(self, value: T) -> (back: Option<T>)
        ensures
            back matches Some(v) ==> v == value,
    {
        undelivered_ok(self.set(Ok(value)))
    }

    /// Delivers a failure: `set` with `Err(err)`.
    ///
    /// Whether the result is delivered is up to the channel, as for `set`. If
    /// it is not, `err` comes back.
    pub fn fail_with(self, err: E) -> (back: Option<E>)
        ensures
            back matches Some(e) ==> e == err,
    {
        undelivered_err(self.set(Err(err)))
    }
}

} // verus!
