//! Core primitives for building asynchronous code.
//!
//! Everything here revolves around one capability: a value of a type that
//! implements [`Await`] can be driven to completion, once, and then hands over
//! its result. Closures, boxed capabilities, channel endpoints and
//! [`promise::Future`] all share it.
//!
//! Each capability describes itself with two predicates: `awaitable` says when
//! it may be forced, and `yields` says which results forcing it may produce.
//! A capability whose result no contract can pin down (a channel endpoint, for
//! instance) simply yields any result.
use vstd::prelude::*;

pub mod combinators;
pub mod constant;
pub mod io;
pub mod promise;
pub mod sync;

verus! {

/// Something that we may have to wait for before it hands over a `T`.
pub trait Await<T> {
    /// Whether `self` may be forced. Unless an implementation says otherwise,
    /// it always may.
    open spec fn awaitable(&self) -> bool {
        true
    }

    /// Whether forcing `self` may produce `value`. Unless an implementation
    /// says otherwise, it may produce any value.
    open spec fn yields(&self, value: T) -> bool {
        true
    }

    /// Consumes `self` and returns its value as soon as it is ready.
    ///
    /// The call may block the calling thread for as long as the capability
    /// takes; what it returns is one of the values that `self` yields.
    fn force(self) -> (value: T)
        requires
            self.awaitable(),
        ensures
            self.yields(value),
    ;
}

/// The same capability as [`Await`], for values that live behind a `Box`.
///
/// Where one would like to store a `Box<dyn Await<T>>`, store a
/// `Box<dyn AwaitBox<T>>`: a method that consumes `self` cannot be called
/// through an unsized box, one that consumes `Box<Self>` can. Every type that
/// implements [`Await`] implements this trait as well, and the box itself
/// implements [`Await`] again.
pub trait AwaitBox<T> {
    /// Whether the boxed capability may be forced.
    open spec fn awaitable_box(&self) -> bool {
        true
    }

    /// Whether forcing the boxed capability may produce `value`.
    open spec fn yields_box(&self, value: T) -> bool {
        true
    }

    /// Consumes the box and returns the value of what it holds.
    fn await_box(self: Box<Self>) -> (value: T)
        requires
            self.awaitable_box(),
        ensures
            self.yields_box(value),
    ;
}

/// Whatever can be awaited can be awaited from inside a box.
impl<T, A: Await<T>> AwaitBox<T> for A {
    open spec fn awaitable_box(&self) -> bool {
        self.awaitable()
    }

    open spec fn yields_box(&self, value: T) -> bool {
        self.yields(value)
    }

    fn await_box(self: Box<Self>) -> (value: T) {
        (*self).force()
    }
}

/// A boxed capability is awaited by awaiting what is in the box.
impl<'a, T> Await<T> for Box<dyn AwaitBox<T> + 'a> {
    open spec fn awaitable(&self) -> bool {
        (**self).awaitable_box()
    }

    open spec fn yields(&self, value: T) -> bool {
        (**self).yields_box(value)
    }

    fn force(self) -> (value: T) {
        self.await_box()
    }
}

/// A boxed capability as a type of its own, for the places where a plain
/// `Box<dyn AwaitBox<T>>` cannot stand, such as the result of a trait's method.
#[verifier::reject_recursive_types(T)]
pub struct Boxed<T>(pub Box<dyn AwaitBox<T>>);

impl<T> Boxed<T> {
    /// Boxes `a`.
    pub fn new<A: Await<T> + 'static>(a: A) -> (boxed: Self)
        ensures
            boxed.awaitable() == a.awaitable(),
            forall|value: T| #[trigger] boxed.yields(value) == a.yields(value),
    {
        Boxed(Box::new(a))
    }
}

impl<T> Await<T> for Boxed<T> {
    open spec fn awaitable(&self) -> bool {
        self.0.awaitable_box()
    }

    open spec fn yields(&self, value: T) -> bool {
        self.0.yields_box(value)
    }

    fn force(self) -> (value: T) {
        self.0.await_box()
    }
}

/// [`AwaitBox`] for capabilities that may be handed to another thread.
///
/// A `Box<dyn AwaitSend<T>>` is `Send`, which a `Box<dyn AwaitBox<T>>` is not.
/// Every `Send` type that implements [`Await`] implements this trait, and the
/// box implements [`Await`] again.
pub trait AwaitSend<T>: Send {
    /// Whether the boxed capability may be forced.
    open spec fn awaitable_send(&self) -> bool {
        true
    }

    /// Whether forcing the boxed capability may produce `value`.
    open spec fn yields_send(&self, value: T) -> bool {
        true
    }

    /// Consumes the box and returns the value of what it holds.
    fn await_send(self: Box<Self>) -> (value: T)
        requires
            self.awaitable_send(),
        ensures
            self.yields_send(value),
    ;
}

/// Whatever can be awaited and sent can be awaited from inside a box.
impl<T, A: Await<T> + Send> AwaitSend<T> for A {
    open spec fn awaitable_send(&self) -> bool {
        self.awaitable()
    }

    open spec fn yields_send(&self, value: T) -> bool {
        self.yields(value)
    }

    fn await_send(self: Box<Self>) -> (value: T) {
        (*self).force()
    }
}

/// A boxed capability is awaited by awaiting what is in the box.
impl<'a, T> Await<T> for Box<dyn AwaitSend<T> + 'a> {
    open spec fn awaitable(&self) -> bool {
        (**self).awaitable_send()
    }

    open spec fn yields(&self, value: T) -> bool {
        (**self).yields_send(value)
    }

    fn force(self) -> (value: T) {
        self.await_send()
    }
}

/// A callable without arguments is awaited by calling it, once.
impl<T, F: FnOnce() -> T> Await<T> for F {
    open spec fn awaitable(&self) -> bool {
        call_requires(*self, ())
    }

    open spec fn yields(&self, value: T) -> bool {
        call_ensures(*self, (), value)
    }

    fn force(self) -> (value: T) {
        self()
    }
}

/// For a callable, `awaitable` is its precondition and `yields` its
/// postcondition.
///
/// Code that is generic over the callable sees this by itself; code that holds
/// one particular closure calls this lemma on it.
pub proof fn lemma_callable<T, F: FnOnce() -> T>(f: F)
    ensures
        f.awaitable() == call_requires(f, ()),
        forall|value: T| #[trigger] f.yields(value) == call_ensures(f, (), value),
{
}

} // verus!
