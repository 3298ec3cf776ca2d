//! Helper functions that compose capabilities: one after the other
//! ([`await_all`]) or against each other ([`race`]).
use vstd::prelude::*;
use std::sync::mpsc::{Receiver, Sender};
use crate::sync::send;
use crate::{Await, AwaitBox};

verus! {

/// Runs `a` on the current thread and does not return until its result is
/// ready.
///
/// Whether the thread blocks meanwhile depends on `a` alone.
pub fn run_synchronously<T, A: Await<T>>(a: A) -> (value: T)
    requires
        a.awaitable(),
    ensures
        a.yields(value),
{
    a.force()
}

/// A list of capabilities, awaited as one: in the order of the list, each to
/// its end before the next begins. The results come in the same order.
pub struct AwaitAll<A>(pub Vec<A>);

impl<T, A: Await<T>> Await<Vec<T>> for AwaitAll<A> {
    open spec fn awaitable(&self) -> bool {
        forall|i: int| 0 <= i < self.0@.len() ==> (#[trigger] self.0@[i]).awaitable()
    }

    open spec fn yields(&self, values: Vec<T>) -> bool {
        &&& values@.len() == self.0@.len()
        &&& forall|i: int| 0 <= i < self.0@.len() ==> self.0@[i].yields(#[trigger] values@[i])
    }

    fn force(self) -> (values: Vec<T>) {
        let mut values: Vec<T> = Vec::new();
        for x in it: self.0
            invariant
                forall|i: int| 0 <= i < it.seq().len() ==> (#[trigger] it.seq()[i]).awaitable(),
                values@.len() == it.index(),
                forall|i: int| 0 <= i < it.index() ==> it.seq()[i].yields(#[trigger] values@[i]),
        {
            let value = x.force();
            values.push(value);
        }
        values
    }
}

/// The results of a list come in the order of the list, whatever order the
/// capabilities complete in: if the capability at each place can only yield
/// the value of `expected` at that place, the list can only yield `expected`.
pub proof fn lemma_results_in_input_order<T, A: Await<T>>(
    xs: Vec<A>,
    expected: Seq<T>,
    values: Vec<T>,
)
    requires
        expected.len() == xs@.len(),
        forall|i: int, value: T|
            0 <= i < xs@.len() && (#[trigger] xs@[i].yields(value)) ==> value == expected[i],
        AwaitAll(xs).yields(values),
    ensures
        values@ == expected,
{
    assert forall|i: int| 0 <= i < expected.len() implies values@[i] == expected[i] by {
        assert(xs@[i].yields(values@[i]));
    }
    assert(values@ =~= expected);
}

/// Returns a capability that awaits all of `xs` and produces their results,
/// in the order of `xs`. The call itself returns at once.
pub fn await_all<T, A: Await<T> + 'static>(xs: Vec<A>) -> (all: Box<dyn AwaitBox<Vec<T>>>)
    ensures
        all.awaitable() == AwaitAll(xs).awaitable(),
        forall|values: Vec<T>| #[trigger] (*all).yields_box(values) == AwaitAll(xs).yields(values),
{
    let all: Box<dyn AwaitBox<Vec<T>>> = Box::new(AwaitAll(xs));
    return all;
}

/// [`await_all`] for a list of boxed capabilities.
pub fn await_all_box<T: 'static>(xs: Vec<Box<dyn AwaitBox<T>>>) -> (all: Box<dyn AwaitBox<Vec<T>>>)
    ensures
        all.awaitable() == AwaitAll(xs).awaitable(),
        forall|values: Vec<T>| #[trigger] (*all).yields_box(values) == AwaitAll(xs).yields(values),
{
    let all: Box<dyn AwaitBox<Vec<T>>> = Box::new(AwaitAll(xs));
    return all;
}

/// One contestant of a race: a capability, and the sender through which it
/// reports its result to the finish.
#[verifier::reject_recursive_types(T)]
pub struct Racer<T, A> {
    x: A,
    tx: Sender<T>,
}

impl<T, A> Racer<T, A> {
    /// The capability that this contestant runs.
    pub closed spec fn capability(&self) -> A {
        self.x
    }
}

/// A contestant is awaited by forcing its capability and reporting the
/// result. What comes back is `None` when the result was reported, and the
/// result itself when nobody is left at the finish to receive it.
impl<T, A: Await<T>> Await<Option<T>> for Racer<T, A> {
    open spec fn awaitable(&self) -> bool {
        self.capability().awaitable()
    }

    open spec fn yields(&self, back: Option<T>) -> bool {
        back matches Some(value) ==> self.capability().yields(value)
    }

    fn force(self) -> (back: Option<T>) {
        let value = self.x.force();
        send(&self.tx, value)
    }
}

/// Sets up a race between `xs`: returns one contestant for each of them, in the
/// order of `xs`, and the finish, which receives what the contestants report.
///
/// Nothing runs yet. The contestants are meant to be awaited each on a thread
/// of its own; whoever then awaits the finish gets the first result that was
/// reported, and an error if every contestant is gone without a report. Which
/// result is the first depends on how the threads are scheduled.
pub fn race<T, A: Await<T>>(xs: Vec<A>) -> (start: (Vec<Racer<T, A>>, Receiver<T>))
    ensures
        start.0@.len() == xs@.len(),
        forall|i: int| 0 <= i < xs@.len() ==> (#[trigger] start.0@[i]).capability() == xs@[i],
{
    let (tx, rx) = std::sync::mpsc::channel();
    let mut racers: Vec<Racer<T, A>> = Vec::new();
    for x in it: xs
        invariant
            racers@.len() == it.index(),
            forall|i: int| 0 <= i < it.index() ==> (#[trigger] racers@[i]).capability() == it.seq()[i],
    {
        racers.push(Racer { x, tx: tx.clone() });
    }
    (racers, rx)
}

} // verus!
