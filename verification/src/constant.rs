//! For when an [`Await`] is asked for and there is nothing to wait for.
use vstd::prelude::*;
use crate::Await;

verus! {

/// No waiting: the value is already here.
pub struct AwaitValue<T>(pub T);

impl<T> Await<T> for AwaitValue<T> {
    open spec fn awaitable(&self) -> bool {
        true
    }

    open spec fn yields(&self, value: T) -> bool {
        value == self.0
    }

    fn force(self) -> (value: T) {
        self.0
    }
}

} // verus!
