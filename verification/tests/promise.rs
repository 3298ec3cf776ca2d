use rust_await::constant::AwaitValue;
use rust_await::promise::{
    settle, undelivered_err, undelivered_ok, Future, Promise, PromiseDroppedError,
};
use rust_await::sync::Offer;
use rust_await::Await;
use std::sync::atomic::{AtomicUsize, Ordering};
use std::sync::mpsc::RecvError;
use std::sync::Arc;

#[test]
fn present() {
    let x = Future::constant(8);
    assert_eq!(8, x.force());
}

#[test]
fn deferred() {
    let x = Future::deferred(Future::constant(8));
    assert_eq!(8, x.force());
}

#[test]
fn constant_is_polled_without_waiting() {
    let x = Future::constant(8);
    assert_eq!(Some(&8), x.poll());
    assert_eq!(Some(&8), x.poll());
}

#[test]
fn constant_forced_twice_gives_the_same_value() {
    let mut x = Future::constant(String::from("v"));
    assert_eq!("v", x.value());
    assert_eq!("v", x.value());
    assert_eq!(Some(&String::from("v")), x.poll());
    assert_eq!("v", x.force());
}

#[test]
fn deferred_is_pending_until_forced() {
    let mut x = Future::deferred(AwaitValue(8));
    assert_eq!(None, x.poll());
    assert_eq!(8, *x.value());
    assert_eq!(Some(&8), x.poll());
}

#[test]
fn deferred_gives_what_its_capability_gives() {
    assert_eq!(8, Future::deferred(|| 8).force());
    assert_eq!(8, Future::deferred(AwaitValue(8)).force());
    assert_eq!(8, *Future::deferred(|| 5 + 3).value());
}

#[test]
fn deferred_is_lazy() {
    let calls = Arc::new(AtomicUsize::new(0));
    let seen = calls.clone();
    let x = Future::deferred(move || seen.fetch_add(1, Ordering::SeqCst));
    assert_eq!(0, calls.load(Ordering::SeqCst));
    assert_eq!(None, x.poll());
    assert_eq!(0, calls.load(Ordering::SeqCst));
    drop(x);
    assert_eq!(0, calls.load(Ordering::SeqCst));
}

#[test]
fn value_forces_the_capability_only_once() {
    let calls = Arc::new(AtomicUsize::new(0));
    let seen = calls.clone();
    let mut x = Future::deferred(move || {
        seen.fetch_add(1, Ordering::SeqCst);
        8
    });
    assert_eq!(8, *x.value());
    assert_eq!(8, *x.value());
    assert_eq!(Some(&8), x.poll());
    assert_eq!(8, x.force());
    assert_eq!(1, calls.load(Ordering::SeqCst));
}

#[test]
fn promise_set_before_force() {
    let (future, promise) = Future::new();
    assert_eq!(None, promise.set(8));
    assert_eq!(Ok(8), future.force());
}

#[test]
fn promise_set_before_value_is_kept() {
    let (mut future, promise) = Future::new();
    assert_eq!(None, future.poll());
    assert_eq!(None, promise.set(8));
    assert_eq!(None, future.poll());
    assert_eq!(&Ok(8), future.value());
    assert_eq!(&Ok(8), future.value());
    assert_eq!(Some(&Ok(8)), future.poll());
}

#[test]
fn promise_dropped_before_force() {
    let (future, promise) = Future::<Result<u32, PromiseDroppedError>>::new();
    drop(promise);
    assert_eq!(Err(PromiseDroppedError), future.force());
}

#[test]
fn all_clones_dropped_before_force() {
    let (future, promise) = Future::<Result<u32, PromiseDroppedError>>::new();
    let second = promise.clone();
    let third = second.clone();
    drop(promise);
    drop(second);
    drop(third);
    assert_eq!(Err(PromiseDroppedError), future.force());
}

#[test]
fn clone_fulfils_after_the_others_were_dropped() {
    let (future, promise) = Future::new();
    let other = promise.clone();
    drop(promise);
    assert_eq!(None, other.set(8));
    assert_eq!(Ok(8), future.force());
}

#[test]
fn set_after_the_future_is_gone_hands_the_value_back() {
    let (future, promise) = Future::new();
    drop(future);
    assert_eq!(Some(8), promise.set(8));
}

#[test]
fn racing_clones_deliver_exactly_once() {
    let (future, promise) = Future::new();
    let clones: Vec<Promise<u32>> = (0..4).map(|_| promise.clone()).collect();
    drop(promise);
    let mut delivered = 0;
    for (i, clone) in clones.into_iter().enumerate() {
        let value = 10 + i as u32;
        match clone.set(value) {
            None => delivered += 1,
            Some(back) => assert_eq!(value, back),
        }
    }
    assert_eq!(1, delivered);
    assert_eq!(Ok(10), future.force());
}

#[test]
fn set_after_the_future_was_forced_is_not_delivered() {
    let (mut future, promise) = Future::new();
    let late = promise.clone();
    assert_eq!(None, promise.set(8));
    assert_eq!(&Ok(8), future.value());
    assert_eq!(Some(9), late.set(9));
    assert_eq!(&Ok(8), future.value());
}

#[test]
fn future_of_a_promise_crosses_a_deferred() {
    let (future, promise) = Future::new();
    let outer = Future::deferred(future);
    assert_eq!(None, promise.set(8));
    assert_eq!(Ok(8), outer.force());
}

#[test]
fn success_delivers_ok() {
    let (future, promise) = Future::<Result<Result<u32, String>, PromiseDroppedError>>::new();
    assert_eq!(None, promise.success(8));
    assert_eq!(Ok(Ok(8)), future.force());
}

#[test]
fn fail_with_delivers_err() {
    let (future, promise) = Future::<Result<Result<u32, String>, PromiseDroppedError>>::new();
    assert_eq!(None, promise.fail_with(String::from("broken")));
    assert_eq!(Ok(Err(String::from("broken"))), future.force());
}

#[test]
fn success_and_fail_with_hand_back_what_was_not_delivered() {
    let (future, promise) = Future::<Result<Result<u32, String>, PromiseDroppedError>>::new();
    let other = promise.clone();
    drop(future);
    assert_eq!(Some(8), promise.success(8));
    assert_eq!(Some(String::from("broken")), other.fail_with(String::from("broken")));
}

#[test]
fn handed_back_for_each_offer() {
    assert_eq!(None, Offer::<u32>::Taken.handed_back());
    assert_eq!(Some(8), Offer::Full(8).handed_back());
    assert_eq!(Some(9), Offer::Disconnected(9).handed_back());
}

#[test]
fn settle_maps_a_disconnect_to_promise_dropped() {
    assert_eq!(Ok(8), settle(Ok(8)));
    assert_eq!(Err(PromiseDroppedError), settle::<u32>(Err(RecvError)));
}

#[test]
fn undelivered_ok_unwraps_what_came_back() {
    assert_eq!(None, undelivered_ok::<u32, String>(None));
    assert_eq!(Some(8), undelivered_ok::<u32, String>(Some(Ok(8))));
}

#[test]
fn undelivered_err_unwraps_what_came_back() {
    assert_eq!(None, undelivered_err::<u32, String>(None));
    assert_eq!(
        Some(String::from("broken")),
        undelivered_err::<u32, String>(Some(Err(String::from("broken"))))
    );
}

fn is_send<T: Send>(_: &T) {}

#[test]
fn both_halves_can_be_handed_to_other_threads() {
    let (future, promise) = Future::<Result<u32, PromiseDroppedError>>::new();
    is_send(&future);
    is_send(&promise);
    is_send(&Future::deferred(|| 8));
    assert_eq!(None, promise.set(8));
    assert_eq!(Ok(8), future.force());
}
