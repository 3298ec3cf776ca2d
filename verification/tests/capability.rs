use rust_await::constant::AwaitValue;
use rust_await::{Await, AwaitBox, AwaitSend, Boxed};
use std::sync::mpsc::{channel, sync_channel, RecvError};
use std::sync::Barrier;

#[test]
fn await_fn() {
    let x = || 8;
    assert_eq!(8, x.force());
}

#[test]
fn await_box() {
    let x = Box::new(|| 8);
    assert_eq!(8, x.force());
}

#[test]
fn await_fn_moves_its_captures_out() {
    let text = String::from("ready");
    let x = move || text;
    assert_eq!("ready", x.force());
}

#[test]
fn await_value_hands_over_its_field() {
    assert_eq!(8, AwaitValue(8).force());
}

#[test]
fn await_box_on_a_boxed_value() {
    let x = Box::new(AwaitValue(8));
    assert_eq!(8, x.await_box());
}

#[test]
fn await_boxed_trait_object() {
    let x: Box<dyn AwaitBox<u32>> = Box::new(AwaitValue(7));
    assert_eq!(7, x.force());
    let y: Box<dyn AwaitBox<u32>> = Box::new(|| 9);
    assert_eq!(9, y.await_box());
}

#[test]
fn await_sendable_trait_object() {
    let x: Box<dyn AwaitSend<u32>> = Box::new(AwaitValue(7));
    assert_eq!(7, x.force());
    let y: Box<dyn AwaitSend<u32>> = Box::new(|| 9);
    assert_eq!(9, y.await_send());
}

#[test]
fn boxed_capabilities_of_different_kinds_share_a_list() {
    let xs: Vec<Box<dyn AwaitBox<u32>>> = vec![
        Box::new(AwaitValue(1)),
        Box::new(|| 2),
        Box::new(Box::new(AwaitValue(3u32)) as Box<dyn AwaitBox<u32>>),
    ];
    let mut seen = Vec::new();
    for x in xs {
        seen.push(x.force());
    }
    assert_eq!(vec![1, 2, 3], seen);
}

#[test]
fn boxed_wraps_any_capability() {
    assert_eq!(5, Boxed::new(AwaitValue(5)).force());
    assert_eq!(6, Boxed::new(|| 6).force());
    let inner: Box<dyn AwaitBox<u32>> = Box::new(AwaitValue(7));
    assert_eq!(7, Boxed(inner).force());
}

#[test]
fn await_receiver_gets_what_was_sent() {
    let (tx, rx) = channel();
    tx.send(8).unwrap();
    assert_eq!(Ok(8), rx.force());
}

#[test]
fn await_receiver_without_senders_is_an_error() {
    let (tx, rx) = channel::<u32>();
    drop(tx);
    assert_eq!(Err(RecvError), rx.force());
}

#[test]
fn await_borrowed_receiver_again_and_again() {
    let (tx, rx) = sync_channel(2);
    tx.send(1).unwrap();
    tx.send(2).unwrap();
    drop(tx);
    assert_eq!(Ok(1), (&rx).force());
    assert_eq!(Ok(2), (&rx).force());
    assert_eq!(Err(RecvError), (&rx).force());
}

#[test]
fn await_barrier_of_one_leads() {
    let barrier = Barrier::new(1);
    assert!((&barrier).force().is_leader());
}
