use std::cell::RefCell;
use std::rc::Rc;

use wasmadeus::signal::cell::State;
use wasmadeus::signal::cell::ValueCell;
use wasmadeus::signal::compose::FoldRelay;
use wasmadeus::signal::notify::Callback;
use wasmadeus::signal::protocol::fold_owned;
use wasmadeus::signal::protocol::for_each_owned;
use wasmadeus::signal::protocol::mutate_owned;
use wasmadeus::signal::protocol::set_owned;
use wasmadeus::signal::registry::Registry;
use wasmadeus::signal::registry::State as Busy;
use wasmadeus::signal::SignalMutatingError;
use wasmadeus::signal::SignalUpdatingError;
use wasmadeus::signal::SubscriberId;

fn recorder(name: &'static str, log: &Rc<RefCell<Vec<(&'static str, i32)>>>) -> Callback<i32> {
    let log = log.clone();
    Callback::for_each(move |x: &i32| log.borrow_mut().push((name, *x)))
}

#[test]
fn owned_pass_calls_active_subscribers_in_order() {
    let log = Rc::new(RefCell::new(Vec::new()));
    let mut r: Registry<Callback<i32>> = Registry::new();
    for name in ["a", "b", "c"] {
        let id = r.next_id();
        let _ = r.push_subscriber(id, recorder(name, &log), false);
    }
    assert_eq!(r.notify(&1), vec![SubscriberId(0), SubscriberId(1), SubscriberId(2)]);
    assert_eq!(*log.borrow(), vec![("a", 1), ("b", 1), ("c", 1)]);
    let _ = r.unsubscribe(SubscriberId(1));
    log.borrow_mut().clear();
    assert_eq!(r.notify(&2), vec![SubscriberId(0), SubscriberId(2)]);
    assert_eq!(*log.borrow(), vec![("a", 2), ("c", 2)]);
    assert_eq!(r.state(), Busy::Idling);
    assert_eq!(r.len(), 2);
    let mut empty: Registry<Callback<i32>> = Registry::new();
    assert!(empty.notify(&3).is_empty());
}

#[test]
fn owned_subscription_shows_the_value_once() {
    let log = Rc::new(RefCell::new(Vec::new()));
    let mut cell = ValueCell::new(7);
    let mut registry: Registry<Callback<i32>> = Registry::new();
    assert_eq!(
        for_each_owned(&mut cell, &mut registry, recorder("a", &log)),
        Some(SubscriberId(0))
    );
    assert_eq!(*log.borrow(), vec![("a", 7)]);
    assert_eq!(cell.state(), State::Idling);
    assert_eq!(registry.state(), Busy::Idling);
    assert_eq!(registry.len(), 1);
    assert_eq!(
        for_each_owned(&mut cell, &mut registry, recorder("b", &log)),
        Some(SubscriberId(1))
    );
    assert_eq!(*log.borrow(), vec![("a", 7), ("b", 7)]);
}

#[test]
fn owned_subscription_waits_without_value() {
    let log = Rc::new(RefCell::new(Vec::new()));
    let mut cell: ValueCell<i32> = ValueCell::uninit();
    let mut registry: Registry<Callback<i32>> = Registry::new();
    assert_eq!(
        for_each_owned(&mut cell, &mut registry, recorder("a", &log)),
        Some(SubscriberId(0))
    );
    assert!(log.borrow().is_empty());
    assert_eq!(set_owned(&mut cell, &mut registry, 5), Ok(vec![SubscriberId(0)]));
    assert_eq!(*log.borrow(), vec![("a", 5)]);
    assert_eq!(cell.try_get(), Ok(5));
}

#[test]
fn owned_write_tells_if_and_only_if_accepted() {
    let log = Rc::new(RefCell::new(Vec::new()));
    let mut cell = ValueCell::new(1);
    let mut registry: Registry<Callback<i32>> = Registry::new();
    let _ = for_each_owned(&mut cell, &mut registry, recorder("a", &log));
    let _ = for_each_owned(&mut cell, &mut registry, recorder("b", &log));
    log.borrow_mut().clear();
    assert_eq!(
        set_owned(&mut cell, &mut registry, 2),
        Ok(vec![SubscriberId(0), SubscriberId(1)])
    );
    assert_eq!(*log.borrow(), vec![("a", 2), ("b", 2)]);
    assert_eq!(cell.try_get(), Ok(2));
    assert_eq!(cell.state(), State::Idling);
    // A cell that is being written refuses, and nobody is told.
    assert!(cell.lock());
    log.borrow_mut().clear();
    assert_eq!(set_owned(&mut cell, &mut registry, 3), Err(SignalUpdatingError));
    assert_eq!(
        mutate_owned(&mut cell, &mut registry, |x| *x += 1),
        Err(SignalMutatingError::Updating)
    );
    assert!(log.borrow().is_empty());
    assert_eq!(cell.value(), Some(&2));
    assert_eq!(cell.state(), State::Mutating);
}

#[test]
fn owned_change_in_place() {
    let log = Rc::new(RefCell::new(Vec::new()));
    let mut cell = ValueCell::new(1);
    let mut registry: Registry<Callback<i32>> = Registry::new();
    let _ = for_each_owned(&mut cell, &mut registry, recorder("a", &log));
    assert_eq!(
        mutate_owned(&mut cell, &mut registry, |x| *x += 10),
        Ok(vec![SubscriberId(0)])
    );
    assert_eq!(*log.borrow(), vec![("a", 1), ("a", 11)]);
    assert_eq!(cell.try_get(), Ok(11));
    let mut empty: ValueCell<i32> = ValueCell::uninit();
    let mut called = false;
    assert_eq!(
        mutate_owned(&mut empty, &mut registry, |_| called = true),
        Err(SignalMutatingError::Uninit)
    );
    assert!(!called);
    assert_eq!(log.borrow().len(), 2);
}

#[test]
fn fold_into_calls_the_closure_once() {
    let mut calls = 0;
    let mut relay = FoldRelay {
        fold: |acc: &mut i32, x: &i32| {
            calls += 1;
            *acc += *x;
        },
    };
    assert_eq!(relay.fold_into(10, &5), 15);
    assert_eq!(relay.fold_into(15, &1), 16);
    drop(relay);
    assert_eq!(calls, 2);
}

#[test]
fn owned_fold_accumulates() {
    let log = Rc::new(RefCell::new(Vec::new()));
    let mut cell = ValueCell::new(0);
    let mut registry: Registry<Callback<i32>> = Registry::new();
    let _ = for_each_owned(&mut cell, &mut registry, recorder("a", &log));
    let mut relay = FoldRelay { fold: |acc: &mut i32, x: &i32| *acc += *x };
    let mut reads = Vec::new();
    for v in [1, 2, 3] {
        assert_eq!(
            fold_owned(&mut relay, &mut cell, &mut registry, &v),
            Ok(vec![SubscriberId(0)])
        );
        reads.push(cell.try_get().unwrap());
    }
    assert_eq!(reads, vec![1, 3, 6]);
    assert_eq!(*log.borrow(), vec![("a", 0), ("a", 1), ("a", 3), ("a", 6)]);
    // A cell that is not at rest is not folded into.
    assert!(cell.lock());
    assert_eq!(
        fold_owned(&mut relay, &mut cell, &mut registry, &4),
        Err(SignalMutatingError::Updating)
    );
    assert_eq!(cell.value(), Some(&6));
    let mut empty: ValueCell<i32> = ValueCell::uninit();
    assert_eq!(
        fold_owned(&mut relay, &mut empty, &mut registry, &4),
        Err(SignalMutatingError::Uninit)
    );
    assert_eq!(log.borrow().len(), 4);
}

#[test]
fn owned_pass_on_a_busy_registry_tells_nobody() {
    let log = Rc::new(RefCell::new(Vec::new()));
    let mut cell = ValueCell::new(1);
    let mut registry: Registry<Callback<i32>> = Registry::new();
    let _ = for_each_owned(&mut cell, &mut registry, recorder("a", &log));
    log.borrow_mut().clear();
    assert!(registry.begin_notify());
    assert!(registry.notify(&2).is_empty());
    assert_eq!(registry.state(), Busy::Notifying);
    // The write is accepted and read back, and nobody is told of it.
    assert_eq!(set_owned(&mut cell, &mut registry, 3), Ok(vec![]));
    assert_eq!(cell.try_get(), Ok(3));
    assert_eq!(mutate_owned(&mut cell, &mut registry, |x| *x += 1), Ok(vec![]));
    assert_eq!(cell.try_get(), Ok(4));
    assert!(log.borrow().is_empty());
    assert_eq!(registry.state(), Busy::Notifying);
    let _ = registry.finish();
    assert_eq!(set_owned(&mut cell, &mut registry, 5), Ok(vec![SubscriberId(0)]));
    assert_eq!(*log.borrow(), vec![("a", 5)]);
}
