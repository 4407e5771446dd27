use std::rc::Rc;

use wasmadeus::signal::cell::Lease;
use wasmadeus::signal::cell::State;
use wasmadeus::signal::cell::ValueCell;
use wasmadeus::signal::SignalGetError;
use wasmadeus::signal::SignalMutatingError;
use wasmadeus::signal::SignalUpdatingError;

#[test]
fn new_cell_is_at_rest() {
    let c = ValueCell::new(3);
    assert_eq!(c.state(), State::Idling);
    assert_eq!(c.value(), Some(&3));
    assert_eq!(c.try_get(), Ok(3));
}

#[test]
fn uninit_cell_has_nothing() {
    let mut c: ValueCell<i32> = ValueCell::uninit();
    assert_eq!(c.state(), State::Uninit);
    assert_eq!(c.value(), None);
    assert_eq!(c.try_get(), Err(SignalGetError::Uninit));
    assert_eq!(c.try_mutate(|x| *x += 1), Err(SignalMutatingError::Uninit));
    assert_eq!(c.begin_mutate(), Err(SignalMutatingError::Uninit));
    assert_eq!(c.begin_borrow(), Lease::Empty);
    assert!(!c.lock());
    let mut shown = false;
    assert_eq!(c.borrow_then(|_| shown = true), Ok(()));
    assert!(!shown);
    assert_eq!(c.state(), State::Uninit);
}

#[test]
fn first_write_initializes() {
    let mut c: ValueCell<i32> = ValueCell::uninit();
    assert_eq!(c.replace(5), Ok(None));
    assert_eq!(c.state(), State::Idling);
    assert_eq!(c.try_get(), Ok(5));
    assert_eq!(c.replace(6), Ok(Some(5)));
    assert_eq!(c.try_set(7), Ok(()));
    assert_eq!(c.try_get(), Ok(7));
}

#[test]
fn mutate_in_place() {
    let mut c = ValueCell::new(vec![1]);
    assert_eq!(c.try_mutate(|v| v.push(2)), Ok(()));
    assert_eq!(c.try_get(), Ok(vec![1, 2]));
    assert_eq!(c.state(), State::Idling);
}

#[test]
fn write_in_flight_refuses_everything_else() {
    let mut c = ValueCell::new(1);
    assert_eq!(c.begin_mutate(), Ok(1));
    assert_eq!(c.state(), State::Mutating);
    assert_eq!(c.value(), None);
    assert_eq!(c.try_get(), Err(SignalGetError::Updating));
    assert_eq!(c.try_set(9), Err(SignalUpdatingError));
    assert_eq!(c.replace(9), Err(SignalUpdatingError));
    assert_eq!(c.begin_mutate(), Err(SignalMutatingError::Updating));
    assert_eq!(c.try_mutate(|x| *x += 1), Err(SignalMutatingError::Updating));
    assert_eq!(c.begin_borrow(), Lease::Refused);
    assert_eq!(c.borrow_then(|_| {}), Err(SignalGetError::Updating));
    assert!(!c.lock());
    assert_eq!(c.store(2), None);
    assert_eq!(c.store(3), Some(3));
    assert_eq!(c.state(), State::Mutating);
    assert_eq!(c.try_get(), Err(SignalGetError::Updating));
    c.settle();
    assert_eq!(c.state(), State::Idling);
    assert_eq!(c.try_get(), Ok(2));
}

#[test]
fn lock_keeps_the_value_in_place() {
    let mut c = ValueCell::new(1);
    assert!(c.lock());
    assert_eq!(c.state(), State::Mutating);
    assert_eq!(c.value(), Some(&1));
    assert_eq!(c.try_set(2), Err(SignalUpdatingError));
    c.settle();
    assert_eq!(c.state(), State::Idling);
    assert_eq!(c.try_get(), Ok(1));
}

#[test]
fn settle_without_value_is_uninit() {
    let mut c = ValueCell::new(1);
    assert_eq!(c.begin_mutate(), Ok(1));
    c.settle();
    assert_eq!(c.state(), State::Uninit);
    c.settle();
    assert_eq!(c.state(), State::Uninit);
}

#[test]
fn borrow_allows_reads_only() {
    let mut c = ValueCell::new(1);
    assert_eq!(c.begin_borrow(), Lease::Outer);
    assert_eq!(c.state(), State::Borrowed);
    assert_eq!(c.begin_borrow(), Lease::Nested);
    assert_eq!(c.try_get(), Ok(1));
    assert_eq!(c.try_set(2), Err(SignalUpdatingError));
    assert_eq!(c.begin_mutate(), Err(SignalMutatingError::Updating));
    let mut seen = None;
    assert_eq!(c.borrow_then(|x| seen = Some(*x)), Ok(()));
    assert_eq!(seen, Some(1));
    assert_eq!(c.state(), State::Borrowed);
    c.end_borrow();
    assert_eq!(c.state(), State::Idling);
    c.end_borrow();
    assert_eq!(c.state(), State::Idling);
    assert_eq!(c.try_set(2), Ok(()));
}

#[test]
fn borrow_then_shows_and_comes_to_rest() {
    let mut c = ValueCell::new(4);
    let mut seen = None;
    assert_eq!(c.borrow_then(|x| seen = Some(*x)), Ok(()));
    assert_eq!(seen, Some(4));
    assert_eq!(c.state(), State::Idling);
}

#[test]
fn messages() {
    assert_eq!(SignalUpdatingError.message(), "signal is already updating");
    assert_eq!(SignalGetError::Uninit.message(), "signal is uninitialized");
    assert_eq!(SignalGetError::Updating.message(), "signal is currently updating");
    assert_eq!(SignalMutatingError::Uninit.message(), "signal is uninitialized");
    assert_eq!(SignalMutatingError::Updating.message(), "signal is already updating");
}

#[test]
fn begin_set_writes_and_locks() {
    let mut c: ValueCell<i32> = ValueCell::uninit();
    assert_eq!(c.begin_set(1), Ok(None));
    assert_eq!(c.state(), State::Mutating);
    assert_eq!(c.value(), Some(&1));
    assert_eq!(c.begin_set(2), Err(SignalUpdatingError));
    assert_eq!(c.value(), Some(&1));
    c.settle();
    assert_eq!(c.begin_set(3), Ok(Some(1)));
    c.settle();
    assert_eq!(c.try_get(), Ok(3));
}

#[test]
fn begin_notify_locks_a_cell_at_rest_only() {
    let mut c = ValueCell::new(4);
    assert_eq!(c.begin_notify(), Ok((true, 4)));
    assert_eq!(c.state(), State::Mutating);
    assert_eq!(c.begin_notify(), Ok((false, 4)));
    c.settle();
    assert_eq!(c.begin_borrow(), Lease::Outer);
    assert_eq!(c.begin_notify(), Ok((false, 4)));
    assert_eq!(c.state(), State::Borrowed);
    c.end_borrow();
    assert_eq!(c.begin_mutate(), Ok(4));
    assert_eq!(c.begin_notify(), Err(SignalGetError::Updating));
    let mut e: ValueCell<i32> = ValueCell::uninit();
    assert_eq!(e.begin_notify(), Err(SignalGetError::Uninit));
    assert_eq!(e.state(), State::Uninit);
}

#[test]
fn begin_show_shows_whenever_the_value_is_there() {
    let mut c = ValueCell::new(4);
    assert_eq!(c.begin_show(), (true, Some(4)));
    assert_eq!(c.state(), State::Borrowed);
    assert_eq!(c.begin_show(), (false, Some(4)));
    c.end_borrow();
    assert!(c.lock());
    assert_eq!(c.begin_show(), (false, Some(4)));
    assert_eq!(c.state(), State::Mutating);
    c.settle();
    assert_eq!(c.begin_mutate(), Ok(4));
    assert_eq!(c.begin_show(), (false, None));
    let mut e: ValueCell<i32> = ValueCell::uninit();
    assert_eq!(e.begin_show(), (false, None));
    assert_eq!(e.state(), State::Uninit);
}

#[test]
fn take_owned_and_put_owned() {
    let mut c = ValueCell::new(Rc::new(4));
    assert_eq!(c.take_owned(), Ok(4));
    assert_eq!(c.state(), State::Mutating);
    assert_eq!(c.take_owned(), Err(SignalMutatingError::Updating));
    assert_eq!(*c.put_owned(5), 5);
    c.settle();
    assert_eq!(c.try_get().map(|v| *v), Ok(5));
    // Somebody else holds on to the value: refused, and nothing changes.
    let held = c.try_get().unwrap();
    assert_eq!(c.take_owned(), Err(SignalMutatingError::Updating));
    assert_eq!(c.state(), State::Idling);
    assert_eq!(c.value().map(|v| **v), Some(5));
    drop(held);
    assert_eq!(c.take_owned(), Ok(5));
    let mut e: ValueCell<Rc<i32>> = ValueCell::uninit();
    assert_eq!(e.take_owned(), Err(SignalMutatingError::Uninit));
}
