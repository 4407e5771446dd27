use std::cell::RefCell;
use std::rc::Rc;

use wasmadeus::signal::broadcast::Broadcast;
use wasmadeus::signal::cell::State;
use wasmadeus::signal::data::SignalData;
use wasmadeus::signal::notify::Callback;
use wasmadeus::signal::raw::RawSignal;
use wasmadeus::signal::SignalGetError;
use wasmadeus::signal::SignalMutatingError;
use wasmadeus::signal::SignalUpdatingError;
use wasmadeus::signal::SubscriberId;

fn recorder() -> (Rc<RefCell<Vec<i32>>>, Callback<i32>) {
    let seen = Rc::new(RefCell::new(Vec::new()));
    let log = seen.clone();
    (seen, Callback::for_each(move |x: &i32| log.borrow_mut().push(*x)))
}

#[test]
fn broadcast_hands_out_rising_identifiers() {
    let b: Broadcast<i32> = Broadcast::new();
    assert_eq!(b.next_id(), SubscriberId(0));
    assert_eq!(b.next_id(), SubscriberId(1));
    let d: Broadcast<i32> = Broadcast::default();
    assert_eq!(d.next_id(), SubscriberId(0));
}

#[test]
fn broadcast_push_with_value_tells_at_once() {
    let b: Broadcast<i32> = Broadcast::new();
    let (seen, cb) = recorder();
    let id = b.next_id();
    assert!(b.push_subscriber(id, cb, Some(&3)));
    assert_eq!(*seen.borrow(), vec![3]);
    b.notify(&4);
    assert_eq!(*seen.borrow(), vec![3, 4]);
}

#[test]
fn broadcast_push_without_value_waits() {
    let b: Broadcast<i32> = Broadcast::new();
    let (seen, cb) = recorder();
    let id = b.next_id();
    assert!(b.push_subscriber(id, cb, None));
    assert!(seen.borrow().is_empty());
    b.notify(&4);
    b.unsubscribe(id);
    b.unsubscribe(id);
    b.notify(&5);
    assert_eq!(*seen.borrow(), vec![4]);
}

#[test]
fn broadcast_ignores_identifiers_it_did_not_hand_out() {
    let b: Broadcast<i32> = Broadcast::new();
    let (seen, cb) = recorder();
    assert!(!b.push_subscriber(SubscriberId(5), cb, Some(&1)));
    b.notify(&2);
    assert!(seen.borrow().is_empty());
}

#[test]
fn broadcast_nested_notify_does_nothing() {
    let b: Rc<Broadcast<i32>> = Rc::new(Broadcast::new());
    let inner = b.clone();
    let calls = Rc::new(RefCell::new(0));
    let count = calls.clone();
    let id = b.next_id();
    let taken = b.push_subscriber(
        id,
        Callback::for_each(move |x: &i32| {
            *count.borrow_mut() += 1;
            inner.notify(&(x + 1));
        }),
        None,
    );
    assert!(taken);
    b.notify(&1);
    assert_eq!(*calls.borrow(), 1);
    b.unsubscribe(id);
}

#[test]
fn data_follows_the_state_machine() {
    let d = SignalData::<i32>::uninit();
    assert_eq!(d.state(), State::Uninit);
    assert_eq!(d.try_get(), Err(SignalGetError::Uninit));
    assert_eq!(d.try_mutate(|x| *x += 1), Err(SignalMutatingError::Uninit));
    assert_eq!(d.try_set(1), Ok(()));
    assert_eq!(d.state(), State::Idling);
    assert_eq!(d.try_mutate(|x| *x += 1), Ok(()));
    assert_eq!(d.try_get(), Ok(2));
    let e = SignalData::new(7);
    assert_eq!(e.try_get(), Ok(7));
}

#[test]
fn data_borrow_then_refuses_writes_meanwhile() {
    let d = Rc::new(SignalData::new(1));
    let inner = d.clone();
    let log = Rc::new(RefCell::new(Vec::new()));
    let out = log.clone();
    let shown = d.borrow_then(move |x| {
        out.borrow_mut().push((
            *x,
            inner.state(),
            inner.try_get(),
            inner.try_set(5),
            inner.try_mutate(|y| *y += 1),
            inner.borrow_then(|_| {}),
        ));
    });
    assert_eq!(shown, Ok(()));
    assert_eq!(
        *log.borrow(),
        vec![(
            1,
            State::Borrowed,
            Ok(1),
            Err(SignalUpdatingError),
            Err(SignalMutatingError::Updating),
            Ok(())
        )]
    );
    assert_eq!(d.state(), State::Idling);
    assert_eq!(d.try_get(), Ok(1));
}

#[test]
fn data_borrow_then_is_refused_inside_mutate() {
    let d = Rc::new(SignalData::new(1));
    let inner = d.clone();
    let log = Rc::new(RefCell::new(None));
    let out = log.clone();
    d.try_mutate(move |x| {
        *out.borrow_mut() = Some((inner.state(), inner.borrow_then(|_| {})));
        *x = 2;
    })
    .unwrap();
    assert_eq!(*log.borrow(), Some((State::Mutating, Err(SignalGetError::Updating))));
    let empty = SignalData::<i32>::uninit();
    let mut shown = false;
    assert_eq!(empty.borrow_then(|_| shown = true), Ok(()));
    assert!(!shown);
}

#[test]
fn raw_for_each_builds_the_callback_from_the_identifier() {
    let raw = RawSignal::new(Some(1));
    let (seen, cb) = recorder();
    let made = Rc::new(RefCell::new(None));
    let note = made.clone();
    let id = raw
        .raw_for_each(move |id| {
            *note.borrow_mut() = Some(id);
            cb
        })
        .unwrap();
    assert_eq!(*made.borrow(), Some(id));
    assert_eq!(id, SubscriberId(0));
    assert_eq!(*seen.borrow(), vec![1]);
    raw.try_set(2).unwrap();
    raw.try_mutate(|x| *x += 1).unwrap();
    raw.unsubscribe(id);
    raw.try_set(9).unwrap();
    assert_eq!(*seen.borrow(), vec![1, 2, 3]);
    assert_eq!(raw.try_get(), Ok(9));
    assert_eq!(raw.state(), State::Idling);
}

#[test]
fn raw_notify_all_needs_a_value() {
    let raw: RawSignal<i32> = RawSignal::uninit();
    let (seen, cb) = recorder();
    let _ = raw.raw_for_each(move |_| cb);
    assert_eq!(raw.try_notify(), Err(SignalGetError::Uninit));
    raw.notify_all();
    assert!(seen.borrow().is_empty());
    raw.try_set(1).unwrap();
    assert_eq!(raw.try_notify(), Ok(()));
    raw.notify_all();
    assert_eq!(*seen.borrow(), vec![1, 1, 1]);
    assert_eq!(raw.state(), State::Idling);
}

#[test]
fn raw_notify_all_counts_as_writing() {
    let raw = Rc::new(RawSignal::new(Some(1)));
    let inner = raw.clone();
    let log = Rc::new(RefCell::new(Vec::new()));
    let out = log.clone();
    let _ = raw.raw_for_each(move |_| {
        Callback::for_each(move |_: &i32| {
            out.borrow_mut().push((inner.state(), inner.try_set(5), inner.try_notify()));
        })
    });
    raw.notify_all();
    assert_eq!(
        *log.borrow(),
        vec![
            (State::Borrowed, Err(SignalUpdatingError), Ok(())),
            (State::Mutating, Err(SignalUpdatingError), Ok(()))
        ]
    );
}

#[test]
fn raw_shared_has_its_own_subscribers() {
    let raw = RawSignal::new(Some(1));
    let other = raw.shared();
    let (seen_raw, cb_raw) = recorder();
    let (seen_other, cb_other) = recorder();
    let _ = raw.raw_for_each(move |_| cb_raw);
    let _ = other.raw_for_each(move |_| cb_other);
    raw.try_set(2).unwrap();
    assert_eq!(*seen_raw.borrow(), vec![1, 2]);
    assert_eq!(*seen_other.borrow(), vec![1]);
    assert_eq!(other.try_get(), Ok(2));
    other.notify_all();
    assert_eq!(*seen_other.borrow(), vec![1, 2]);
}

#[test]
fn raw_new_with_data_shares_the_data() {
    let data = Rc::new(SignalData::new(4));
    let raw = RawSignal::new_with_data(data.clone());
    raw.try_set(5).unwrap();
    assert_eq!(data.try_get(), Ok(5));
}
