use std::cell::RefCell;
use std::rc::Rc;

use wasmadeus::signal::Signal;
use wasmadeus::signal::SignalGetError;
use wasmadeus::signal::SignalMut;
use wasmadeus::signal::SignalMutatingError;
use wasmadeus::signal::SignalUpdatingError;

/// Writing a signal that is known to be writable.
trait Write<T> {
    fn set(&self, new_value: T);

    fn mutate<F: FnOnce(&mut T)>(&self, mutate: F);
}

impl<T: 'static> Write<T> for SignalMut<T> {
    fn set(&self, new_value: T) {
        self.try_set(new_value).unwrap();
    }

    fn mutate<F: FnOnce(&mut T)>(&self, mutate: F) {
        self.try_mutate(mutate).unwrap();
    }
}

/// Reading a signal that is known to be readable.
trait Get<T> {
    fn get(&self) -> T;
}

impl<T: Clone + 'static> Get<T> for Signal<T> {
    fn get(&self) -> T {
        self.try_get().unwrap()
    }
}

#[test]
fn signal_unsubscribe_in_notify() {
    let signal = SignalMut::new("hello");

    signal.for_each_inner(move |_, unsub| {
        unsub.unsubscribe();
    });
}

#[test]
fn unsubscribe_in_second_notify() {
    let signal = SignalMut::new("hello");

    let mut count = 0;
    signal.for_each_inner(move |_, unsub| match count {
        1 => unsub.unsubscribe(),
        _ => count += 1,
    });

    signal.set("goodbye");
}

#[test]
#[should_panic]
fn signal_get_in_mutate() {
    let signal = SignalMut::new("hello");

    signal.mutate(|txt| {
        signal.get();
        *txt = "goodbye";
    });
}

#[test]
fn map() {
    let half = SignalMut::new(21);
    let double = half.map(|i| i * 2);
    assert_eq!(double.get(), 42);
}

#[test]
fn get_after_set() {
    let signal = SignalMut::new(1);
    for v in [5, -3, 0, 77] {
        signal.try_set(v).unwrap();
        assert_eq!(signal.try_get(), Ok(v));
    }
}

#[test]
fn uninit_then_set() {
    let s = SignalMut::<i32>::uninit();
    assert_eq!(s.try_get(), Err(SignalGetError::Uninit));
    assert_eq!(s.try_mutate(|x| *x += 1), Err(SignalMutatingError::Uninit));
    s.try_set(5).unwrap();
    assert_eq!(s.try_get(), Ok(5));
}

#[test]
fn map_follows_source() {
    let s = SignalMut::new(1);
    let d = s.map(|x| x * 10);
    let seen = Rc::new(RefCell::new(Vec::new()));
    let log = seen.clone();
    let _token = d.for_each(move |x| log.borrow_mut().push(*x));
    assert_eq!(*seen.borrow(), vec![10]);
    s.try_set(2).unwrap();
    assert_eq!(d.try_get(), Ok(20));
    assert_eq!(*seen.borrow(), vec![10, 20]);
    for v in [3, 4, 5] {
        s.try_set(v).unwrap();
        assert_eq!(d.try_get(), Ok(v * 10));
    }
}

#[test]
fn self_unsubscribe_in_first_call() {
    let s = SignalMut::new(1);
    let calls = Rc::new(RefCell::new(0));
    let count = calls.clone();
    let others = Rc::new(RefCell::new(Vec::new()));
    let log = others.clone();
    s.for_each_inner(move |_, unsub| {
        *count.borrow_mut() += 1;
        unsub.unsubscribe();
        assert!(!unsub.has_effect());
    });
    s.for_each_forever(move |x| log.borrow_mut().push(*x));
    s.try_set(2).unwrap();
    s.try_set(3).unwrap();
    assert_eq!(*calls.borrow(), 1);
    assert_eq!(*others.borrow(), vec![1, 2, 3]);
}

#[test]
fn mutate_inside_callback_is_refused() {
    let s = SignalMut::new(1);
    let inner = s.clone();
    let results = Rc::new(RefCell::new(Vec::new()));
    let log = results.clone();
    s.for_each_forever(move |_| {
        let set = inner.try_set(100);
        let mutated = inner.try_mutate(|x| *x += 1);
        let got = inner.try_get();
        log.borrow_mut().push((set, mutated, got));
    });
    // The first call shows the value to the new subscriber: reads are
    // fine, writes are not.
    assert_eq!(
        *results.borrow(),
        vec![(Err(SignalUpdatingError), Err(SignalMutatingError::Updating), Ok(1))]
    );
    s.try_set(2).unwrap();
    assert_eq!(
        results.borrow()[1],
        (Err(SignalUpdatingError), Err(SignalMutatingError::Updating), Err(SignalGetError::Updating))
    );
    s.try_mutate(|x| *x += 1).unwrap();
    assert_eq!(
        results.borrow()[2],
        (Err(SignalUpdatingError), Err(SignalMutatingError::Updating), Err(SignalGetError::Updating))
    );
    assert_eq!(s.try_get(), Ok(3));
}
