use std::cell::RefCell;
use std::rc::Rc;

use wasmadeus::signal::Signal;
use wasmadeus::signal::SignalGetError;
use wasmadeus::signal::SignalMut;
use wasmadeus::signal::SignalUnsubscriber;
use wasmadeus::signal::Unsubscribe;
use wasmadeus::signal::Value;

fn recorder<T: Clone + 'static>() -> (Rc<RefCell<Vec<T>>>, impl FnMut(&T) + 'static) {
    let seen = Rc::new(RefCell::new(Vec::new()));
    let log = seen.clone();
    (seen, move |x: &T| log.borrow_mut().push(x.clone()))
}

#[test]
fn for_each_delivers_current_value_at_once() {
    let s = SignalMut::new(7);
    let (seen, cb) = recorder();
    let token = s.for_each(cb);
    assert_eq!(*seen.borrow(), vec![7]);
    assert!(token.has_effect());
}

#[test]
fn for_each_on_uninit_waits_for_first_value() {
    let s = SignalMut::<u8>::uninit();
    let (seen, cb) = recorder();
    let _token = s.for_each(cb);
    assert!(seen.borrow().is_empty());
    s.try_set(4).unwrap();
    assert_eq!(*seen.borrow(), vec![4]);
}

#[test]
fn maybe_uninit_is_new_or_uninit() {
    let a = SignalMut::maybe_uninit(Some(3));
    let b = SignalMut::<i32>::maybe_uninit(None);
    assert_eq!(a.try_get(), Ok(3));
    assert_eq!(b.try_get(), Err(SignalGetError::Uninit));
}

#[test]
fn subscribers_are_told_in_order_of_subscription() {
    let s = SignalMut::new(0);
    let order = Rc::new(RefCell::new(Vec::new()));
    for name in ["a", "b", "c"] {
        let log = order.clone();
        s.for_each_forever(move |v| log.borrow_mut().push((name, *v)));
    }
    order.borrow_mut().clear();
    s.try_set(1).unwrap();
    assert_eq!(*order.borrow(), vec![("a", 1), ("b", 1), ("c", 1)]);
}

#[test]
fn token_cancels_once_and_for_all() {
    let s = SignalMut::new(1);
    let (seen, cb) = recorder();
    let mut token = s.for_each(cb);
    s.try_set(2).unwrap();
    token.unsubscribe();
    assert!(!token.has_effect());
    s.try_set(3).unwrap();
    token.unsubscribe();
    s.try_set(4).unwrap();
    assert_eq!(*seen.borrow(), vec![1, 2]);
}

#[test]
fn cloned_token_cancels_the_same_subscription() {
    let s = SignalMut::new(1);
    let (seen, cb) = recorder();
    let token = s.for_each(cb);
    let mut copy = token.clone();
    assert!(copy.has_effect());
    copy.unsubscribe();
    s.try_set(2).unwrap();
    assert_eq!(*seen.borrow(), vec![1]);
    assert!(token.has_effect());
}

#[test]
fn token_outlives_signal() {
    let s = SignalMut::new(1);
    let mut token = s.for_each(|_| {});
    drop(s);
    token.unsubscribe();
    assert!(!token.has_effect());
}

#[test]
fn token_does_not_keep_signal_alive() {
    let alive = Rc::new(());
    let held = alive.clone();
    let s = SignalMut::new(1);
    let token = s.for_each(move |_| {
        let _ = &held;
    });
    assert_eq!(Rc::strong_count(&alive), 2);
    drop(s);
    assert_eq!(Rc::strong_count(&alive), 1);
    drop(token);
}

#[test]
fn unsubscribe_at_rest_drops_the_callback_at_once() {
    let alive = Rc::new(());
    let held = alive.clone();
    let s = SignalMut::new(1);
    let mut token = s.for_each(move |_| {
        let _ = &held;
    });
    assert_eq!(Rc::strong_count(&alive), 2);
    token.unsubscribe();
    assert_eq!(Rc::strong_count(&alive), 1);
}

#[test]
fn subscribe_during_pass_is_served_by_that_pass_once() {
    let s = SignalMut::new(1);
    let inner = s.clone();
    let late = Rc::new(RefCell::new(Vec::new()));
    let log = late.clone();
    let mut armed = false;
    s.for_each_forever(move |v| {
        if armed && *v == 2 {
            let log = log.clone();
            inner.for_each_forever(move |x| log.borrow_mut().push(*x));
        }
        armed = true;
    });
    let (after, cb) = recorder();
    s.for_each_forever(cb);
    s.try_set(2).unwrap();
    assert_eq!(*late.borrow(), vec![2]);
    assert_eq!(*after.borrow(), vec![1, 2]);
    s.try_set(3).unwrap();
    assert_eq!(*late.borrow(), vec![2, 3]);
}

#[test]
fn subscribe_during_delivery_is_served_at_once() {
    let s = SignalMut::new(5);
    let inner = s.clone();
    let nested = Rc::new(RefCell::new(Vec::new()));
    let log = nested.clone();
    let mut first = true;
    s.for_each_forever(move |_| {
        if first {
            first = false;
            let log = log.clone();
            inner.for_each_forever(move |x| log.borrow_mut().push(*x));
        }
    });
    assert_eq!(*nested.borrow(), vec![5]);
    s.try_set(6).unwrap();
    assert_eq!(*nested.borrow(), vec![5, 6]);
}

#[test]
fn self_unsubscribe_during_pass_spares_the_others() {
    let s = SignalMut::new(0);
    let (before, cb_before) = recorder();
    let (after, cb_after) = recorder();
    let own = Rc::new(RefCell::new(Vec::new()));
    let log = own.clone();
    s.for_each_forever(cb_before);
    s.for_each_inner(move |v, unsub| {
        log.borrow_mut().push(*v);
        if *v == 1 {
            unsub.unsubscribe();
        }
    });
    s.for_each_forever(cb_after);
    s.try_set(1).unwrap();
    s.try_set(2).unwrap();
    assert_eq!(*own.borrow(), vec![0, 1]);
    assert_eq!(*before.borrow(), vec![0, 1, 2]);
    assert_eq!(*after.borrow(), vec![0, 1, 2]);
}

#[test]
fn unsubscribe_of_later_subscriber_during_pass() {
    let s = SignalMut::new(0);
    let slot: Rc<RefCell<Option<SignalUnsubscriber<i32>>>> = Rc::new(RefCell::new(None));
    let hold = slot.clone();
    s.for_each_forever(move |v| {
        if *v == 1 {
            if let Some(token) = hold.borrow_mut().as_mut() {
                token.unsubscribe();
            }
        }
    });
    let (seen, cb) = recorder();
    *slot.borrow_mut() = Some(s.for_each(cb));
    s.try_set(1).unwrap();
    s.try_set(2).unwrap();
    assert_eq!(*seen.borrow(), vec![0]);
}

#[test]
fn failed_mutate_tells_nobody() {
    let s = SignalMut::<i32>::uninit();
    let (seen, cb) = recorder();
    let _token = s.for_each(cb);
    assert!(s.try_mutate(|x| *x += 1).is_err());
    assert!(seen.borrow().is_empty());
}

#[test]
fn mutate_changes_in_place_and_tells() {
    let s = SignalMut::new(vec![1]);
    let (seen, cb) = recorder();
    let _token = s.for_each(cb);
    s.try_mutate(|v| v.push(2)).unwrap();
    assert_eq!(s.try_get(), Ok(vec![1, 2]));
    assert_eq!(*seen.borrow(), vec![vec![1], vec![1, 2]]);
}

#[test]
fn read_inside_mutate_is_refused() {
    let s = SignalMut::new(1);
    let inner = s.clone();
    let got = Rc::new(RefCell::new(None));
    let log = got.clone();
    s.try_mutate(move |x| {
        *log.borrow_mut() = Some((inner.try_get(), inner.try_set(9).is_err()));
        *x = 2;
    })
    .unwrap();
    assert_eq!(*got.borrow(), Some((Err(SignalGetError::Updating), true)));
    assert_eq!(s.try_get(), Ok(2));
}

#[test]
fn filter_tells_of_accepted_values_only() {
    let s = SignalMut::new(1);
    let even = s.filter(|x| x % 2 == 0);
    let (seen, cb) = recorder();
    let _token = even.for_each(cb);
    for v in [2, 3, 4, 5, 6] {
        s.try_set(v).unwrap();
    }
    assert_eq!(*seen.borrow(), vec![1, 2, 4, 6]);
    assert_eq!(even.try_get(), Ok(6));
    s.try_set(7).unwrap();
    assert_eq!(even.try_get(), Ok(7));
}

#[test]
fn filter_map_keeps_last_mapped() {
    let s = SignalMut::new(1);
    let d = s.filter_map(|x| if x % 2 == 0 { Some(x * 100) } else { None });
    assert_eq!(d.try_get(), Err(SignalGetError::Uninit));
    s.try_set(2).unwrap();
    assert_eq!(d.try_get(), Ok(200));
    s.try_set(3).unwrap();
    assert_eq!(d.try_get(), Ok(200));
    s.try_set(4).unwrap();
    assert_eq!(d.try_get(), Ok(400));
}

#[test]
fn fold_accumulates() {
    let s = SignalMut::new(1);
    let sum = s.fold(10, |acc, x| *acc += *x);
    assert_eq!(sum.try_get(), Ok(11));
    s.try_set(2).unwrap();
    s.try_set(3).unwrap();
    assert_eq!(sum.try_get(), Ok(16));
    let (seen, cb) = recorder();
    let _token = sum.for_each(cb);
    s.try_set(4).unwrap();
    assert_eq!(*seen.borrow(), vec![16, 20]);
}

#[test]
fn map_while_stops_for_good() {
    let s = SignalMut::new(1);
    let d = s.map_while(|x| if *x < 3 { Some(*x * 2) } else { None });
    assert_eq!(d.try_get(), Ok(2));
    s.try_set(2).unwrap();
    assert_eq!(d.try_get(), Ok(4));
    s.try_set(3).unwrap();
    assert_eq!(d.try_get(), Ok(4));
    s.try_set(1).unwrap();
    assert_eq!(d.try_get(), Ok(4));
}

#[test]
fn skip_holds_back_first_notifications() {
    let s = SignalMut::new(0);
    let d = s.skip(3);
    let (seen, cb) = recorder();
    let _token = d.for_each(cb);
    for v in 1..=5 {
        s.try_set(v).unwrap();
    }
    // The value at the time of deriving counts as the first of the three.
    assert_eq!(*seen.borrow(), vec![0, 3, 4, 5]);
}

#[test]
fn skip_while_passes_from_first_refusal() {
    let s = SignalMut::new(0);
    let d = s.skip_while(|x| *x < 3);
    let (seen, cb) = recorder();
    let _token = d.for_each(cb);
    for v in [1, 2, 3, 1, 4] {
        s.try_set(v).unwrap();
    }
    assert_eq!(*seen.borrow(), vec![0, 3, 1, 4]);
}

#[test]
fn take_passes_first_notifications() {
    let s = SignalMut::new(0);
    let d = s.take(3);
    let (seen, cb) = recorder();
    let _token = d.for_each(cb);
    for v in 1..=5 {
        s.try_set(v).unwrap();
    }
    // The value at the time of deriving counts as the first of the three.
    assert_eq!(*seen.borrow(), vec![0, 1, 2]);
}

#[test]
fn take_zero_passes_nothing() {
    let s = SignalMut::new(0);
    let d = s.take(0);
    let (seen, cb) = recorder();
    let _token = d.for_each(cb);
    s.try_set(1).unwrap();
    assert_eq!(*seen.borrow(), vec![0]);
}

#[test]
fn take_while_stops_at_first_refusal() {
    let s = SignalMut::new(0);
    let d = s.take_while(|x| *x < 3);
    let (seen, cb) = recorder();
    let _token = d.for_each(cb);
    for v in [1, 2, 3, 1, 2] {
        s.try_set(v).unwrap();
    }
    assert_eq!(*seen.borrow(), vec![0, 1, 2]);
}

#[test]
fn derived_signal_does_not_outlive_its_handles() {
    let alive = Rc::new(());
    let held = alive.clone();
    let s = SignalMut::new(1);
    let d = s.map(move |x| {
        let _ = &held;
        *x
    });
    assert_eq!(Rc::strong_count(&alive), 2);
    drop(d);
    // The relay notices at the next value that nobody is left to tell.
    s.try_set(2).unwrap();
    assert_eq!(Rc::strong_count(&alive), 1);
}

#[test]
fn chain_of_maps() {
    let s = SignalMut::new(1);
    let a = s.map(|x| x + 1);
    let b = a.map(|x| x * 10);
    assert_eq!(b.try_get(), Ok(20));
    s.try_set(4).unwrap();
    assert_eq!(a.try_get(), Ok(5));
    assert_eq!(b.try_get(), Ok(50));
}

#[test]
fn clones_are_the_same_signal() {
    let s = SignalMut::new(1);
    let t = s.clone();
    let r: Signal<i32> = (*s).clone();
    t.try_set(2).unwrap();
    assert_eq!(s.try_get(), Ok(2));
    assert_eq!(r.try_get(), Ok(2));
}

#[test]
fn value_trait_on_signal_and_reference() {
    fn observe<V: Value<i32>>(v: &V) -> Vec<i32> {
        let (seen, cb) = recorder();
        let token = v.for_each(cb);
        let _ = token;
        let out = seen.borrow().clone();
        out
    }
    let s = SignalMut::new(3);
    assert_eq!(observe(&s), vec![3]);
    let plain = 4;
    assert_eq!(observe(&&plain), vec![4]);
    let mut calls = 0;
    (&plain).for_each_inner(move |_, unsub| {
        calls += 1;
        assert!(!unsub.has_effect());
        assert_eq!(calls, 1);
    });
}

#[test]
fn unit_token_has_no_effect() {
    let mut unit = ();
    assert!(!Unsubscribe::has_effect(&unit));
    Unsubscribe::unsubscribe(&mut unit);
}

#[test]
fn droppable_wraps_and_gives_back() {
    let s = SignalMut::new(1);
    let (seen, cb) = recorder();
    let scoped = s.for_each(cb).droppable();
    assert!(scoped.has_effect());
    let mut token = scoped.into_inner();
    token.unsubscribe();
    s.try_set(2).unwrap();
    assert_eq!(*seen.borrow(), vec![1]);
}

#[test]
fn signal_from_value() {
    let s: SignalMut<i32> = 5.into();
    assert_eq!(s.try_get(), Ok(5));
    let t = SignalMut::from("x");
    assert_eq!(t.try_get(), Ok("x"));
}

#[test]
fn late_subscriber_of_filtered_signal_is_shown_the_value_being_told() {
    let s = SignalMut::new(1);
    let d = s.filter(|x| *x > 0);
    let (seen, cb) = recorder();
    let mut cb = Some(cb);
    let derived = d.clone();
    s.for_each_forever(move |v| {
        if *v == 2 {
            if let Some(cb) = cb.take() {
                derived.for_each_forever(cb);
            }
        }
    });
    // The relay of `d` has run for this value when the late subscriber
    // comes; the value is shown to it at once.
    s.try_set(2).unwrap();
    assert_eq!(*seen.borrow(), vec![2]);
    s.try_set(3).unwrap();
    assert_eq!(*seen.borrow(), vec![2, 3]);
}

#[test]
fn late_subscriber_of_skipping_signal_is_shown_the_value_being_told() {
    let s = SignalMut::new(1);
    let d = s.skip(5);
    let (seen, cb) = recorder();
    let mut cb = Some(cb);
    let derived = d.clone();
    s.for_each_forever(move |v| {
        if *v == 2 {
            if let Some(cb) = cb.take() {
                derived.for_each_forever(cb);
            }
        }
    });
    s.try_set(2).unwrap();
    assert_eq!(*seen.borrow(), vec![2]);
}

#[test]
fn subscriber_during_mutate_waits_for_the_changed_value() {
    let s = SignalMut::new(1);
    let inner = s.clone();
    let (seen, cb) = recorder();
    s.try_mutate(move |x| {
        inner.for_each_forever(cb);
        *x = 2;
    })
    .unwrap();
    assert_eq!(*seen.borrow(), vec![2]);
}

#[test]
fn refused_relay_write_is_counted() {
    let s = SignalMut::new(1);
    let d = s.map(|x| x * 10);
    assert_eq!(d.refused_writes(), 0);
    let source = s.clone();
    let mut first = true;
    d.for_each_forever(move |_| {
        if first {
            first = false;
            source.try_set(5).unwrap();
        }
    });
    // While `d` shows its value to the new subscriber it takes no write.
    assert_eq!(s.try_get(), Ok(5));
    assert_eq!(d.try_get(), Ok(10));
    assert_eq!(d.refused_writes(), 1);
    s.try_set(6).unwrap();
    assert_eq!(d.try_get(), Ok(60));
    assert_eq!(d.refused_writes(), 1);
}

#[test]
fn refused_fold_is_counted() {
    let s = SignalMut::new(1);
    let sum = s.fold(0, |acc, x| *acc += *x);
    let source = s.clone();
    let mut first = true;
    sum.for_each_forever(move |_| {
        if first {
            first = false;
            source.try_set(5).unwrap();
        }
    });
    assert_eq!(sum.try_get(), Ok(1));
    assert_eq!(sum.refused_writes(), 1);
    s.try_set(2).unwrap();
    assert_eq!(sum.try_get(), Ok(3));
}

#[test]
fn droppable_reads_through() {
    let s = SignalMut::new(1);
    let scoped = s.for_each(|_| {}).droppable();
    let inner: &SignalUnsubscriber<i32> = &scoped;
    assert!(inner.has_effect());
}

#[test]
fn fold_reads_as_the_running_sum() {
    let s = SignalMut::new(1);
    let d = s.fold(0, |acc, x| *acc += *x);
    assert_eq!(d.try_get(), Ok(1));
    s.try_set(2).unwrap();
    assert_eq!(d.try_get(), Ok(3));
    s.try_set(3).unwrap();
    assert_eq!(d.try_get(), Ok(6));
    assert_eq!(s.try_get(), Ok(3));
    assert_eq!(d.refused_writes(), 0);
}
