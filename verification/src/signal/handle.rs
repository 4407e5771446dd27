//! The handles through which signals are used.
//!
//! A [`Signal`] can be read, observed and derived from; a [`SignalMut`] can
//! be written as well. Both are cheap to clone, and all clones stand for
//! the same signal.

use std::ops::Deref;
use std::rc::Rc;
use vstd::prelude::*;
use crate::signal::cell::CellModel;
use crate::signal::cell::ValueCell;
use crate::signal::compose::Composed;
use crate::signal::compose::FilterMapRelay;
use crate::signal::compose::FilterRelay;
use crate::signal::compose::FoldRelay;
use crate::signal::compose::MapRelay;
use crate::signal::compose::MapWhileRelay;
use crate::signal::compose::Relay;
use crate::signal::compose::SkipRelay;
use crate::signal::compose::SkipWhileRelay;
use crate::signal::compose::TakeRelay;
use crate::signal::compose::TakeWhileRelay;
use crate::signal::error::SignalGetError;
use crate::signal::error::SignalMutatingError;
use crate::signal::error::SignalUpdatingError;
use crate::signal::notify::Callback;
use crate::signal::notify::WithToken;
use crate::signal::raw::RawSignal;
use crate::signal::registry::RegistryModel;
use crate::signal::registry::SubscriberId;
use crate::signal::unsub::SignalUnsubscriber;
use crate::signal::weak::WeakRef;

verus! {

/// A read-only handle to a signal.
#[verifier::reject_recursive_types(T)]
pub struct Signal<T: 'static>(Rc<RawSignal<T>>);

impl<T: 'static> Signal<T> {
    /// The inner object of the signal.
    pub closed spec fn inner(&self) -> Rc<RawSignal<T>> {
        self.0
    }

    /// The state and the value that the data of the signal was made with.
    /// For a signal that shares its value with its source, as the one of
    /// `filter` does, this is what the source's data was made with. It is
    /// not what the signal holds now.
    pub open spec fn first(&self) -> CellModel<T> {
        self.inner().data().first()
    }

    /// Whether the signal was made without subscribers.
    pub open spec fn starts_empty(&self) -> bool {
        self.inner().broadcast().first() == RegistryModel::<Callback<T>>::empty()
    }

    /// The handle to a new signal with the given inner object.
    pub fn new_from_raw(raw: RawSignal<T>) -> (signal: Self)
        ensures
            *signal.inner() == raw,
    {
        Signal(Rc::new(raw))
    }

    /// The inner object of the signal.
    pub fn raw(&self) -> (raw: &Rc<RawSignal<T>>)
        ensures
            *raw == self.inner(),
    {
        &self.0
    }

    /// A copy of the value, unless the signal is being written or was never
    /// written: [`ValueCell::try_get`] of the value cell as it is now. What
    /// the cell holds now depends on who used the signal before, so no
    /// contract here can speak of it.
    pub fn try_get(&self) -> (result: Result<T, SignalGetError>) where T: Clone {
        let data = self.0.cell();
        let cell = data.take();
        let shared = cell.try_get();
        data.put(cell);
        match shared {
            Ok(shared) => Ok((*shared).clone()),
            Err(e) => Err(e),
        }
    }

    /// How many values this signal could not take from a relay that drives
    /// it, because it was being shown or written when its source told the
    /// relay: the count that [`SignalData`](crate::signal::data::SignalData)
    /// keeps, as it is now.
    pub fn refused_writes(&self) -> (count: usize) {
        self.0.refused()
    }

    /// Subscribes `notify`, which is told of the current value at once, if
    /// there is one that can be shown, and of every later value. The token
    /// cancels the subscription.
    ///
    /// Whether the callback is called at once, and when it is called later,
    /// depends on what the signal is being used for at those moments, which
    /// no contract here can speak of. [`RawSignal::raw_for_each`] names the
    /// calls on the state machines that decide it.
    pub fn for_each<F: FnMut(&T) + 'static>(&self, notify: F) -> (unsub: SignalUnsubscriber<T>)
        requires
            forall|value: &T| call_requires(notify, (value,)),
        ensures
            unsub.subscription() is Some ==> unsub.target() == Some(self.inner()),
    {
        let make = move |id: SubscriberId| -> (callback: Callback<T>)
            ensures
                callback.ready(),
            { Callback::for_each(notify) };
        match self.0.raw_for_each(make) {
            Some(id) => SignalUnsubscriber::new(WeakRef::downgrade(&self.0), id),
            None => SignalUnsubscriber::spent(),
        }
    }

    /// Subscribes `notify` as `for_each` does, and hands it the token of
    /// its own subscription with every value, so that it can cancel itself
    /// from inside its own call.
    ///
    /// Whether the callback is called at once, and when it is called later,
    /// depends on what the signal is being used for at those moments, which
    /// no contract here can speak of. [`RawSignal::raw_for_each`] names the
    /// calls on the state machines that decide it.
    pub fn for_each_inner<F: FnMut(&T, &mut SignalUnsubscriber<T>) + 'static>(&self, notify: F)
        requires
            forall|value: &T, unsub: &mut SignalUnsubscriber<T>|
                call_requires(notify, (value, unsub)),
    {
        let weak = WeakRef::downgrade(&self.0);
        let make = move |id: SubscriberId| -> (callback: Callback<T>)
            ensures
                callback.ready(),
            {
                let unsub = SignalUnsubscriber::new(weak, id);
                Callback { inner: Box::new(WithToken { notify, unsub, heard: Ghost(Seq::empty()) }) }
            };
        let _ = self.0.raw_for_each(make);
    }

    /// Subscribes `notify` as `for_each` does, for as long as the signal
    /// lives.
    ///
    /// Whether the callback is called at once, and when it is called later,
    /// depends on what the signal is being used for at those moments, which
    /// no contract here can speak of. [`RawSignal::raw_for_each`] names the
    /// calls on the state machines that decide it.
    pub fn for_each_forever<F: FnMut(&T) + 'static>(&self, notify: F)
        requires
            forall|value: &T| call_requires(notify, (value,)),
    {
        let make = move |id: SubscriberId| -> (callback: Callback<T>)
            ensures
                callback.ready(),
            { Callback::for_each(notify) };
        let _ = self.0.raw_for_each(make);
    }

    /// The signal with inner object `raw` that `relay` derives from this
    /// one. The relay is shown the current value of this signal at once, if
    /// there is one that can be shown, and every later value.
    ///
    /// Whether the relay is shown a value at once depends on what this signal
    /// is being used for at that moment, which no contract here can speak of.
    pub fn compose<U: 'static, R: Relay<T, U> + 'static>(&self, raw: RawSignal<U>, relay: R) -> (signal:
        Signal<U>)
        requires
            relay.ready(),
        ensures
            *signal.inner() == raw,
    {
        let signal = Signal::new_from_raw(raw);
        let target = WeakRef::downgrade(&signal.0);
        let weak = WeakRef::downgrade(&self.0);
        let make = move |id: SubscriberId| -> (callback: Callback<T>)
            ensures
                callback.ready(),
            {
                let unsub = SignalUnsubscriber::new(weak, id);
                Callback { inner: Box::new(Composed { relay, target, unsub, heard: Ghost(Seq::empty()) }) }
            };
        let _ = self.0.raw_for_each(make);
        signal
    }

    /// The signal whose value is `map` of the value of this one. It is made
    /// without a value and without subscribers, and is given its values by
    /// a relay that is subscribed to this signal.
    ///
    /// Which values the derived signal takes or tells of is decided by its
    /// relay, one value of the source at a time; what the source will hold is
    /// nothing that a contract here can speak of. The relay's `decide` states
    /// each decision, and its `relay` what it does to itself and its token.
    pub fn map<U: 'static, F: FnMut(&T) -> U + 'static>(&self, map: F) -> (signal: Signal<U>)
        requires
            forall|value: &T| call_requires(map, (value,)),
        ensures
            signal.first() == CellModel::<U>::uninit(),
            signal.starts_empty(),
    {
        self.compose(RawSignal::new(None), MapRelay { map })
    }

    /// The signal that shares the value of this one and tells its
    /// subscribers of the values that `predicate` accepts.
    ///
    /// Which values the derived signal takes or tells of is decided by its
    /// relay, one value of the source at a time; what the source will hold is
    /// nothing that a contract here can speak of. The relay's `decide` states
    /// each decision, and its `relay` what it does to itself and its token.
    pub fn filter<P: FnMut(&T) -> bool + 'static>(&self, predicate: P) -> (signal: Signal<T>)
        requires
            forall|value: &T| call_requires(predicate, (value,)),
        ensures
            signal.inner().data() == self.inner().data(),
            signal.starts_empty(),
    {
        self.compose(self.0.shared(), FilterRelay { predicate })
    }

    /// The signal whose value is what `filter_map` last made of a value of
    /// this one.
    ///
    /// Which values the derived signal takes or tells of is decided by its
    /// relay, one value of the source at a time; what the source will hold is
    /// nothing that a contract here can speak of. The relay's `decide` states
    /// each decision, and its `relay` what it does to itself and its token.
    pub fn filter_map<U: 'static, F: FnMut(&T) -> Option<U> + 'static>(&self, filter_map: F) -> (signal:
        Signal<U>)
        requires
            forall|value: &T| call_requires(filter_map, (value,)),
        ensures
            signal.first() == CellModel::<U>::uninit(),
            signal.starts_empty(),
    {
        self.compose(RawSignal::new(None), FilterMapRelay { filter_map })
    }

    /// The signal that starts with `initial_value` and has every value of
    /// this one folded into it by `fold`: for each value its relay takes
    /// the accumulator out of the derived signal, has
    /// [`FoldRelay::fold_into`] fold the value into it, and puts it back.
    ///
    /// Which values the derived signal takes or tells of is decided by its
    /// relay, one value of the source at a time; what the source will hold is
    /// nothing that a contract here can speak of. The relay's `decide` states
    /// each decision, and its `relay` what it does to itself and its token.
    pub fn fold<U: 'static, F: FnMut(&mut U, &T) + 'static>(&self, initial_value: U, fold: F) -> (signal:
        Signal<U>)
        requires
            forall|acc: &mut U, value: &T| call_requires(fold, (acc, value)),
        ensures
            signal.first() == CellModel::new(initial_value),
            signal.starts_empty(),
    {
        self.compose(RawSignal::new(Some(initial_value)), FoldRelay { fold })
    }

    /// The signal whose value is what `map_while` made of a value of this
    /// one, until `map_while` gives nothing: from then on it stays as it
    /// is.
    ///
    /// Which values the derived signal takes or tells of is decided by its
    /// relay, one value of the source at a time; what the source will hold is
    /// nothing that a contract here can speak of. The relay's `decide` states
    /// each decision, and its `relay` what it does to itself and its token.
    pub fn map_while<U: 'static, F: FnMut(&T) -> Option<U> + 'static>(&self, map_while: F) -> (signal:
        Signal<U>)
        requires
            forall|value: &T| call_requires(map_while, (value,)),
        ensures
            signal.first() == CellModel::<U>::uninit(),
            signal.starts_empty(),
    {
        self.compose(RawSignal::new(None), MapWhileRelay { map_while })
    }

    /// The signal that shares the value of this one and tells its
    /// subscribers of all values but the first `n`.
    ///
    /// Which values the derived signal takes or tells of is decided by its
    /// relay, one value of the source at a time; what the source will hold is
    /// nothing that a contract here can speak of. The relay's `decide` states
    /// each decision, and its `relay` what it does to itself and its token.
    pub fn skip(&self, n: usize) -> (signal: Signal<T>)
        ensures
            signal.inner().data() == self.inner().data(),
            signal.starts_empty(),
    {
        self.compose(self.0.shared(), SkipRelay::new(n))
    }

    /// The signal that shares the value of this one and tells its
    /// subscribers of the values from the first that `predicate` refuses.
    ///
    /// Which values the derived signal takes or tells of is decided by its
    /// relay, one value of the source at a time; what the source will hold is
    /// nothing that a contract here can speak of. The relay's `decide` states
    /// each decision, and its `relay` what it does to itself and its token.
    pub fn skip_while<P: FnMut(&T) -> bool + 'static>(&self, predicate: P) -> (signal: Signal<T>)
        requires
            forall|value: &T| call_requires(predicate, (value,)),
        ensures
            signal.inner().data() == self.inner().data(),
            signal.starts_empty(),
    {
        self.compose(self.0.shared(), SkipWhileRelay { predicate: Some(predicate) })
    }

    /// The signal that shares the value of this one and tells its
    /// subscribers of the first `n` values.
    ///
    /// Which values the derived signal takes or tells of is decided by its
    /// relay, one value of the source at a time; what the source will hold is
    /// nothing that a contract here can speak of. The relay's `decide` states
    /// each decision, and its `relay` what it does to itself and its token.
    pub fn take(&self, n: usize) -> (signal: Signal<T>)
        ensures
            signal.inner().data() == self.inner().data(),
            signal.starts_empty(),
    {
        self.compose(self.0.shared(), TakeRelay::new(n))
    }

    /// The signal that shares the value of this one and tells its
    /// subscribers of the values before the first that `predicate` refuses.
    ///
    /// Which values the derived signal takes or tells of is decided by its
    /// relay, one value of the source at a time; what the source will hold is
    /// nothing that a contract here can speak of. The relay's `decide` states
    /// each decision, and its `relay` what it does to itself and its token.
    pub fn take_while<P: FnMut(&T) -> bool + 'static>(&self, predicate: P) -> (signal: Signal<T>)
        requires
            forall|value: &T| call_requires(predicate, (value,)),
        ensures
            signal.inner().data() == self.inner().data(),
            signal.starts_empty(),
    {
        self.compose(self.0.shared(), TakeWhileRelay { predicate: Some(predicate) })
    }
}

impl<T: 'static> Clone for Signal<T> {
    fn clone(&self) -> (signal: Self)
        ensures
            signal == *self,
    {
        Signal(self.0.clone())
    }
}

/// A handle to a signal that can also write it.
#[verifier::reject_recursive_types(T)]
pub struct SignalMut<T: 'static>(Signal<T>);

impl<T: 'static> SignalMut<T> {
    /// The read-only handle to the same signal.
    pub closed spec fn as_signal(&self) -> Signal<T> {
        self.0
    }

    /// The state and the value that the signal was made with.
    pub open spec fn first(&self) -> CellModel<T> {
        self.as_signal().first()
    }

    /// A new signal that is at rest with `initial_value` and has no
    /// subscribers.
    pub fn new(initial_value: T) -> (signal: Self)
        ensures
            signal.first() == CellModel::new(initial_value),
            signal.as_signal().starts_empty(),
    {
        SignalMut(Signal::new_from_raw(RawSignal::new(Some(initial_value))))
    }

    /// A new signal whose value is yet to be written, without subscribers.
    pub fn uninit() -> (signal: Self)
        ensures
            signal.first() == CellModel::<T>::uninit(),
            signal.as_signal().starts_empty(),
    {
        SignalMut(Signal::new_from_raw(RawSignal::new(None)))
    }

    /// A new signal that is at rest with `initial_value`, or has no value
    /// yet, without subscribers.
    pub fn maybe_uninit(initial_value: Option<T>) -> (signal: Self)
        ensures
            signal.first() == RawSignal::starts_with(initial_value),
            signal.as_signal().starts_empty(),
    {
        SignalMut(Signal::new_from_raw(RawSignal::new(initial_value)))
    }

    /// Writes a value and tells the subscribers of it. Refused, with
    /// nobody told, while the signal is being shown or written:
    /// [`ValueCell::begin_set`] on the value cell as it is now decides, and
    /// only on `Ok` is the subscriber list touched. What the cell holds now
    /// depends on who used the signal before, so no contract here can speak
    /// of it.
    pub fn try_set(&self, new_value: T) -> (result: Result<(), SignalUpdatingError>) {
        let shared = Rc::new(new_value);
        let data = self.0.0.cell();
        let mut cell = data.take();
        let replaced = cell.begin_set(shared.clone());
        data.put(cell);
        match replaced {
            Ok(_) => {
                self.0.0.announce(&shared);
                Ok(())
            },
            Err(e) => Err(e),
        }
    }

    /// Changes the value in place and tells the subscribers of it. Refused,
    /// with nobody told and the value left alone, while the signal is being
    /// shown or written, and when it has no value:
    /// [`ValueCell::take_owned`] on the value cell as it is now decides, and
    /// only on `Ok` are `mutate` and the subscriber list touched. What the
    /// cell holds now depends on who used the signal before, so no contract
    /// here can say when the change is accepted; if it is, `mutate` was
    /// applied to the value.
    pub fn try_mutate<F: FnOnce(&mut T)>(&self, mutate: F) -> (result: Result<
        (),
        SignalMutatingError,
    >)
        requires
            forall|target: &mut T| call_requires(mutate, (target,)),
        ensures
            result is Ok ==> exists|target: &mut T| call_ensures(mutate, (target,), ()),
    {
        let data = self.0.0.cell();
        let mut cell = data.take();
        let taken = cell.take_owned();
        data.put(cell);
        match taken {
            Ok(value) => {
                let mut value = value;
                mutate(&mut value);
                self.0.0.end_mutate(value);
                Ok(())
            },
            Err(e) => Err(e),
        }
    }

    /// See [`Signal::for_each`].
    ///
    /// Whether the callback is called at once, and when it is called later,
    /// depends on what the signal is being used for at those moments, which
    /// no contract here can speak of. [`RawSignal::raw_for_each`] names the
    /// calls on the state machines that decide it.
    pub fn for_each<F: FnMut(&T) + 'static>(&self, notify: F) -> (unsub: SignalUnsubscriber<T>)
        requires
            forall|value: &T| call_requires(notify, (value,)),
        ensures
            unsub.subscription() is Some ==> unsub.target() == Some(self.as_signal().inner()),
    {
        self.0.for_each(notify)
    }

    /// See [`Signal::for_each_inner`].
    ///
    /// Whether the callback is called at once, and when it is called later,
    /// depends on what the signal is being used for at those moments, which
    /// no contract here can speak of. [`RawSignal::raw_for_each`] names the
    /// calls on the state machines that decide it.
    pub fn for_each_inner<F: FnMut(&T, &mut SignalUnsubscriber<T>) + 'static>(&self, notify: F)
        requires
            forall|value: &T, unsub: &mut SignalUnsubscriber<T>|
                call_requires(notify, (value, unsub)),
    {
        self.0.for_each_inner(notify);
    }

    /// See [`Signal::for_each_forever`].
    ///
    /// Whether the callback is called at once, and when it is called later,
    /// depends on what the signal is being used for at those moments, which
    /// no contract here can speak of. [`RawSignal::raw_for_each`] names the
    /// calls on the state machines that decide it.
    pub fn for_each_forever<F: FnMut(&T) + 'static>(&self, notify: F)
        requires
            forall|value: &T| call_requires(notify, (value,)),
    {
        self.0.for_each_forever(notify);
    }
}

impl<T: 'static> Clone for SignalMut<T> {
    fn clone(&self) -> (signal: Self)
        ensures
            signal == *self,
    {
        SignalMut(self.0.clone())
    }
}

impl<T: 'static> Deref for SignalMut<T> {
    type Target = Signal<T>;

    fn deref(&self) -> (signal: &Signal<T>)
        ensures
            *signal == self.as_signal(),
    {
        &self.0
    }
}

impl<T: 'static> From<T> for SignalMut<T> {
    /// A new signal that is at rest with `initial_value` and has no
    /// subscribers.
    fn from(initial_value: T) -> (signal: Self)
        ensures
            signal.first() == CellModel::new(initial_value),
            signal.as_signal().starts_empty(),
    {
        SignalMut::new(initial_value)
    }
}

impl<T: 'static> vstd::std_specs::convert::FromSpecImpl<T> for SignalMut<T> {
    /// A new signal is not a function of its first value: two signals made
    /// from one value are two signals.
    open spec fn obeys_from_spec() -> bool {
        false
    }

    open spec fn from_spec(initial_value: T) -> Self {
        arbitrary()
    }
}

} // verus!
