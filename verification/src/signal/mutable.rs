//! Handles that tell writable signals from computed ones by their type.
//!
//! A [`Mutable`] is a signal that its owner writes. A [`Computed`] is a
//! signal that follows another one. Each kind has a token type of its own,
//! so that a token cannot be passed off as one of another kind.

use std::rc::Rc;
use vstd::prelude::*;
use crate::signal::cell::CellModel;
use crate::signal::cell::ValueCell;
use crate::signal::compose::Composed;
use crate::signal::compose::FilterRelay;
use crate::signal::compose::MapRelay;
use crate::signal::error::SignalGetError;
use crate::signal::error::SignalMutatingError;
use crate::signal::error::SignalUpdatingError;
use crate::signal::filter::Filter;
use crate::signal::notify::Callback;
use crate::signal::notify::WithToken;
use crate::signal::raw::RawSignal;
use crate::signal::registry::RegistryModel;
use crate::signal::registry::SubscriberId;
use crate::signal::unsub::SignalUnsubscriber;
use crate::signal::unsub::Unsubscribe;
use crate::signal::weak::WeakRef;

verus! {

/// The capability to cancel one subscription to a [`Mutable`].
#[must_use]
#[verifier::reject_recursive_types(T)]
pub struct MutableUnsubscriber<T>(SignalUnsubscriber<T>);

impl<T> MutableUnsubscriber<T> {
    /// The subscription that this token would cancel, if it has not done so
    /// yet.
    pub closed spec fn subscription(&self) -> Option<SubscriberId> {
        self.0.subscription()
    }

    /// The signal that this token would cancel a subscription to, if it
    /// has not done so yet.
    pub closed spec fn target(&self) -> Option<Rc<RawSignal<T>>> {
        self.0.target()
    }

    /// The token for the subscription `id` to the signal behind `weak`.
    pub fn new(weak: WeakRef<RawSignal<T>>, id: SubscriberId) -> (token: Self)
        ensures
            token.subscription() == Some(id),
            token.target() == Some(weak.origin()),
    {
        MutableUnsubscriber(SignalUnsubscriber::new(weak, id))
    }

    /// A token that cancels nothing.
    pub fn spent() -> (token: Self)
        ensures
            token.subscription() is None,
            token.target() is None,
    {
        MutableUnsubscriber(SignalUnsubscriber::spent())
    }

    /// Cancels the subscription, if this token has not done so yet and the
    /// signal is still there. Afterwards the token has no effect.
    pub fn unsubscribe(&mut self)
        ensures
            final(self).subscription() is None,
    {
        self.0.unsubscribe();
    }

    /// Whether `unsubscribe` would still try to cancel something.
    pub fn has_effect(&self) -> (effect: bool)
        ensures
            effect == self.subscription() is Some,
    {
        self.0.has_effect()
    }
}

impl<T> Unsubscribe for MutableUnsubscriber<T> {
    open spec fn armed(&self) -> bool {
        self.subscription() is Some
    }

    fn unsubscribe(&mut self) {
        MutableUnsubscriber::unsubscribe(self);
    }

    fn has_effect(&self) -> (effect: bool) {
        MutableUnsubscriber::has_effect(self)
    }
}

impl<T> Clone for MutableUnsubscriber<T> {
    fn clone(&self) -> (token: Self)
        ensures
            token.subscription() == self.subscription(),
    {
        MutableUnsubscriber(self.0.clone())
    }
}

/// A signal that its owner writes.
#[verifier::reject_recursive_types(T)]
pub struct Mutable<T: 'static>(Rc<RawSignal<T>>);

impl<T: 'static> Mutable<T> {
    /// The inner object of the signal.
    pub closed spec fn inner(&self) -> Rc<RawSignal<T>> {
        self.0
    }

    /// The state and the value that the data of the signal was made with.
    /// It is not what the signal holds now.
    pub open spec fn first(&self) -> CellModel<T> {
        self.inner().data().first()
    }

    /// Whether the signal was made without subscribers.
    pub open spec fn starts_empty(&self) -> bool {
        self.inner().broadcast().first() == RegistryModel::<Callback<T>>::empty()
    }

    /// The handle to the signal with the given inner object.
    pub fn new_from_raw(raw: Rc<RawSignal<T>>) -> (signal: Self)
        ensures
            signal.inner() == raw,
    {
        Mutable(raw)
    }

    /// A new signal that is at rest with `initial_value` and has no
    /// subscribers.
    pub fn new(initial_value: T) -> (signal: Self)
        ensures
            signal.first() == CellModel::new(initial_value),
            signal.starts_empty(),
    {
        Mutable(Rc::new(RawSignal::new(Some(initial_value))))
    }

    /// A new signal whose value is yet to be written, without subscribers.
    pub fn uninit() -> (signal: Self)
        ensures
            signal.first() == CellModel::<T>::uninit(),
            signal.starts_empty(),
    {
        Mutable(Rc::new(RawSignal::uninit()))
    }

    /// A copy of the value, unless the signal is being written or was never
    /// written: [`ValueCell::try_get`] of the value cell as it is now. What
    /// the cell holds now depends on who used the signal before, so no
    /// contract here can speak of it.
    pub fn try_get(&self) -> (result: Result<T, SignalGetError>) where T: Clone {
        let data = self.0.cell();
        let cell = data.take();
        let shared = cell.try_get();
        data.put(cell);
        match shared {
            Ok(shared) => Ok((*shared).clone()),
            Err(e) => Err(e),
        }
    }

    /// Writes a value and tells the subscribers of it. Refused, with
    /// nobody told, while the signal is being shown or written:
    /// [`ValueCell::begin_set`] on the value cell as it is now decides, and
    /// only on `Ok` is the subscriber list touched. What the cell holds now
    /// depends on who used the signal before, so no contract here can speak
    /// of it.
    pub fn try_set(&self, new_value: T) -> (result: Result<(), SignalUpdatingError>) {
        let shared = Rc::new(new_value);
        let data = self.0.cell();
        let mut cell = data.take();
        let replaced = cell.begin_set(shared.clone());
        data.put(cell);
        match replaced {
            Ok(_) => {
                self.0.announce(&shared);
                Ok(())
            },
            Err(e) => Err(e),
        }
    }

    /// Changes the value in place and tells the subscribers of it. Refused,
    /// with nobody told and the value left alone, while the signal is being
    /// shown or written, and when it has no value:
    /// [`ValueCell::take_owned`] on the value cell as it is now decides, and
    /// only on `Ok` are `mutate` and the subscriber list touched. What the
    /// cell holds now depends on who used the signal before, so no contract
    /// here can say when the change is accepted; if it is, `mutate` was
    /// applied to the value.
    pub fn try_mutate<F: FnOnce(&mut T)>(&self, mutate: F) -> (result: Result<
        (),
        SignalMutatingError,
    >)
        requires
            forall|target: &mut T| call_requires(mutate, (target,)),
        ensures
            result is Ok ==> exists|target: &mut T| call_ensures(mutate, (target,), ()),
    {
        let data = self.0.cell();
        let mut cell = data.take();
        let taken = cell.take_owned();
        data.put(cell);
        match taken {
            Ok(value) => {
                let mut value = value;
                mutate(&mut value);
                self.0.end_mutate(value);
                Ok(())
            },
            Err(e) => Err(e),
        }
    }

    /// Replaces the value by what `update` makes of it and tells the
    /// subscribers of it. Refused as `try_mutate` is:
    /// [`ValueCell::take_owned`] on the value cell as it is now decides, and
    /// only on `Ok` are `update` and the subscriber list touched. If the
    /// change is accepted, `update` was applied to the value.
    pub fn try_update<F: FnOnce(&T) -> T>(&self, update: F) -> (result: Result<
        (),
        SignalMutatingError,
    >)
        requires
            forall|value: &T| call_requires(update, (value,)),
        ensures
            result is Ok ==> exists|value: &T, updated: T| call_ensures(update, (value,), updated),
    {
        let data = self.0.cell();
        let mut cell = data.take();
        let taken = cell.take_owned();
        data.put(cell);
        match taken {
            Ok(value) => {
                let updated = update(&value);
                self.0.end_mutate(updated);
                Ok(())
            },
            Err(e) => Err(e),
        }
    }

    /// Subscribes `notify`, which is told of the current value at once, if
    /// there is one that can be shown, and of every later value. The token
    /// cancels the subscription.
    ///
    /// Whether the callback is called at once, and when it is called later,
    /// depends on what the signal is being used for at those moments, which
    /// no contract here can speak of. [`RawSignal::raw_for_each`] names the
    /// calls on the state machines that decide it.
    pub fn for_each<F: FnMut(&T) + 'static>(&self, notify: F) -> (unsub: MutableUnsubscriber<T>)
        requires
            forall|value: &T| call_requires(notify, (value,)),
        ensures
            unsub.subscription() is Some ==> unsub.target() == Some(self.inner()),
    {
        let make = move |id: SubscriberId| -> (callback: Callback<T>)
            ensures
                callback.ready(),
            { Callback::for_each(notify) };
        match self.0.raw_for_each(make) {
            Some(id) => MutableUnsubscriber::new(WeakRef::downgrade(&self.0), id),
            None => MutableUnsubscriber::spent(),
        }
    }

    /// Subscribes `notify` as `for_each` does, and hands it the token of
    /// its own subscription with every value.
    ///
    /// Whether the callback is called at once, and when it is called later,
    /// depends on what the signal is being used for at those moments, which
    /// no contract here can speak of. [`RawSignal::raw_for_each`] names the
    /// calls on the state machines that decide it.
    pub fn for_each_inner<F: FnMut(&T, &mut MutableUnsubscriber<T>) + 'static>(&self, notify: F)
        requires
            forall|value: &T, unsub: &mut MutableUnsubscriber<T>|
                call_requires(notify, (value, unsub)),
    {
        let weak = WeakRef::downgrade(&self.0);
        let make = move |id: SubscriberId| -> (callback: Callback<T>)
            ensures
                callback.ready(),
            {
                let unsub = MutableUnsubscriber::new(weak, id);
                Callback { inner: Box::new(WithToken { notify, unsub, heard: Ghost(Seq::empty()) }) }
            };
        let _ = self.0.raw_for_each(make);
    }

    /// Subscribes `notify` as `for_each` does, for as long as the signal
    /// lives.
    ///
    /// Whether the callback is called at once, and when it is called later,
    /// depends on what the signal is being used for at those moments, which
    /// no contract here can speak of. [`RawSignal::raw_for_each`] names the
    /// calls on the state machines that decide it.
    pub fn for_each_forever<F: FnMut(&T) + 'static>(&self, notify: F)
        requires
            forall|value: &T| call_requires(notify, (value,)),
    {
        let make = move |id: SubscriberId| -> (callback: Callback<T>)
            ensures
                callback.ready(),
            { Callback::for_each(notify) };
        let _ = self.0.raw_for_each(make);
    }

    /// The signal whose value is `map` of the value of this one. It is made
    /// without a value and without subscribers, and is given its values by
    /// a relay that is subscribed to this signal.
    ///
    /// Which values the derived signal takes or tells of is decided by its
    /// relay, one value of the source at a time; what the source will hold is
    /// nothing that a contract here can speak of. The relay's `decide` states
    /// each decision, and its `relay` what it does to itself and its token.
    pub fn map<U: 'static, F: FnMut(&T) -> U + 'static>(&self, map: F) -> (signal: Computed<U>)
        requires
            forall|value: &T| call_requires(map, (value,)),
        ensures
            signal.first() == CellModel::<U>::uninit(),
            signal.inner().starts_empty(),
    {
        let derived = Rc::new(RawSignal::new(None));
        let target = WeakRef::downgrade(&derived);
        let weak = WeakRef::downgrade(&self.0);
        let make = move |id: SubscriberId| -> (callback: Callback<T>)
            ensures
                callback.ready(),
            {
                let unsub = SignalUnsubscriber::new(weak, id);
                Callback {
                    inner: Box::new(
                        Composed {
                            relay: MapRelay { map },
                            target,
                            unsub,
                            heard: Ghost(Seq::empty()),
                        },
                    ),
                }
            };
        let _ = self.0.raw_for_each(make);
        Computed(Mutable(derived))
    }

    /// The signal that shares the value of this one and tells its
    /// subscribers of the values that `predicate` accepts.
    ///
    /// Which values the derived signal takes or tells of is decided by its
    /// relay, one value of the source at a time; what the source will hold is
    /// nothing that a contract here can speak of. The relay's `decide` states
    /// each decision, and its `relay` what it does to itself and its token.
    pub fn filter<P: FnMut(&T) -> bool + 'static>(&self, predicate: P) -> (signal: Filter<T>)
        requires
            forall|value: &T| call_requires(predicate, (value,)),
        ensures
            signal.inner().data() == self.inner().data(),
            signal.inner().broadcast().first() == RegistryModel::<Callback<T>>::empty(),
    {
        let derived = Rc::new(self.0.shared());
        let target = WeakRef::downgrade(&derived);
        let weak = WeakRef::downgrade(&self.0);
        let make = move |id: SubscriberId| -> (callback: Callback<T>)
            ensures
                callback.ready(),
            {
                let unsub = SignalUnsubscriber::new(weak, id);
                Callback {
                    inner: Box::new(
                        Composed {
                            relay: FilterRelay { predicate },
                            target,
                            unsub,
                            heard: Ghost(Seq::empty()),
                        },
                    ),
                }
            };
        let _ = self.0.raw_for_each(make);
        Filter::new_from_raw(derived)
    }
}

impl<T: 'static> Clone for Mutable<T> {
    fn clone(&self) -> (signal: Self)
        ensures
            signal == *self,
    {
        Mutable(self.0.clone())
    }
}

/// The capability to cancel one subscription to a [`Computed`].
#[must_use]
#[verifier::reject_recursive_types(T)]
pub struct Unsubscriber<T>(SignalUnsubscriber<T>);

impl<T> Unsubscriber<T> {
    /// The subscription that this token would cancel, if it has not done so
    /// yet.
    pub closed spec fn subscription(&self) -> Option<SubscriberId> {
        self.0.subscription()
    }

    /// The signal that this token would cancel a subscription to, if it
    /// has not done so yet.
    pub closed spec fn target(&self) -> Option<Rc<RawSignal<T>>> {
        self.0.target()
    }

    /// The token for the subscription `id` to the signal behind `weak`.
    pub fn new(weak: WeakRef<RawSignal<T>>, id: SubscriberId) -> (token: Self)
        ensures
            token.subscription() == Some(id),
            token.target() == Some(weak.origin()),
    {
        Unsubscriber(SignalUnsubscriber::new(weak, id))
    }

    /// A token that cancels nothing.
    pub fn spent() -> (token: Self)
        ensures
            token.subscription() is None,
            token.target() is None,
    {
        Unsubscriber(SignalUnsubscriber::spent())
    }

    /// Whether the token is still needed to cancel something.
    pub fn needed(&self) -> (needed: bool)
        ensures
            needed == self.subscription() is Some,
    {
        self.0.has_effect()
    }

    /// Cancels the subscription, if this token has not done so yet and the
    /// signal is still there. Afterwards the token has no effect.
    pub fn unsubscribe(&mut self)
        ensures
            final(self).subscription() is None,
    {
        self.0.unsubscribe();
    }

    /// Whether `unsubscribe` would still try to cancel something.
    pub fn has_effect(&self) -> (effect: bool)
        ensures
            effect == self.subscription() is Some,
    {
        self.0.has_effect()
    }

    /// Wraps the token for a scope to own it.
    pub fn droppable(self) -> (scoped: DroppableUnsubscriber<T>)
        ensures
            scoped.0 == self,
    {
        DroppableUnsubscriber(self)
    }
}

impl<T> Unsubscribe for Unsubscriber<T> {
    open spec fn armed(&self) -> bool {
        self.subscription() is Some
    }

    fn unsubscribe(&mut self) {
        Unsubscriber::unsubscribe(self);
    }

    fn has_effect(&self) -> (effect: bool) {
        Unsubscriber::has_effect(self)
    }
}

impl<T> Clone for Unsubscriber<T> {
    fn clone(&self) -> (token: Self)
        ensures
            token.subscription() == self.subscription(),
    {
        Unsubscriber(self.0.clone())
    }
}

/// A token of a [`Computed`] held for a scope: whoever owns the scope
/// cancels the subscription when the scope ends.
#[verifier::reject_recursive_types(T)]
pub struct DroppableUnsubscriber<T>(pub Unsubscriber<T>);

impl<T> DroppableUnsubscriber<T> {
    /// The token, taken back from the scope.
    ///
    /// Which values the derived signal takes or tells of is decided by its
    /// relay, one value of the source at a time; what the source will hold is
    /// nothing that a contract here can speak of. The relay's `decide` states
    /// each decision, and its `relay` what it does to itself and its token.
    pub fn take(self) -> (token: Unsubscriber<T>)
        ensures
            token == self.0,
    {
        self.0
    }
}

/// A signal that follows another one. It can be read and observed like any
/// signal.
#[verifier::reject_recursive_types(T)]
pub struct Computed<T: 'static>(Mutable<T>);

impl<T: 'static> Computed<T> {
    /// The writable signal behind this computed one.
    pub closed spec fn inner(&self) -> Mutable<T> {
        self.0
    }

    /// The state and the value that the signal was made with.
    pub open spec fn first(&self) -> CellModel<T> {
        self.inner().first()
    }

    /// A computed signal that follows nothing and has no value. Only
    /// writing to it through `as_mutable` gives it one.
    pub fn uninit() -> (signal: Self)
        ensures
            signal.first() == CellModel::<T>::uninit(),
            signal.inner().starts_empty(),
    {
        Computed(Mutable::uninit())
    }

    /// How many values this signal could not take from the relay that
    /// drives it, because it was being shown or written when its source
    /// told the relay.
    pub fn refused_writes(&self) -> (count: usize) {
        self.0.0.refused()
    }

    /// The writable signal behind this computed one.
    pub fn as_mutable(&self) -> (mutable: &Mutable<T>)
        ensures
            *mutable == self.inner(),
    {
        &self.0
    }

    /// A copy of the value, unless the signal is being written or was never
    /// written: [`ValueCell::try_get`] of the value cell as it is now. What
    /// the cell holds now depends on who used the signal before, so no
    /// contract here can speak of it.
    pub fn try_get(&self) -> (result: Result<T, SignalGetError>) where T: Clone {
        let data = self.0.0.cell();
        let cell = data.take();
        let shared = cell.try_get();
        data.put(cell);
        match shared {
            Ok(shared) => Ok((*shared).clone()),
            Err(e) => Err(e),
        }
    }

    /// Subscribes `notify`, which is told of the current value at once, if
    /// there is one that can be shown, and of every later value. The token
    /// cancels the subscription.
    ///
    /// Whether the callback is called at once, and when it is called later,
    /// depends on what the signal is being used for at those moments, which
    /// no contract here can speak of. [`RawSignal::raw_for_each`] names the
    /// calls on the state machines that decide it.
    pub fn for_each<F: FnMut(&T) + 'static>(&self, notify: F) -> (unsub: Unsubscriber<T>)
        requires
            forall|value: &T| call_requires(notify, (value,)),
        ensures
            unsub.subscription() is Some ==> unsub.target() == Some(self.inner().inner()),
    {
        let raw = &self.0.0;
        let make = move |id: SubscriberId| -> (callback: Callback<T>)
            ensures
                callback.ready(),
            { Callback::for_each(notify) };
        match raw.raw_for_each(make) {
            Some(id) => Unsubscriber::new(WeakRef::downgrade(raw), id),
            None => Unsubscriber::spent(),
        }
    }

    /// Subscribes `notify` as `for_each` does, and hands it the token of
    /// its own subscription with every value.
    ///
    /// Whether the callback is called at once, and when it is called later,
    /// depends on what the signal is being used for at those moments, which
    /// no contract here can speak of. [`RawSignal::raw_for_each`] names the
    /// calls on the state machines that decide it.
    pub fn for_each_inner<F: FnMut(&T, &mut Unsubscriber<T>) + 'static>(&self, notify: F)
        requires
            forall|value: &T, unsub: &mut Unsubscriber<T>| call_requires(notify, (value, unsub)),
    {
        let raw = &self.0.0;
        let weak = WeakRef::downgrade(raw);
        let make = move |id: SubscriberId| -> (callback: Callback<T>)
            ensures
                callback.ready(),
            {
                let unsub = Unsubscriber::new(weak, id);
                Callback { inner: Box::new(WithToken { notify, unsub, heard: Ghost(Seq::empty()) }) }
            };
        let _ = raw.raw_for_each(make);
    }

    /// Subscribes `notify` as `for_each` does, for as long as the signal
    /// lives.
    ///
    /// Whether the callback is called at once, and when it is called later,
    /// depends on what the signal is being used for at those moments, which
    /// no contract here can speak of. [`RawSignal::raw_for_each`] names the
    /// calls on the state machines that decide it.
    pub fn for_each_forever<F: FnMut(&T) + 'static>(&self, notify: F)
        requires
            forall|value: &T| call_requires(notify, (value,)),
    {
        self.0.for_each_forever(notify);
    }
}

impl<T: 'static> Clone for Computed<T> {
    fn clone(&self) -> (signal: Self)
        ensures
            signal == *self,
    {
        Computed(self.0.clone())
    }
}

} // verus!
