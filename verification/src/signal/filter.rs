//! Filtered signals.
//!
//! A [`Filter`] has no value of its own: it shares the value of its source
//! and has a subscriber list of its own, which is told only of the values
//! that the filter lets through.

use std::rc::Rc;
use vstd::prelude::*;
use crate::signal::cell::ValueCell;
use crate::signal::error::SignalGetError;
use crate::signal::notify::Callback;
use crate::signal::notify::WithToken;
use crate::signal::raw::RawSignal;
use crate::signal::registry::SubscriberId;
use crate::signal::unsub::DropUnsubscriber;
use crate::signal::unsub::SignalUnsubscriber;
use crate::signal::unsub::Unsubscribe;
use crate::signal::weak::WeakRef;

verus! {

/// The capability to cancel one subscription to a [`Filter`].
#[must_use]
#[verifier::reject_recursive_types(T)]
pub struct FilterUnsubscriber<T>(SignalUnsubscriber<T>);

impl<T> FilterUnsubscriber<T> {
    /// The subscription that this token would cancel, if it has not done so
    /// yet.
    pub closed spec fn subscription(&self) -> Option<SubscriberId> {
        self.0.subscription()
    }

    /// The signal that this token would cancel a subscription to, if it
    /// has not done so yet.
    pub closed spec fn target(&self) -> Option<Rc<RawSignal<T>>> {
        self.0.target()
    }

    /// The token for the subscription `id` to the signal behind `weak`.
    pub fn new(weak: WeakRef<RawSignal<T>>, id: SubscriberId) -> (token: Self)
        ensures
            token.subscription() == Some(id),
            token.target() == Some(weak.origin()),
    {
        FilterUnsubscriber(SignalUnsubscriber::new(weak, id))
    }

    /// A token that cancels nothing.
    pub fn spent() -> (token: Self)
        ensures
            token.subscription() is None,
            token.target() is None,
    {
        FilterUnsubscriber(SignalUnsubscriber::spent())
    }

    /// Cancels the subscription, if this token has not done so yet and the
    /// signal is still there. Afterwards the token has no effect.
    pub fn unsubscribe(&mut self)
        ensures
            final(self).subscription() is None,
    {
        self.0.unsubscribe();
    }

    /// Whether `unsubscribe` would still try to cancel something.
    pub fn has_effect(&self) -> (effect: bool)
        ensures
            effect == self.subscription() is Some,
    {
        self.0.has_effect()
    }

    /// Wraps the token for a scope to own it.
    pub fn droppable(self) -> (scoped: DropUnsubscriber<Self>)
        ensures
            scoped.0 == self,
    {
        DropUnsubscriber(self)
    }
}

impl<T> Unsubscribe for FilterUnsubscriber<T> {
    open spec fn armed(&self) -> bool {
        self.subscription() is Some
    }

    fn unsubscribe(&mut self) {
        FilterUnsubscriber::unsubscribe(self);
    }

    fn has_effect(&self) -> (effect: bool) {
        FilterUnsubscriber::has_effect(self)
    }
}

impl<T> Clone for FilterUnsubscriber<T> {
    fn clone(&self) -> (token: Self)
        ensures
            token.subscription() == self.subscription(),
    {
        FilterUnsubscriber(self.0.clone())
    }
}

/// A signal that lets through the values of its source that a predicate
/// accepts.
#[verifier::reject_recursive_types(T)]
pub struct Filter<T: 'static>(Rc<RawSignal<T>>);

impl<T: 'static> Filter<T> {
    /// The inner object of the signal.
    pub closed spec fn inner(&self) -> Rc<RawSignal<T>> {
        self.0
    }

    /// The handle to the filtered signal with the given inner object.
    pub fn new_from_raw(raw: Rc<RawSignal<T>>) -> (signal: Self)
        ensures
            signal.inner() == raw,
    {
        Filter(raw)
    }

    /// A copy of the value that is shared with the source, unless the signal is being written or was never
    /// written: [`ValueCell::try_get`] of the value cell as it is now. What
    /// the cell holds now depends on who used the signal before, so no
    /// contract here can speak of it.
    pub fn try_get(&self) -> (result: Result<T, SignalGetError>) where T: Clone {
        let data = self.0.cell();
        let cell = data.take();
        let shared = cell.try_get();
        data.put(cell);
        match shared {
            Ok(shared) => Ok((*shared).clone()),
            Err(e) => Err(e),
        }
    }

    /// Subscribes `notify`, which is told of the current value at once, if
    /// there is one that can be shown, and of every later value that the
    /// filter lets through. The token cancels the subscription.
    ///
    /// Whether the callback is called at once, and when it is called later,
    /// depends on what the signal is being used for at those moments, which
    /// no contract here can speak of. [`RawSignal::raw_for_each`] names the
    /// calls on the state machines that decide it.
    pub fn for_each<F: FnMut(&T) + 'static>(&self, notify: F) -> (unsub: FilterUnsubscriber<T>)
        requires
            forall|value: &T| call_requires(notify, (value,)),
        ensures
            unsub.subscription() is Some ==> unsub.target() == Some(self.inner()),
    {
        let make = move |id: SubscriberId| -> (callback: Callback<T>)
            ensures
                callback.ready(),
            { Callback::for_each(notify) };
        match self.0.raw_for_each(make) {
            Some(id) => FilterUnsubscriber::new(WeakRef::downgrade(&self.0), id),
            None => FilterUnsubscriber::spent(),
        }
    }

    /// Subscribes `notify` as `for_each` does, and hands it the token of
    /// its own subscription with every value.
    ///
    /// Whether the callback is called at once, and when it is called later,
    /// depends on what the signal is being used for at those moments, which
    /// no contract here can speak of. [`RawSignal::raw_for_each`] names the
    /// calls on the state machines that decide it.
    pub fn for_each_inner<F: FnMut(&T, &mut FilterUnsubscriber<T>) + 'static>(&self, notify: F)
        requires
            forall|value: &T, unsub: &mut FilterUnsubscriber<T>|
                call_requires(notify, (value, unsub)),
    {
        let weak = WeakRef::downgrade(&self.0);
        let make = move |id: SubscriberId| -> (callback: Callback<T>)
            ensures
                callback.ready(),
            {
                let unsub = FilterUnsubscriber::new(weak, id);
                Callback { inner: Box::new(WithToken { notify, unsub, heard: Ghost(Seq::empty()) }) }
            };
        let _ = self.0.raw_for_each(make);
    }

    /// Subscribes `notify` as `for_each` does, for as long as the signal
    /// lives.
    ///
    /// Whether the callback is called at once, and when it is called later,
    /// depends on what the signal is being used for at those moments, which
    /// no contract here can speak of. [`RawSignal::raw_for_each`] names the
    /// calls on the state machines that decide it.
    pub fn for_each_forever<F: FnMut(&T) + 'static>(&self, notify: F)
        requires
            forall|value: &T| call_requires(notify, (value,)),
    {
        let make = move |id: SubscriberId| -> (callback: Callback<T>)
            ensures
                callback.ready(),
            { Callback::for_each(notify) };
        let _ = self.0.raw_for_each(make);
    }
}

impl<T: 'static> Clone for Filter<T> {
    fn clone(&self) -> (signal: Self)
        ensures
            signal == *self,
    {
        Filter(self.0.clone())
    }
}

} // verus!
