//! Things that can be observed like a signal.

use vstd::prelude::*;
use crate::signal::handle::Signal;
use crate::signal::handle::SignalMut;
use crate::signal::unsub::SignalUnsubscriber;

verus! {

/// A value that may change over time, or may not: a signal, or a plain
/// reference, which stands for a signal that never changes.
pub trait Value<T> {
    /// Tells `notify` of the current value, if there is one that can be
    /// shown, and of every later one, until the token cancels that.
    ///
    /// For a signal, when the callback is called depends on what the signal
    /// is being used for at those moments, which no contract here can speak
    /// of.
    fn for_each<F: FnMut(&T) + 'static>(&self, notify: F) -> (unsub: SignalUnsubscriber<T>)
        requires
            forall|value: &T| call_requires(notify, (value,)),
    ;

    /// As `for_each`, with the token handed to `notify` on every call.
    ///
    /// For a signal, when the callback is called depends on what the signal
    /// is being used for at those moments, which no contract here can speak
    /// of.
    fn for_each_inner<F: FnMut(&T, &mut SignalUnsubscriber<T>) + 'static>(&self, notify: F)
        requires
            forall|value: &T, unsub: &mut SignalUnsubscriber<T>|
                call_requires(notify, (value, unsub)),
    ;

    /// As `for_each`, without a way to cancel.
    ///
    /// For a signal, when the callback is called depends on what the signal
    /// is being used for at those moments, which no contract here can speak
    /// of.
    fn for_each_forever<F: FnMut(&T) + 'static>(&self, notify: F)
        requires
            forall|value: &T| call_requires(notify, (value,)),
    {
        let _ = self.for_each(notify);
    }
}

impl<T: 'static> Value<T> for Signal<T> {
    fn for_each<F: FnMut(&T) + 'static>(&self, notify: F) -> (unsub: SignalUnsubscriber<T>)
        ensures
            unsub.subscription() is Some ==> unsub.target() == Some(self.inner()),
    {
        Signal::for_each(self, notify)
    }

    fn for_each_inner<F: FnMut(&T, &mut SignalUnsubscriber<T>) + 'static>(&self, notify: F) {
        Signal::for_each_inner(self, notify);
    }

    fn for_each_forever<F: FnMut(&T) + 'static>(&self, notify: F) {
        Signal::for_each_forever(self, notify);
    }
}

impl<T: 'static> Value<T> for SignalMut<T> {
    fn for_each<F: FnMut(&T) + 'static>(&self, notify: F) -> (unsub: SignalUnsubscriber<T>)
        ensures
            unsub.subscription() is Some ==> unsub.target() == Some(self.as_signal().inner()),
    {
        SignalMut::for_each(self, notify)
    }

    fn for_each_inner<F: FnMut(&T, &mut SignalUnsubscriber<T>) + 'static>(&self, notify: F) {
        SignalMut::for_each_inner(self, notify);
    }

    fn for_each_forever<F: FnMut(&T) + 'static>(&self, notify: F) {
        SignalMut::for_each_forever(self, notify);
    }
}

impl<T> Value<T> for &T {
    /// The value is shown once, and the token has nothing to cancel.
    fn for_each<F: FnMut(&T) + 'static>(&self, notify: F) -> (unsub: SignalUnsubscriber<T>)
        ensures
            unsub.subscription() is None,
            call_ensures(notify, (*self,), ()),
    {
        let mut notify = notify;
        notify(*self);
        SignalUnsubscriber::spent()
    }

    /// The value is shown once, with a token that has nothing to cancel.
    fn for_each_inner<F: FnMut(&T, &mut SignalUnsubscriber<T>) + 'static>(&self, notify: F)
        ensures
            exists|unsub: &mut SignalUnsubscriber<T>|
                mut_ref_current(unsub).subscription() is None && call_ensures(
                    notify,
                    (*self, unsub),
                    (),
                ),
    {
        let mut notify = notify;
        let mut unsub = SignalUnsubscriber::spent();
        notify(*self, &mut unsub);
    }
}

} // verus!
