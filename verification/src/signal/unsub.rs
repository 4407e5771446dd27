//! Tokens that cancel a subscription.

use std::ops::Deref;
use std::rc::Rc;
use vstd::prelude::*;
use crate::signal::raw::RawSignal;
use crate::signal::registry::SubscriberId;
use crate::signal::weak::WeakRef;

verus! {

/// The capability to cancel one subscription to a signal.
///
/// The token does not keep the signal alive. Cancelling works at any time,
/// also from inside the callback that is being cancelled and after the
/// signal is gone, and it works once: after that the token has no effect.
#[must_use]
#[verifier::reject_recursive_types(T)]
pub struct SignalUnsubscriber<T>(Option<(WeakRef<RawSignal<T>>, SubscriberId)>);

impl<T> SignalUnsubscriber<T> {
    /// The subscription that this token would cancel, if it has not done so
    /// yet.
    pub closed spec fn subscription(&self) -> Option<SubscriberId> {
        match self.0 {
            Some(target) => Some(target.1),
            None => None,
        }
    }

    /// The signal that this token would cancel a subscription to, if it
    /// has not done so yet: the one that its weak reference was made from.
    pub closed spec fn target(&self) -> Option<Rc<RawSignal<T>>> {
        match self.0 {
            Some(target) => Some(target.0.origin()),
            None => None,
        }
    }

    /// The token for the subscription `id` to the signal behind `weak`.
    pub fn new(weak: WeakRef<RawSignal<T>>, id: SubscriberId) -> (token: Self)
        ensures
            token.subscription() == Some(id),
            token.target() == Some(weak.origin()),
    {
        SignalUnsubscriber(Some((weak, id)))
    }

    /// A token that cancels nothing.
    pub fn spent() -> (token: Self)
        ensures
            token.subscription() is None,
            token.target() is None,
    {
        SignalUnsubscriber(None)
    }

    /// Cancels the subscription, if this token has not done so yet and the
    /// signal is still there. Afterwards the token has no effect.
    ///
    /// Whether the signal is still there is not for the token to know
    /// beforehand. If it is, the call that is made on it is `unsubscribe`
    /// with the identifier of this token, which
    /// [`Registry::unsubscribe`](crate::signal::registry::Registry::unsubscribe)
    /// carries out on the registry as it is then.
    pub fn unsubscribe(&mut self)
        ensures
            final(self).subscription() is None,
            final(self).target() is None,
    {
        match self.0.take() {
            Some((weak, id)) => {
                match weak.upgrade() {
                    Some(raw) => {
                        raw.unsubscribe(id);
                    },
                    None => {},
                }
            },
            None => {},
        }
    }

    /// Whether `unsubscribe` would still try to cancel something.
    pub fn has_effect(&self) -> (effect: bool)
        ensures
            effect == self.subscription() is Some,
    {
        self.0.is_some()
    }

    /// Wraps the token for a scope to own it.
    pub fn droppable(self) -> (scoped: DropUnsubscriber<Self>)
        ensures
            scoped.0 == self,
    {
        DropUnsubscriber(self)
    }
}

impl<T> Clone for SignalUnsubscriber<T> {
    fn clone(&self) -> (token: Self)
        ensures
            token.subscription() == self.subscription(),
            token.target() == self.target(),
    {
        match &self.0 {
            Some((weak, id)) => SignalUnsubscriber(Some((weak.duplicate(), *id))),
            None => SignalUnsubscriber(None),
        }
    }
}

/// A token of any kind.
pub trait Unsubscribe: Sized {
    /// Whether the token can still cancel something.
    spec fn armed(&self) -> bool;

    /// Cancels what the token stands for. Afterwards it has no effect.
    fn unsubscribe(&mut self)
        ensures
            !final(self).armed(),
    ;

    /// Whether `unsubscribe` would still try to cancel something.
    fn has_effect(&self) -> (effect: bool)
        ensures
            effect == self.armed(),
    ;

    /// Wraps the token for a scope to own it.
    fn droppable(self) -> (scoped: DropUnsubscriber<Self>)
        ensures
            scoped.0 == self,
    {
        DropUnsubscriber(self)
    }
}

impl Unsubscribe for () {
    open spec fn armed(&self) -> bool {
        false
    }

    fn unsubscribe(&mut self) {
    }

    fn has_effect(&self) -> (effect: bool) {
        false
    }
}

impl<T> Unsubscribe for SignalUnsubscriber<T> {
    open spec fn armed(&self) -> bool {
        self.subscription() is Some
    }

    fn unsubscribe(&mut self) {
        SignalUnsubscriber::unsubscribe(self);
    }

    fn has_effect(&self) -> (effect: bool) {
        SignalUnsubscriber::has_effect(self)
    }
}

/// A token held for a scope: whoever owns the scope cancels the
/// subscription when the scope ends. The token can be read through the
/// wrapper; to change it, call the wrapper's own methods or take it back.
pub struct DropUnsubscriber<U: Unsubscribe>(pub U);

impl<U: Unsubscribe> DropUnsubscriber<U> {
    /// The token, taken back from the scope.
    pub fn into_inner(self) -> (token: U)
        ensures
            token == self.0,
    {
        self.0
    }

    /// Cancels the subscription now.
    pub fn unsubscribe(&mut self)
        ensures
            !final(self).0.armed(),
    {
        self.0.unsubscribe();
    }

    /// Whether the token can still cancel something.
    pub fn has_effect(&self) -> (effect: bool)
        ensures
            effect == self.0.armed(),
    {
        self.0.has_effect()
    }
}

impl<U: Unsubscribe> Deref for DropUnsubscriber<U> {
    type Target = U;

    fn deref(&self) -> (token: &U)
        ensures
            *token == self.0,
    {
        &self.0
    }
}

} // verus!
