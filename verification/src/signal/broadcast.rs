//! The subscriber registry behind a shared reference.
//!
//! A [`Broadcast`] registers callbacks and notifies them, and lets callbacks
//! subscribe and unsubscribe while they run. It keeps a [`Registry`] in a
//! [`Guard`] and never holds on to it while a callback runs: each callback
//! is taken out of its entry, run, and put back. Every function here takes
//! the registry out, makes one call on it, and puts it back. What a
//! callback did to the registry in between is not known here, so every
//! step is one that is sound on any well-formed registry, and the
//! contracts here cannot speak of what the registry holds: what each call
//! does is stated on [`Registry`], for every registry.

use vstd::prelude::*;
use crate::signal::guard::Guard;
use crate::signal::guard::Guarded;
use crate::signal::notify::Callback;
use crate::signal::registry::Delivery;
use crate::signal::registry::lemma_every_is_kept;
use crate::signal::registry::Registry;
use crate::signal::registry::RegistryModel;
use crate::signal::registry::Step;
use crate::signal::registry::Subscriber;
use crate::signal::registry::SubscriberId;

verus! {

/// That a callback may be called, as a predicate.
pub open spec fn is_ready<T>() -> spec_fn(Callback<T>) -> bool {
    |notify: Callback<T>| notify.ready()
}

/// Whether every callback that rests in the registry may be called.
pub open spec fn all_ready<T>(m: RegistryModel<Callback<T>>) -> bool {
    m.every(is_ready::<T>())
}

impl<T> Guarded for Registry<Callback<T>> {
    /// Whenever the registry rests in its cell it is well-formed and every
    /// callback in it may be called.
    open spec fn inv(&self) -> bool {
        self.wf() && all_ready(self@)
    }
}

/// A registry of callbacks that can be used through a shared reference,
/// also from inside its own callbacks.
#[verifier::reject_recursive_types(T)]
pub struct Broadcast<T> {
    registry: Guard<Registry<Callback<T>>>,
}

impl<T> Broadcast<T> {
    /// The registry that the broadcast was made with.
    pub closed spec fn first(&self) -> RegistryModel<Callback<T>> {
        self.registry.first()@
    }

    /// A registry without subscribers, at rest.
    pub fn new() -> (broadcast: Self)
        ensures
            broadcast.first() == RegistryModel::<Callback<T>>::empty(),
    {
        Broadcast { registry: Guard::new(Registry::new()) }
    }

    /// Takes the registry out of its cell and leaves an empty one.
    pub(crate) fn take(&self) -> (registry: Registry<Callback<T>>)
        ensures
            registry.wf(),
            all_ready(registry@),
    {
        self.registry.swap(Registry::new())
    }

    /// Puts the registry back into its cell.
    pub(crate) fn put(&self, registry: Registry<Callback<T>>)
        requires
            registry.wf(),
            all_ready(registry@),
    {
        let _ = self.registry.swap(registry);
    }

    /// The next identifier to give to a subscriber. Once the counter is
    /// used up, the identifier handed out is one that no subscriber can be
    /// pushed under: [`Registry::claim_id`] on the registry as it is now.
    ///
    /// What the registry holds when this is called depends on who used it
    /// before, so no contract here can speak of it.
    pub fn next_id(&self) -> (id: SubscriberId) {
        let mut registry = self.take();
        proof {
            lemma_every_is_kept(registry@, is_ready::<T>());
        }
        let id = registry.claim_id();
        self.put(registry);
        id
    }

    /// Adds a subscriber under an identifier that `next_id` handed out, and
    /// says whether it was taken.
    ///
    /// With a value given, the subscriber is told of it at once, unless a
    /// notification pass is under way: then the pass will reach the new
    /// subscriber. [`Registry::push_subscriber`] on the registry as it is
    /// now decides.
    ///
    /// What the registry holds when this is called depends on who used it
    /// before, so no contract here can speak of it.
    pub fn push_subscriber(&self, id: SubscriberId, notify: Callback<T>, value: Option<&T>) -> (taken:
        bool)
        requires
            notify.ready(),
    {
        let mut registry = self.take();
        proof {
            lemma_every_is_kept(registry@, is_ready::<T>());
        }
        let delivery = registry.push_subscriber(id, notify, value.is_some());
        self.put(registry);
        self.deliver(delivery, id, value)
    }

    /// Carries out what [`Registry::push_subscriber`] decided: a callback
    /// that is to be run now is run with the value and put back, one that
    /// was rejected is dropped. Says whether the subscriber was taken.
    pub(crate) fn deliver(
        &self,
        delivery: Delivery<Callback<T>>,
        id: SubscriberId,
        value: Option<&T>,
    ) -> (taken: bool)
        requires
            delivery matches Delivery::Now { notify, .. } ==> notify.ready(),
        ensures
            taken == !(delivery is Rejected),
    {
        match delivery {
            Delivery::Deferred => true,
            Delivery::Rejected(_) => false,
            Delivery::Now { notify, outer } => {
                let mut notify = notify;
                match value {
                    Some(value) => {
                        notify.call(value);
                    },
                    None => {},
                }
                let retired = self.settle(id, notify, outer);
                true
            },
        }
    }

    /// Puts a callback back after it ran, and closes what its run had
    /// opened. What this took out of the registry is handed back, to be
    /// dropped by the caller.
    fn settle(&self, id: SubscriberId, notify: Callback<T>, outer: bool) -> (retired: (
        Option<Callback<T>>,
        Vec<Subscriber<Callback<T>>>,
    ))
        requires
            notify.ready(),
        ensures
            !outer ==> retired.1@.len() == 0,
    {
        let mut registry = self.take();
        proof {
            lemma_every_is_kept(registry@, is_ready::<T>());
            lemma_every_is_kept(registry@.restore(id, notify), is_ready::<T>());
        }
        let out = registry.settle(id, notify, outer);
        self.put(registry);
        out
    }

    /// Tells all active subscribers of `value`, in the order in which they
    /// subscribed.
    ///
    /// Does nothing if callbacks of this registry are running already.
    /// Subscribers that are added while the pass runs are told too;
    /// subscribers that are cancelled while it runs are not told any more
    /// and leave the registry when the pass ends.
    ///
    /// The pass is made of [`Registry::begin_notify`], then for each
    /// position [`Registry::step`], the callback and [`Registry::settle`],
    /// and at last [`Registry::finish`], each on the registry as it is at
    /// that moment. What a callback did to the registry in between is
    /// nothing that a contract here can speak of.
    pub fn notify(&self, value: &T) {
        let mut registry = self.take();
        proof {
            lemma_every_is_kept(registry@, is_ready::<T>());
        }
        let started = registry.begin_notify();
        self.put(registry);
        if !started {
            return;
        }
        let mut index: usize = 0;
        loop
            decreases usize::MAX - index,
        {
            let mut registry = self.take();
            proof {
                lemma_every_is_kept(registry@, is_ready::<T>());
            }
            let step = registry.step(index);
            self.put(registry);
            match step {
                Step::Done => {
                    break;
                },
                Step::Skip => {},
                Step::Call { id, notify } => {
                    let mut notify = notify;
                    notify.call(value);
                    let left = self.settle(id, notify, false);
                },
            }
            index = index + 1;
        }
        let mut registry = self.take();
        proof {
            lemma_every_is_kept(registry@, is_ready::<T>());
        }
        let retired = registry.finish();
        self.put(registry);
    }

    /// Ends the subscription with the given identifier. An identifier that
    /// is unknown, or was unsubscribed before, is ignored.
    ///
    /// While callbacks are running the subscriber is not removed right
    /// away, but it is not called again: [`Registry::unsubscribe`] on the
    /// registry as it is now.
    ///
    /// What the registry holds when this is called depends on who used it
    /// before, so no contract here can speak of it.
    pub fn unsubscribe(&self, id: SubscriberId) {
        let mut registry = self.take();
        proof {
            lemma_every_is_kept(registry@, is_ready::<T>());
        }
        let removed = registry.unsubscribe(id);
        self.put(registry);
    }
}

impl<T> Default for Broadcast<T> {
    fn default() -> (broadcast: Self)
        ensures
            broadcast.first() == RegistryModel::<Callback<T>>::empty(),
    {
        Broadcast::new()
    }
}

} // verus!
