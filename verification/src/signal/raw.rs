//! The inner object of a signal: a registry of subscribers and the value
//! they are told of.
//!
//! Every function here that returns a result takes the value cell or the
//! registry out, makes one call on it, and puts it back, then runs the
//! callbacks that the call asked for. What is taken out depends on who
//! used the signal before, so the contracts here cannot speak of it: what
//! each call does is stated on [`ValueCell`] and
//! [`Registry`](crate::signal::registry::Registry), for every state.

use std::rc::Rc;
use vstd::prelude::*;
use crate::signal::broadcast::is_ready;
use crate::signal::broadcast::Broadcast;
use crate::signal::cell::CellModel;
use crate::signal::cell::State;
use crate::signal::cell::ValueCell;
use crate::signal::data::SignalData;
use crate::signal::error::SignalGetError;
use crate::signal::error::SignalMutatingError;
use crate::signal::error::SignalUpdatingError;
use crate::signal::notify::Callback;
use crate::signal::registry::lemma_every_is_kept;
use crate::signal::registry::RegistryModel;
use crate::signal::registry::SubscriberId;

verus! {

/// A registry of subscribers together with the value they observe. The
/// value may be shared with other signals; the registry never is.
#[verifier::reject_recursive_types(T)]
pub struct RawSignal<T> {
    broadcast: Broadcast<T>,
    data: Rc<SignalData<T>>,
}

impl<T> RawSignal<T> {
    /// The data that the signal holds or shares.
    pub closed spec fn data(&self) -> Rc<SignalData<T>> {
        self.data
    }

    /// The subscriber list of the signal.
    pub closed spec fn broadcast(&self) -> Broadcast<T> {
        self.broadcast
    }

    /// What the signal starts as, when it holds `value` or nothing yet.
    pub open spec fn starts_with(value: Option<T>) -> CellModel<T> {
        match value {
            Some(value) => CellModel::new(value),
            None => CellModel::uninit(),
        }
    }

    /// A signal without subscribers on the given data.
    pub fn new_with_data(data: Rc<SignalData<T>>) -> (raw: Self)
        ensures
            raw.data() == data,
            raw.broadcast().first() == RegistryModel::<Callback<T>>::empty(),
    {
        RawSignal { broadcast: Broadcast::new(), data }
    }

    /// A signal without subscribers that is at rest with `value`, or has
    /// no value yet.
    pub fn new(value: Option<T>) -> (raw: Self)
        ensures
            raw.data().first() == Self::starts_with(value),
            raw.broadcast().first() == RegistryModel::<Callback<T>>::empty(),
    {
        match value {
            Some(value) => RawSignal::new_with_data(Rc::new(SignalData::new(value))),
            None => RawSignal::new_with_data(Rc::new(SignalData::uninit())),
        }
    }

    /// A signal without subscribers whose value is yet to be written.
    pub fn uninit() -> (raw: Self)
        ensures
            raw.data().first() == CellModel::<T>::uninit(),
            raw.broadcast().first() == RegistryModel::<Callback<T>>::empty(),
    {
        RawSignal::new_with_data(Rc::new(SignalData::uninit()))
    }

    /// A signal with a subscriber list of its own on the value of this
    /// one.
    pub fn shared(&self) -> (raw: Self)
        ensures
            raw.data() == self.data(),
            raw.broadcast().first() == RegistryModel::<Callback<T>>::empty(),
    {
        RawSignal::new_with_data(self.data.clone())
    }

    /// The data, to take the value cell out of.
    pub(crate) fn cell(&self) -> (data: &SignalData<T>)
        ensures
            *data == *self.data(),
    {
        &*self.data
    }

    /// What the value is being used for: [`ValueCell::state`] of the cell
    /// as it is now.
    pub fn state(&self) -> (state: State) {
        let cell = self.data.take();
        let state = cell.state();
        self.data.put(cell);
        state
    }

    /// A copy of the value, unless the signal is being written or was never
    /// written: [`ValueCell::try_get`] of the cell as it is now.
    pub fn try_get(&self) -> (result: Result<T, SignalGetError>) where T: Clone {
        let cell = self.data.take();
        let shared = cell.try_get();
        self.data.put(cell);
        match shared {
            Ok(shared) => Ok((*shared).clone()),
            Err(e) => Err(e),
        }
    }

    /// Subscribes the callback that `make_notify` builds from the
    /// identifier of the new subscription, and hands that identifier back:
    /// the result is the identifier that `make_notify` was called with.
    /// There is no result if the registry could not take the subscriber,
    /// which is so once its identifiers are used up.
    ///
    /// The identifier is [`Registry::claim_id`], whether there is a value
    /// to show is [`ValueCell::begin_show`], and whether the callback is
    /// called at once, left to a pass that is under way, or rejected, is
    /// [`Registry::push_subscriber`], each on the state as it is at that
    /// moment.
    ///
    /// [`Registry::claim_id`]: crate::signal::registry::Registry::claim_id
    /// [`Registry::push_subscriber`]: crate::signal::registry::Registry::push_subscriber
    pub fn raw_for_each<G: FnOnce(SubscriberId) -> Callback<T>>(&self, make_notify: G) -> (made:
        Option<SubscriberId>)
        requires
            forall|id: SubscriberId| call_requires(make_notify, (id,)),
            forall|id: SubscriberId, notify: Callback<T>|
                call_ensures(make_notify, (id,), notify) ==> notify.ready(),
        ensures
            made is Some ==> exists|id: SubscriberId, notify: Callback<T>|
                made == Some(id) && call_ensures(make_notify, (id,), notify),
    {
        let mut registry = self.broadcast.take();
        proof {
            lemma_every_is_kept(registry@, is_ready::<T>());
        }
        let id = registry.claim_id();
        self.broadcast.put(registry);
        let notify = make_notify(id);
        let ghost built = notify;
        let mut cell = self.data.take();
        let (outer, value) = cell.begin_show();
        self.data.put(cell);
        let mut registry = self.broadcast.take();
        proof {
            lemma_every_is_kept(registry@, is_ready::<T>());
        }
        let delivery = registry.push_subscriber(id, notify, value.is_some());
        self.broadcast.put(registry);
        let taken = match value {
            Some(shared) => self.broadcast.deliver(delivery, id, Some(&*shared)),
            None => self.broadcast.deliver(delivery, id, None),
        };
        if outer {
            self.data.end_borrow();
        }
        assert(call_ensures(make_notify, (id,), built));
        if taken {
            Some(id)
        } else {
            None
        }
    }

    /// Tells the subscribers of a value that was written, and brings the
    /// signal to rest.
    pub(crate) fn announce(&self, shared: &Rc<T>) {
        self.broadcast.notify(&**shared);
        self.data.settle();
    }

    /// Tells the subscribers of the current value, without writing one.
    /// Fails if there is no value to tell of. For the time of the telling
    /// the signal counts as being written, unless it is being shown or
    /// written already: [`ValueCell::begin_notify`] on the cell as it is
    /// now decides.
    pub fn try_notify(&self) -> (result: Result<(), SignalGetError>) {
        let mut cell = self.data.take();
        let outcome = cell.begin_notify();
        self.data.put(cell);
        match outcome {
            Ok((locked, shared)) => {
                self.broadcast.notify(&*shared);
                if locked {
                    self.data.settle();
                }
                Ok(())
            },
            Err(e) => Err(e),
        }
    }

    /// Tells the subscribers of the current value, if there is one; see
    /// [`RawSignal::try_notify`].
    pub fn notify_all(&self) {
        let _ = self.try_notify();
    }

    /// Writes a value and, if the write was accepted, tells the subscribers
    /// of it. A write that is refused tells nobody:
    /// [`ValueCell::begin_set`] on the cell as it is now decides, and only
    /// on `Ok` is the registry touched.
    pub fn try_set(&self, new_value: T) -> (result: Result<(), SignalUpdatingError>) {
        let shared = Rc::new(new_value);
        let mut cell = self.data.take();
        let replaced = cell.begin_set(shared.clone());
        self.data.put(cell);
        match replaced {
            Ok(_) => {
                self.announce(&shared);
                Ok(())
            },
            Err(e) => Err(e),
        }
    }

    /// Takes the value out to be changed and marks the signal as being
    /// written: [`ValueCell::take_owned`] on the cell as it is now.
    pub(crate) fn begin_mutate(&self) -> (result: Result<T, SignalMutatingError>) {
        let mut cell = self.data.take();
        let taken = cell.take_owned();
        self.data.put(cell);
        taken
    }

    /// Puts the changed value back, tells the subscribers of it, and brings
    /// the signal to rest.
    pub(crate) fn end_mutate(&self, value: T) {
        let mut cell = self.data.take();
        let shared = cell.put_owned(value);
        self.data.put(cell);
        self.announce(&shared);
    }

    /// Changes the value in place and, if that was accepted, tells the
    /// subscribers of it. A change that is refused tells nobody and leaves
    /// the value alone: [`ValueCell::take_owned`] on the cell as it is now
    /// decides, and only on `Ok` are `mutate` and the registry touched.
    pub fn try_mutate<F: FnOnce(&mut T)>(&self, mutate: F) -> (result: Result<
        (),
        SignalMutatingError,
    >)
        requires
            forall|target: &mut T| call_requires(mutate, (target,)),
        ensures
            result is Ok ==> exists|target: &mut T| call_ensures(mutate, (target,), ()),
    {
        let mut cell = self.data.take();
        let taken = cell.take_owned();
        self.data.put(cell);
        match taken {
            Ok(value) => {
                let mut value = value;
                mutate(&mut value);
                self.end_mutate(value);
                Ok(())
            },
            Err(e) => Err(e),
        }
    }

    /// Counts a write that a relay made on this signal and that was
    /// refused.
    pub(crate) fn note_refused(&self) {
        self.data.note_refused();
    }

    /// How many writes that relays made on this signal were refused so far,
    /// because the signal was being shown or written when its source told
    /// the relay.
    pub fn refused(&self) -> (count: usize) {
        self.data.refused()
    }

    /// Ends the subscription with the given identifier; see
    /// [`Broadcast::unsubscribe`].
    pub fn unsubscribe(&self, id: SubscriberId) {
        self.broadcast.unsubscribe(id);
    }
}

} // verus!
