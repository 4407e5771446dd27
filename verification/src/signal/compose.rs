//! The composition operators, as objects that decide.
//!
//! A derived signal is driven by a subscriber of its source. That
//! subscriber holds a [`Relay`]: an object that is shown each value of the
//! source together with the derived signal and the token of its own
//! subscription. All relays but the one of `fold` first decide on a
//! [`Reaction`], which is a function of the relay's state and the value
//! alone, and then have [`apply`] carry it out.

use vstd::prelude::*;
use crate::signal::error::SignalMutatingError;
use crate::signal::notify::Notify;
use crate::signal::raw::RawSignal;
use crate::signal::unsub::SignalUnsubscriber;
use crate::signal::weak::WeakRef;

verus! {

/// What a relay wants done with the derived signal.
pub enum Reaction<U> {
    /// Write this value, which tells the subscribers of the derived signal.
    Write(U),
    /// Tell the subscribers of the derived signal of the value it shares
    /// with the source.
    Forward,
    /// As `Forward`, and then end the relay's own subscription.
    ForwardAndStop,
    /// Do nothing.
    Ignore,
    /// End the relay's own subscription: the derived signal stays as it
    /// is from now on.
    Stop,
}

impl<U> Reaction<U> {
    /// Whether the relay ends its own subscription.
    pub open spec fn stops(self) -> bool {
        self is Stop || self is ForwardAndStop
    }

    /// Whether the subscribers of the derived signal are told of a value,
    /// given that the derived signal takes a write.
    pub open spec fn tells(self) -> bool {
        self is Write || self is Forward || self is ForwardAndStop
    }
}

/// An object that makes a derived signal follow its source.
pub trait Relay<T, U> {
    /// Whether the relay may be shown any value.
    spec fn ready(&self) -> bool;

    /// Reacts to a value of the source: `target` is the derived signal and
    /// `unsub` the token of the relay's own subscription to the source.
    /// The token is left alone or spent. An error says that the derived
    /// signal refused a write that the relay made.
    fn relay(&mut self, target: &RawSignal<U>, value: &T, unsub: &mut SignalUnsubscriber<T>) -> (done:
        Result<(), SignalMutatingError>)
        requires
            old(self).ready(),
        ensures
            final(self).ready(),
            *final(unsub) == *old(unsub) || final(unsub).subscription() is None,
    ;
}

/// Carries out a reaction on the derived signal `target`; `unsub` is the
/// token of the relay's own subscription to the source. Only a write can
/// be refused, and whether it is depends on what the derived signal is
/// being used for at that moment.
pub fn apply<T, U>(reaction: Reaction<U>, target: &RawSignal<U>, unsub: &mut SignalUnsubscriber<T>) -> (done:
    Result<(), SignalMutatingError>)
    ensures
        reaction.stops() ==> final(unsub).subscription() is None,
        !reaction.stops() ==> *final(unsub) == *old(unsub),
        !(reaction is Write) ==> done is Ok,
        done matches Err(e) ==> e is Updating,
{
    match reaction {
        Reaction::Write(value) => {
            match target.try_set(value) {
                Ok(_) => Ok(()),
                Err(_) => Err(SignalMutatingError::Updating),
            }
        },
        Reaction::Forward => {
            target.notify_all();
            Ok(())
        },
        Reaction::ForwardAndStop => {
            target.notify_all();
            unsub.unsubscribe();
            Ok(())
        },
        Reaction::Ignore => Ok(()),
        Reaction::Stop => {
            unsub.unsubscribe();
            Ok(())
        },
    }
}

/// The subscriber that drives a derived signal. It does not keep the
/// derived signal alive: once that is gone, the subscriber cancels itself.
#[verifier::reject_recursive_types(T)]
#[verifier::reject_recursive_types(U)]
pub struct Composed<T, U, R> {
    pub relay: R,
    pub target: WeakRef<RawSignal<U>>,
    pub unsub: SignalUnsubscriber<T>,
    pub heard: Ghost<Seq<T>>,
}

impl<T, U, R: Relay<T, U>> Notify<T> for Composed<T, U, R> {
    open spec fn ready(&self) -> bool {
        self.relay.ready()
    }

    open spec fn heard(&self) -> Seq<T> {
        self.heard@
    }

    /// If the derived signal is still there the relay is shown the value,
    /// and a write that the derived signal refuses is counted on it; else
    /// the subscription is cancelled. Which of the two holds is not
    /// for this object to know beforehand; either way it keeps pointing at
    /// the same derived signal, and its token is left alone or spent.
    fn notify(&mut self, value: &T)
        ensures
            final(self).target == old(self).target,
            final(self).unsub == old(self).unsub || final(self).unsub.subscription() is None,
    {
        match self.target.upgrade() {
            Some(raw) => {
                match self.relay.relay(&*raw, value, &mut self.unsub) {
                    Ok(_) => {},
                    Err(_) => {
                        raw.note_refused();
                    },
                }
            },
            None => {
                self.unsub.unsubscribe();
            },
        }
        self.heard = Ghost(self.heard@.push(*value));
    }
}

/// Maps every value.
pub struct MapRelay<F> {
    pub map: F,
}

impl<F> MapRelay<F> {
    /// Every value of the source is mapped and written.
    pub fn decide<T, U>(&mut self, value: &T) -> (reaction: Reaction<U>) where F: FnMut(&T) -> U
        requires
            forall|v: &T| call_requires(old(self).map, (v,)),
        ensures
            final(self).map == old(self).map,
            reaction matches Reaction::Write(mapped) && call_ensures(
                old(self).map,
                (value,),
                mapped,
            ),
    {
        Reaction::Write((self.map)(value))
    }
}

impl<T, U, F: FnMut(&T) -> U> Relay<T, U> for MapRelay<F> {
    open spec fn ready(&self) -> bool {
        forall|v: &T| call_requires(self.map, (v,))
    }

    /// The value is mapped and the derived signal is asked to take what
    /// came of it. The relay and its token stay as they are.
    fn relay(&mut self, target: &RawSignal<U>, value: &T, unsub: &mut SignalUnsubscriber<T>) -> (done:
        Result<(), SignalMutatingError>)
        ensures
            final(self).map == old(self).map,
            *final(unsub) == *old(unsub),
            exists|mapped: U| call_ensures(old(self).map, (value,), mapped),
    {
        let reaction = self.decide(value);
        apply(reaction, target, unsub)
    }
}

/// Lets the values through that a predicate accepts.
pub struct FilterRelay<P> {
    pub predicate: P,
}

impl<P> FilterRelay<P> {
    /// A value is passed on if and only if the predicate accepts it.
    pub fn decide<T>(&mut self, value: &T) -> (reaction: Reaction<T>) where P: FnMut(&T) -> bool
        requires
            forall|v: &T| call_requires(old(self).predicate, (v,)),
        ensures
            final(self).predicate == old(self).predicate,
            reaction is Forward || reaction is Ignore,
            call_ensures(old(self).predicate, (value,), reaction is Forward),
    {
        if (self.predicate)(value) {
            Reaction::Forward
        } else {
            Reaction::Ignore
        }
    }
}

impl<T, P: FnMut(&T) -> bool> Relay<T, T> for FilterRelay<P> {
    open spec fn ready(&self) -> bool {
        forall|v: &T| call_requires(self.predicate, (v,))
    }

    /// The predicate is asked, and if it accepts the value the subscribers
    /// of the derived signal are told. The relay and its token stay as they
    /// are.
    fn relay(&mut self, target: &RawSignal<T>, value: &T, unsub: &mut SignalUnsubscriber<T>) -> (done:
        Result<(), SignalMutatingError>)
        ensures
            final(self).predicate == old(self).predicate,
            *final(unsub) == *old(unsub),
            exists|accepted: bool| call_ensures(old(self).predicate, (value,), accepted),
    {
        let reaction = self.decide(value);
        apply(reaction, target, unsub)
    }
}

/// Maps the values for which a function gives a result.
pub struct FilterMapRelay<F> {
    pub filter_map: F,
}

impl<F> FilterMapRelay<F> {
    /// A value is written if the function gives one, else nothing is done.
    pub fn decide<T, U>(&mut self, value: &T) -> (reaction: Reaction<U>) where
        F: FnMut(&T) -> Option<U>,

        requires
            forall|v: &T| call_requires(old(self).filter_map, (v,)),
        ensures
            final(self).filter_map == old(self).filter_map,
            reaction matches Reaction::Write(mapped) ==> call_ensures(
                old(self).filter_map,
                (value,),
                Some(mapped),
            ),
            reaction is Ignore ==> call_ensures(old(self).filter_map, (value,), None::<U>),
            reaction is Write || reaction is Ignore,
    {
        match (self.filter_map)(value) {
            Some(mapped) => Reaction::Write(mapped),
            None => Reaction::Ignore,
        }
    }
}

impl<T, U, F: FnMut(&T) -> Option<U>> Relay<T, U> for FilterMapRelay<F> {
    open spec fn ready(&self) -> bool {
        forall|v: &T| call_requires(self.filter_map, (v,))
    }

    /// The function is asked, and if it gives a value the derived signal is
    /// asked to take it. The relay and its token stay as they are.
    fn relay(&mut self, target: &RawSignal<U>, value: &T, unsub: &mut SignalUnsubscriber<T>) -> (done:
        Result<(), SignalMutatingError>)
        ensures
            final(self).filter_map == old(self).filter_map,
            *final(unsub) == *old(unsub),
            exists|mapped: Option<U>| call_ensures(old(self).filter_map, (value,), mapped),
    {
        let reaction = self.decide(value);
        apply(reaction, target, unsub)
    }
}

/// Maps values until a function gives no result.
pub struct MapWhileRelay<F> {
    pub map_while: F,
}

impl<F> MapWhileRelay<F> {
    /// A value is written if the function gives one; the first time it
    /// gives none the relay stops for good.
    pub fn decide<T, U>(&mut self, value: &T) -> (reaction: Reaction<U>) where
        F: FnMut(&T) -> Option<U>,

        requires
            forall|v: &T| call_requires(old(self).map_while, (v,)),
        ensures
            final(self).map_while == old(self).map_while,
            reaction matches Reaction::Write(mapped) ==> call_ensures(
                old(self).map_while,
                (value,),
                Some(mapped),
            ),
            reaction is Stop ==> call_ensures(old(self).map_while, (value,), None::<U>),
            reaction is Write || reaction is Stop,
    {
        match (self.map_while)(value) {
            Some(mapped) => Reaction::Write(mapped),
            None => Reaction::Stop,
        }
    }
}

impl<T, U, F: FnMut(&T) -> Option<U>> Relay<T, U> for MapWhileRelay<F> {
    open spec fn ready(&self) -> bool {
        forall|v: &T| call_requires(self.map_while, (v,))
    }

    /// The function is asked. If it gives a value the derived signal is
    /// asked to take it and the token stays as it is; if it gives none the
    /// token is spent.
    fn relay(&mut self, target: &RawSignal<U>, value: &T, unsub: &mut SignalUnsubscriber<T>) -> (done:
        Result<(), SignalMutatingError>)
        ensures
            final(self).map_while == old(self).map_while,
            exists|mapped: Option<U>|
                {
                    &&& call_ensures(old(self).map_while, (value,), mapped)
                    &&& mapped is Some ==> *final(unsub) == *old(unsub)
                    &&& mapped is None ==> final(unsub).subscription() is None
                },
    {
        let reaction = self.decide(value);
        apply(reaction, target, unsub)
    }
}

/// Holds back the first `n` values.
pub struct SkipRelay {
    pub n: usize,
    pub counter: usize,
}

impl SkipRelay {
    /// Never more values were held back than are to be.
    pub open spec fn wf(&self) -> bool {
        self.counter <= self.n
    }

    /// The relay that holds back the first `n` values.
    pub fn new(n: usize) -> (relay: Self)
        ensures
            relay.wf(),
            relay.n == n,
            relay.counter == 0,
    {
        SkipRelay { n, counter: 0 }
    }

    /// The first `n` values are counted and held back, all later ones are
    /// passed on.
    pub fn decide<T>(&mut self) -> (reaction: Reaction<T>)
        requires
            old(self).wf(),
        ensures
            final(self).wf(),
            final(self).n == old(self).n,
            old(self).counter < old(self).n ==> reaction is Ignore && final(self).counter == old(self).counter + 1,
            old(self).counter == old(self).n ==> reaction is Forward && final(self).counter == old(self).counter,
    {
        if self.counter < self.n {
            self.counter = self.counter + 1;
            Reaction::Ignore
        } else {
            Reaction::Forward
        }
    }
}

impl<T> Relay<T, T> for SkipRelay {
    open spec fn ready(&self) -> bool {
        self.wf()
    }

    /// A value that is held back is counted; the token stays as it is.
    fn relay(&mut self, target: &RawSignal<T>, value: &T, unsub: &mut SignalUnsubscriber<T>) -> (done:
        Result<(), SignalMutatingError>)
        ensures
            final(self).n == old(self).n,
            final(self).counter == (if old(self).counter < old(self).n {
                old(self).counter + 1
            } else {
                old(self).counter as int
            }),
            *final(unsub) == *old(unsub),
    {
        let reaction = self.decide();
        apply(reaction, target, unsub)
    }
}

/// Holds values back while a predicate accepts them.
pub struct SkipWhileRelay<P> {
    pub predicate: Option<P>,
}

impl<P> SkipWhileRelay<P> {
    /// Values are held back until the predicate refuses one; that one and
    /// all later ones are passed on, and the predicate is not asked again.
    pub fn decide<T>(&mut self, value: &T) -> (reaction: Reaction<T>) where P: FnMut(&T) -> bool
        requires
            old(self).predicate matches Some(p) ==> forall|v: &T| call_requires(p, (v,)),
        ensures
            reaction is Forward || reaction is Ignore,
            old(self).predicate is None ==> reaction is Forward && final(self).predicate is None,
            old(self).predicate matches Some(p) ==> call_ensures(p, (value,), reaction is Ignore),
            reaction is Ignore ==> final(self).predicate == old(self).predicate,
            reaction is Forward ==> final(self).predicate is None,
    {
        let holds = match &mut self.predicate {
            Some(predicate) => predicate(value),
            None => false,
        };
        if holds {
            Reaction::Ignore
        } else {
            self.predicate = None;
            Reaction::Forward
        }
    }
}

impl<T, P: FnMut(&T) -> bool> Relay<T, T> for SkipWhileRelay<P> {
    open spec fn ready(&self) -> bool {
        self.predicate matches Some(p) ==> forall|v: &T| call_requires(p, (v,))
    }

    /// As long as there is a predicate it is asked; once it refuses a
    /// value it is dropped. The token stays as it is.
    fn relay(&mut self, target: &RawSignal<T>, value: &T, unsub: &mut SignalUnsubscriber<T>) -> (done:
        Result<(), SignalMutatingError>)
        ensures
            *final(unsub) == *old(unsub),
            old(self).predicate is None ==> final(self).predicate is None,
            old(self).predicate matches Some(p) ==> (exists|held: bool|
                {
                    &&& call_ensures(p, (value,), held)
                    &&& held ==> final(self).predicate == old(self).predicate
                    &&& !held ==> final(self).predicate is None
                }),
    {
        let reaction = self.decide(value);
        apply(reaction, target, unsub)
    }
}

/// Passes the first `n` values on.
pub struct TakeRelay {
    pub n: usize,
    pub counter: usize,
}

impl TakeRelay {
    /// Never more values were passed on than are to be.
    pub open spec fn wf(&self) -> bool {
        self.counter <= self.n
    }

    /// The relay that passes the first `n` values on.
    pub fn new(n: usize) -> (relay: Self)
        ensures
            relay.wf(),
            relay.n == n,
            relay.counter == 0,
    {
        TakeRelay { n, counter: 0 }
    }

    /// The first `n` values are counted and passed on; with the last of
    /// them, or at once if there is none to pass on, the relay stops.
    pub fn decide<T>(&mut self) -> (reaction: Reaction<T>)
        requires
            old(self).wf(),
        ensures
            final(self).wf(),
            final(self).n == old(self).n,
            old(self).counter + 1 < old(self).n ==> reaction is Forward && final(self).counter
                == old(self).counter + 1,
            old(self).counter + 1 == old(self).n ==> reaction is ForwardAndStop && final(self).counter == old(self).n,
            old(self).counter == old(self).n ==> reaction is Stop && final(self).counter == old(self).counter,
    {
        if self.counter < self.n {
            self.counter = self.counter + 1;
            if self.counter == self.n {
                Reaction::ForwardAndStop
            } else {
                Reaction::Forward
            }
        } else {
            Reaction::Stop
        }
    }
}

impl<T> Relay<T, T> for TakeRelay {
    open spec fn ready(&self) -> bool {
        self.wf()
    }

    /// A value that is passed on is counted; with the last one to pass,
    /// and from then on, the token is spent.
    fn relay(&mut self, target: &RawSignal<T>, value: &T, unsub: &mut SignalUnsubscriber<T>) -> (done:
        Result<(), SignalMutatingError>)
        ensures
            final(self).n == old(self).n,
            final(self).counter == (if old(self).counter < old(self).n {
                old(self).counter + 1
            } else {
                old(self).counter as int
            }),
            old(self).counter + 1 < old(self).n ==> *final(unsub) == *old(unsub),
            old(self).counter + 1 >= old(self).n ==> final(unsub).subscription() is None,
    {
        let reaction = self.decide();
        apply(reaction, target, unsub)
    }
}

/// Passes values on while a predicate accepts them.
pub struct TakeWhileRelay<P> {
    pub predicate: Option<P>,
}

impl<P> TakeWhileRelay<P> {
    /// Values are passed on until the predicate refuses one; then the
    /// relay stops and the predicate is not asked again.
    pub fn decide<T>(&mut self, value: &T) -> (reaction: Reaction<T>) where P: FnMut(&T) -> bool
        requires
            old(self).predicate matches Some(p) ==> forall|v: &T| call_requires(p, (v,)),
        ensures
            reaction is Forward || reaction is Stop,
            old(self).predicate is None ==> reaction is Stop && final(self).predicate is None,
            old(self).predicate matches Some(p) ==> call_ensures(p, (value,), reaction is Forward),
            reaction is Forward ==> final(self).predicate == old(self).predicate,
            reaction is Stop ==> final(self).predicate is None,
    {
        let holds = match &mut self.predicate {
            Some(predicate) => predicate(value),
            None => false,
        };
        if holds {
            Reaction::Forward
        } else {
            self.predicate = None;
            Reaction::Stop
        }
    }
}

impl<T, P: FnMut(&T) -> bool> Relay<T, T> for TakeWhileRelay<P> {
    open spec fn ready(&self) -> bool {
        self.predicate matches Some(p) ==> forall|v: &T| call_requires(p, (v,))
    }

    /// As long as there is a predicate it is asked; once it refuses a
    /// value it is dropped and the token is spent.
    fn relay(&mut self, target: &RawSignal<T>, value: &T, unsub: &mut SignalUnsubscriber<T>) -> (done:
        Result<(), SignalMutatingError>)
        ensures
            old(self).predicate is None ==> final(self).predicate is None && final(unsub).subscription() is None,
            old(self).predicate matches Some(p) ==> (exists|passed: bool|
                {
                    &&& call_ensures(p, (value,), passed)
                    &&& passed ==> final(self).predicate == old(self).predicate && *final(unsub)
                        == *old(unsub)
                    &&& !passed ==> final(self).predicate is None && final(unsub).subscription() is None
                }),
    {
        let reaction = self.decide(value);
        apply(reaction, target, unsub)
    }
}

/// Folds every value into the value of the derived signal.
pub struct FoldRelay<F> {
    pub fold: F,
}

impl<F> FoldRelay<F> {
    /// Folds `value` into the accumulator `acc` and hands back what the
    /// accumulator has become: the closure was called once, on `acc` and
    /// `value`.
    pub fn fold_into<T, U>(&mut self, acc: U, value: &T) -> (next: U) where F: FnMut(&mut U, &T)
        requires
            forall|a: &mut U, v: &T| call_requires(old(self).fold, (a, v)),
        ensures
            final(self).fold == old(self).fold,
            exists|a: &mut U|
                {
                    &&& mut_ref_current(a) == acc
                    &&& mut_ref_future(a) == next
                    &&& call_ensures(old(self).fold, (a, value), ())
                },
    {
        let mut acc = acc;
        (self.fold)(&mut acc, value);
        acc
    }
}

impl<T, U, F: FnMut(&mut U, &T)> Relay<T, U> for FoldRelay<F> {
    open spec fn ready(&self) -> bool {
        forall|acc: &mut U, v: &T| call_requires(self.fold, (acc, v))
    }

    /// The value of the derived signal is taken out, folded with `value`
    /// by [`FoldRelay::fold_into`] and put back, which tells the
    /// subscribers of the derived signal. If the derived signal cannot be
    /// changed now, the fold is not run and the error is handed back.
    /// Whether it can is decided by what the derived signal is being used
    /// for at that moment; if it is, the closure was called on the value
    /// that the derived signal held.
    fn relay(&mut self, target: &RawSignal<U>, value: &T, unsub: &mut SignalUnsubscriber<T>) -> (done:
        Result<(), SignalMutatingError>)
        ensures
            final(self).fold == old(self).fold,
            *final(unsub) == *old(unsub),
            done is Ok ==> exists|acc: &mut U| call_ensures(old(self).fold, (acc, value), ()),
    {
        match target.begin_mutate() {
            Ok(acc) => {
                let next = self.fold_into(acc, value);
                target.end_mutate(next);
                Ok(())
            },
            Err(e) => Err(e),
        }
    }
}

} // verus!
