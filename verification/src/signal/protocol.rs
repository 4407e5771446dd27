//! A write to a signal as a whole.
//!
//! A write changes the value cell, walks the subscribers and brings the
//! cell back to rest. While the subscribers are walked, each callback may
//! change the subscriber list and may try to write the signal that is
//! telling it. This module states what a write comes to under any such
//! interference.
//!
//! On a signal that the caller holds alone, as a value cell and a registry
//! side by side, [`set_owned`], [`mutate_owned`] and [`for_each_owned`] run
//! the steps, and their contracts say what comes of them by the functions
//! of [`SignalModel`]. On a signal behind a shared reference,
//! [`RawSignal`](crate::signal::raw::RawSignal) takes the same steps one by
//! one; there the callbacks act in between, and what is stated here is
//! stated of those steps, not by a contract of those functions.

use vstd::prelude::*;
use crate::signal::broadcast::is_ready;
use crate::signal::cell::CellModel;
use crate::signal::cell::Lease;
use crate::signal::cell::ValueCell;
use crate::signal::cell::law_borrow_allows_reads_only;
use crate::signal::compose::FoldRelay;
use crate::signal::compose::Reaction;
use crate::signal::error::SignalGetError;
use crate::signal::error::SignalMutatingError;
use crate::signal::error::SignalUpdatingError;
use crate::signal::notify::Callback;
use crate::signal::pass::alike;
use crate::signal::pass::heard_by_pass;
use crate::signal::pass::lemma_silent_call;
use crate::signal::pass::silent;
use crate::signal::pass::lemma_walked_extends;
use crate::signal::pass::reached;
use crate::signal::pass::Script;
use crate::signal::pass::told;
use crate::signal::pass::walked;
use crate::signal::registry::Delivery;
use crate::signal::registry::law_fresh_id_is_unused;
use crate::signal::registry::lemma_every_is_kept;
use crate::signal::registry::lemma_index_unique;
use crate::signal::registry::law_subscriber_at_rest_is_served_once;
use crate::signal::registry::lemma_keep_active;
use crate::signal::registry::Registry;
use crate::signal::registry::RegistryModel;
use crate::signal::registry::Subscriber;
use crate::signal::registry::SubscriberId;

verus! {

/// The mathematical content of a signal: its value cell and its
/// subscriber list.
pub struct SignalModel<V, C> {
    pub cell: CellModel<V>,
    pub registry: RegistryModel<C>,
}

/// The values that each callback tries to write to the signal when it is
/// called, by the identifier of its subscription.
pub type Writes<V> = spec_fn(SubscriberId) -> Seq<V>;

/// The cell after each of `values` was tried to be written, first to last.
pub open spec fn try_all<V>(cell: CellModel<V>, values: Seq<V>) -> CellModel<V>
    decreases values.len(),
{
    if values.len() == 0 {
        cell
    } else {
        try_all(cell, values.drop_last()).set(values.last())
    }
}

/// The cell after the callbacks of `callers` ran, first to last.
pub open spec fn through<V>(cell: CellModel<V>, writes: Writes<V>, callers: Seq<SubscriberId>)
    -> CellModel<V>
    decreases callers.len(),
{
    if callers.len() == 0 {
        cell
    } else {
        try_all(through(cell, writes, callers.drop_last()), writes(callers.last()))
    }
}

impl<V, C> SignalModel<V, C> {
    /// Both parts are well-formed.
    pub open spec fn wf(self) -> bool {
        self.cell.wf() && self.registry.wf()
    }

    /// The subscribers that are told when the cell was written and is
    /// marked as being written: all that a pass reaches, unless callbacks
    /// of this signal are running already.
    pub open spec fn audience(self, script: Script<C>) -> Seq<SubscriberId> {
        reached(self.registry, script)
    }

    /// The signal after its subscribers were told and the write was
    /// settled.
    pub open spec fn announce(self, script: Script<C>, writes: Writes<V>) -> Self {
        if self.registry.state is Idling {
            SignalModel {
                cell: through(self.cell, writes, self.audience(script)).settle(),
                registry: walked(self.registry.begin_notify(), script, 0).finish(),
            }
        } else {
            SignalModel { cell: self.cell.settle(), ..self }
        }
    }

    /// The subscribers that `try_set(value)` tells.
    pub open spec fn told_by_set(self, script: Script<C>) -> Seq<SubscriberId> {
        if self.cell.writable() {
            self.audience(script)
        } else {
            Seq::empty()
        }
    }

    /// The signal after `try_set(value)`.
    pub open spec fn set(self, value: V, script: Script<C>, writes: Writes<V>) -> Self {
        if self.cell.writable() {
            (SignalModel { cell: self.cell.begin_set(value), ..self }).announce(script, writes)
        } else {
            self
        }
    }

    /// The signal after `notify_all()`: the subscribers are told of the
    /// value as it is, and a signal that was at rest is at rest again.
    pub open spec fn notify_all(self, script: Script<C>, writes: Writes<V>) -> Self {
        if self.cell.value is None {
            self
        } else if self.cell.state is Idling {
            (SignalModel { cell: self.cell.lock(), ..self }).announce(script, writes)
        } else if self.registry.state is Idling {
            SignalModel {
                cell: through(self.cell, writes, self.audience(script)),
                registry: walked(self.registry.begin_notify(), script, 0).finish(),
            }
        } else {
            self
        }
    }

    /// A derived signal after the reaction of its relay was carried out.
    pub open spec fn react(self, reaction: Reaction<V>, script: Script<C>, writes: Writes<V>)
        -> Self {
        match reaction {
            Reaction::Write(value) => self.set(value, script, writes),
            Reaction::Forward | Reaction::ForwardAndStop => self.notify_all(script, writes),
            Reaction::Ignore | Reaction::Stop => self,
        }
    }

    /// A derived signal after the reactions of its relay to a run of values
    /// of the source were carried out, first to last.
    pub open spec fn follow(
        self,
        reactions: Seq<Reaction<V>>,
        script: Script<C>,
        writes: Writes<V>,
    ) -> Self
        decreases reactions.len(),
    {
        if reactions.len() == 0 {
            self
        } else {
            self.follow(reactions.drop_last(), script, writes).react(
                reactions.last(),
                script,
                writes,
            )
        }
    }

    /// The subscribers that `try_mutate` tells.
    pub open spec fn told_by_mutate(self, script: Script<C>) -> Seq<SubscriberId> {
        if self.cell.mutating_error() is None {
            self.audience(script)
        } else {
            Seq::empty()
        }
    }

    /// The signal after a `try_mutate` that changes the value to `changed`
    /// and whose closure tries to write each of `meanwhile` to the signal.
    pub open spec fn mutate(
        self,
        changed: V,
        meanwhile: Seq<V>,
        script: Script<C>,
        writes: Writes<V>,
    ) -> Self {
        if self.cell.mutating_error() is None {
            (SignalModel {
                cell: try_all(self.cell.begin_mutate(), meanwhile).store(changed),
                ..self
            }).announce(script, writes)
        } else {
            self
        }
    }
}

/// While a cell is being written or shown, no attempt to write it changes
/// anything.
pub proof fn lemma_busy_cell_stays<V>(cell: CellModel<V>, values: Seq<V>)
    requires
        !cell.writable(),
    ensures
        try_all(cell, values) == cell,
    decreases values.len(),
{
    if values.len() > 0 {
        lemma_busy_cell_stays(cell, values.drop_last());
    }
}

/// While a cell is being written or shown, no callback changes it, however
/// often it tries.
pub proof fn lemma_busy_cell_stays_through<V>(
    cell: CellModel<V>,
    writes: Writes<V>,
    callers: Seq<SubscriberId>,
)
    requires
        !cell.writable(),
    ensures
        through(cell, writes, callers) == cell,
    decreases callers.len(),
{
    if callers.len() > 0 {
        lemma_busy_cell_stays_through(cell, writes, callers.drop_last());
        lemma_busy_cell_stays(cell, writes(callers.last()));
    }
}

/// After a write was accepted the signal reads as the written value, and
/// is at rest with a well-formed subscriber list: whatever the subscribers
/// tried while they were told, none of them changed the value.
pub proof fn law_set_then_get<V, C>(
    signal: SignalModel<V, C>,
    value: V,
    script: Script<C>,
    writes: Writes<V>,
)
    requires
        signal.wf(),
        signal.cell.writable(),
    ensures
        signal.set(value, script, writes).wf(),
        signal.set(value, script, writes).cell == CellModel::new(value),
        signal.set(value, script, writes).cell.get() == Ok::<V, SignalGetError>(value),
        signal.registry.state is Idling ==> signal.set(
            value,
            script,
            writes,
        ).registry.state is Idling,
{
    let locked = signal.cell.set(value).lock();
    lemma_busy_cell_stays_through(locked, writes, signal.audience(script));
    lemma_pass_closes(signal.registry, script);
}

/// A refused write tells nobody and leaves the signal as it was; an
/// accepted one tells exactly those that a pass reaches.
pub proof fn law_told_only_if_written<V, C>(
    signal: SignalModel<V, C>,
    value: V,
    changed: V,
    meanwhile: Seq<V>,
    script: Script<C>,
    writes: Writes<V>,
)
    requires
        signal.wf(),
    ensures
        !signal.cell.writable() ==> signal.told_by_set(script) == Seq::<SubscriberId>::empty()
            && signal.set(value, script, writes) == signal,
        signal.cell.writable() ==> signal.told_by_set(script) == signal.audience(script),
        signal.cell.mutating_error() is Some ==> signal.told_by_mutate(script) == Seq::<
            SubscriberId,
        >::empty() && signal.mutate(changed, meanwhile, script, writes) == signal,
        signal.cell.mutating_error() is None ==> signal.told_by_mutate(script) == signal.audience(
            script,
        ),
{
}

/// After a change in place was accepted the signal reads as the changed
/// value: neither the closure that changes the value nor any subscriber
/// that is told of it can write the signal meanwhile.
pub proof fn law_mutate_then_get<V, C>(
    signal: SignalModel<V, C>,
    changed: V,
    meanwhile: Seq<V>,
    script: Script<C>,
    writes: Writes<V>,
)
    requires
        signal.wf(),
        signal.cell.mutating_error() is None,
    ensures
        signal.mutate(changed, meanwhile, script, writes).wf(),
        signal.mutate(changed, meanwhile, script, writes).cell == CellModel::new(changed),
{
    let taken = signal.cell.begin_mutate();
    lemma_busy_cell_stays(taken, meanwhile);
    let stored = taken.store(changed);
    lemma_busy_cell_stays_through(stored, writes, signal.audience(script));
    lemma_pass_closes(signal.registry, script);
}

/// A callback that is told of a value by the signal it tries to write or
/// change is refused, every time, with the error that says so.
pub proof fn law_write_from_callback_is_refused<V, C>(
    signal: SignalModel<V, C>,
    value: V,
    script: Script<C>,
    writes: Writes<V>,
    callers: Seq<SubscriberId>,
    attempt: V,
)
    requires
        signal.wf(),
        signal.cell.writable(),
    ensures
        ({
            let during = through(signal.cell.set(value).lock(), writes, callers);
            &&& during.state is Mutating
            &&& during.value == Some(value)
            &&& !during.writable()
            &&& during.set(attempt) == during
            &&& during.mutating_error() == Some(SignalMutatingError::Updating)
            &&& during.begin_mutate() == during
        }),
{
    lemma_busy_cell_stays_through(signal.cell.set(value).lock(), writes, callers);
}

/// A pass that starts at rest ends at rest, with a well-formed subscriber
/// list.
pub proof fn lemma_pass_closes<C>(registry: RegistryModel<C>, script: Script<C>)
    requires
        registry.wf(),
    ensures
        registry.state is Idling ==> walked(registry.begin_notify(), script, 0).finish().wf()
            && walked(registry.begin_notify(), script, 0).finish().state is Idling,
{
    if registry.state is Idling {
        let pass = registry.begin_notify();
        lemma_walked_extends(pass, script, 0);
        let end = walked(pass, script, 0);
        lemma_keep_active(end.entries);
        let done = end.finish();
        assert forall|k: int| 0 <= k < done.entries.len() implies done.entries[k].id.0
            < done.next_id by {
            if end.needs_retain {
                let i = choose|i: int| 0 <= i < end.entries.len() && end.entries[i] == done.entries[k];
            }
        }
    }
}

/// Subscribing to a signal that has a value and is at rest: the value is
/// shown, so the new callback is handed back to be run at once, as the
/// outermost delivery, with the value that the signal holds. While it runs
/// the signal reads as that value and takes no write. Once the callback is
/// put back and the delivery and the borrow are closed, the signal is as it
/// was, with the new subscriber as its last.
pub proof fn law_new_subscriber_is_shown_the_value<V, C>(
    signal: SignalModel<V, C>,
    notify: C,
    attempt: V,
)
    requires
        signal.wf(),
        signal.cell.state is Idling,
        signal.registry.state is Idling,
        signal.registry.has_free_id(),
        signal.registry.entries.len() < usize::MAX,
    ensures
        ({
            let id = SubscriberId(signal.registry.next_id);
            let shown = signal.cell.begin_borrow();
            let has_value = signal.cell.value is Some;
            let pushed = signal.registry.allocate().push(id, notify, has_value);
            &&& has_value
            &&& shown.value == signal.cell.value
            &&& shown.get() == signal.cell.get()
            &&& shown.set(attempt) == shown
            &&& signal.registry.allocate().push_delivery(id, notify, has_value) == (Delivery::Now {
                notify,
                outer: true,
            })
            &&& !pushed.callable(signal.registry.entries.len() as int)
            &&& shown.end_borrow() == signal.cell
            &&& pushed.restore(id, notify).finish().wf()
            &&& pushed.restore(id, notify).finish().state is Idling
            &&& pushed.restore(id, notify).finish().entries == signal.registry.entries.push(
                Subscriber { id, active: true, notify: Some(notify) },
            )
        }),
{
    law_subscriber_at_rest_is_served_once(signal.registry, notify);
    law_borrow_allows_reads_only(signal.cell, attempt);
}

/// Subscribing while the subscribers of another signal are told of a value
/// that this signal shares, on a subscriber list of its own that is at
/// rest: the value is in the cell, so it is shown to the new callback at
/// once, and the cell, which is marked as being written, stays as it is.
pub proof fn law_late_subscriber_on_shared_value_is_shown<V, C>(
    signal: SignalModel<V, C>,
    notify: C,
)
    requires
        signal.wf(),
        signal.cell.state is Mutating,
        signal.cell.value is Some,
        signal.registry.state is Idling,
        signal.registry.has_free_id(),
        signal.registry.entries.len() < usize::MAX,
    ensures
        ({
            let id = SubscriberId(signal.registry.next_id);
            let pushed = signal.registry.allocate().push(id, notify, true);
            &&& signal.cell.begin_borrow() == signal.cell
            &&& signal.registry.allocate().push_delivery(id, notify, true) == (Delivery::Now {
                notify,
                outer: true,
            })
            &&& pushed.restore(id, notify).finish().entries == signal.registry.entries.push(
                Subscriber { id, active: true, notify: Some(notify) },
            )
        }),
{
    law_subscriber_at_rest_is_served_once(signal.registry, notify);
}

/// Subscribing to a signal whose value is not in the cell, because it was
/// never written or is being changed in place: there is nothing to show, so
/// the new callback is not run at once but rests in the subscriber list.
pub proof fn law_new_subscriber_waits_without_value<V, C>(signal: SignalModel<V, C>, notify: C)
    requires
        signal.wf(),
        signal.cell.value is None,
        signal.registry.has_free_id(),
        signal.registry.entries.len() < usize::MAX,
    ensures
        ({
            let id = SubscriberId(signal.registry.next_id);
            &&& signal.cell.begin_borrow() == signal.cell
            &&& signal.registry.allocate().push_delivery(id, notify, false) == Delivery::<
                C,
            >::Deferred
            &&& signal.registry.allocate().push(id, notify, false).state == signal.registry.state
        }),
{
    law_fresh_id_is_unused(signal.registry);
}

/// A derived signal whose relay asks for a write with every value of the
/// source, as the one of `map` does, reads after every value of the source
/// as the value that the relay made of it, however many values the source
/// took. This holds of a derived signal that can be written when the first
/// value comes: it is not being shown or written at that time.
pub proof fn law_derived_reads_as_mapped<V, C>(
    derived: SignalModel<V, C>,
    reactions: Seq<Reaction<V>>,
    script: Script<C>,
    writes: Writes<V>,
)
    requires
        derived.wf(),
        derived.cell.writable(),
        forall|k: int| 0 <= k < reactions.len() ==> reactions[k] is Write,
    ensures
        derived.follow(reactions, script, writes).wf(),
        derived.follow(reactions, script, writes).cell.writable(),
        reactions.len() > 0 ==> derived.follow(reactions, script, writes).cell.get() == Ok::<
            V,
            SignalGetError,
        >(reactions.last()->Write_0),
    decreases reactions.len(),
{
    if reactions.len() > 0 {
        law_derived_reads_as_mapped(derived, reactions.drop_last(), script, writes);
        law_set_then_get(
            derived.follow(reactions.drop_last(), script, writes),
            reactions.last()->Write_0,
            script,
            writes,
        );
    }
}

/// A reaction that asks for no write never changes the value of the
/// derived signal, and one that asks for nothing changes nothing at all.
pub proof fn law_derived_keeps_value_without_write<V, C>(
    derived: SignalModel<V, C>,
    reaction: Reaction<V>,
    script: Script<C>,
    writes: Writes<V>,
)
    requires
        derived.wf(),
        !(reaction is Write),
    ensures
        derived.react(reaction, script, writes).cell.value == derived.cell.value,
        !reaction.tells() ==> derived.react(reaction, script, writes) == derived,
        derived.cell.state is Idling ==> derived.react(reaction, script, writes).cell
            == derived.cell,
{
    if reaction.tells() && derived.cell.value is Some {
        if derived.cell.state is Idling {
            lemma_busy_cell_stays_through(derived.cell.lock(), writes, derived.audience(script));
        } else {
            lemma_busy_cell_stays_through(derived.cell, writes, derived.audience(script));
        }
    }
}

/// What callbacks try to write that leave the signal alone.
pub open spec fn no_writes<V>() -> Writes<V> {
    |id: SubscriberId| Seq::<V>::empty()
}

/// A pass whose callbacks leave the registry alone leaves it as it was.
pub proof fn lemma_silent_walk<C>(m: RegistryModel<C>, index: int)
    requires
        m.wf(),
        0 <= index,
    ensures
        walked(m, silent::<C>(), index) == m,
    decreases usize::MAX - index,
{
    if index < m.entries.len() && index < usize::MAX {
        if m.callable(index) {
            lemma_silent_call(m, index);
        }
        lemma_silent_walk(m, index + 1);
    }
}

/// Callbacks that leave the signal alone leave its value cell as it was.
pub proof fn lemma_no_writes<V>(cell: CellModel<V>, callers: Seq<SubscriberId>)
    ensures
        through(cell, no_writes::<V>(), callers) == cell,
    decreases callers.len(),
{
    if callers.len() > 0 {
        lemma_no_writes(cell, callers.drop_last());
        assert(no_writes::<V>()(callers.last()).len() == 0);
    }
}

/// Writes a value to a signal that the caller holds alone, as a value cell
/// and a registry side by side, and tells the subscribers of it. Handed
/// back is whom it told.
///
/// These are the steps of every write, without anybody in between: the
/// callbacks cannot reach what the caller holds alone. The write is
/// accepted if and only if the cell can be written. If it is refused,
/// cell and registry are as they were and nobody was told. If it is
/// accepted, the cell is at rest with the value, the pass told whom it
/// reaches, each of them has heard the value, and but for that the
/// registry is as it was. If callbacks of the registry are running
/// already, an accepted write tells nobody.
pub fn set_owned<V>(cell: &mut ValueCell<V>, registry: &mut Registry<Callback<V>>, value: V) -> (result:
    Result<Vec<SubscriberId>, SignalUpdatingError>)
    requires
        old(cell).wf(),
        old(registry).wf(),
        old(registry)@.every(is_ready::<V>()),
    ensures
        final(cell).wf(),
        final(registry).wf(),
        final(registry)@.every(is_ready::<V>()),
        result is Ok <==> old(cell)@.writable(),
        result is Ok ==> heard_by_pass(old(registry)@, final(registry)@, value),
        ({
            let before = SignalModel { cell: old(cell)@, registry: old(registry)@ };
            let after = before.set(value, silent::<Callback<V>>(), no_writes::<V>());
            &&& final(cell)@ == after.cell
            &&& alike(final(registry)@, after.registry)
            &&& result matches Ok(called) ==> called@ == before.told_by_set(
                silent::<Callback<V>>(),
            ) && final(cell)@ == CellModel::new(value)
            &&& result is Err ==> final(cell)@ == old(cell)@ && final(registry)@ == old(registry)@ && before.told_by_set(silent::<Callback<V>>()) == Seq::<SubscriberId>::empty()
        }),
{
    let ghost before = SignalModel { cell: cell@, registry: registry@ };
    proof {
        lemma_silent_walk(before.registry.begin_notify(), 0);
        lemma_no_writes(
            before.cell.begin_set(value),
            before.audience(silent::<Callback<V>>()),
        );
    }
    match cell.begin_set(value) {
        Ok(replaced) => {
            let called = match cell.value() {
                Some(held) => registry.notify(held),
                None => Vec::new(),
            };
            cell.settle();
            Ok(called)
        },
        Err(e) => Err(e),
    }
}

/// Subscribes a callback to a signal that the caller holds alone, as a
/// value cell and a registry side by side, and hands back the identifier
/// of the subscription, if the registry could take it.
///
/// These are the steps of every subscription, without anybody in between.
/// The subscription is taken if and only if an identifier is left and
/// there is room. It becomes the last entry, under the next identifier,
/// and the entries before it are as they were. If the value is in the
/// cell and no pass is under way, the callback has been called with the
/// value, once; otherwise it rests as it was given. The value cell is as
/// it was.
pub fn for_each_owned<V>(
    cell: &mut ValueCell<V>,
    registry: &mut Registry<Callback<V>>,
    notify: Callback<V>,
) -> (made: Option<SubscriberId>)
    requires
        old(cell).wf(),
        old(registry).wf(),
        old(registry)@.every(is_ready::<V>()),
        notify.ready(),
    ensures
        final(cell).wf(),
        final(registry).wf(),
        final(registry)@.every(is_ready::<V>()),
        final(cell)@ == old(cell)@,
        made is Some <==> old(registry)@.has_free_id() && old(registry)@.entries.len()
            < usize::MAX,
        made is None ==> final(registry)@ == (if old(registry)@.has_free_id() {
            old(registry)@.allocate()
        } else {
            old(registry)@
        }),
        made is Some ==> {
            let before = old(registry)@;
            let after = final(registry)@;
            let last = before.entries.len() as int;
            &&& made == Some(SubscriberId(before.next_id))
            &&& after.state == before.state
            &&& after.next_id == before.next_id + 1
            &&& after.entries.len() == last + 1
            &&& forall|i: int| 0 <= i < last ==> after.entries[i] == before.entries[i]
            &&& after.entries[last].id == SubscriberId(before.next_id)
            &&& after.entries[last].active
            &&& after.entries[last].notify is Some
            &&& (if before.serves_now(old(cell)@.value is Some) {
                after.entries[last].notify->0.heard() == notify.heard().push(old(cell)@.value->0)
            } else {
                after.entries[last].notify->0 == notify
            })
        },
{
    let ghost before = registry@;
    proof {
        lemma_every_is_kept(before, is_ready::<V>());
        if before.has_free_id() && before.entries.len() < usize::MAX {
            law_fresh_id_is_unused(before);
        }
    }
    let id = registry.claim_id();
    let ghost claimed = registry@;
    let lease = cell.begin_borrow();
    let has_value = cell.value().is_some();
    proof {
        lemma_every_is_kept(claimed, is_ready::<V>());
    }
    let delivery = registry.push_subscriber(id, notify, has_value);
    let ghost pushed = registry@;
    let made = match delivery {
        Delivery::Deferred => {
            proof {
                assert(pushed.entries =~= before.entries.push(
                    Subscriber { id, active: true, notify: Some(notify) },
                ));
            }
            Some(id)
        },
        Delivery::Rejected(_) => None,
        Delivery::Now { notify, outer } => {
            let mut notify = notify;
            match cell.value() {
                Some(held) => {
                    notify.call(held);
                },
                None => {},
            }
            proof {
                assert(pushed.entries =~= before.entries.push(
                    Subscriber { id, active: true, notify: None },
                ));
                lemma_index_unique(pushed, before.entries.len() as int, id);
                lemma_every_is_kept(pushed, is_ready::<V>());
                lemma_every_is_kept(pushed.restore(id, notify), is_ready::<V>());
            }
            let out = registry.settle(id, notify, outer);
            proof {
                assert(pushed.restore(id, notify).entries =~= before.entries.push(
                    Subscriber { id, active: true, notify: Some(notify) },
                ));
                if outer {
                    assert(!pushed.restore(id, notify).needs_retain);
                }
            }
            Some(id)
        },
    };
    match lease {
        Lease::Outer => {
            cell.end_borrow();
        },
        _ => {},
    }
    made
}

/// Changes the value of a signal that the caller holds alone in place and
/// tells the subscribers of it. Handed back is whom it told.
///
/// These are the steps of every change in place, without anybody in
/// between. The change is accepted if and only if the cell is at rest. If
/// it is refused, `mutate` was not called on anything that is kept, cell
/// and registry are as they were, and nobody was told. If it is accepted,
/// the cell is at rest with what `mutate` made of the value, the pass told
/// whom it reaches, and each of them has heard the changed value. If
/// callbacks of the registry are running already, an accepted change
/// tells nobody.
pub fn mutate_owned<V, F: FnOnce(&mut V)>(
    cell: &mut ValueCell<V>,
    registry: &mut Registry<Callback<V>>,
    mutate: F,
) -> (result: Result<Vec<SubscriberId>, SignalMutatingError>)
    requires
        old(cell).wf(),
        old(registry).wf(),
        old(registry)@.every(is_ready::<V>()),
        forall|target: &mut V| call_requires(mutate, (target,)),
    ensures
        final(cell).wf(),
        final(registry).wf(),
        final(registry)@.every(is_ready::<V>()),
        ({
            let before = SignalModel { cell: old(cell)@, registry: old(registry)@ };
            match result {
                Ok(called) => {
                    &&& before.cell.mutating_error() is None
                    &&& called@ == before.told_by_mutate(silent::<Callback<V>>())
                    &&& final(cell)@.state is Idling
                    &&& final(cell)@.value is Some
                    &&& exists|target: &mut V|
                        {
                            &&& mut_ref_current(target) == before.cell.value->0
                            &&& mut_ref_future(target) == final(cell)@.value->0
                            &&& call_ensures(mutate, (target,), ())
                        }
                    &&& final(cell)@ == before.mutate(
                        final(cell)@.value->0,
                        Seq::<V>::empty(),
                        silent::<Callback<V>>(),
                        no_writes::<V>(),
                    ).cell
                    &&& alike(final(registry)@, before.registry)
                    &&& heard_by_pass(before.registry, final(registry)@, final(cell)@.value->0)
                },
                Err(e) => {
                    &&& before.cell.mutating_error() == Some(e)
                    &&& final(cell)@ == before.cell
                    &&& final(registry)@ == before.registry
                    &&& before.told_by_mutate(silent::<Callback<V>>()) == Seq::<SubscriberId>::empty()
                },
            }
        }),
{
    let ghost before = SignalModel { cell: cell@, registry: registry@ };
    match cell.begin_mutate() {
        Ok(value) => {
            let mut value = value;
            mutate(&mut value);
            let ghost changed = value;
            proof {
                lemma_silent_walk(before.registry.begin_notify(), 0);
                lemma_no_writes(
                    before.cell.begin_mutate().store(changed),
                    before.audience(silent::<Callback<V>>()),
                );
            }
            let left = cell.store(value);
            let called = match cell.value() {
                Some(held) => registry.notify(held),
                None => Vec::new(),
            };
            cell.settle();
            Ok(called)
        },
        Err(e) => Err(e),
    }
}

/// Folds a value of the source into a derived signal that the caller holds
/// alone, as a value cell and a registry side by side, and tells the
/// subscribers of what came of it. Handed back is whom it told.
///
/// These are the steps that the relay of `fold` takes for every value of
/// the source, without anybody in between. The fold is run if and only if
/// the cell is at rest. If it is not, the closure was not called, and cell
/// and registry are as they were. If it is, the cell is at rest with what
/// the closure made of the value that the cell held and of `value`, the
/// pass told whom it reaches, and each of them has heard the new value.
pub fn fold_owned<T, U, F: FnMut(&mut U, &T)>(
    relay: &mut FoldRelay<F>,
    cell: &mut ValueCell<U>,
    registry: &mut Registry<Callback<U>>,
    value: &T,
) -> (result: Result<Vec<SubscriberId>, SignalMutatingError>)
    requires
        old(cell).wf(),
        old(registry).wf(),
        old(registry)@.every(is_ready::<U>()),
        forall|acc: &mut U, v: &T| call_requires(old(relay).fold, (acc, v)),
    ensures
        final(cell).wf(),
        final(registry).wf(),
        final(registry)@.every(is_ready::<U>()),
        final(relay).fold == old(relay).fold,
        ({
            let before = SignalModel { cell: old(cell)@, registry: old(registry)@ };
            match result {
                Ok(called) => {
                    &&& before.cell.mutating_error() is None
                    &&& called@ == before.told_by_mutate(silent::<Callback<U>>())
                    &&& final(cell)@.state is Idling
                    &&& final(cell)@.value is Some
                    &&& exists|acc: &mut U|
                        {
                            &&& mut_ref_current(acc) == before.cell.value->0
                            &&& mut_ref_future(acc) == final(cell)@.value->0
                            &&& call_ensures(old(relay).fold, (acc, value), ())
                        }
                    &&& alike(final(registry)@, before.registry)
                    &&& heard_by_pass(before.registry, final(registry)@, final(cell)@.value->0)
                },
                Err(e) => {
                    &&& before.cell.mutating_error() == Some(e)
                    &&& final(cell)@ == before.cell
                    &&& final(registry)@ == before.registry
                },
            }
        }),
{
    match cell.begin_mutate() {
        Ok(acc) => {
            let next = relay.fold_into(acc, value);
            let left = cell.store(next);
            let called = match cell.value() {
                Some(held) => registry.notify(held),
                None => Vec::new(),
            };
            cell.settle();
            Ok(called)
        },
        Err(e) => Err(e),
    }
}

} // verus!
