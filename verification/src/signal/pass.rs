//! A notification pass as a whole.
//!
//! While a pass walks the entries of a registry, each callback that it
//! calls may subscribe new callbacks and cancel subscriptions, its own
//! included. This module states what a pass does under any such
//! interference: who is told, in which order, and how often.
//!
//! A pass takes a step, lets the callback act, puts the callback back and
//! moves on, position by position, until a step finds no entry. On a
//! registry that the caller holds alone, [`Registry::notify`] runs it and
//! its contract says whom it called, by [`told`]. On a registry behind a
//! shared reference,
//! [`Broadcast::notify`](crate::signal::broadcast::Broadcast) takes the
//! same steps one by one; there the callbacks act in between, and what
//! is stated here of [`told`] and [`walked`] is stated of those steps, not
//! by a contract of that function.

use vstd::prelude::*;
use crate::signal::broadcast::is_ready;
use crate::signal::notify::Callback;
use crate::signal::registry::lemma_every_is_kept;
use crate::signal::registry::lemma_index_unique;
use crate::signal::registry::lemma_keep_active;
use crate::signal::registry::lemma_rank_unique;
use crate::signal::registry::Registry;
use crate::signal::registry::RegistryModel;
use crate::signal::registry::Step;
use crate::signal::registry::Subscriber;
use crate::signal::registry::SubscriberId;

verus! {

/// What a callback may do to the registry that is calling it.
pub enum Action<C> {
    /// Subscribe another callback.
    Subscribe(C),
    /// Cancel a subscription, be it the callback's own.
    Unsubscribe(SubscriberId),
}

/// What each callback does when it is called, by the identifier of its
/// subscription.
pub type Script<C> = spec_fn(SubscriberId) -> Seq<Action<C>>;

/// The registry after one action of a callback.
pub open spec fn act<C>(m: RegistryModel<C>, action: Action<C>) -> RegistryModel<C> {
    match action {
        Action::Subscribe(notify) => {
            if m.has_free_id() {
                m.allocate().push(SubscriberId(m.next_id), notify, true)
            } else {
                m
            }
        },
        Action::Unsubscribe(id) => m.unsubscribe(id),
    }
}

/// The registry after the actions of a callback, first to last.
pub open spec fn act_all<C>(m: RegistryModel<C>, actions: Seq<Action<C>>) -> RegistryModel<C>
    decreases actions.len(),
{
    if actions.len() == 0 {
        m
    } else {
        act(act_all(m, actions.drop_last()), actions.last())
    }
}

/// The registry after the callback at `index` was taken out, has acted and
/// was put back.
pub open spec fn call<C>(m: RegistryModel<C>, script: Script<C>, index: int) -> RegistryModel<C> {
    let id = m.entries[index].id;
    act_all(m.take(index), script(id)).restore(id, m.entries[index].notify->0)
}

/// The subscribers that a pass calls from position `index` on, in the order
/// in which it calls them.
pub open spec fn told<C>(m: RegistryModel<C>, script: Script<C>, index: int) -> Seq<SubscriberId>
    decreases usize::MAX - index,
{
    if index < 0 || index >= m.entries.len() || index >= usize::MAX {
        Seq::empty()
    } else if m.callable(index) {
        seq![m.entries[index].id] + told(call(m, script, index), script, index + 1)
    } else {
        told(m, script, index + 1)
    }
}

/// The registry at the end of a pass that is at position `index`, before
/// the pass is closed.
pub open spec fn walked<C>(m: RegistryModel<C>, script: Script<C>, index: int) -> RegistryModel<C>
    decreases usize::MAX - index,
{
    if index < 0 || index >= m.entries.len() || index >= usize::MAX {
        m
    } else if m.callable(index) {
        walked(call(m, script, index), script, index + 1)
    } else {
        walked(m, script, index + 1)
    }
}

/// Whether no callback ever cancels the subscription `id`.
pub open spec fn spares<C>(script: Script<C>, id: SubscriberId) -> bool {
    forall|caller: SubscriberId, k: int|
        0 <= k < script(caller).len() ==> #[trigger] script(caller)[k] != Action::<C>::Unsubscribe(
            id,
        )
}

/// Whether `after` is `before` as a pass may have changed it: the pass is
/// still under way, the entries that were there are at their positions
/// under their identifiers, no entry became active, and new entries stand
/// behind the old ones.
pub open spec fn extends<C>(before: RegistryModel<C>, after: RegistryModel<C>) -> bool {
    &&& after.wf()
    &&& after.state is Notifying
    &&& before.entries.len() <= after.entries.len()
    &&& before.next_id <= after.next_id
    &&& forall|j: int|
        0 <= j < before.entries.len() ==> (#[trigger] after.entries[j]).id == before.entries[j].id
            && (after.entries[j].active ==> before.entries[j].active)
}

/// Whether the entries of `after` that were in `before` hold the callbacks
/// that they held.
pub open spec fn keeps<C>(before: RegistryModel<C>, after: RegistryModel<C>) -> bool {
    forall|j: int|
        0 <= j < before.entries.len() ==> (#[trigger] after.entries[j]).notify
            == before.entries[j].notify
}

/// One action of a callback during a pass leaves the old entries where
/// they are and cancels at most the one it names.
pub proof fn lemma_act<C>(m: RegistryModel<C>, action: Action<C>)
    requires
        m.wf(),
        m.state is Notifying,
    ensures
        extends(m, act(m, action)),
        keeps(m, act(m, action)),
        forall|j: int|
            0 <= j < m.entries.len() && action != Action::<C>::Unsubscribe(m.entries[j].id)
                ==> (#[trigger] act(m, action).entries[j]).active == m.entries[j].active,
        action matches Action::Subscribe(notify) ==> (m.has_free_id() && m.entries.len()
            < usize::MAX ==> act(m, action).entries == m.entries.push(
            Subscriber { id: SubscriberId(m.next_id), active: true, notify: Some(notify) },
        )),
{
    let after = act(m, action);
    match action {
        Action::Subscribe(notify) => {
            if m.has_free_id() {
                let id = SubscriberId(m.next_id);
                let a = m.allocate();
                if a.admits(id) {
                    lemma_rank_unique(a, id, m.entries.len() as int);
                    assert(after.entries =~= m.entries.push(
                        Subscriber { id, active: true, notify: Some(notify) },
                    ));
                }
            }
        },
        Action::Unsubscribe(id) => {
            if m.contains(id) {
                let at = m.index_of(id);
                assert forall|j: int|
                    0 <= j < m.entries.len() && action != Action::<C>::Unsubscribe(
                        m.entries[j].id,
                    ) implies (#[trigger] after.entries[j]).active == m.entries[j].active by {
                    if j == at {
                        assert(m.entries[j].id == id);
                    }
                }
            }
        },
    }
}

/// All actions of a callback during a pass leave the old entries where
/// they are and cancel at most those they name.
pub proof fn lemma_act_all<C>(m: RegistryModel<C>, actions: Seq<Action<C>>)
    requires
        m.wf(),
        m.state is Notifying,
    ensures
        extends(m, act_all(m, actions)),
        keeps(m, act_all(m, actions)),
        forall|j: int|
            0 <= j < m.entries.len() && (forall|k: int|
                0 <= k < actions.len() ==> actions[k] != Action::<C>::Unsubscribe(m.entries[j].id))
                ==> (#[trigger] act_all(m, actions).entries[j]).active == m.entries[j].active,
    decreases actions.len(),
{
    if actions.len() > 0 {
        let front = actions.drop_last();
        let mid = act_all(m, front);
        lemma_act_all(m, front);
        lemma_act(mid, actions.last());
        let after = act_all(m, actions);
        assert forall|j: int|
            0 <= j < m.entries.len() && (forall|k: int|
                0 <= k < actions.len() ==> actions[k] != Action::<C>::Unsubscribe(
                    m.entries[j].id,
                )) implies (#[trigger] after.entries[j]).active == m.entries[j].active by {
            assert(mid.entries[j].id == m.entries[j].id);
            assert(actions[actions.len() - 1] != Action::<C>::Unsubscribe(m.entries[j].id));
            assert forall|k: int| 0 <= k < front.len() implies front[k] != Action::<
                C,
            >::Unsubscribe(m.entries[j].id) by {
                assert(front[k] == actions[k]);
            }
        }
        assert forall|j: int| 0 <= j < m.entries.len() implies (#[trigger] after.entries[j]).notify
            == m.entries[j].notify by {
            assert(mid.entries[j].notify == m.entries[j].notify);
        }
    }
}

/// Calling one callback during a pass leaves every entry where it is, with
/// its callback, and cancels at most the entries that the callback names.
pub proof fn lemma_call<C>(m: RegistryModel<C>, script: Script<C>, index: int)
    requires
        m.wf(),
        m.state is Notifying,
        m.callable(index),
    ensures
        extends(m, call(m, script, index)),
        keeps(m, call(m, script, index)),
        forall|j: int|
            0 <= j < m.entries.len() && spares(script, m.entries[j].id) ==> (#[trigger] call(
                m,
                script,
                index,
            ).entries[j]).active == m.entries[j].active,
{
    let id = m.entries[index].id;
    let notify = m.entries[index].notify->0;
    let taken = m.take(index);
    let acted = act_all(taken, script(id));
    lemma_act_all(taken, script(id));
    let after = acted.restore(id, notify);
    assert(acted.entries[index].id == id);
    lemma_index_unique(acted, index, id);
    assert(acted.entries[index].notify == taken.entries[index].notify);
    assert(acted.awaits(id));
    assert forall|j: int| 0 <= j < m.entries.len() implies (#[trigger] after.entries[j]).notify
        == m.entries[j].notify by {
        if j != index {
            assert(acted.entries[j].notify == taken.entries[j].notify);
        }
    }
    assert forall|j: int|
        0 <= j < m.entries.len() && spares(script, m.entries[j].id) implies (
    #[trigger] after.entries[j]).active == m.entries[j].active by {
        assert(taken.entries[j].id == m.entries[j].id);
        assert(acted.entries[j].active == taken.entries[j].active);
    }
    assert forall|j: int| 0 <= j < m.entries.len() implies (#[trigger] after.entries[j]).id
        == m.entries[j].id && (after.entries[j].active ==> m.entries[j].active) by {
        assert(acted.entries[j].id == taken.entries[j].id);
    }
}

/// A lower bound of the identifiers at and behind position `index`, now
/// and for the rest of the pass.
pub open spec fn floor<C>(m: RegistryModel<C>, index: int) -> int {
    if 0 <= index < m.entries.len() {
        m.entries[index].id.0 as int
    } else {
        m.next_id as int
    }
}

/// One step of a pass moves the lower bound up.
proof fn lemma_floor_rises<C>(m: RegistryModel<C>, after: RegistryModel<C>, index: int)
    requires
        m.wf(),
        extends(m, after),
        0 <= index < m.entries.len(),
    ensures
        m.entries[index].id.0 < floor(after, index + 1),
{
    assert(after.entries[index].id == m.entries[index].id);
    if index + 1 < after.entries.len() {
        assert(after.entries[index].id.0 < after.entries[index + 1].id.0);
    }
}

/// A pass calls its subscribers by rising identifiers, none below the
/// lower bound.
pub proof fn lemma_told_rises<C>(m: RegistryModel<C>, script: Script<C>, index: int)
    requires
        m.wf(),
        m.state is Notifying,
        0 <= index,
    ensures
        forall|k: int|
            0 <= k < told(m, script, index).len() ==> floor(m, index) <= (#[trigger] told(
                m,
                script,
                index,
            )[k]).0,
        forall|a: int, b: int|
            0 <= a < b < told(m, script, index).len() ==> told(m, script, index)[a].0 < told(
                m,
                script,
                index,
            )[b].0,
    decreases usize::MAX - index,
{
    if index < m.entries.len() && index < usize::MAX {
        let next = if m.callable(index) {
            call(m, script, index)
        } else {
            m
        };
        if m.callable(index) {
            lemma_call(m, script, index);
        }
        lemma_floor_rises(m, next, index);
        lemma_told_rises(next, script, index + 1);
        let rest = told(next, script, index + 1);
        let all = told(m, script, index);
        if m.callable(index) {
            assert(all =~= seq![m.entries[index].id] + rest);
            assert forall|k: int| 0 <= k < all.len() implies floor(m, index) <= (#[trigger] all[k]).0 by {
                if k > 0 {
                    assert(all[k] == rest[k - 1]);
                }
            }
            assert forall|a: int, b: int| 0 <= a < b < all.len() implies all[a].0 < all[b].0 by {
                assert(all[b] == rest[b - 1]);
                if a > 0 {
                    assert(all[a] == rest[a - 1]);
                }
            }
        }
    }
}

/// A pass leaves every entry where it is, under its identifier, and makes
/// no cancelled entry active again.
pub proof fn lemma_walked_extends<C>(m: RegistryModel<C>, script: Script<C>, index: int)
    requires
        m.wf(),
        m.state is Notifying,
        0 <= index,
    ensures
        extends(m, walked(m, script, index)),
    decreases usize::MAX - index,
{
    if index < m.entries.len() && index < usize::MAX {
        if m.callable(index) {
            let next = call(m, script, index);
            lemma_call(m, script, index);
            lemma_walked_extends(next, script, index + 1);
            let end = walked(next, script, index + 1);
            assert forall|j: int| 0 <= j < m.entries.len() implies (#[trigger] end.entries[j]).id
                == m.entries[j].id && (end.entries[j].active ==> m.entries[j].active) by {
                assert(next.entries[j].id == m.entries[j].id);
            }
        } else {
            lemma_walked_extends(m, script, index + 1);
        }
    }
}

/// Within one pass nobody is told twice, and the subscribers are told in
/// the order in which they subscribed.
pub proof fn law_nobody_is_told_twice<C>(m: RegistryModel<C>, script: Script<C>)
    requires
        m.wf(),
        m.state is Notifying,
    ensures
        forall|a: int, b: int|
            0 <= a < b < told(m, script, 0).len() ==> told(m, script, 0)[a].0 < told(
                m,
                script,
                0,
            )[b].0,
        forall|a: int, b: int|
            0 <= a < b < told(m, script, 0).len() ==> told(m, script, 0)[a] != told(
                m,
                script,
                0,
            )[b],
{
    lemma_told_rises(m, script, 0);
}

/// A subscriber that is active, has its callback at rest and is at or
/// behind the position of the pass is told by the pass, whatever the
/// callbacks before it do, unless one of them cancels it.
pub proof fn law_spared_subscriber_is_told<C>(
    m: RegistryModel<C>,
    script: Script<C>,
    index: int,
    at: int,
)
    requires
        m.wf(),
        m.state is Notifying,
        0 <= index <= at < m.entries.len(),
        m.callable(at),
        spares(script, m.entries[at].id),
    ensures
        told(m, script, index).contains(m.entries[at].id),
    decreases at - index,
{
    let all = told(m, script, index);
    if index == at {
        assert(all[0] == m.entries[at].id);
    } else {
        if m.callable(index) {
            let next = call(m, script, index);
            lemma_call(m, script, index);
            assert(next.entries[at].id == m.entries[at].id);
            assert(next.entries[at].notify == m.entries[at].notify);
            assert(next.entries[at].active == m.entries[at].active);
            law_spared_subscriber_is_told(next, script, index + 1, at);
            let rest = told(next, script, index + 1);
            let k = choose|k: int| 0 <= k < rest.len() && rest[k] == m.entries[at].id;
            assert(all =~= seq![m.entries[index].id] + rest);
            assert(all[k + 1] == m.entries[at].id);
        } else {
            law_spared_subscriber_is_told(m, script, index + 1, at);
        }
    }
}

/// A subscriber that a callback adds while the pass is under way is told by
/// the rest of that very pass, unless a callback cancels it: it stands
/// behind the position of the pass, active and with its callback at rest.
/// With the law before, it is told once.
pub proof fn law_late_subscriber_is_told<C>(
    m: RegistryModel<C>,
    script: Script<C>,
    index: int,
    at: int,
)
    requires
        m.wf(),
        m.state is Notifying,
        m.callable(index),
        index < usize::MAX,
        m.entries.len() <= at < call(m, script, index).entries.len(),
        call(m, script, index).callable(at),
        spares(script, call(m, script, index).entries[at].id),
    ensures
        told(m, script, index).contains(call(m, script, index).entries[at].id),
{
    let next = call(m, script, index);
    lemma_call(m, script, index);
    law_spared_subscriber_is_told(next, script, index + 1, at);
    let rest = told(next, script, index + 1);
    let all = told(m, script, index);
    let k = choose|k: int| 0 <= k < rest.len() && rest[k] == next.entries[at].id;
    assert(all =~= seq![m.entries[index].id] + rest);
    assert(all[k + 1] == next.entries[at].id);
}

/// The callback whose only action is to subscribe another one: the new
/// subscriber becomes the last entry, and the pass that is under way tells
/// it.
pub proof fn law_subscribing_callback<C>(
    m: RegistryModel<C>,
    script: Script<C>,
    index: int,
    notify: C,
)
    requires
        m.wf(),
        m.state is Notifying,
        m.callable(index),
        m.has_free_id(),
        m.entries.len() < usize::MAX,
        script(m.entries[index].id) == seq![Action::Subscribe(notify)],
        spares(script, SubscriberId(m.next_id)),
    ensures
        call(m, script, index).entries.len() == m.entries.len() + 1,
        call(m, script, index).entries.last() == (Subscriber {
            id: SubscriberId(m.next_id),
            active: true,
            notify: Some(notify),
        }),
        told(m, script, index).contains(SubscriberId(m.next_id)),
{
    let id = m.entries[index].id;
    let taken = m.take(index);
    let actions = script(id);
    assert(actions.drop_last() =~= Seq::<Action<C>>::empty());
    assert(act_all(taken, actions.drop_last()) == taken);
    assert(act_all(taken, actions) == act(taken, Action::Subscribe(notify)));
    lemma_act(taken, Action::Subscribe(notify));
    let acted = act_all(taken, actions);
    lemma_index_unique(acted, index, id);
    let next = call(m, script, index);
    assert(next.entries =~= acted.entries.update(
        index,
        Subscriber { notify: m.entries[index].notify, ..acted.entries[index] },
    ));
    law_late_subscriber_is_told(m, script, index, m.entries.len() as int);
}

/// A subscriber that was cancelled, by its own callback or by another, is
/// not told from then on, and is gone once the pass is closed.
pub proof fn law_cancelled_subscriber_is_not_told<C>(
    m: RegistryModel<C>,
    script: Script<C>,
    index: int,
    at: int,
)
    requires
        m.wf(),
        m.state is Notifying,
        0 <= index,
        0 <= at < m.entries.len(),
        !m.entries[at].active,
    ensures
        !told(m, script, index).contains(m.entries[at].id),
        !walked(m, script, index).finish().contains(m.entries[at].id),
    decreases usize::MAX - index,
{
    let id = m.entries[at].id;
    let all = told(m, script, index);
    if index < m.entries.len() && index < usize::MAX {
        let next = if m.callable(index) {
            call(m, script, index)
        } else {
            m
        };
        if m.callable(index) {
            lemma_call(m, script, index);
        }
        assert(next.entries[at].id == id);
        law_cancelled_subscriber_is_not_told(next, script, index + 1, at);
        if m.callable(index) {
            let rest = told(next, script, index + 1);
            assert(all =~= seq![m.entries[index].id] + rest);
            if all.contains(id) {
                let k = choose|k: int| 0 <= k < all.len() && all[k] == id;
                if k == 0 {
                    lemma_index_unique(m, index, id);
                    lemma_index_unique(m, at, id);
                } else {
                    assert(rest[k - 1] == id);
                }
            }
        }
    } else {
        lemma_cancelled_leaves(m, at);
    }
}

/// Closing a pass takes the cancelled entries out.
proof fn lemma_cancelled_leaves<C>(m: RegistryModel<C>, at: int)
    requires
        m.wf(),
        0 <= at < m.entries.len(),
        !m.entries[at].active,
    ensures
        !m.finish().contains(m.entries[at].id),
{
    let id = m.entries[at].id;
    let done = m.finish();
    lemma_keep_active(m.entries);
    if done.contains(id) {
        let k = done.index_of(id);
        let i = choose|i: int| 0 <= i < m.entries.len() && m.entries[i] == done.entries[k];
        lemma_index_unique(m, i, id);
        lemma_index_unique(m, at, id);
        assert(done.entries[k].active);
    }
}

/// What callbacks do that leave the registry alone.
pub open spec fn silent<C>() -> Script<C> {
    |id: SubscriberId| Seq::<Action<C>>::empty()
}

/// Whether two registries are the same but for the callbacks that rest in
/// them.
pub open spec fn alike<C>(a: RegistryModel<C>, b: RegistryModel<C>) -> bool {
    &&& a.state == b.state
    &&& a.next_id == b.next_id
    &&& a.needs_retain == b.needs_retain
    &&& a.entries.len() == b.entries.len()
    &&& forall|i: int|
        0 <= i < a.entries.len() ==> (#[trigger] a.entries[i]).id == b.entries[i].id
            && a.entries[i].active == b.entries[i].active && (a.entries[i].notify is Some
            <==> b.entries[i].notify is Some)
}

/// Calling a callback that leaves the registry alone leaves the registry
/// as it was.
pub proof fn lemma_silent_call<C>(m: RegistryModel<C>, index: int)
    requires
        m.wf(),
        m.callable(index),
    ensures
        call(m, silent::<C>(), index) == m,
{
    let id = m.entries[index].id;
    let taken = m.take(index);
    assert(silent::<C>()(id).len() == 0);
    assert(act_all(taken, silent::<C>()(id)) == taken);
    lemma_index_unique(taken, index, id);
    assert(call(m, silent::<C>(), index).entries =~= m.entries);
}

/// Whom a pass calls, if the callbacks leave the registry alone, does not
/// depend on the callbacks that rest in it.
pub proof fn lemma_told_alike<C>(a: RegistryModel<C>, b: RegistryModel<C>, index: int)
    requires
        a.wf(),
        b.wf(),
        alike(a, b),
        0 <= index,
    ensures
        told(a, silent::<C>(), index) == told(b, silent::<C>(), index),
    decreases usize::MAX - index,
{
    if index < a.entries.len() && index < usize::MAX {
        assert(a.entries[index].id == b.entries[index].id);
        if a.callable(index) {
            lemma_silent_call(a, index);
            lemma_silent_call(b, index);
        }
        lemma_told_alike(a, b, index + 1);
    }
}

/// The subscribers that are told when a pass is asked for: all that a pass
/// reaches, unless callbacks of the registry are running already, in which
/// case nobody is told.
pub open spec fn reached<C>(m: RegistryModel<C>, script: Script<C>) -> Seq<SubscriberId> {
    if m.state is Idling {
        told(m.begin_notify(), script, 0)
    } else {
        Seq::empty()
    }
}

/// Whether `after` holds the callbacks of `before` as a pass over
/// `before` with `value` leaves them, if the callbacks leave the registry
/// alone: every callback that the pass calls has heard `value` on top of
/// what it had heard, and every other callback is as it was.
pub open spec fn heard_by_pass<T>(
    before: RegistryModel<Callback<T>>,
    after: RegistryModel<Callback<T>>,
    value: T,
) -> bool {
    forall|i: int|
        0 <= i < before.entries.len() ==> (if before.state is Idling && before.callable(i) {
            (#[trigger] after.entries[i]).notify->0.heard() == before.entries[i].notify->0.heard().push(
                value,
            )
        } else {
            after.entries[i].notify == before.entries[i].notify
        })
}

impl<T> Registry<Callback<T>> {
    /// Tells all active subscribers of a registry that nobody else can
    /// reach of `value`, in the order in which they subscribed, and hands
    /// back whom it called.
    ///
    /// Does nothing and tells nobody if callbacks of this registry are
    /// running already. Otherwise the registry is walked position by
    /// position, as a pass always is. Since the callbacks cannot reach a
    /// registry that the caller holds alone, they leave it alone: the pass
    /// calls exactly the entries that are active and hold their callback,
    /// each once, and afterwards the registry is as it was, but that every
    /// callback that was called has heard the value.
    pub fn notify(&mut self, value: &T) -> (called: Vec<SubscriberId>)
        requires
            old(self).wf(),
            old(self)@.every(is_ready::<T>()),
        ensures
            final(self).wf(),
            final(self)@.every(is_ready::<T>()),
            called@ == reached(old(self)@, silent::<Callback<T>>()),
            alike(final(self)@, old(self)@),
            heard_by_pass(old(self)@, final(self)@, *value),
            !(old(self)@.state is Idling) ==> final(self)@ == old(self)@,
    {
        let ghost orig = self@;
        proof {
            lemma_every_is_kept(self@, is_ready::<T>());
        }
        let started = self.begin_notify();
        if !started {
            return Vec::new();
        }
        let ghost pass = self@;
        let mut called: Vec<SubscriberId> = Vec::new();
        let mut index: usize = 0;
        while index < self.len()
            invariant
                self.wf(),
                self@.every(is_ready::<T>()),
                pass == orig.begin_notify(),
                orig.wf(),
                orig.state is Idling,
                alike(self@, pass),
                called@ + told(self@, silent::<Callback<T>>(), index as int) == told(
                    pass,
                    silent::<Callback<T>>(),
                    0,
                ),
                forall|i: int|
                    0 <= i < index && i < orig.entries.len() ==> (if orig.callable(i) {
                        (#[trigger] self@.entries[i]).notify->0.heard()
                            == orig.entries[i].notify->0.heard().push(*value)
                    } else {
                        self@.entries[i].notify == orig.entries[i].notify
                    }),
                forall|i: int|
                    index <= i < orig.entries.len() ==> (#[trigger] self@.entries[i]).notify
                        == orig.entries[i].notify,
            decreases self@.entries.len() - index,
        {
            let ghost before = self@;
            proof {
                lemma_every_is_kept(before, is_ready::<T>());
                assert(before.entries[index as int].id == pass.entries[index as int].id);
            }
            let step = self.step(index);
            match step {
                Step::Call { id, notify } => {
                    let mut notify = notify;
                    let ghost was = notify;
                    notify.call(value);
                    proof {
                        lemma_index_unique(self@, index as int, id);
                        lemma_every_is_kept(self@, is_ready::<T>());
                        lemma_silent_call(before, index as int);
                    }
                    let left = self.restore(id, notify);
                    called.push(id);
                    proof {
                        assert(alike(self@, before));
                        lemma_told_alike(before, self@, index + 1);
                        assert(called@ + told(self@, silent::<Callback<T>>(), index + 1) =~= (
                        called@.drop_last() + (seq![id] + told(
                            before,
                            silent::<Callback<T>>(),
                            index + 1,
                        ))));
                    }
                },
                _ => {},
            }
            index = index + 1;
        }
        proof {
            lemma_every_is_kept(self@, is_ready::<T>());
            assert(told(self@, silent::<Callback<T>>(), index as int) =~= Seq::<
                SubscriberId,
            >::empty());
            assert(called@ + Seq::<SubscriberId>::empty() =~= called@);
        }
        let retired = self.finish();
        called
    }
}

} // verus!
