//! The subscriber registry as a plain owned value.
//!
//! A [`Registry`] keeps its entries ordered by identifier, hands out fresh
//! identifiers, and breaks a notification pass into single steps so that a
//! caller can run each callback while the registry itself is free to be
//! changed. Every operation is total on well-formed registries and its
//! contract gives the resulting [`RegistryModel`] exactly.

use vstd::prelude::*;

verus! {

/// The identifier of one subscription. Identifiers grow with every
/// subscription and are never handed out twice by the same registry.
#[derive(Copy, Clone, PartialEq, Eq, Structural, PartialOrd, Ord, Debug, Hash)]
pub struct SubscriberId(pub usize);

/// What a registry is busy with.
#[derive(Copy, Clone, PartialEq, Eq, Structural, Debug)]
pub enum State {
    /// No callback of this registry is running.
    Idling,
    /// A notification pass is walking the entries.
    Notifying,
    /// A new subscriber is being handed the current value.
    Subscribing,
}

/// One entry of a registry. The callback is absent while it is running, or
/// while its owner has not installed it yet.
pub struct Subscriber<C> {
    pub id: SubscriberId,
    pub active: bool,
    pub notify: Option<C>,
}

impl<C> Subscriber<C> {
    /// The identifier of this subscriber.
    pub fn id(&self) -> (id: SubscriberId)
        ensures
            id == self.id,
    {
        self.id
    }

    /// Whether this subscriber still wants values. An inactive subscriber is
    /// only waiting to be removed.
    pub fn active(&self) -> (active: bool)
        ensures
            active == self.active,
    {
        self.active
    }

    /// The callback of this subscriber, if it is at rest in its entry.
    pub fn notify(&self) -> (notify: Option<&C>)
        ensures
            match notify {
                Some(c) => self.notify == Some(*c),
                None => self.notify is None,
            },
    {
        self.notify.as_ref()
    }
}

/// What the caller of [`Registry::push_subscriber`] has to do next.
pub enum Delivery<C> {
    /// The callback rests in its entry; a running pass will reach it.
    Deferred,
    /// The callback is to be run now with the current value and then given
    /// back with [`Registry::restore`]. `outer` tells that the registry was
    /// idle before, so the caller closes the delivery with
    /// [`Registry::finish`].
    Now { notify: C, outer: bool },
    /// The identifier was not one this registry could take.
    Rejected(C),
}

/// One step of a notification pass.
pub enum Step<C> {
    /// The index is past the last entry: the pass is over.
    Done,
    /// The entry at the index is inactive or its callback is away.
    Skip,
    /// The callback of the entry at the index, taken out to be run.
    Call { id: SubscriberId, notify: C },
}

/// The mathematical content of a [`Registry`].
pub struct RegistryModel<C> {
    pub state: State,
    pub next_id: usize,
    pub needs_retain: bool,
    pub entries: Seq<Subscriber<C>>,
}

/// The entries of `entries` that are still active, in their order.
pub open spec fn keep_active<C>(entries: Seq<Subscriber<C>>) -> Seq<Subscriber<C>> {
    entries.filter(|entry: Subscriber<C>| entry.active)
}

/// The entries of `entries` that are no longer active, in their order.
pub open spec fn drop_inactive<C>(entries: Seq<Subscriber<C>>) -> Seq<Subscriber<C>> {
    entries.filter(|entry: Subscriber<C>| !entry.active)
}

/// How the two parts of a sequence of entries grow with the sequence.
pub proof fn lemma_parts_unfold<C>(entries: Seq<Subscriber<C>>)
    ensures
        entries.len() == 0 ==> keep_active(entries) == entries && drop_inactive(entries) == entries,
        entries.len() > 0 && entries.last().active ==> keep_active(entries) == keep_active(
            entries.drop_last(),
        ).push(entries.last()) && drop_inactive(entries) == drop_inactive(entries.drop_last()),
        entries.len() > 0 && !entries.last().active ==> keep_active(entries) == keep_active(
            entries.drop_last(),
        ) && drop_inactive(entries) == drop_inactive(entries.drop_last()).push(entries.last()),
{
    reveal(Seq::filter);
}

impl<C> RegistryModel<C> {
    /// The registry nobody has subscribed to yet.
    pub open spec fn empty() -> Self {
        RegistryModel {
            state: State::Idling,
            next_id: 0,
            needs_retain: false,
            entries: Seq::empty(),
        }
    }

    /// Entries are strictly ordered by identifiers that were handed out, and
    /// an inactive entry exists only while a removal pass is owed, which is
    /// never the case at rest.
    pub open spec fn wf(self) -> bool {
        &&& self.entries.len() <= usize::MAX
        &&& forall|i: int, j: int|
            0 <= i < j < self.entries.len() ==> self.entries[i].id.0 < self.entries[j].id.0
        &&& forall|i: int| 0 <= i < self.entries.len() ==> self.entries[i].id.0 < self.next_id
        &&& !self.needs_retain ==> forall|i: int|
            0 <= i < self.entries.len() ==> self.entries[i].active
        &&& self.state is Idling ==> !self.needs_retain
    }

    /// Whether some entry carries `id`.
    pub open spec fn contains(self, id: SubscriberId) -> bool {
        exists|i: int| 0 <= i < self.entries.len() && self.entries[i].id == id
    }

    /// The position of the entry that carries `id`.
    pub open spec fn index_of(self, id: SubscriberId) -> int {
        choose|i: int| 0 <= i < self.entries.len() && self.entries[i].id == id
    }

    /// Whether `k` is the position at which an entry with `id` keeps the
    /// entries ordered.
    pub open spec fn is_rank(self, id: SubscriberId, k: int) -> bool {
        &&& 0 <= k <= self.entries.len()
        &&& forall|i: int| 0 <= i < k ==> self.entries[i].id.0 < id.0
        &&& forall|i: int| k <= i < self.entries.len() ==> id.0 <= self.entries[i].id.0
    }

    /// The number of entries whose identifier is below `id`.
    pub open spec fn rank(self, id: SubscriberId) -> int {
        choose|k: int| self.is_rank(id, k)
    }

    /// Whether another identifier can be handed out.
    pub open spec fn has_free_id(self) -> bool {
        self.next_id < usize::MAX
    }

    /// The registry after one identifier was handed out.
    pub open spec fn allocate(self) -> Self {
        RegistryModel { next_id: (self.next_id + 1) as usize, ..self }
    }

    /// Whether `id` was handed out and is not in use.
    pub open spec fn admits(self, id: SubscriberId) -> bool {
        id.0 < self.next_id && !self.contains(id) && self.entries.len() < usize::MAX
    }

    /// Whether a subscriber pushed with a value at hand is served at once.
    pub open spec fn serves_now(self, has_value: bool) -> bool {
        has_value && !(self.state is Notifying)
    }

    /// The registry after `push_subscriber(id, notify, has_value)`.
    pub open spec fn push(self, id: SubscriberId, notify: C, has_value: bool) -> Self {
        if !self.admits(id) {
            self
        } else if self.serves_now(has_value) {
            RegistryModel {
                state: State::Subscribing,
                entries: self.entries.insert(
                    self.rank(id),
                    Subscriber { id, active: true, notify: None },
                ),
                ..self
            }
        } else {
            RegistryModel {
                entries: self.entries.insert(
                    self.rank(id),
                    Subscriber { id, active: true, notify: Some(notify) },
                ),
                ..self
            }
        }
    }

    /// What `push_subscriber(id, notify, has_value)` hands back.
    pub open spec fn push_delivery(self, id: SubscriberId, notify: C, has_value: bool) -> Delivery<
        C,
    > {
        if !self.admits(id) {
            Delivery::Rejected(notify)
        } else if self.serves_now(has_value) {
            Delivery::Now { notify, outer: self.state is Idling }
        } else {
            Delivery::Deferred
        }
    }

    /// The registry after `unsubscribe(id)`.
    pub open spec fn unsubscribe(self, id: SubscriberId) -> Self {
        if !self.contains(id) {
            self
        } else if self.state is Idling {
            RegistryModel { entries: self.entries.remove(self.index_of(id)), ..self }
        } else {
            let i = self.index_of(id);
            RegistryModel {
                needs_retain: true,
                entries: self.entries.update(
                    i,
                    Subscriber { active: false, ..self.entries[i] },
                ),
                ..self
            }
        }
    }

    /// The entry that `unsubscribe(id)` takes out at once.
    pub open spec fn unsubscribed(self, id: SubscriberId) -> Option<Subscriber<C>> {
        if self.contains(id) && self.state is Idling {
            Some(self.entries[self.index_of(id)])
        } else {
            None
        }
    }

    /// The registry after `begin_notify()`.
    pub open spec fn begin_notify(self) -> Self {
        if self.state is Idling {
            RegistryModel { state: State::Notifying, ..self }
        } else {
            self
        }
    }

    /// Whether the entry at `index` is to be called in a pass.
    pub open spec fn callable(self, index: int) -> bool {
        &&& 0 <= index < self.entries.len()
        &&& self.entries[index].active
        &&& self.entries[index].notify is Some
    }

    /// What `step(index)` hands back.
    pub open spec fn step(self, index: int) -> Step<C> {
        if index >= self.entries.len() {
            Step::Done
        } else if self.callable(index) {
            Step::Call { id: self.entries[index].id, notify: self.entries[index].notify->0 }
        } else {
            Step::Skip
        }
    }

    /// The registry after `step(index)`.
    pub open spec fn take(self, index: int) -> Self {
        if self.callable(index) {
            RegistryModel {
                entries: self.entries.update(
                    index,
                    Subscriber { notify: None, ..self.entries[index] },
                ),
                ..self
            }
        } else {
            self
        }
    }

    /// Whether the entry with `id` exists and misses its callback.
    pub open spec fn awaits(self, id: SubscriberId) -> bool {
        self.contains(id) && self.entries[self.index_of(id)].notify is None
    }

    /// The registry after `restore(id, notify)`.
    pub open spec fn restore(self, id: SubscriberId, notify: C) -> Self {
        if self.awaits(id) {
            let i = self.index_of(id);
            RegistryModel {
                entries: self.entries.update(
                    i,
                    Subscriber { notify: Some(notify), ..self.entries[i] },
                ),
                ..self
            }
        } else {
            self
        }
    }

    /// The registry after `retain()`.
    pub open spec fn retain(self) -> Self {
        if self.needs_retain {
            RegistryModel { needs_retain: false, entries: keep_active(self.entries), ..self }
        } else {
            self
        }
    }

    /// The entries that `retain()` takes out.
    pub open spec fn retired(self) -> Seq<Subscriber<C>> {
        if self.needs_retain {
            drop_inactive(self.entries)
        } else {
            Seq::empty()
        }
    }

    /// Whether `holds` is true of every callback that rests in an entry.
    pub open spec fn every(self, holds: spec_fn(C) -> bool) -> bool {
        forall|i: int|
            0 <= i < self.entries.len() ==> ((#[trigger] self.entries[i]).notify matches Some(
                notify,
            ) ==> holds(notify))
    }

    /// The registry after `finish()`.
    pub open spec fn finish(self) -> Self {
        RegistryModel { state: State::Idling, ..self.retain() }
    }
}


/// In a well-formed registry an identifier sits at one position only.
pub proof fn lemma_index_unique<C>(m: RegistryModel<C>, i: int, id: SubscriberId)
    requires
        m.wf(),
        0 <= i < m.entries.len(),
        m.entries[i].id == id,
    ensures
        m.contains(id),
        m.index_of(id) == i,
{
    let j = m.index_of(id);
    assert(0 <= j < m.entries.len() && m.entries[j].id == id);
    if j < i {
        assert(m.entries[j].id.0 < m.entries[i].id.0);
    }
    if i < j {
        assert(m.entries[i].id.0 < m.entries[j].id.0);
    }
}

/// In a well-formed registry the rank of an identifier is determined.
pub proof fn lemma_rank_unique<C>(m: RegistryModel<C>, id: SubscriberId, k: int)
    requires
        m.wf(),
        m.is_rank(id, k),
    ensures
        m.rank(id) == k,
{
    let r = m.rank(id);
    assert(m.is_rank(id, r));
    if r < k {
        assert(m.entries[r].id.0 < id.0);
        assert(id.0 <= m.entries[r].id.0);
    }
    if k < r {
        assert(m.entries[k].id.0 < id.0);
        assert(id.0 <= m.entries[k].id.0);
    }
}

/// In a well-formed registry every identifier has a rank.
pub proof fn lemma_rank_exists<C>(m: RegistryModel<C>, id: SubscriberId)
    requires
        m.wf(),
    ensures
        m.is_rank(id, m.rank(id)),
    decreases m.entries.len(),
{
    if m.entries.len() == 0 {
        assert(m.is_rank(id, 0));
    } else if m.entries.last().id.0 < id.0 {
        assert(m.is_rank(id, m.entries.len() as int));
    } else {
        let front = RegistryModel { entries: m.entries.drop_last(), ..m };
        lemma_rank_exists(front, id);
        let j = front.rank(id);
        assert forall|i: int| j <= i < m.entries.len() implies id.0 <= m.entries[i].id.0 by {
            if i < front.entries.len() {
                assert(front.entries[i] == m.entries[i]);
            }
        }
        assert forall|i: int| 0 <= i < j implies m.entries[i].id.0 < id.0 by {
            assert(front.entries[i] == m.entries[i]);
        }
        assert(m.is_rank(id, j));
    }
}

/// Keeping the active entries leaves an ordered sequence of active entries,
/// each of which was there before.
pub proof fn lemma_keep_active<C>(entries: Seq<Subscriber<C>>)
    requires
        forall|i: int, j: int|
            0 <= i < j < entries.len() ==> entries[i].id.0 < entries[j].id.0,
    ensures
        keep_active(entries).len() <= entries.len(),
        forall|k: int|
            0 <= k < keep_active(entries).len() ==> (#[trigger] keep_active(entries)[k]).active,
        forall|k: int|
            0 <= k < keep_active(entries).len() ==> exists|i: int|
                0 <= i < entries.len() && entries[i] == #[trigger] keep_active(entries)[k],
        forall|i: int, j: int|
            0 <= i < j < keep_active(entries).len() ==> keep_active(entries)[i].id.0
                < keep_active(entries)[j].id.0,
    decreases entries.len(),
{
    lemma_parts_unfold(entries);
    if entries.len() > 0 {
        let front = entries.drop_last();
        lemma_keep_active(front);
        let kept = keep_active(front);
        assert forall|k: int| 0 <= k < kept.len() implies kept[k].id.0 < entries.last().id.0 by {
            let i = choose|i: int| 0 <= i < front.len() && front[i] == kept[k];
            assert(front[i] == entries[i]);
        }
        assert forall|k: int| 0 <= k < keep_active(entries).len() implies exists|i: int|
            0 <= i < entries.len() && entries[i] == #[trigger] keep_active(entries)[k] by {
            if k < kept.len() {
                let i = choose|i: int| 0 <= i < front.len() && front[i] == kept[k];
                assert(entries[i] == keep_active(entries)[k]);
            } else {
                assert(entries[entries.len() - 1] == keep_active(entries)[k]);
            }
        }
    }
}

/// The entries in opposite order.
fn reversed<X>(v: Vec<X>) -> (r: Vec<X>)
    ensures
        r@ == v@.reverse(),
{
    let ghost orig = v@;
    let mut v = v;
    let mut r: Vec<X> = Vec::new();
    while v.len() > 0
        invariant
            v@.len() + r@.len() == orig.len(),
            v@ == orig.subrange(0, v@.len() as int),
            forall|k: int| 0 <= k < r@.len() ==> r@[k] == orig[orig.len() - 1 - k],
        decreases v@.len(),
    {
        let x = v.pop().unwrap();
        r.push(x);
    }
    assert(r@ =~= orig.reverse());
    r
}

/// The subscriber registry: entries ordered by identifier, a counter of
/// identifiers, and the bookkeeping of a notification pass.
pub struct Registry<C> {
    state: State,
    next_id: usize,
    needs_retain: bool,
    subscribers: Vec<Subscriber<C>>,
}

impl<C> View for Registry<C> {
    type V = RegistryModel<C>;

    closed spec fn view(&self) -> RegistryModel<C> {
        RegistryModel {
            state: self.state,
            next_id: self.next_id,
            needs_retain: self.needs_retain,
            entries: self.subscribers@,
        }
    }
}

impl<C> Registry<C> {
    /// The invariant of the registry, see [`RegistryModel::wf`].
    pub open spec fn wf(&self) -> bool {
        self@.wf()
    }

    /// A registry without subscribers.
    pub fn new() -> (registry: Self)
        ensures
            registry.wf(),
            registry@ == RegistryModel::<C>::empty(),
    {
        Registry { state: State::Idling, next_id: 0, needs_retain: false, subscribers: Vec::new() }
    }

    /// What the registry is busy with.
    pub fn state(&self) -> (state: State)
        ensures
            state == self@.state,
    {
        self.state
    }

    /// The number of entries, inactive ones included.
    pub fn len(&self) -> (len: usize)
        ensures
            len == self@.entries.len(),
    {
        self.subscribers.len()
    }

    /// The entry at `index`, if there is one.
    pub fn entry(&self, index: usize) -> (entry: Option<&Subscriber<C>>)
        ensures
            match entry {
                Some(e) => index < self@.entries.len() && *e == self@.entries[index as int],
                None => index >= self@.entries.len(),
            },
    {
        if index < self.subscribers.len() {
            Some(&self.subscribers[index])
        } else {
            None
        }
    }

    /// Whether a removal pass is owed.
    pub fn needs_retain(&self) -> (owed: bool)
        ensures
            owed == self@.needs_retain,
    {
        self.needs_retain
    }

    /// Hands out the next identifier.
    pub fn next_id(&mut self) -> (id: SubscriberId)
        requires
            old(self).wf(),
            old(self)@.has_free_id(),
        ensures
            final(self).wf(),
            final(self)@ == old(self)@.allocate(),
            id.0 == old(self)@.next_id,
    {
        let id: usize = self.next_id;
        self.next_id = id + 1;
        SubscriberId(id)
    }

    /// Hands out the next identifier, unless the counter is used up.
    pub fn try_next_id(&mut self) -> (id: Option<SubscriberId>)
        requires
            old(self).wf(),
        ensures
            final(self).wf(),
            id is Some <==> old(self)@.has_free_id(),
            id is Some ==> final(self)@ == old(self)@.allocate() && id == Some(
                SubscriberId(old(self)@.next_id),
            ),
            id is None ==> final(self)@ == old(self)@,
    {
        if self.next_id < usize::MAX {
            Some(self.next_id())
        } else {
            None
        }
    }

    /// Hands out the value of the counter and counts on, unless the counter
    /// is used up: then the identifier handed out is the last value, under
    /// which no subscriber can be pushed.
    pub fn claim_id(&mut self) -> (id: SubscriberId)
        requires
            old(self).wf(),
        ensures
            final(self).wf(),
            id.0 == old(self)@.next_id,
            final(self)@ == (if old(self)@.has_free_id() {
                old(self)@.allocate()
            } else {
                old(self)@
            }),
            !final(self)@.admits(id) <== !old(self)@.has_free_id(),
    {
        match self.try_next_id() {
            Some(id) => id,
            None => SubscriberId(usize::MAX),
        }
    }

    /// The number of entries whose identifier is below `id`, found by
    /// bisection.
    pub fn rank(&self, id: SubscriberId) -> (k: usize)
        requires
            self.wf(),
        ensures
            self@.is_rank(id, k as int),
            k == self@.rank(id),
    {
        let mut lo: usize = 0;
        let mut hi: usize = self.subscribers.len();
        while lo < hi
            invariant
                self.wf(),
                0 <= lo <= hi <= self.subscribers@.len(),
                forall|i: int| 0 <= i < lo ==> self.subscribers@[i].id.0 < id.0,
                forall|i: int| hi <= i < self.subscribers@.len() ==> id.0 <= self.subscribers@[i].id.0,
            decreases hi - lo,
        {
            let mid: usize = lo + (hi - lo) / 2;
            if self.subscribers[mid].id.0 < id.0 {
                lo = mid + 1;
            } else {
                hi = mid;
            }
        }
        proof {
            lemma_rank_unique(self@, id, lo as int);
        }
        lo
    }

    /// The position of the entry that carries `id`.
    pub fn find(&self, id: SubscriberId) -> (index: Option<usize>)
        requires
            self.wf(),
        ensures
            index is Some <==> self@.contains(id),
            index is Some ==> index->0 == self@.index_of(id),
    {
        let k: usize = self.rank(id);
        if k < self.subscribers.len() && self.subscribers[k].id.0 == id.0 {
            proof {
                lemma_index_unique(self@, k as int, id);
            }
            Some(k)
        } else {
            assert(!self@.contains(id)) by {
                if self@.contains(id) {
                    let i = self@.index_of(id);
                    assert(self@.entries[i].id.0 == id.0);
                }
            }
            None
        }
    }

    /// Adds a subscriber under an identifier that `next_id` handed out.
    ///
    /// The entry goes where its identifier keeps the entries ordered, which
    /// is the end unless later identifiers were pushed first. With a value
    /// at hand and no pass under way the callback is handed back to be run
    /// at once; during a pass it rests in its entry and the pass reaches it.
    pub fn push_subscriber(&mut self, id: SubscriberId, notify: C, has_value: bool) -> (delivery:
        Delivery<C>)
        requires
            old(self).wf(),
        ensures
            final(self).wf(),
            final(self)@ == old(self)@.push(id, notify, has_value),
            delivery == old(self)@.push_delivery(id, notify, has_value),
    {
        if id.0 >= self.next_id || self.subscribers.len() == usize::MAX {
            return Delivery::Rejected(notify);
        }
        let k: usize = self.rank(id);
        if k < self.subscribers.len() && self.subscribers[k].id.0 == id.0 {
            proof {
                lemma_index_unique(self@, k as int, id);
            }
            return Delivery::Rejected(notify);
        }
        assert(!self@.contains(id)) by {
            if self@.contains(id) {
                let i = self@.index_of(id);
                assert(self@.entries[i].id.0 == id.0);
            }
        }
        let now: bool = has_value && !matches!(self.state, State::Notifying);
        if now {
            let outer: bool = matches!(self.state, State::Idling);
            self.subscribers.insert(k, Subscriber { id, active: true, notify: None });
            self.state = State::Subscribing;
            Delivery::Now { notify, outer }
        } else {
            self.subscribers.insert(k, Subscriber { id, active: true, notify: Some(notify) });
            Delivery::Deferred
        }
    }

    /// Ends the subscription with the given identifier; an unknown
    /// identifier is ignored.
    ///
    /// At rest the entry is taken out and handed back. While callbacks are
    /// running it is only marked inactive, and a removal pass is owed.
    pub fn unsubscribe(&mut self, id: SubscriberId) -> (removed: Option<Subscriber<C>>)
        requires
            old(self).wf(),
        ensures
            final(self).wf(),
            final(self)@ == old(self)@.unsubscribe(id),
            removed == old(self)@.unsubscribed(id),
    {
        match self.find(id) {
            Some(index) => {
                if matches!(self.state, State::Idling) {
                    Some(self.subscribers.remove(index))
                } else {
                    self.subscribers[index].active = false;
                    self.needs_retain = true;
                    assert(final(self)@.entries =~= old(self)@.entries.update(
                        index as int,
                        Subscriber { active: false, ..old(self)@.entries[index as int] },
                    ));
                    None
                }
            },
            None => None,
        }
    }

    /// Opens a notification pass, if the registry is at rest.
    pub fn begin_notify(&mut self) -> (started: bool)
        requires
            old(self).wf(),
        ensures
            final(self).wf(),
            started == (old(self)@.state is Idling),
            final(self)@ == old(self)@.begin_notify(),
    {
        if matches!(self.state, State::Idling) {
            self.state = State::Notifying;
            true
        } else {
            false
        }
    }

    /// One step of a pass: takes the callback of the entry at `index` out
    /// to be run, if that entry is active and its callback is at rest.
    pub fn step(&mut self, index: usize) -> (step: Step<C>)
        requires
            old(self).wf(),
        ensures
            final(self).wf(),
            final(self)@ == old(self)@.take(index as int),
            step == old(self)@.step(index as int),
    {
        if index >= self.subscribers.len() {
            return Step::Done;
        }
        if !self.subscribers[index].active {
            return Step::Skip;
        }
        let id = self.subscribers[index].id;
        match self.subscribers[index].notify.take() {
            Some(notify) => {
                assert(final(self)@.entries =~= old(self)@.entries.update(
                    index as int,
                    Subscriber { notify: None, ..old(self)@.entries[index as int] },
                ));
                Step::Call { id, notify }
            },
            None => {
                assert(final(self)@.entries =~= old(self)@.entries);
                Step::Skip
            },
        }
    }

    /// Puts a callback back into the entry it was taken from. The callback
    /// is handed back if that entry is gone or holds a callback already.
    pub fn restore(&mut self, id: SubscriberId, notify: C) -> (left: Option<C>)
        requires
            old(self).wf(),
        ensures
            final(self).wf(),
            final(self)@ == old(self)@.restore(id, notify),
            left == (if old(self)@.awaits(id) {
                None
            } else {
                Some(notify)
            }),
    {
        match self.find(id) {
            Some(index) => {
                if self.subscribers[index].notify.is_none() {
                    self.subscribers[index].notify = Some(notify);
                    assert(final(self)@.entries =~= old(self)@.entries.update(
                        index as int,
                        Subscriber { notify: Some(notify), ..old(self)@.entries[index as int] },
                    ));
                    None
                } else {
                    Some(notify)
                }
            },
            None => Some(notify),
        }
    }

    /// Puts a callback back after it ran and, if its run was an outermost
    /// delivery, closes that delivery. Handed back are the callback, if it
    /// could not be placed, and the entries that closing took out.
    pub fn settle(&mut self, id: SubscriberId, notify: C, outer: bool) -> (out: (
        Option<C>,
        Vec<Subscriber<C>>,
    ))
        requires
            old(self).wf(),
        ensures
            final(self).wf(),
            final(self)@ == (if outer {
                old(self)@.restore(id, notify).finish()
            } else {
                old(self)@.restore(id, notify)
            }),
            out.0 == (if old(self)@.awaits(id) {
                None
            } else {
                Some(notify)
            }),
            out.1@ == (if outer {
                old(self)@.restore(id, notify).retired()
            } else {
                Seq::empty()
            }),
    {
        let left = self.restore(id, notify);
        let retired = if outer {
            self.finish()
        } else {
            Vec::new()
        };
        (left, retired)
    }

    /// Takes the inactive entries out, if a removal pass is owed, and hands
    /// them back in their order.
    pub fn retain(&mut self) -> (retired: Vec<Subscriber<C>>)
        requires
            old(self).wf(),
        ensures
            final(self).wf(),
            final(self)@ == old(self)@.retain(),
            retired@ == old(self)@.retired(),
    {
        let mut retired: Vec<Subscriber<C>> = Vec::new();
        if !self.needs_retain {
            return retired;
        }
        let ghost orig = self.subscribers@;
        proof {
            lemma_parts_unfold(orig.subrange(0, 0));
        }
        let mut all: Vec<Subscriber<C>> = Vec::new();
        core::mem::swap(&mut all, &mut self.subscribers);
        let mut rest = reversed(all);
        let mut kept: Vec<Subscriber<C>> = Vec::new();
        while rest.len() > 0
            invariant
                rest@.len() <= orig.len(),
                rest@ == orig.reverse().subrange(0, rest@.len() as int),
                kept@ == keep_active(orig.subrange(0, orig.len() - rest@.len())),
                retired@ == drop_inactive(orig.subrange(0, orig.len() - rest@.len())),
            decreases rest@.len(),
        {
            let ghost done = orig.len() - rest@.len();
            let entry = rest.pop().unwrap();
            proof {
                assert(entry == orig[done]);
                assert(orig.subrange(0, done + 1).drop_last() =~= orig.subrange(0, done));
                assert(orig.subrange(0, done + 1).last() == orig[done]);
                lemma_parts_unfold(orig.subrange(0, done + 1));
            }
            if entry.active {
                kept.push(entry);
            } else {
                retired.push(entry);
            }
        }
        proof {
            assert(orig.subrange(0, orig.len() as int) =~= orig);
            lemma_keep_active(orig);
        }
        self.subscribers = kept;
        self.needs_retain = false;
        retired
    }

    /// Closes a pass, or the delivery to a subscriber that was pushed at
    /// rest: the registry is at rest again and the inactive entries are
    /// taken out and handed back.
    pub fn finish(&mut self) -> (retired: Vec<Subscriber<C>>)
        requires
            old(self).wf(),
        ensures
            final(self).wf(),
            final(self)@ == old(self)@.finish(),
            retired@ == old(self)@.retired(),
    {
        let retired = self.retain();
        self.state = State::Idling;
        retired
    }
}

impl<C> Default for Registry<C> {
    fn default() -> (registry: Self)
        ensures
            registry.wf(),
            registry@ == RegistryModel::<C>::empty(),
    {
        Registry::new()
    }
}

/// An identifier that was just handed out is taken by the registry, and no
/// entry carries it yet: identifiers are never used twice.
pub proof fn law_fresh_id_is_unused<C>(m: RegistryModel<C>)
    requires
        m.wf(),
        m.has_free_id(),
        m.entries.len() < usize::MAX,
    ensures
        !m.contains(SubscriberId(m.next_id)),
        m.allocate().wf(),
        m.allocate().admits(SubscriberId(m.next_id)),
        m.allocate().is_rank(SubscriberId(m.next_id), m.entries.len() as int),
        m.allocate().rank(SubscriberId(m.next_id)) == m.entries.len(),
{
    let id = SubscriberId(m.next_id);
    if m.contains(id) {
        let i = m.index_of(id);
        assert(m.entries[i].id.0 < m.next_id);
    }
    assert(!m.allocate().contains(id)) by {
        if m.allocate().contains(id) {
            let i = m.allocate().index_of(id);
            assert(m.entries[i].id.0 < m.next_id);
        }
    }
    lemma_rank_unique(m.allocate(), id, m.entries.len() as int);
}

/// Subscribing at rest with a value at hand: the callback is handed back to
/// be run at once, as the outermost delivery. While it runs its entry holds
/// no callback, so nothing else can run it. Once it has been put back and
/// the delivery is closed, the registry is at rest, holds the entries it
/// held before, and the new subscriber as its last.
pub proof fn law_subscriber_at_rest_is_served_once<C>(m: RegistryModel<C>, notify: C)
    requires
        m.wf(),
        m.has_free_id(),
        m.entries.len() < usize::MAX,
        m.state is Idling,
    ensures
        ({
            let id = SubscriberId(m.next_id);
            let pushed = m.allocate().push(id, notify, true);
            let settled = pushed.restore(id, notify).finish();
            &&& m.allocate().push_delivery(id, notify, true) == (Delivery::Now {
                notify,
                outer: true,
            })
            &&& pushed.wf()
            &&& pushed.state is Subscribing
            &&& pushed.entries.len() == m.entries.len() + 1
            &&& !pushed.callable(m.entries.len() as int)
            &&& settled.wf()
            &&& settled.state is Idling
            &&& settled.entries == m.entries.push(
                Subscriber { id, active: true, notify: Some(notify) },
            )
        }),
{
    let id = SubscriberId(m.next_id);
    law_fresh_id_is_unused(m);
    let a = m.allocate();
    let pushed = a.push(id, notify, true);
    assert(pushed.entries =~= m.entries.push(Subscriber { id, active: true, notify: None }));
    lemma_index_unique(pushed, m.entries.len() as int, id);
    let restored = pushed.restore(id, notify);
    assert(restored.entries =~= m.entries.push(
        Subscriber { id, active: true, notify: Some(notify) },
    ));
}

/// Subscribing from inside a callback that is itself being handed the
/// current value: the new callback is handed back to be run at once as
/// well, as a delivery inside the outer one, which stays open.
pub proof fn law_subscriber_inside_delivery_is_served<C>(m: RegistryModel<C>, notify: C)
    requires
        m.wf(),
        m.has_free_id(),
        m.entries.len() < usize::MAX,
        m.state is Subscribing,
    ensures
        ({
            let id = SubscriberId(m.next_id);
            let pushed = m.allocate().push(id, notify, true);
            &&& m.allocate().push_delivery(id, notify, true) == (Delivery::Now {
                notify,
                outer: false,
            })
            &&& pushed.wf()
            &&& pushed.state is Subscribing
            &&& pushed.entries == m.entries.push(Subscriber { id, active: true, notify: None })
            &&& pushed.restore(id, notify).state is Subscribing
            &&& pushed.restore(id, notify).entries == m.entries.push(
                Subscriber { id, active: true, notify: Some(notify) },
            )
        }),
{
    let id = SubscriberId(m.next_id);
    law_fresh_id_is_unused(m);
    let pushed = m.allocate().push(id, notify, true);
    assert(pushed.entries =~= m.entries.push(Subscriber { id, active: true, notify: None }));
    lemma_index_unique(pushed, m.entries.len() as int, id);
    assert(pushed.restore(id, notify).entries =~= m.entries.push(
        Subscriber { id, active: true, notify: Some(notify) },
    ));
}

/// Subscribing while a pass is under way: the callback is not run at once
/// but rests in a new last entry, at or after any position the pass has
/// reached. The step at that position takes the callback out to be run, and
/// after that step the entry is not callable again: the pass serves the new
/// subscriber exactly once.
pub proof fn law_subscriber_during_pass_is_reached_once<C>(
    m: RegistryModel<C>,
    notify: C,
    has_value: bool,
    cursor: int,
)
    requires
        m.wf(),
        m.has_free_id(),
        m.entries.len() < usize::MAX,
        m.state is Notifying,
        0 <= cursor <= m.entries.len(),
    ensures
        ({
            let id = SubscriberId(m.next_id);
            let pushed = m.allocate().push(id, notify, has_value);
            let last = m.entries.len() as int;
            &&& m.allocate().push_delivery(id, notify, has_value) == Delivery::<C>::Deferred
            &&& pushed.wf()
            &&& pushed.state is Notifying
            &&& pushed.entries == m.entries.push(
                Subscriber { id, active: true, notify: Some(notify) },
            )
            &&& cursor <= last
            &&& forall|i: int| 0 <= i < last ==> pushed.step(i) == m.step(i)
            &&& pushed.step(last) == (Step::Call { id, notify })
            &&& !pushed.take(last).callable(last)
            &&& pushed.take(last).step(last + 1) == Step::<C>::Done
        }),
{
    let id = SubscriberId(m.next_id);
    law_fresh_id_is_unused(m);
    let pushed = m.allocate().push(id, notify, has_value);
    assert(pushed.entries =~= m.entries.push(
        Subscriber { id, active: true, notify: Some(notify) },
    ));
}

/// Unsubscribing while callbacks are running, be it from the very callback
/// that is being cancelled: the registry stays well-formed, no entry moves,
/// every other entry is untouched and is stepped to as before, and the
/// cancelled entry is never called again. Once the pass is closed the
/// cancelled entry is gone.
pub proof fn law_unsubscribe_during_pass<C>(m: RegistryModel<C>, id: SubscriberId)
    requires
        m.wf(),
        !(m.state is Idling),
        m.contains(id),
    ensures
        ({
            let after = m.unsubscribe(id);
            let at = m.index_of(id);
            &&& after.wf()
            &&& after.state == m.state
            &&& after.entries.len() == m.entries.len()
            &&& forall|j: int|
                0 <= j < m.entries.len() && j != at ==> after.entries[j] == m.entries[j]
                    && after.step(j) == m.step(j)
            &&& !after.callable(at)
            &&& forall|notify: C| !after.restore(id, notify).callable(at)
            &&& after.finish().wf()
            &&& !after.finish().contains(id)
        }),
{
    let after = m.unsubscribe(id);
    let at = m.index_of(id);
    assert(after.wf());
    assert forall|notify: C| !after.restore(id, notify).callable(at) by {
        lemma_index_unique(after, at, id);
    }
    lemma_keep_active(after.entries);
    let done = after.finish();
    assert(done.wf()) by {
        assert forall|k: int| 0 <= k < done.entries.len() implies done.entries[k].id.0
            < done.next_id by {
            let i = choose|i: int|
                0 <= i < after.entries.len() && after.entries[i] == done.entries[k];
        }
    }
    if done.contains(id) {
        let k = done.index_of(id);
        let i = choose|i: int| 0 <= i < after.entries.len() && after.entries[i] == done.entries[k];
        lemma_index_unique(after, i, id);
        lemma_index_unique(after, at, id);
        assert(done.entries[k].active);
    }
}

/// Unsubscribing at rest takes the entry out at once and leaves every other
/// entry in its order.
pub proof fn law_unsubscribe_at_rest<C>(m: RegistryModel<C>, id: SubscriberId)
    requires
        m.wf(),
        m.state is Idling,
        m.contains(id),
    ensures
        m.unsubscribe(id).wf(),
        m.unsubscribe(id).entries == m.entries.remove(m.index_of(id)),
        !m.unsubscribe(id).contains(id),
        m.unsubscribed(id) == Some(m.entries[m.index_of(id)]),
{
    let after = m.unsubscribe(id);
    let at = m.index_of(id);
    if after.contains(id) {
        let k = after.index_of(id);
        if k < at {
            lemma_index_unique(m, k, id);
        } else {
            lemma_index_unique(m, k + 1, id);
        }
    }
}

/// Unsubscribing is idempotent, and an identifier that no entry carries is
/// ignored.
pub proof fn law_unsubscribe_twice<C>(m: RegistryModel<C>, id: SubscriberId)
    requires
        m.wf(),
    ensures
        m.unsubscribe(id).unsubscribe(id) == m.unsubscribe(id),
        !m.contains(id) ==> m.unsubscribe(id) == m,
{
    if m.contains(id) {
        if m.state is Idling {
            law_unsubscribe_at_rest(m, id);
        } else {
            let after = m.unsubscribe(id);
            let at = m.index_of(id);
            lemma_index_unique(after, at, id);
            assert(after.unsubscribe(id).entries =~= after.entries);
        }
    }
}

/// A pass that is asked for while callbacks are running does nothing: no
/// entry is notified twice for one change.
pub proof fn law_nested_pass_is_refused<C>(m: RegistryModel<C>)
    requires
        m.wf(),
    ensures
        m.begin_notify().wf(),
        m.state is Idling ==> m.begin_notify().state is Notifying,
        !(m.state is Idling) ==> m.begin_notify() == m,
        m.begin_notify().begin_notify() == m.begin_notify(),
{
}

/// What holds of every callback at rest in a registry holds of every
/// callback at rest after any operation, and of every callback that a step
/// takes out, as long as it holds of the callbacks that are put in.
pub proof fn lemma_every_is_kept<C>(m: RegistryModel<C>, holds: spec_fn(C) -> bool)
    requires
        m.wf(),
        m.every(holds),
    ensures
        m.allocate().every(holds),
        m.begin_notify().every(holds),
        m.retain().every(holds),
        m.finish().every(holds),
        forall|id: SubscriberId| (#[trigger] m.unsubscribe(id)).every(holds),
        forall|index: int| (#[trigger] m.take(index)).every(holds),
        forall|index: int|
            (#[trigger] m.step(index)) matches Step::Call { notify, .. } ==> holds(notify),
        forall|id: SubscriberId, notify: C, has_value: bool|
            holds(notify) ==> (#[trigger] m.push(id, notify, has_value)).every(holds),
        forall|id: SubscriberId, notify: C|
            holds(notify) ==> (#[trigger] m.restore(id, notify)).every(holds),
{
    lemma_keep_active(m.entries);
    assert forall|id: SubscriberId| (#[trigger] m.unsubscribe(id)).every(holds) by {
        let after = m.unsubscribe(id);
        if m.contains(id) {
            let at = m.index_of(id);
            assert forall|i: int| 0 <= i < after.entries.len() implies ((
            #[trigger] after.entries[i]).notify matches Some(c) ==> holds(c)) by {
                if m.state is Idling {
                    if i < at {
                        assert(after.entries[i] == m.entries[i]);
                    } else {
                        assert(after.entries[i] == m.entries[i + 1]);
                    }
                } else {
                    assert(after.entries[i].notify == m.entries[i].notify);
                }
            }
        }
    }
    assert forall|index: int| (#[trigger] m.take(index)).every(holds) by {
        let after = m.take(index);
        assert forall|i: int| 0 <= i < after.entries.len() implies ((
        #[trigger] after.entries[i]).notify matches Some(c) ==> holds(c)) by {
            if i != index {
                assert(after.entries[i] == m.entries[i]);
            }
        }
    }
    assert forall|id: SubscriberId, notify: C, has_value: bool| holds(notify) implies (
    #[trigger] m.push(id, notify, has_value)).every(holds) by {
        let after = m.push(id, notify, has_value);
        if m.admits(id) {
            lemma_rank_exists(m, id);
            let k = m.rank(id);
            assert forall|i: int| 0 <= i < after.entries.len() implies ((
            #[trigger] after.entries[i]).notify matches Some(c) ==> holds(c)) by {
                if i < k {
                    assert(after.entries[i] == m.entries[i]);
                } else if i > k {
                    assert(after.entries[i] == m.entries[i - 1]);
                }
            }
        }
    }
    assert forall|id: SubscriberId, notify: C| holds(notify) implies (#[trigger] m.restore(
        id,
        notify,
    )).every(holds) by {
        let after = m.restore(id, notify);
        if m.awaits(id) {
            let at = m.index_of(id);
            assert forall|i: int| 0 <= i < after.entries.len() implies ((
            #[trigger] after.entries[i]).notify matches Some(c) ==> holds(c)) by {
                if i != at {
                    assert(after.entries[i] == m.entries[i]);
                }
            }
        }
    }
}

} // verus!
