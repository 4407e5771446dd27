//! The value cell as a plain owned value.
//!
//! A [`ValueCell`] holds the payload of a signal together with a state tag
//! that guards reading, writing and observing against each other. Every
//! operation is total on well-formed cells and its contract gives the
//! resulting [`CellModel`] exactly.

use std::rc::Rc;
use vstd::prelude::*;
use crate::signal::error::SignalGetError;
use crate::signal::error::SignalMutatingError;
use crate::signal::error::SignalUpdatingError;

verus! {

/// What the value of a signal is being used for.
#[derive(Copy, Clone, PartialEq, Eq, Structural, Debug)]
pub enum State {
    /// The value is there and nobody uses it.
    Idling,
    /// The value is being shown to a new subscriber.
    Borrowed,
    /// The value is being written, or its subscribers are being told.
    Mutating,
    /// No value was ever written.
    Uninit,
}

/// What [`ValueCell::begin_borrow`] found.
#[derive(Copy, Clone, PartialEq, Eq, Structural, Debug)]
pub enum Lease {
    /// The cell was at rest and is now borrowed: the caller ends the borrow
    /// with [`ValueCell::end_borrow`].
    Outer,
    /// The cell was borrowed already: the value may be read, and the
    /// borrow is somebody else's to end.
    Nested,
    /// The cell is being written.
    Refused,
    /// The cell has no value.
    Empty,
}

/// The mathematical content of a [`ValueCell`].
pub struct CellModel<V> {
    pub state: State,
    pub value: Option<V>,
}

impl<V> CellModel<V> {
    /// The cell that holds `value` and is at rest.
    pub open spec fn new(value: V) -> Self {
        CellModel { state: State::Idling, value: Some(value) }
    }

    /// The cell that was never written.
    pub open spec fn uninit() -> Self {
        CellModel { state: State::Uninit, value: None }
    }

    /// A cell without a state of its own has no value; a cell that is at
    /// rest or borrowed has one. While a cell is written its value may be
    /// away.
    pub open spec fn wf(self) -> bool {
        &&& self.state is Uninit ==> self.value is None
        &&& self.state is Idling || self.state is Borrowed ==> self.value is Some
    }

    /// What `try_get()` hands back.
    pub open spec fn get(self) -> Result<V, SignalGetError> {
        match self.state {
            State::Idling | State::Borrowed => Ok(self.value->0),
            State::Mutating => Err(SignalGetError::Updating),
            State::Uninit => Err(SignalGetError::Uninit),
        }
    }

    /// Whether a new value may be written.
    pub open spec fn writable(self) -> bool {
        self.state is Idling || self.state is Uninit
    }

    /// The cell after `try_set(value)`.
    pub open spec fn set(self, value: V) -> Self {
        if self.writable() {
            CellModel { state: State::Idling, value: Some(value) }
        } else {
            self
        }
    }

    /// Why the value cannot be changed in place, if it cannot.
    pub open spec fn mutating_error(self) -> Option<SignalMutatingError> {
        match self.state {
            State::Idling => None,
            State::Uninit => Some(SignalMutatingError::Uninit),
            State::Borrowed | State::Mutating => Some(SignalMutatingError::Updating),
        }
    }

    /// The cell after `begin_mutate()`.
    pub open spec fn begin_mutate(self) -> Self {
        if self.state is Idling {
            CellModel { state: State::Mutating, value: None }
        } else {
            self
        }
    }

    /// Whether the cell is being written and its value is away.
    pub open spec fn awaits(self) -> bool {
        self.state is Mutating && self.value is None
    }

    /// The cell after `store(value)`.
    pub open spec fn store(self, value: V) -> Self {
        if self.awaits() {
            CellModel { value: Some(value), ..self }
        } else {
            self
        }
    }

    /// The cell after `lock()`.
    pub open spec fn lock(self) -> Self {
        if self.state is Idling {
            CellModel { state: State::Mutating, ..self }
        } else {
            self
        }
    }

    /// The cell after `begin_set(value)`: written and marked as being
    /// written, if the write is accepted.
    pub open spec fn begin_set(self, value: V) -> Self {
        if self.writable() {
            self.set(value).lock()
        } else {
            self
        }
    }

    /// Why there is no value to tell the subscribers of, if there is none.
    pub open spec fn notify_error(self) -> Option<SignalGetError> {
        if self.value is Some {
            None
        } else if self.state is Uninit {
            Some(SignalGetError::Uninit)
        } else {
            Some(SignalGetError::Updating)
        }
    }

    /// The cell after `settle()`.
    pub open spec fn settle(self) -> Self {
        if self.state is Mutating {
            CellModel {
                state: if self.value is Some {
                    State::Idling
                } else {
                    State::Uninit
                },
                ..self
            }
        } else {
            self
        }
    }

    /// What `begin_borrow()` hands back.
    pub open spec fn lease(self) -> Lease {
        match self.state {
            State::Idling => Lease::Outer,
            State::Borrowed => Lease::Nested,
            State::Mutating => Lease::Refused,
            State::Uninit => Lease::Empty,
        }
    }

    /// The cell after `begin_borrow()`.
    pub open spec fn begin_borrow(self) -> Self {
        if self.state is Idling {
            CellModel { state: State::Borrowed, ..self }
        } else {
            self
        }
    }

    /// The cell after `end_borrow()`.
    pub open spec fn end_borrow(self) -> Self {
        if self.state is Borrowed {
            CellModel { state: State::Idling, ..self }
        } else {
            self
        }
    }
}

/// The value of a signal and the tag that guards it.
pub struct ValueCell<V> {
    state: State,
    value: Option<V>,
}

impl<V> View for ValueCell<V> {
    type V = CellModel<V>;

    closed spec fn view(&self) -> CellModel<V> {
        CellModel { state: self.state, value: self.value }
    }
}

impl<V> ValueCell<V> {
    /// The invariant of the cell, see [`CellModel::wf`].
    pub open spec fn wf(&self) -> bool {
        self@.wf()
    }

    /// A cell that holds `value` and is at rest.
    pub fn new(value: V) -> (cell: Self)
        ensures
            cell.wf(),
            cell@ == CellModel::new(value),
    {
        ValueCell { state: State::Idling, value: Some(value) }
    }

    /// A cell whose value is yet to be written.
    pub fn uninit() -> (cell: Self)
        ensures
            cell.wf(),
            cell@ == CellModel::<V>::uninit(),
    {
        ValueCell { state: State::Uninit, value: None }
    }

    /// What the value is being used for.
    pub fn state(&self) -> (state: State)
        ensures
            state == self@.state,
    {
        self.state
    }

    /// The value, if it is in the cell, whatever it is being used for.
    pub fn value(&self) -> (value: Option<&V>)
        ensures
            match value {
                Some(v) => self@.value == Some(*v),
                None => self@.value is None,
            },
    {
        self.value.as_ref()
    }

    /// A copy of the value, unless the cell is being written or was never
    /// written.
    pub fn try_get(&self) -> (result: Result<V, SignalGetError>) where V: Clone
        requires
            self.wf(),
        ensures
            result is Ok <==> self@.get() is Ok,
            result matches Ok(v) ==> cloned(self@.get()->Ok_0, v),
            result matches Err(e) ==> self@.get() == Err::<V, SignalGetError>(e),
    {
        match self.state {
            State::Idling | State::Borrowed => {
                match &self.value {
                    Some(v) => Ok(v.clone()),
                    None => Err(SignalGetError::Uninit),
                }
            },
            State::Mutating => Err(SignalGetError::Updating),
            State::Uninit => Err(SignalGetError::Uninit),
        }
    }

    /// Writes a value, the first one or a new one, and hands back the one
    /// it replaces. Refused while the cell is borrowed or being written.
    pub fn replace(&mut self, value: V) -> (result: Result<Option<V>, SignalUpdatingError>)
        requires
            old(self).wf(),
        ensures
            final(self).wf(),
            final(self)@ == old(self)@.set(value),
            result is Ok <==> old(self)@.writable(),
            result is Ok ==> result == Ok::<Option<V>, SignalUpdatingError>(old(self)@.value),
    {
        match self.state {
            State::Idling | State::Uninit => {
                let mut slot = Some(value);
                core::mem::swap(&mut slot, &mut self.value);
                self.state = State::Idling;
                Ok(slot)
            },
            _ => Err(SignalUpdatingError),
        }
    }

    /// Writes a value, the first one or a new one. Refused while the cell
    /// is borrowed or being written.
    pub fn try_set(&mut self, value: V) -> (result: Result<(), SignalUpdatingError>)
        requires
            old(self).wf(),
        ensures
            final(self).wf(),
            final(self)@ == old(self)@.set(value),
            result is Ok <==> old(self)@.writable(),
    {
        match self.replace(value) {
            Ok(_) => Ok(()),
            Err(e) => Err(e),
        }
    }

    /// Takes the value out to be changed, and marks the cell as being
    /// written. Refused unless the cell is at rest.
    pub fn begin_mutate(&mut self) -> (result: Result<V, SignalMutatingError>)
        requires
            old(self).wf(),
        ensures
            final(self).wf(),
            final(self)@ == old(self)@.begin_mutate(),
            match result {
                Ok(v) => old(self)@.mutating_error() is None && old(self)@.value == Some(v),
                Err(e) => old(self)@.mutating_error() == Some(e),
            },
    {
        match self.state {
            State::Idling => {
                match self.value.take() {
                    Some(v) => {
                        self.state = State::Mutating;
                        Ok(v)
                    },
                    None => Err(SignalMutatingError::Uninit),
                }
            },
            State::Uninit => Err(SignalMutatingError::Uninit),
            _ => Err(SignalMutatingError::Updating),
        }
    }

    /// Puts the changed value back into a cell that is being written. The
    /// value is handed back if the cell does not wait for one.
    pub fn store(&mut self, value: V) -> (left: Option<V>)
        requires
            old(self).wf(),
        ensures
            final(self).wf(),
            final(self)@ == old(self)@.store(value),
            left == (if old(self)@.awaits() {
                None
            } else {
                Some(value)
            }),
    {
        if matches!(self.state, State::Mutating) && self.value.is_none() {
            self.value = Some(value);
            None
        } else {
            Some(value)
        }
    }

    /// Marks a cell at rest as being written, for the time its subscribers
    /// are told of a new value.
    pub fn lock(&mut self) -> (locked: bool)
        requires
            old(self).wf(),
        ensures
            final(self).wf(),
            final(self)@ == old(self)@.lock(),
            locked == (old(self)@.state is Idling),
    {
        if matches!(self.state, State::Idling) {
            self.state = State::Mutating;
            true
        } else {
            false
        }
    }

    /// Writes a value as `replace` does and, if the write is accepted,
    /// marks the cell as being written, for the time its subscribers are
    /// told of the value.
    pub fn begin_set(&mut self, value: V) -> (result: Result<Option<V>, SignalUpdatingError>)
        requires
            old(self).wf(),
        ensures
            final(self).wf(),
            final(self)@ == old(self)@.begin_set(value),
            result is Ok <==> old(self)@.writable(),
            result is Ok ==> result == Ok::<Option<V>, SignalUpdatingError>(old(self)@.value),
    {
        let replaced = self.replace(value);
        if replaced.is_ok() {
            let _ = self.lock();
        }
        replaced
    }

    /// Asks for a copy of the value as it is now, to tell the subscribers
    /// of it without writing. A cell at rest is marked as being written,
    /// and `true` says so. While the value is away, or if there never was
    /// one, there is nothing to tell of.
    pub fn begin_notify(&mut self) -> (outcome: Result<(bool, V), SignalGetError>) where V: Clone
        requires
            old(self).wf(),
        ensures
            final(self).wf(),
            final(self)@ == old(self)@.lock(),
            match outcome {
                Ok((locked, value)) => {
                    &&& old(self)@.notify_error() is None
                    &&& locked == (old(self)@.state is Idling)
                    &&& cloned(old(self)@.value->0, value)
                },
                Err(e) => old(self)@.notify_error() == Some(e),
            },
    {
        let locked = self.lock();
        match &self.value {
            Some(value) => Ok((locked, value.clone())),
            None => {
                match self.state {
                    State::Uninit => Err(SignalGetError::Uninit),
                    _ => Err(SignalGetError::Updating),
                }
            },
        }
    }

    /// Ends a write: the cell is at rest again.
    pub fn settle(&mut self)
        requires
            old(self).wf(),
        ensures
            final(self).wf(),
            final(self)@ == old(self)@.settle(),
    {
        if matches!(self.state, State::Mutating) {
            if self.value.is_some() {
                self.state = State::Idling;
            } else {
                self.state = State::Uninit;
            }
        }
    }

    /// Asks for the value to be shown to a subscriber.
    pub fn begin_borrow(&mut self) -> (lease: Lease)
        requires
            old(self).wf(),
        ensures
            final(self).wf(),
            final(self)@ == old(self)@.begin_borrow(),
            lease == old(self)@.lease(),
    {
        match self.state {
            State::Idling => {
                self.state = State::Borrowed;
                Lease::Outer
            },
            State::Borrowed => Lease::Nested,
            State::Mutating => Lease::Refused,
            State::Uninit => Lease::Empty,
        }
    }

    /// Asks for a copy of the value to show to a new subscriber. The value
    /// is shown whenever it is in the cell: at rest, while it is shown to
    /// somebody else, and while subscribers are told of it. A cell at rest
    /// becomes borrowed, and `true` says that the caller is to end that
    /// borrow with `end_borrow`.
    pub fn begin_show(&mut self) -> (shown: (bool, Option<V>)) where V: Clone
        requires
            old(self).wf(),
        ensures
            final(self).wf(),
            final(self)@ == old(self)@.begin_borrow(),
            shown.0 == (old(self)@.state is Idling),
            shown.1 is Some <==> old(self)@.value is Some,
            shown.1 matches Some(value) ==> cloned(old(self)@.value->0, value),
    {
        let outer = matches!(self.state, State::Idling);
        if outer {
            self.state = State::Borrowed;
        }
        match &self.value {
            Some(value) => (outer, Some(value.clone())),
            None => (outer, None),
        }
    }

    /// Ends the borrow that an outer lease began.
    pub fn end_borrow(&mut self)
        requires
            old(self).wf(),
        ensures
            final(self).wf(),
            final(self)@ == old(self)@.end_borrow(),
    {
        if matches!(self.state, State::Borrowed) {
            self.state = State::Idling;
        }
    }

    /// Changes the value in place. Refused unless the cell is at rest; a
    /// cell that was never written has nothing to change.
    pub fn try_mutate<F: FnOnce(&mut V)>(&mut self, mutate: F) -> (result: Result<
        (),
        SignalMutatingError,
    >)
        requires
            old(self).wf(),
            forall|target: &mut V| call_requires(mutate, (target,)),
        ensures
            final(self).wf(),
            final(self)@.state == old(self)@.state,
            match result {
                Ok(_) => {
                    &&& old(self)@.mutating_error() is None
                    &&& final(self)@.value is Some
                    &&& exists|target: &mut V|
                        {
                            &&& mut_ref_current(target) == old(self)@.value->0
                            &&& mut_ref_future(target) == final(self)@.value->0
                            &&& call_ensures(mutate, (target,), ())
                        }
                },
                Err(e) => old(self)@.mutating_error() == Some(e) && final(self)@ == old(self)@,
            },
    {
        match self.begin_mutate() {
            Ok(value) => {
                let mut value = value;
                mutate(&mut value);
                let _ = self.store(value);
                self.settle();
                Ok(())
            },
            Err(e) => Err(e),
        }
    }

    /// Shows the value to `action`, unless the cell is being written. A
    /// cell that was never written shows nothing, which is no error.
    pub fn borrow_then<F: FnOnce(&V)>(&mut self, action: F) -> (result: Result<
        (),
        SignalGetError,
    >)
        requires
            old(self).wf(),
            forall|value: &V| call_requires(action, (value,)),
        ensures
            final(self).wf(),
            final(self)@ == old(self)@,
            result is Err <==> old(self)@.state is Mutating,
            result is Err ==> result == Err::<(), SignalGetError>(SignalGetError::Updating),
            old(self)@.state is Idling || old(self)@.state is Borrowed ==> call_ensures(
                action,
                (&old(self)@.value->0,),
                (),
            ),
    {
        match self.begin_borrow() {
            Lease::Outer => {
                match &self.value {
                    Some(value) => action(value),
                    None => {},
                }
                self.end_borrow();
                Ok(())
            },
            Lease::Nested => {
                match &self.value {
                    Some(value) => action(value),
                    None => {},
                }
                Ok(())
            },
            Lease::Refused => Err(SignalGetError::Updating),
            Lease::Empty => Ok(()),
        }
    }
}

impl<T> ValueCell<Rc<T>> {
    /// Takes the value out of a cell that holds it shared, to be changed by
    /// the caller alone, and marks the cell as being written. Refused
    /// unless the cell is at rest; also refused, as being in use, if
    /// somebody else still holds on to the value. A refusal leaves the cell
    /// as it was.
    pub fn take_owned(&mut self) -> (result: Result<T, SignalMutatingError>)
        requires
            old(self).wf(),
        ensures
            final(self).wf(),
            match result {
                Ok(value) => {
                    &&& old(self)@.mutating_error() is None
                    &&& old(self)@.value is Some
                    &&& *(old(self)@.value->0) == value
                    &&& final(self)@ == old(self)@.begin_mutate()
                },
                Err(e) => {
                    &&& final(self)@ == old(self)@
                    &&& old(self)@.mutating_error() == Some(e) || (old(self)@.mutating_error() is None
                        && e is Updating)
                },
            },
    {
        match self.begin_mutate() {
            Ok(shared) => {
                match Rc::try_unwrap(shared) {
                    Ok(value) => Ok(value),
                    Err(shared) => {
                        let _ = self.store(shared);
                        self.settle();
                        Err(SignalMutatingError::Updating)
                    },
                }
            },
            Err(e) => Err(e),
        }
    }

    /// Puts a value that the caller changed back into a cell that is being
    /// written, shared again, and hands back what the subscribers are to be
    /// told of. If the cell does not wait for a value it stays as it is.
    pub fn put_owned(&mut self, value: T) -> (shared: Rc<T>)
        requires
            old(self).wf(),
        ensures
            final(self).wf(),
            *shared == value,
            final(self)@ == old(self)@.store(shared),
    {
        let shared = Rc::new(value);
        let _ = self.store(shared.clone());
        shared
    }
}

/// After a write was accepted, reading gives the written value back; this
/// holds of the first write as of any later one.
pub proof fn law_get_after_set<V>(cell: CellModel<V>, value: V)
    requires
        cell.wf(),
        cell.writable(),
    ensures
        cell.set(value).wf(),
        cell.set(value).state is Idling,
        cell.set(value).get() == Ok::<V, SignalGetError>(value),
{
}

/// A cell that was never written cannot be read and cannot be changed in
/// place, and its first write brings it to rest with the written value.
pub proof fn law_first_write_initializes<V>(value: V)
    ensures
        CellModel::<V>::uninit().wf(),
        CellModel::<V>::uninit().get() == Err::<V, SignalGetError>(SignalGetError::Uninit),
        CellModel::<V>::uninit().mutating_error() == Some(SignalMutatingError::Uninit),
        CellModel::<V>::uninit().writable(),
        CellModel::<V>::uninit().set(value) == CellModel::new(value),
{
}

/// A write that is refused changes nothing: the cell is as it was, so
/// there is nothing to tell any subscriber.
pub proof fn law_refused_write_changes_nothing<V>(cell: CellModel<V>, value: V)
    requires
        cell.wf(),
    ensures
        !cell.writable() ==> cell.set(value) == cell,
        cell.mutating_error() is Some ==> cell.begin_mutate() == cell,
        !(cell.state is Idling) ==> cell.lock() == cell,
{
}

/// From the moment a write begins until it is settled, the cell refuses
/// every other write and every read, and lets no borrow begin: a second
/// write in flight is impossible.
pub proof fn law_write_in_flight_excludes<V>(cell: CellModel<V>, value: V)
    requires
        cell.wf(),
        cell.state is Idling,
    ensures
        ({
            let changing = cell.begin_mutate();
            let telling = cell.lock();
            &&& changing.wf() && telling.wf()
            &&& changing.state is Mutating && telling.state is Mutating
            &&& telling.value == cell.value
            &&& !changing.writable() && !telling.writable()
            &&& changing.set(value) == changing && telling.set(value) == telling
            &&& changing.mutating_error() == Some(SignalMutatingError::Updating)
            &&& telling.mutating_error() == Some(SignalMutatingError::Updating)
            &&& changing.get() == Err::<V, SignalGetError>(SignalGetError::Updating)
            &&& telling.get() == Err::<V, SignalGetError>(SignalGetError::Updating)
            &&& changing.lease() == Lease::Refused && telling.lease() == Lease::Refused
            &&& changing.store(value).settle() == CellModel::new(value)
            &&& telling.settle() == cell
        }),
{
}

/// While the value is shown to a subscriber it can be read and shown
/// again, but not written; ending the borrow brings the cell back to rest
/// with the same value.
pub proof fn law_borrow_allows_reads_only<V>(cell: CellModel<V>, value: V)
    requires
        cell.wf(),
        cell.state is Idling,
    ensures
        ({
            let shown = cell.begin_borrow();
            &&& cell.lease() == Lease::Outer
            &&& shown.wf()
            &&& shown.get() == cell.get()
            &&& shown.lease() == Lease::Nested
            &&& shown.begin_borrow() == shown
            &&& shown.set(value) == shown
            &&& shown.mutating_error() == Some(SignalMutatingError::Updating)
            &&& shown.end_borrow() == cell
        }),
{
}

} // verus!
