//! The value cell behind a shared reference.
//!
//! A [`SignalData`] keeps a [`ValueCell`] in a [`Guard`] and holds the
//! value in an `Rc`, so that the value can be shown to callbacks while the
//! cell stays free to answer them. Every function here takes the cell out,
//! makes one call on it, and puts it back. What the cell holds when it is
//! taken out depends on who used the signal before, so the contracts here
//! cannot speak of it: what each call does is stated on [`ValueCell`], for
//! every cell.

use std::rc::Rc;
use vstd::prelude::*;
use crate::signal::cell::CellModel;
use crate::signal::cell::Lease;
use crate::signal::cell::State;
use crate::signal::cell::ValueCell;
use crate::signal::error::SignalGetError;
use crate::signal::error::SignalMutatingError;
use crate::signal::error::SignalUpdatingError;
use crate::signal::guard::Guard;
use crate::signal::guard::Guarded;

verus! {

impl<T> Guarded for ValueCell<Rc<T>> {
    /// Whenever the value cell rests in its guard it is well-formed.
    open spec fn inv(&self) -> bool {
        self.wf()
    }
}

/// A count that stops at the largest number.
pub struct Tally {
    count: usize,
}

impl Tally {
    /// The number counted.
    pub closed spec fn count(&self) -> nat {
        self.count as nat
    }

    /// A count of nothing.
    pub fn new() -> (tally: Self)
        ensures
            tally.count() == 0,
    {
        Tally { count: 0 }
    }

    /// Counts one more, unless the count is at the largest number.
    pub fn add_one(&mut self)
        ensures
            final(self).count() == (if old(self).count() < usize::MAX {
                old(self).count() + 1
            } else {
                old(self).count()
            }),
    {
        if self.count < usize::MAX {
            self.count = self.count + 1;
        }
    }

    /// The number counted.
    pub fn get(&self) -> (count: usize)
        ensures
            count == self.count(),
    {
        self.count
    }
}

impl Guarded for Tally {
    /// Any count may rest in a guard.
    open spec fn inv(&self) -> bool {
        true
    }
}

/// The value of a signal, usable through a shared reference, also from
/// inside the callbacks that are shown the value.
#[verifier::reject_recursive_types(T)]
pub struct SignalData<T> {
    cell: Guard<ValueCell<Rc<T>>>,
    refused: Guard<Tally>,
}

impl<T> SignalData<T> {
    /// The state and the value that the data was made with. This is not
    /// what the data holds now, and it leaves out the count of refused
    /// writes, which starts at nothing.
    pub closed spec fn first(&self) -> CellModel<T> {
        CellModel {
            state: self.cell.first()@.state,
            value: match self.cell.first()@.value {
                Some(shared) => Some(*shared),
                None => None,
            },
        }
    }

    /// The data of a signal that starts at rest with `initial_value`.
    pub fn new(initial_value: T) -> (data: Self)
        ensures
            data.first() == CellModel::new(initial_value),
    {
        SignalData {
            cell: Guard::new(ValueCell::new(Rc::new(initial_value))),
            refused: Guard::new(Tally::new()),
        }
    }

    /// The data of a signal whose value is yet to be written.
    pub fn uninit() -> (data: Self)
        ensures
            data.first() == CellModel::<T>::uninit(),
    {
        SignalData { cell: Guard::new(ValueCell::uninit()), refused: Guard::new(Tally::new()) }
    }

    /// Takes the value cell out and leaves an empty one. Whatever comes out
    /// is well-formed.
    pub(crate) fn take(&self) -> (cell: ValueCell<Rc<T>>)
        ensures
            cell.wf(),
    {
        self.cell.swap(ValueCell::uninit())
    }

    /// Puts the value cell back.
    pub(crate) fn put(&self, cell: ValueCell<Rc<T>>)
        requires
            cell.wf(),
    {
        let _ = self.cell.swap(cell);
    }

    /// What the value is being used for: [`ValueCell::state`] of the cell
    /// as it is now.
    pub fn state(&self) -> (state: State) {
        let cell = self.take();
        let state = cell.state();
        self.put(cell);
        state
    }

    /// A copy of the value, unless the signal is being written or was never
    /// written: [`ValueCell::try_get`] of the cell as it is now.
    pub fn try_get(&self) -> (result: Result<T, SignalGetError>) where T: Clone {
        let cell = self.take();
        let shared = cell.try_get();
        self.put(cell);
        match shared {
            Ok(shared) => Ok((*shared).clone()),
            Err(e) => Err(e),
        }
    }

    /// Writes a value, the first one or a new one, and tells nobody.
    /// Refused while the value is being shown or written:
    /// [`ValueCell::replace`] on the cell as it is now.
    pub fn try_set(&self, new_value: T) -> (result: Result<(), SignalUpdatingError>) {
        let mut cell = self.take();
        let replaced = cell.replace(Rc::new(new_value));
        self.put(cell);
        match replaced {
            Ok(_) => Ok(()),
            Err(e) => Err(e),
        }
    }

    /// Counts a write that a relay made on this data and that was refused:
    /// [`Tally::add_one`] on the count as it is now.
    pub(crate) fn note_refused(&self) {
        let mut tally = self.refused.swap(Tally::new());
        tally.add_one();
        let _ = self.refused.swap(tally);
    }

    /// How many writes that relays made on this data were refused so far:
    /// [`Tally::get`] of the count as it is now.
    pub fn refused(&self) -> (count: usize) {
        let tally = self.refused.swap(Tally::new());
        let count = tally.get();
        let _ = self.refused.swap(tally);
        count
    }

    /// Ends a write: [`ValueCell::settle`] on the cell as it is now.
    pub(crate) fn settle(&self) {
        let mut cell = self.take();
        cell.settle();
        self.put(cell);
    }

    /// Ends a borrow: [`ValueCell::end_borrow`] on the cell as it is now.
    pub(crate) fn end_borrow(&self) {
        let mut cell = self.take();
        cell.end_borrow();
        self.put(cell);
    }

    /// Changes the value in place and tells nobody. Refused unless the
    /// signal is at rest, and a signal that was never written has nothing
    /// to change: [`ValueCell::take_owned`] on the cell as it is now
    /// decides, and a refusal leaves the cell as it was. If the change is
    /// accepted, `mutate` was applied to the value.
    pub fn try_mutate<F: FnOnce(&mut T)>(&self, mutate: F) -> (result: Result<
        (),
        SignalMutatingError,
    >)
        requires
            forall|target: &mut T| call_requires(mutate, (target,)),
        ensures
            result is Ok ==> exists|target: &mut T| call_ensures(mutate, (target,), ()),
    {
        let mut cell = self.take();
        let taken = cell.take_owned();
        self.put(cell);
        match taken {
            Ok(value) => {
                let mut value = value;
                mutate(&mut value);
                let mut cell = self.take();
                let shared = cell.put_owned(value);
                cell.settle();
                self.put(cell);
                Ok(())
            },
            Err(e) => Err(e),
        }
    }

    /// Shows the value to `action`, unless the signal is being written. A
    /// signal that was never written shows nothing, which is no error:
    /// [`ValueCell::begin_borrow`] on the cell as it is now decides. The
    /// only error is `Updating`.
    pub fn borrow_then<F: FnOnce(&T)>(&self, action: F) -> (result: Result<(), SignalGetError>)
        requires
            forall|value: &T| call_requires(action, (value,)),
        ensures
            result matches Err(e) ==> e is Updating,
    {
        let mut cell = self.take();
        let lease = cell.begin_borrow();
        let value = match cell.value() {
            Some(shared) => Some(shared.clone()),
            None => None,
        };
        self.put(cell);
        match lease {
            Lease::Outer => {
                match value {
                    Some(shared) => {
                        action(&*shared);
                    },
                    None => {},
                }
                self.end_borrow();
                Ok(())
            },
            Lease::Nested => {
                match value {
                    Some(shared) => {
                        action(&*shared);
                    },
                    None => {},
                }
                Ok(())
            },
            Lease::Refused => Err(SignalGetError::Updating),
            Lease::Empty => Ok(()),
        }
    }
}

} // verus!
