//! A cell whose content always satisfies an invariant.
//!
//! A [`Guard`] can be written through a shared reference, so what it holds
//! at a given moment is no function of the guard, and no contract can speak
//! of it. What holds is that every value that goes in satisfies the
//! invariant of its type, and so does every value that comes out.
//!
//! The guard is built on `core::cell::Cell`, which drops what it holds when
//! it is dropped: a signal that is dropped frees its callbacks and its
//! value.

use core::cell::Cell;
use vstd::prelude::*;

verus! {

/// `core::cell::Cell`, of which nothing is declared but the name.
#[verifier::external_type_specification]
#[verifier::external_body]
#[verifier::reject_recursive_types(T)]
pub struct ExCell<T: ?Sized>(Cell<T>);

/// A type with an invariant that a [`Guard`] keeps.
pub trait Guarded {
    /// What holds of every value that rests in a guard.
    spec fn inv(&self) -> bool;
}

/// A cell that is read and written by swapping its whole content. It keeps
/// a record of what it held when it was made.
#[verifier::reject_recursive_types(V)]
pub struct Guard<V> {
    cell: Cell<V>,
    first: Ghost<V>,
}

impl<V: Guarded> Guard<V> {
    /// What the cell held when it was made. This is a record that is fixed
    /// when the guard is made; it says nothing of what the cell holds now.
    pub closed spec fn first(&self) -> V {
        self.first@
    }

    /// A `Cell` that holds `value`, made by `Cell::new`. Nothing is claimed
    /// of the result.
    #[verifier::external_body]
    fn fresh(value: V) -> (cell: Cell<V>)
        requires
            value.inv(),
    {
        Cell::new(value)
    }

    /// A cell that holds `value`.
    pub(crate) fn new(value: V) -> (guard: Self)
        requires
            value.inv(),
        ensures
            guard.first() == value,
    {
        let ghost first = value;
        Guard { cell: Guard::fresh(value), first: Ghost(first) }
    }

    /// Puts `value` into the cell and hands back what was in it, as
    /// `Cell::replace` does, which returns the old content and never
    /// panics.
    ///
    /// The claim that is taken on trust: what comes out satisfies the
    /// invariant. It rests on this: the cell is private, it is filled by
    /// `fresh` and by `swap` only, and both ask the invariant of what they
    /// put in.
    #[verifier::external_body]
    pub(crate) fn swap(&self, value: V) -> (content: V)
        requires
            value.inv(),
        ensures
            content.inv(),
    {
        self.cell.replace(value)
    }
}

} // verus!
