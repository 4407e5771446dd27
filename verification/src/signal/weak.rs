//! Weak references to shared values.

use std::rc::Rc;
use std::rc::Weak;
use vstd::prelude::*;

verus! {

/// A `std::rc::Weak`. That type has an allocator parameter which a crate
/// on stable Rust cannot name, so it cannot be declared by itself, and the
/// whole struct is taken on trust instead. Nothing is claimed of it but
/// that it can be made, copied and asked for the value.
#[verifier::external_body]
#[verifier::reject_recursive_types(T)]
pub struct WeakInner<T> {
    inner: Weak<T>,
}

impl<T> WeakInner<T> {
    /// A weak pointer to the value that `shared` points to, made by
    /// `Rc::downgrade`. Nothing is claimed of the result.
    #[verifier::external_body]
    fn downgrade(shared: &Rc<T>) -> (weak: Self) {
        WeakInner { inner: Rc::downgrade(shared) }
    }

    /// The value, if anything still keeps it alive, as `Weak::upgrade`
    /// gives it. Nothing is claimed of the result: whether the value lives
    /// depends on who else holds it.
    #[verifier::external_body]
    fn upgrade(&self) -> (shared: Option<Rc<T>>) {
        self.inner.upgrade()
    }

    /// Another weak pointer to the same value, made by `Weak::clone`.
    /// Nothing is claimed of the result.
    #[verifier::external_body]
    fn duplicate(&self) -> (weak: Self) {
        WeakInner { inner: self.inner.clone() }
    }
}

/// A reference to a shared value that does not keep the value alive. It
/// keeps a record of the value it was made from.
#[verifier::reject_recursive_types(T)]
pub struct WeakRef<T> {
    inner: WeakInner<T>,
    origin: Ghost<Rc<T>>,
}

impl<T> WeakRef<T> {
    /// The shared value that the reference was made from.
    pub closed spec fn origin(&self) -> Rc<T> {
        self.origin@
    }

    /// A weak reference to the value that `shared` points to.
    pub(crate) fn downgrade(shared: &Rc<T>) -> (weak: Self)
        ensures
            weak.origin() == *shared,
    {
        WeakRef { inner: WeakInner::downgrade(shared), origin: Ghost(*shared) }
    }

    /// The value, if anything still keeps it alive. Whether it does is
    /// decided by who else holds the value, so nothing is stated of the
    /// result.
    pub(crate) fn upgrade(&self) -> (shared: Option<Rc<T>>) {
        self.inner.upgrade()
    }

    /// Another weak reference made from the same value.
    pub(crate) fn duplicate(&self) -> (weak: Self)
        ensures
            weak.origin() == self.origin(),
    {
        WeakRef { inner: self.inner.duplicate(), origin: self.origin }
    }
}

} // verus!
