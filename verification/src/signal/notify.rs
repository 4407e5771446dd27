//! Callbacks as objects.
//!
//! A registry stores each callback as a [`Callback`], a boxed [`Notify`]
//! object. A closure becomes one through [`ForEach`]; the composition
//! operators bring their own objects, which carry their state in plain
//! fields.

use vstd::prelude::*;

verus! {

/// Something that can be told of a value, any number of times. It keeps a
/// record of the values it was told of.
pub trait Notify<T> {
    /// Whether the object may be called with any value.
    spec fn ready(&self) -> bool;

    /// The values that the object was told of, first to last.
    spec fn heard(&self) -> Seq<T>;

    /// Tells the object of `value`.
    fn notify(&mut self, value: &T)
        requires
            old(self).ready(),
        ensures
            final(self).ready(),
            final(self).heard() == old(self).heard().push(*value),
    ;
}

/// A closure that is told of every value.
pub struct ForEach<T, F> {
    pub notify: F,
    pub heard: Ghost<Seq<T>>,
}

impl<T, F: FnMut(&T)> Notify<T> for ForEach<T, F> {
    open spec fn ready(&self) -> bool {
        forall|value: &T| call_requires(self.notify, (value,))
    }

    open spec fn heard(&self) -> Seq<T> {
        self.heard@
    }

    /// Calls the closure with `value`.
    fn notify(&mut self, value: &T)
        ensures
            call_ensures(old(self).notify, (value,), ()),
            final(self).notify == old(self).notify,
    {
        (self.notify)(value);
        self.heard = Ghost(self.heard@.push(*value));
    }
}

/// A callback as a registry stores it.
#[verifier::reject_recursive_types(T)]
pub struct Callback<T> {
    pub inner: Box<dyn Notify<T>>,
}

impl<T> Callback<T> {
    /// Whether the callback may be called with any value.
    pub open spec fn ready(&self) -> bool {
        self.inner.ready()
    }

    /// The values that the callback was called with, first to last.
    pub open spec fn heard(&self) -> Seq<T> {
        self.inner.heard()
    }

    /// The callback that calls `notify` with every value. It has not been
    /// called yet.
    pub fn for_each<F: FnMut(&T) + 'static>(notify: F) -> (callback: Self) where T: 'static
        requires
            forall|value: &T| call_requires(notify, (value,)),
        ensures
            callback.ready(),
            callback.heard() == Seq::<T>::empty(),
    {
        Callback { inner: Box::new(ForEach { notify, heard: Ghost(Seq::empty()) }) }
    }

    /// Calls the callback with `value`.
    pub fn call(&mut self, value: &T)
        requires
            old(self).ready(),
        ensures
            final(self).ready(),
            final(self).heard() == old(self).heard().push(*value),
    {
        self.inner.notify(value);
    }
}

/// A closure that is told of every value and handed the token of its own
/// subscription, so that it can cancel itself.
pub struct WithToken<T, U, F> {
    pub notify: F,
    pub unsub: U,
    pub heard: Ghost<Seq<T>>,
}

impl<T, U, F: FnMut(&T, &mut U)> Notify<T> for WithToken<T, U, F> {
    open spec fn ready(&self) -> bool {
        forall|value: &T, unsub: &mut U| call_requires(self.notify, (value, unsub))
    }

    open spec fn heard(&self) -> Seq<T> {
        self.heard@
    }

    /// Calls the closure with `value` and the token, which the closure may
    /// change.
    fn notify(&mut self, value: &T)
        ensures
            final(self).notify == old(self).notify,
            exists|token: &mut U|
                {
                    &&& mut_ref_current(token) == old(self).unsub
                    &&& mut_ref_future(token) == final(self).unsub
                    &&& call_ensures(old(self).notify, (value, token), ())
                },
    {
        (self.notify)(value, &mut self.unsub);
        self.heard = Ghost(self.heard@.push(*value));
    }
}

} // verus!
