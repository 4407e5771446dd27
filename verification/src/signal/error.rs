//! The errors of the signal engine.
//!
//! A conflicting operation is never queued and never blocks: it is refused
//! at once with one of these values.

use vstd::prelude::*;

verus! {

/// A write was attempted on a signal that is being read or written.
#[derive(Copy, Clone, PartialEq, Eq, Structural, PartialOrd, Ord, Hash, Debug)]
pub struct SignalUpdatingError;

impl SignalUpdatingError {
    /// What went wrong, in words.
    pub fn message(&self) -> (text: &'static str)
        ensures
            text@ == "signal is already updating"@,
    {
        "signal is already updating"
    }
}

/// Why the value of a signal could not be read.
#[derive(Copy, Clone, PartialEq, Eq, Structural, PartialOrd, Ord, Hash, Debug)]
pub enum SignalGetError {
    /// The signal has never been given a value.
    Uninit,
    /// The signal is being written.
    Updating,
}

impl SignalGetError {
    /// What went wrong, in words.
    pub fn message(&self) -> (text: &'static str)
        ensures
            *self is Uninit ==> text@ == "signal is uninitialized"@,
            *self is Updating ==> text@ == "signal is currently updating"@,
    {
        match self {
            SignalGetError::Uninit => "signal is uninitialized",
            SignalGetError::Updating => "signal is currently updating",
        }
    }
}

/// Why the value of a signal could not be changed in place.
#[derive(Copy, Clone, PartialEq, Eq, Structural, PartialOrd, Ord, Hash, Debug)]
pub enum SignalMutatingError {
    /// The signal has never been given a value, so there is nothing to
    /// change.
    Uninit,
    /// The signal is being read or written.
    Updating,
}

impl SignalMutatingError {
    /// What went wrong, in words.
    pub fn message(&self) -> (text: &'static str)
        ensures
            *self is Uninit ==> text@ == "signal is uninitialized"@,
            *self is Updating ==> text@ == "signal is already updating"@,
    {
        match self {
            SignalMutatingError::Uninit => "signal is uninitialized",
            SignalMutatingError::Updating => "signal is already updating",
        }
    }
}

} // verus!
