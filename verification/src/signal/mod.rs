//! Signals, their subscriber registry and their value cell.
//!
//! The engine has three layers.
//!
//! * [`registry`] and [`cell`] hold the state machines as plain owned
//!   values. Every operation has an exact contract over a mathematical
//!   model. [`pass`] and [`protocol`] run whole passes, writes and
//!   subscriptions on state that the caller holds alone, with exact
//!   contracts, and state what the same steps come to while callbacks
//!   interfere.
//! * [`broadcast`], [`data`] and [`raw`] put those values behind shared
//!   references, in a [`guard`], and run the callbacks. Between two steps a
//!   callback may have done anything that the state machines allow, and
//!   what a guard holds is no function of the guard, so their contracts
//!   cannot speak of the state: what is proved of them is that every step
//!   they take is a step of the state machines above, on a well-formed
//!   state, and that nothing but a callback can make them panic.
//! * [`handle`], [`mutable`], [`filter`], [`unsub`] and [`value`] are the
//!   handles and tokens that users hold; [`compose`] has the operators that
//!   derive one signal from another.

pub mod broadcast;
pub mod cell;
pub mod compose;
pub mod data;
pub mod error;
pub mod filter;
pub mod guard;
pub mod handle;
pub mod mutable;
pub mod notify;
pub mod pass;
pub mod protocol;
pub mod raw;
pub mod registry;
pub mod unsub;
pub mod value;
pub mod weak;

pub use error::SignalGetError;
pub use error::SignalMutatingError;
pub use error::SignalUpdatingError;
pub use filter::Filter;
pub use filter::FilterUnsubscriber;
pub use handle::Signal;
pub use handle::SignalMut;
pub use mutable::Computed;
pub use mutable::DroppableUnsubscriber;
pub use mutable::Mutable;
pub use mutable::MutableUnsubscriber;
pub use mutable::Unsubscriber;
pub use registry::SubscriberId;
pub use unsub::DropUnsubscriber;
pub use unsub::SignalUnsubscriber;
pub use unsub::Unsubscribe;
pub use value::Value;
