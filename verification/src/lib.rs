//! A fine-grained reactive state engine.
//!
//! A signal holds a value, lets observers register callbacks that run on
//! every change, and can be combined into derived signals. Every operation
//! is synchronous and runs on the caller's stack; conflicting re-entrant
//! access is rejected with a typed error instead of blocking.

pub mod signal;
