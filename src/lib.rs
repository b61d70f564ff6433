//! An observable state container: a value holder that notifies registered
//! listeners whenever the held value changes.

pub mod error;
pub mod laws;
pub mod notifier;
pub mod stream;
