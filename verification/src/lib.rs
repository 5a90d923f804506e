//! `poll_promise`: polling the result of a concurrent operation.
//!
//! A [`Promise`] starts out waiting for a value that its [`Sender`] delivers,
//! typically from another thread or task; it can then be asked, frame after
//! frame, whether the value is there yet. Once it is, the promise keeps it.
//!
//! The module [`promise`] also holds the step functions that the contracts
//! speak of, and [`laws`] what is proved of them across calls.
mod channel;
mod executor;
pub mod laws;
pub mod promise;

pub use channel::RecvOutcome;
pub use executor::{tick, tick_local, LocalTick, SharedTick, Ticked};
pub use promise::{Poll, Promise, Sender, SenderDropped, TaskType};
