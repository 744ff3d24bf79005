//! A controllable countdown.
//!
//! A caller arms the countdown with a starting value, starts a ticker that
//! takes one off the value every second, and may ask the ticker to stop.
//! Every change of the value is reported to an observer.
//!
//! This crate holds the decisions: what each operation does to the state, and
//! what it asks of the caller afterwards (deliver a notification, spawn the
//! ticker, sleep and tick again, or leave the loop). Holding the lock,
//! spawning, sleeping and delivering are the caller's part.
//!
//! * [`model`] is the countdown as a mathematical value, with its operations.
//! * [`counter`] is the executable state, proved against the model.
//! * [`laws`] states what holds of the operations taken together.

pub mod counter;
pub mod laws;
pub mod model;
