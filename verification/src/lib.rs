//! A cancellable, extendable deadline timer and the control loop that races it
//! against a queue of extension requests.
//!
//! The crate holds the decisions only. Time is a whole number of time units on
//! the caller's clock, handed in as a plain `u64`; the caller owns the clock, the
//! queue and the suspension, and does what the returned [`event_loop::LoopAction`]
//! says. Nothing here reads a clock, blocks or allocates.
//!
//! Extension amounts are unsigned, so a deadline never moves backwards. An amount
//! of zero is permitted and changes nothing.
pub mod event_loop;
pub mod theorems;
pub mod timer;
