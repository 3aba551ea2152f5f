//! Bounded-concurrency batch orchestration for fleets of wallets.
//!
//! The library decides; the caller performs the chain I/O. Every component is
//! a state machine from state and event to next state and directive, so that
//! the caller's loop only has to carry out directives and hand back what the
//! chain answered.

pub mod aggregator;
pub mod batch;
pub mod chain;
pub mod guard;
pub mod retry;
pub mod tool;
pub mod types;
pub mod worker;
