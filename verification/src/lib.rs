//! The decision core of a DHT peer-discovery loop, and the failures of block
//! and transaction validation.
//!
//! The loop finds new peers in rounds. It is a state machine: the active
//! state's handler does its work and reports an event, and the transition
//! table maps state and event to the next state. Everything here is
//! synchronous and free of I/O: a driver runs the handlers, races them
//! against the shutdown signal, publishes what a transition asks it to, and
//! calls back into this crate for every decision.
//!
//! - `config`, `context`: what the handlers are given.
//! - `round`: the input and the outcome of a discovery round.
//! - `event`, `state`: the events and states of the loop.
//! - `state_machine`: the transition table and the driver's decisions.
//! - `laws`: what holds of every transition, turn and run.
//! - `validation`: the validation failures.
//! - `text`: decimal numerals for the log lines.

pub mod config;
pub mod context;
pub mod event;
pub mod laws;
pub mod round;
pub mod state;
pub mod state_machine;
pub mod text;
pub mod validation;
