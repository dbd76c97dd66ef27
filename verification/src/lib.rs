//! Connection health and sync configuration rules for an inbox that gathers
//! notifications from outside services.
//!
//! The crate has two halves. [`health`] classifies the integration
//! connections of [`connection`] and derives the warnings shown for them;
//! [`slack`] computes the next sync configuration of a chat provider from the
//! current one and a user's intent, with the task attributes of [`task`].
//! [`time`] holds instants and renders them for a given zone.
//!
//! Every function is a deterministic transformation of its arguments: nothing
//! here reads a clock, a time zone or any other state of the machine.

pub mod connection;
pub mod health;
pub mod slack;
pub mod task;
pub mod time;
