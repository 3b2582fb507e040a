//! Supervisory controller for a CAN-style broadcast bus.
//!
//! The crate holds the controller's state and every decision it takes:
//! the loopback transport ([`can`]), the device abstraction ([`device`])
//! with its two kinds ([`alarm`], [`heater`]), the registry that routes
//! frames and actions by address ([`registry`]), query transactions with
//! deadlines ([`query`]), the step function of the actor loop with
//! discovery ([`controller`]), and what holds of every run ([`history`]).
//!
//! The core never waits and never blocks. A query is therefore a
//! transaction in two parts: it is begun, which sends the request and
//! fixes the deadline, and then polled until it has resolved; the caller
//! waits between the polls. Every firing of the discovery timer is handed
//! to the core as an event and runs one discovery round; the caller arms
//! the timer with the configured period.
//!
//! Every function that depends on the time comes twice: under its plain
//! name it reads the clock, and with `_at` behind its name it takes the
//! time as an argument. Waiting, channels and sockets belong to the caller.

pub mod alarm;
pub mod can;
pub mod clock;
pub mod controller;
pub mod device;
pub mod heater;
pub mod history;
pub mod query;
pub mod registry;
