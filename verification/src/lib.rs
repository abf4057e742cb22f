//! Core logic of an interactive, multi-step installation wizard.
//!
//! The crate is organised around three pieces:
//!
//! - [`msg`]: the session message codec, a total parser for the
//!   line-oriented text protocol spoken by the external installer
//!   process, together with the serialization of the collected
//!   configuration;
//! - [`flow`]: the step-flow controller, which orders the wizard's
//!   screens, caches their handles and gates forward progression on
//!   validation;
//! - [`session`]: the installation session engine, a state machine
//!   that interprets the worker's output stream and emits the actions
//!   the presentation layer must perform.
//!
//! Everything that touches a terminal, a file or a process lives
//! outside this crate; the functions here work on plain values and
//! carry contracts for what they compute.

pub mod config;
pub mod flow;
pub mod msg;
pub mod session;
pub mod validate;
