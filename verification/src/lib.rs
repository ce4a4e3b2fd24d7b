//! Package-completion workflow: the orchestration that runs when a packager
//! reports a package as finished (built, or declared unbuildable).
//!
//! The workflow itself is a verified state machine: `start_completion`
//! validates the caller's credential and the requested status, and every
//! further decision is taken by `advance_completion`, a pure step function
//! from the current step and the outcome of the last storage or notification
//! call to the next step and the next call to make. The surrounding process
//! performs the actual database and chat-channel calls and feeds their
//! outcomes back in as events, so every branch of the orchestration is
//! checked here while the I/O stays outside.

pub mod resp;
pub mod text;
pub mod workflow;
pub mod laws;
