//! Routing of inbound updates from a messaging platform to chains of
//! registered handlers.
//!
//! The core pieces are:
//! - [`context::Context`], a shared key-value store that handlers use to
//!   exchange state during a dispatch run;
//! - [`types`], the update and message data model;
//! - [`command`], the parser that extracts a command's trailing arguments
//!   from message text, honouring UTF-16 spans and shell-style quoting;
//! - [`handler`], the tagged union of per-kind handlers and the command
//!   sub-dispatcher;
//! - [`dispatcher`], which runs the pre-chain and the main chain over one
//!   update at a time under per-chain error strategies;
//! - [`methods`], typed requests for a few remote operations.

pub mod command;
pub mod context;
pub mod dispatcher;
pub mod handler;
pub mod methods;
pub mod types;
