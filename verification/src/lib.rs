//! From a request in plain words to one shell command.
//!
//! The library holds what the tool decides: how a query becomes a request
//! to a language model, how the model's answer is cut down to a single
//! command line, what an update of the settings may change, and in which
//! order the user is told, asked and served. It reads no file, opens no
//! connection and prints nothing: its caller does that, and hands over
//! what came of it.
//!
//! - [`text`]: white space, trimming and lines, on sequences of characters.
//! - [`error`]: the error type.
//! - [`config`]: the settings and their updates.
//! - [`ai`]: the translator, from query to request and from reply to
//!   command.
//! - [`cli`]: what an invocation asks for, and the `config` subcommand.
//! - [`platform`]: the name of the user's shell.
//! - [`query`]: the query flow, step by step.

pub mod ai;
pub mod cli;
pub mod config;
pub mod error;
pub mod platform;
pub mod query;
pub mod text;
