//! Verified core of a Roc web-server platform host.
//!
//! The host talks to a compiled Roc application through tagged continuation
//! pointers, runs the database and HTTP effects the application asks for, and
//! turns the application's answers into HTTP responses.  This crate holds the
//! decisions the host makes on plain values; the host program performs the
//! effects and calls back into the application.
use vstd::prelude::*;

pub mod effect;
pub mod headers;
pub mod host;
pub mod http;
pub mod sql;
pub mod tag;
pub mod text;
