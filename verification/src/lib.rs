//! Core of an interactive terminal chat session: the session state machine
//! that multiplexes user input, a single outstanding completion request, a
//! shared log stream, and a tool-confirmation gate.
//!
//! Everything here is plain state-transition logic over plain values; the
//! surrounding process (terminal driver, network transport, renderer) feeds
//! events in and carries the returned effects out.

pub mod config;
pub mod event;
pub mod message;
pub mod prompt;
pub mod ring;
pub mod session;
pub mod text;
pub mod tools;
pub mod trusted;
