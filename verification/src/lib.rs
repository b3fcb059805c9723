//! A small remote-procedure-call service and the client that exercises it:
//! a stateless greeting, a shared counter that only ever moves up by one,
//! and the decisions of the server, the client and the coordinator that
//! runs both.
//!
//! Everything here is plain computation on plain values. Sockets, timers and
//! task scheduling belong to the program around this library: it performs
//! the actions that the state machines of [`client`], [`server`] and
//! [`coordinator`] ask for, and hands back what happened as events.
//!
//! - [`counter`]: the shared counter and its one operation.
//! - [`hello_world`]: the messages of the service.
//! - [`service`]: the handler of the two procedures, the dispatch of a call
//!   to its procedure, and what holds of any sequence of calls.
//! - [`client`]: the client's fixed sequence of calls.
//! - [`server`]: the server's life from bind to stop.
//! - [`coordinator`]: how the process ends.
//! - [`error`]: the failures and how they are described.
//! - [`text`]: numbers written in decimal.

pub mod client;
pub mod coordinator;
pub mod counter;
pub mod error;
pub mod hello_world;
pub mod server;
pub mod service;
pub mod text;
