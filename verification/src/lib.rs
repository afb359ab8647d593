//! A small HTTP-over-TCP protocol layer for a server that keeps users,
//! sensors, sessions and the readings of sensors.
//!
//! Requests are parsed from raw bytes, responses are rendered back to wire
//! bytes, and every step is specified over sequences of bytes and characters.
//! The library never touches a socket or a file; of the clock it asks only
//! the time that the default headers carry:
//!
//! - [`text`] holds the operations on characters and bytes that everything
//!   else is built on;
//! - [`http`] holds methods, paths, headers, requests and responses;
//! - [`connection`] says what to read and what to write next on a connection;
//! - [`json`] holds JSON documents as trees;
//! - [`models`] and [`data`] hold the records and the store behind them;
//! - [`router`] says which response a request gets;
//! - [`bridge`] holds the few calls into other crates, whose contracts are
//!   believed and not proved.

pub mod bridge;
pub mod connection;
pub mod data;
pub mod http;
pub mod json;
pub mod models;
pub mod router;
pub mod server;
pub mod text;
