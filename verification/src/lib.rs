//! A small HTTP routing and dispatch core.
//!
//! Routes are exact `(method, path)` pairs registered during a single-owner
//! set-up phase. Starting the server turns the set-up context into a
//! read-only dispatcher, so every request served afterwards sees the same
//! route table. Socket work is left to the caller: the acceptor is a state
//! machine that says what to do next, and the dispatcher maps a parsed
//! request to a response.

pub mod acceptor;
pub mod dispatch;
pub mod json;
pub mod message;
pub mod respond;
pub mod routes;
pub mod sample;
pub mod server;
pub mod text;
