//! A minimal connection responder: every connection whose single read
//! succeeds is answered with one fixed HTTP-shaped reply.
//!
//! The library holds the rules only. Sockets, threads and printing belong to
//! the program around it, which feeds events in and carries actions out.

pub mod handler;
pub mod listener;
pub mod request;
pub mod response;
pub mod trace;
