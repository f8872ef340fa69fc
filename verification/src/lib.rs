//! The decision core of a gateway that serves an OpenAI-compatible HTTP API
//! in front of one Triton inference backend reached over gRPC.
//!
//! Everything here is a function from plain values to plain values: what to
//! send upstream, how to read what came back, and when the server may accept
//! work. Sockets, channels and the HTTP stack belong to the program that
//! links this crate.

pub mod error;
pub mod routes;
pub mod startup;
pub mod state;
pub mod triton;
