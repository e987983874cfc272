//! The server side: messages over standard input and output, and over HTTP with event streams.
pub mod laws;
pub mod redact;
pub mod session;
pub mod startup;
pub mod stdio;
