//! The client side of the streamable HTTP transport, without its input and output.
pub mod error;
pub mod exchange;
pub mod laws;
pub mod listener;
pub mod reply;
pub mod state;
pub mod token;
