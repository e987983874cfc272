//! The Model Context Protocol over streamable HTTP, without its input and output: the client, the
//! server with its sessions, a small server that echoes, and the messages that they exchange.
pub mod client;
pub mod echo_server;
pub mod http;
pub mod json;
pub mod message;
pub mod pending;
pub mod protocol;
pub mod server;
pub mod text;
