# streamable_mcp

The Model Context Protocol over streamable HTTP and over standard input and output, with the
decisions kept apart from the input and output and proved with Verus.

- `src/client` is the client: how requests are numbered and composed, how a request goes on with
  each thing that happens to it, how answers are found in JSON bodies, event streams and the
  background stream, and how the bearer token is kept.
- `src/server` is the server: lines over standard input and output, sessions over HTTP with the
  requests that wait in them, failures at startup, and the masking of tokens in the log file.
- `src/echo_server.rs` is a small server with one tool, which echoes a message.
- `src/message.rs` reads and writes JSON-RPC messages; `src/json.rs` and `src/http.rs` hold the
  calls into `serde_json`, `http`, `url` and `uuid` with what is claimed of them.
- `src/protocol.rs` and `src/client/laws.rs` state what holds of several operations together.
- `app` runs all this over the network: a client, the servers and the log file.
