//! Client-side protocol engine for the handsfree transcription service.
//!
//! The service listens on a Unix domain socket and speaks newline-delimited
//! JSON. This library holds the verified logic of the client: the command
//! line grammar, the framing of commands, the decoding of responses, the
//! decisions of the request/response exchange and of the subscription
//! stream, the resolution of the socket path, and what an invocation
//! prints or reports. The socket itself is driven by the caller.
pub mod cli;
pub mod codec;
pub mod endpoint;
pub mod exchange;
pub mod protocol;
pub mod report;
pub mod text;
