//! A small façade over a Redis wire-protocol client: it owns one guarded
//! connection handle, assembles commands from a name and ordered string
//! arguments, executes each assembled command exactly once, and decodes the
//! tagged reply into a caller-facing result or error.

pub mod client;
pub mod codec;
pub mod wire;
pub mod errors;
pub mod exception;
