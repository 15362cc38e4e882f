//! Weather station: the rules of a small command-line weather client.
//!
//! The library decides everything that the program shows: the request that
//! is sent, how an answer becomes a weather record, how a record is laid out
//! as text, and how the interactive session moves from prompt to prompt.
//! Reading input, talking to the network and printing are left to the
//! caller.

pub mod decimal;
pub mod measure;
pub mod text;
pub mod record;
pub mod paint;
pub mod presenter;
pub mod client;
pub mod session;
