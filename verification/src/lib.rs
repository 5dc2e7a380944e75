//! A chat session with a persona, driven turn by turn.
//!
//! The crate holds the decisions of an interactive chat client: the bounded
//! window of past turns, the text of each generation request, the handling of
//! a streamed reply and the loop that ties them together. Reading the
//! terminal, talking to the inference engine and touching the disk are left to
//! the caller, which feeds events in and carries actions out.

pub mod persona;
pub mod request;
pub mod session;
pub mod settings;
pub mod stream;
pub mod text;
pub mod window;
