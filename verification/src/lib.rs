//! Session core of a language server for Tan: the document store, the
//! handlers for diagnostics, symbols and formatting, and the dispatch of
//! protocol messages.
//!
//! The session decides and the analysis engine works: for each message
//! the session says what the engine has to parse, format or scan, and it
//! handles the message together with what came of that work. Of the
//! engine itself it calls only what returns on every input.

pub mod capabilities;
pub mod diagnostic;
pub mod dialect;
pub mod dispatch;
pub mod document;
pub mod engine;
pub mod laws;
pub mod message;
pub mod module;
pub mod range;
pub mod server;
pub mod status;
pub mod symbol;
pub mod text;
