//! Core of a language server for a scripting language: it tracks open
//! documents, has each change's text re-analyzed, and turns the first parse
//! error into a protocol diagnostic.
//!
//! The crate is split along the protocol boundary. `position` converts
//! between the analyzer's 1-based source locations and the protocol's
//! 0-based, UTF-16-column positions. `analysis` shapes the analyzer's
//! outcome — success, or an error with message and optional native range —
//! into diagnostics. `document` is the table of open documents; `publish`
//! coalesces outgoing diagnostic payloads; `session` drives the
//! open/change/close lifecycle and keeps published results monotone in the
//! document version, whatever order analyses finish in. The analyzer itself
//! and the wire transport live outside this core and hand it plain values.

pub mod analysis;
pub mod document;
pub mod position;
pub mod publish;
pub mod session;
