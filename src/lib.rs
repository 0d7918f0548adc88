//! Resolution of a string value from an ordered chain of sources: a file, an
//! environment variable and a literal default.
//!
//! The chain is a small state machine. It never touches the file system or the
//! environment itself: it asks for a lookup, is told what the lookup found, and
//! in the end either emits a value or aborts with a message. Whoever drives it
//! performs the lookups, which keeps every decision here free of ambient state.

pub mod source;
pub mod resolver;
pub mod laws;
