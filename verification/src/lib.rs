//! State synchronisation for the Acronymia party game client.
//!
//! The client keeps one snapshot of the game in step with the server over a
//! stream of JSON frames that it opens again whenever it drops. This crate
//! holds the rules of that, and leaves the stream itself to its user:
//!
//! - [`model`]: the messages and the snapshot;
//! - [`decode`] and [`encode`]: the frames on the wire, read and written
//!   with `serde_json` through [`json`]; [`framing`]: what a written frame
//!   tells its reader;
//! - [`reducer`]: how a message of the server changes the snapshot;
//! - [`container`]: the one holder of the snapshot;
//! - [`arbiter`] and [`outbox`]: who may send, and when;
//! - [`connection`]: when the stream is opened, read and opened again;
//! - [`rules`]: what the screens allow.
//!
//! Every function is verified against the contract it states, but for the
//! items of [`json`], which state what `serde_json` does.

pub mod arbiter;
pub mod connection;
pub mod container;
pub mod decode;
pub mod encode;
pub mod framing;
pub mod json;
pub mod model;
pub mod outbox;
pub mod reducer;
pub mod rules;
mod text;
