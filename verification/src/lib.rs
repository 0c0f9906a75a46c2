//! Slot-based state machine for loading, decompressing, parsing and exporting
//! browser session-store files.
//!
//! The library keeps two mutable file slots (the `New` and `Current` records),
//! hands out monotonically increasing path and data identifiers, and exposes a
//! command layer that validates those identifiers before every read or write,
//! so that long-running background work can never commit results into a slot
//! that has since been reset or superseded. Heavy outside work (file reads,
//! decompression, JSON parsing, link rendering) happens between the `begin`
//! and `finish` halves of a command, outside the store.

pub mod background;
pub mod commands;
pub mod errors;
pub mod ids;
pub mod laws;
pub mod messages;
pub mod options;
pub mod paths;
pub mod preview;
pub mod profiles;
pub mod record;
pub mod session;
pub mod state;
pub mod store;
pub mod util;
