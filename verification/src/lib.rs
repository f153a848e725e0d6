//! Storage layer for a collaborative pixel canvas.
//!
//! The canvas is sharded across four logical partitions; every placement
//! writes a per-user record (for cooldown enforcement by the caller) and a
//! per-cell record, and reads translate "no row" into domain errors. This
//! crate holds the verified logic of that layer: partition routing, request
//! validation, the dual-write plan, result interpretation, and the exact
//! schema and query texts. The asynchronous database calls themselves live
//! in the surrounding application code, which feeds their outcomes back in.

pub mod read;
pub mod routing;
pub mod schema;
pub mod types;
pub mod update;
