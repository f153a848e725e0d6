//! The records the storage layer holds and the errors it surfaces.

use vstd::prelude::*;

verus! {

/// A coordinate on the canvas. The handler layer generates coordinates in
/// `u32`; the storage columns are signed 32-bit, so a coordinate above
/// `i32::MAX` cannot be stored and is rejected, never truncated.
#[derive(Clone, Copy, PartialEq, Eq, Structural, Debug)]
pub struct PixelLoc {
    pub x: u32,
    pub y: u32,
}

/// A placement request: who placed which color at which coordinate.
/// `address` is optional because the surrounding layer deserializes it from
/// a request body; a missing address is rejected as an invalid user.
#[derive(Debug)]
pub struct UpdatePixel {
    pub address: Option<String>,
    pub loc: PixelLoc,
    pub color: u8,
}

/// One row of the `player` table: a user's last placement, keyed by
/// address and overwritten in place on every placement. The coordinates
/// and color are conceptually unsigned but stored in signed columns.
#[derive(Debug)]
pub struct UserDetails {
    pub address: String,
    pub x: i32,
    pub y: i32,
    pub color: i32,
    pub last_placed: i64,
}

/// The embedded pixel value of one canvas cell: the current owner, color
/// and placement time, overwritten on every placement at that coordinate.
#[derive(Debug)]
pub struct PixelData {
    pub address: String,
    pub color: i32,
    pub last_placed: i64,
}

/// The errors the storage layer surfaces. Callers must be able to tell
/// "never happened" (`InvalidUser`, `NoPixelData`) from "the database is
/// down" (`Transport`) and from "a row came back in the wrong shape"
/// (`DecodeError`). Nothing is retried internally.
#[derive(Clone, Copy, PartialEq, Eq, Structural, Debug)]
pub enum VpError {
    /// No player row exists for the address, or a request carried none:
    /// the user has never placed a pixel.
    InvalidUser,
    /// No cell row exists for the coordinate: nothing was ever placed there.
    NoPixelData,
    /// A coordinate does not fit the storage column's signed 32-bit width.
    RangeError,
    /// A row was returned but did not match the expected shape.
    DecodeError,
    /// Session creation, schema creation, statement preparation or query
    /// execution failed at the network or database layer.
    Transport,
}

/// What a single-key lookup brought back, once the database round-trip is
/// done: the decoded row, no row at all, or a row of the wrong shape.
pub enum FetchOutcome<T> {
    Row(T),
    Empty,
    Mismatch,
}

} // verus!
