//! The read path: locating a cell by the same routing the writer used, and
//! turning what a single-key lookup brought back into a record or a domain
//! error. Zero rows means "never placed", which callers must be able to
//! tell apart from a transport failure and from a malformed row.

use vstd::prelude::*;

use crate::routing::route;
use crate::routing::spec_route;
use crate::types::FetchOutcome;
use crate::types::PixelData;
use crate::types::UpdatePixel;
use crate::types::UserDetails;
use crate::types::VpError;
use crate::update::plan_matches;
use crate::update::UpdatePlan;
use crate::update::COORD_MAX;

verus! {

/// The key under which one canvas cell is stored: the routed partition
/// index and the coordinate as the signed column values.
#[derive(Debug)]
pub struct CellKey {
    pub canvas_part: usize,
    pub x: i32,
    pub y: i32,
}

/// Both coordinates fit the signed 32-bit storage columns.
pub open spec fn lookup_in_range(x: u32, y: u32) -> bool {
    x <= COORD_MAX && y <= COORD_MAX
}

/// Computes the key a `get_pixel` lookup reads: the coordinate routed to
/// its partition exactly as the update path routes it. A coordinate beyond
/// the storage range is a range error — such a cell can never have been
/// written.
pub fn pixel_query(x: u32, y: u32, dim_mid: u32) -> (r: Result<CellKey, VpError>)
    ensures
        r is Ok <==> lookup_in_range(x, y),
        !lookup_in_range(x, y) ==> r == Err::<CellKey, VpError>(VpError::RangeError),
        r matches Ok(key) ==> {
            &&& key.canvas_part == spec_route(x, y, dim_mid)
            &&& key.canvas_part < 4
            &&& key.x == x as i32
            &&& key.y == y as i32
        },
{
    if x > COORD_MAX || y > COORD_MAX {
        return Err(VpError::RangeError);
    }
    let canvas_part = route(x, y, dim_mid);
    Ok(CellKey { canvas_part, x: x as i32, y: y as i32 })
}

/// Interprets a `player` lookup: the decoded row is the user's last
/// placement; no row means the address has never placed a pixel, which is
/// an invalid user, not a decode failure or an empty success; a malformed
/// row is a decode error.
pub fn interpret_user_fetch(outcome: FetchOutcome<UserDetails>) -> (r: Result<
    UserDetails,
    VpError,
>)
    ensures
        outcome matches FetchOutcome::Row(u) ==> r == Ok::<UserDetails, VpError>(u),
        outcome is Empty ==> r == Err::<UserDetails, VpError>(VpError::InvalidUser),
        outcome is Mismatch ==> r == Err::<UserDetails, VpError>(VpError::DecodeError),
{
    match outcome {
        FetchOutcome::Row(u) => Ok(u),
        FetchOutcome::Empty => Err(VpError::InvalidUser),
        FetchOutcome::Mismatch => Err(VpError::DecodeError),
    }
}

/// Interprets a `canvas` lookup: the decoded value is the cell's current
/// pixel; no row means nothing was ever placed at the coordinate; a
/// malformed row is a decode error, distinct from not-found.
pub fn interpret_pixel_fetch(outcome: FetchOutcome<PixelData>) -> (r: Result<PixelData, VpError>)
    ensures
        outcome matches FetchOutcome::Row(p) ==> r == Ok::<PixelData, VpError>(p),
        outcome is Empty ==> r == Err::<PixelData, VpError>(VpError::NoPixelData),
        outcome is Mismatch ==> r == Err::<PixelData, VpError>(VpError::DecodeError),
{
    match outcome {
        FetchOutcome::Row(p) => Ok(p),
        FetchOutcome::Empty => Err(VpError::NoPixelData),
        FetchOutcome::Mismatch => Err(VpError::DecodeError),
    }
}

/// Round trip: a lookup at the coordinate a placement just wrote reads
/// under exactly the key the writer wrote under, and the records it then
/// finds — the cell's pixel value and the player row — carry the request's
/// address, coordinate and color and the placement's timestamp.
pub proof fn lemma_update_read_round_trip(
    req: UpdatePixel,
    dim_mid: u32,
    now: i64,
    plan: UpdatePlan,
    key: CellKey,
)
    requires
        plan_matches(req, dim_mid, now, plan),
        key.canvas_part == spec_route(req.loc.x, req.loc.y, dim_mid),
        key.x == req.loc.x as i32,
        key.y == req.loc.y as i32,
    ensures
        key.canvas_part == plan.cell.canvas_part,
        key.x == plan.cell.x,
        key.y == plan.cell.y,
        plan.cell.data.address@ == req.address.unwrap()@,
        plan.cell.data.color == req.color as i32,
        plan.cell.data.last_placed == now,
        plan.player.address@ == req.address.unwrap()@,
        plan.player.x == req.loc.x as i32,
        plan.player.y == req.loc.y as i32,
        plan.player.color == req.color as i32,
        plan.player.last_placed == now,
{
}

} // verus!
