//! The update path: turning a placement request into the two writes that a
//! placement makes, one to the `player` table and one to the `canvas` table.
//!
//! The plan is computed and validated here; issuing the two writes
//! concurrently against the database is the surrounding application's job.
//! Both writes come out of one plan, so they always carry the same address,
//! color, coordinate and timestamp — the cross-table invariant the caller's
//! cooldown logic depends on.

use vstd::prelude::*;

use crate::routing::route;
use crate::routing::spec_route;
use crate::types::PixelData;
use crate::types::UpdatePixel;
use crate::types::UserDetails;
use crate::types::VpError;

verus! {

/// The largest coordinate value the storage columns can represent: the
/// tables store coordinates as signed 32-bit integers, and the canvas only
/// uses the non-negative half.
pub const COORD_MAX: u32 = 0x7fff_ffff;

/// The write to the `canvas` table: the routed partition index, the cell's
/// coordinate, and the embedded pixel value.
#[derive(Debug)]
pub struct CellWrite {
    pub canvas_part: usize,
    pub x: i32,
    pub y: i32,
    pub data: PixelData,
}

/// Both writes of one placement. `player` is the full row upserted into the
/// `player` table, in exactly the shape a later `get_user` decodes.
#[derive(Debug)]
pub struct UpdatePlan {
    pub player: UserDetails,
    pub cell: CellWrite,
}

/// Both coordinates of the request fit the signed 32-bit storage columns.
pub open spec fn coords_in_range(req: UpdatePixel) -> bool {
    req.loc.x <= COORD_MAX && req.loc.y <= COORD_MAX
}

/// The request can be stored: coordinates representable and an address
/// present.
pub open spec fn valid_update(req: UpdatePixel) -> bool {
    coords_in_range(req) && req.address is Some
}

/// `plan` is exactly the pair of writes that storing `req` at time `now` on
/// a canvas with midpoint `dim_mid` makes: both writes carry the request's
/// address, coordinate and color and the shared timestamp, and the cell
/// write goes to the partition that routing assigns the coordinate.
pub open spec fn plan_matches(req: UpdatePixel, dim_mid: u32, now: i64, plan: UpdatePlan) -> bool {
    &&& req.address matches Some(a)
    &&& plan.player.address@ == a@
    &&& plan.cell.data.address@ == a@
    &&& plan.player.x == req.loc.x as i32
    &&& plan.player.y == req.loc.y as i32
    &&& plan.cell.x == req.loc.x as i32
    &&& plan.cell.y == req.loc.y as i32
    &&& plan.player.color == req.color as i32
    &&& plan.cell.data.color == req.color as i32
    &&& plan.player.last_placed == now
    &&& plan.cell.data.last_placed == now
    &&& plan.cell.canvas_part == spec_route(req.loc.x, req.loc.y, dim_mid)
}

/// Validates a placement request and lays out its two writes, with `now` as
/// the shared placement time. A coordinate beyond the storage range is a
/// range error (checked first, as the conversion is the first thing the
/// update path does); a missing address is an invalid user; nothing is ever
/// truncated or partially planned.
pub fn build_update_plan(req: &UpdatePixel, dim_mid: u32, now: i64) -> (r: Result<
    UpdatePlan,
    VpError,
>)
    ensures
        r is Ok <==> valid_update(*req),
        !coords_in_range(*req) ==> r == Err::<UpdatePlan, VpError>(VpError::RangeError),
        coords_in_range(*req) && req.address is None ==> r == Err::<UpdatePlan, VpError>(
            VpError::InvalidUser,
        ),
        r matches Ok(plan) ==> plan_matches(*req, dim_mid, now, plan),
{
    if req.loc.x > COORD_MAX || req.loc.y > COORD_MAX {
        return Err(VpError::RangeError);
    }
    let address = match &req.address {
        Some(a) => a.clone(),
        None => {
            return Err(VpError::InvalidUser);
        },
    };
    let ix = req.loc.x as i32;
    let iy = req.loc.y as i32;
    let color = req.color as i32;
    let canvas_part = route(req.loc.x, req.loc.y, dim_mid);
    let data = PixelData { address: address.clone(), color, last_placed: now };
    Ok(
        UpdatePlan {
            player: UserDetails { address, x: ix, y: iy, color, last_placed: now },
            cell: CellWrite { canvas_part, x: ix, y: iy, data },
        },
    )
}

/// Relies on chrono's `Utc::now` and `DateTime::timestamp`: the current
/// wall-clock time as whole seconds since the Unix epoch. The value depends
/// on the system clock, so nothing is assumed about it.
#[verifier::external_body]
fn current_timestamp() -> i64 {
    chrono::Utc::now().timestamp()
}

/// Validates a placement request and lays out its two writes, stamped with
/// the current time, read once so that the player record and the cell
/// record agree on the placement time whatever the clock returned.
pub fn plan_update(req: &UpdatePixel, dim_mid: u32) -> (r: Result<UpdatePlan, VpError>)
    ensures
        r is Ok <==> valid_update(*req),
        !coords_in_range(*req) ==> r == Err::<UpdatePlan, VpError>(VpError::RangeError),
        coords_in_range(*req) && req.address is None ==> r == Err::<UpdatePlan, VpError>(
            VpError::InvalidUser,
        ),
        r matches Ok(plan) ==> plan_matches(*req, dim_mid, plan.player.last_placed, plan),
{
    let now = current_timestamp();
    build_update_plan(req, dim_mid, now)
}

/// A placement's two writes agree: the player record and the cell record of
/// one plan carry the same address, color, coordinate and timestamp. In
/// particular, whichever of two racing placements the database retains
/// last, that winner's cell value and player row name the same address.
pub proof fn lemma_player_cell_agree(req: UpdatePixel, dim_mid: u32, now: i64, plan: UpdatePlan)
    requires
        plan_matches(req, dim_mid, now, plan),
    ensures
        plan.player.address@ == plan.cell.data.address@,
        plan.player.color == plan.cell.data.color,
        plan.player.last_placed == plan.cell.data.last_placed,
        plan.player.x == plan.cell.x,
        plan.player.y == plan.cell.y,
{
}

/// Repeating a placement overwrites rather than duplicates: two plans built
/// from the same request write under the same player key (the address) and
/// the same cell key (partition, x, y), so the database keeps one row each,
/// and the row the second write leaves carries the second timestamp.
pub proof fn lemma_repeat_update_same_keys(
    req: UpdatePixel,
    dim_mid: u32,
    now1: i64,
    now2: i64,
    plan1: UpdatePlan,
    plan2: UpdatePlan,
)
    requires
        plan_matches(req, dim_mid, now1, plan1),
        plan_matches(req, dim_mid, now2, plan2),
    ensures
        plan1.player.address@ == plan2.player.address@,
        plan1.cell.canvas_part == plan2.cell.canvas_part,
        plan1.cell.x == plan2.cell.x,
        plan1.cell.y == plan2.cell.y,
        plan2.player.last_placed == now2,
        plan2.cell.data.last_placed == now2,
{
}

} // verus!
