//! The schema and query texts: the statements the schema initializer runs
//! once at startup (all `IF NOT EXISTS`, so startup is idempotent) and the
//! four parameterized queries that are prepared once and reused for every
//! request. Each function pins its text exactly, so the statements the
//! application sends are the ones stated here.

use vstd::prelude::*;

verus! {

/// The keyspace, with its replication strategy and factor.
pub fn create_keyspace_cql() -> (r: &'static str)
    ensures
        r@
            == "CREATE KEYSPACE IF NOT EXISTS opbnbplace WITH REPLICATION = {'class' : 'NetworkTopologyStrategy', 'replication_factor' : 1}"@,
{
    "CREATE KEYSPACE IF NOT EXISTS opbnbplace WITH REPLICATION = {'class' : 'NetworkTopologyStrategy', 'replication_factor' : 1}"
}

/// The `player` table: one row per address, holding the user's last
/// placement for the caller's cooldown checks.
pub fn create_player_table_cql() -> (r: &'static str)
    ensures
        r@
            == "CREATE TABLE IF NOT EXISTS opbnbplace.player (address text,x int,y int,color int,last_placed timestamp,PRIMARY KEY (address))"@,
{
    "CREATE TABLE IF NOT EXISTS opbnbplace.player (address text,x int,y int,color int,last_placed timestamp,PRIMARY KEY (address))"
}

/// The structured `pixel_data` value type embedded in every canvas cell.
pub fn create_pixel_type_cql() -> (r: &'static str)
    ensures
        r@
            == "CREATE TYPE IF NOT EXISTS opbnbplace.pixel_data (address text,color int,last_placed timestamp)"@,
{
    "CREATE TYPE IF NOT EXISTS opbnbplace.pixel_data (address text,color int,last_placed timestamp)"
}

/// The `canvas` table: one row per coordinate, keyed by the partition
/// label and the coordinate, holding one embedded pixel value.
pub fn create_canvas_table_cql() -> (r: &'static str)
    ensures
        r@
            == "CREATE TABLE IF NOT EXISTS opbnbplace.canvas ( canvas_part text,x int ,y int,data frozen<pixel_data>,PRIMARY KEY (canvas_part,x,y))"@,
{
    "CREATE TABLE IF NOT EXISTS opbnbplace.canvas ( canvas_part text,x int ,y int,data frozen<pixel_data>,PRIMARY KEY (canvas_part,x,y))"
}

/// The player upsert of the update path.
pub fn insert_player_cql() -> (r: &'static str)
    ensures
        r@
            == "INSERT INTO opbnbplace.player (address, x, y, color, last_placed) VALUES (?, ?, ?, ?, ?)"@,
{
    "INSERT INTO opbnbplace.player (address, x, y, color, last_placed) VALUES (?, ?, ?, ?, ?)"
}

/// The player lookup of `get_user`: a point query by address.
pub fn select_player_cql() -> (r: &'static str)
    ensures
        r@
            == "SELECT address, x, y, color, last_placed FROM opbnbplace.player WHERE address = ?"@,
{
    "SELECT address, x, y, color, last_placed FROM opbnbplace.player WHERE address = ?"
}

/// The cell upsert of the update path.
pub fn insert_pixel_cql() -> (r: &'static str)
    ensures
        r@ == "INSERT INTO opbnbplace.canvas (canvas_part,x,y,data) VALUES (?, ?, ?, ?)"@,
{
    "INSERT INTO opbnbplace.canvas (canvas_part,x,y,data) VALUES (?, ?, ?, ?)"
}

/// The cell lookup of `get_pixel`: a point query by partition label and
/// coordinate.
pub fn select_pixel_cql() -> (r: &'static str)
    ensures
        r@ == "SELECT data FROM opbnbplace.canvas WHERE canvas_part = ? AND x=? AND y=?"@,
{
    "SELECT data FROM opbnbplace.canvas WHERE canvas_part = ? AND x=? AND y=?"
}

} // verus!
