//! Vanilla-local MVP storage-id semantics.
//!
//! These are gameplay/storage details for vanilla behavior and are not SDK contracts.

use vstd::prelude::*;

verus! {

/// Empty space in vanilla MVP storage.
pub const AIR_U8: u8 = 0;

/// MVP placeable block in vanilla behavior.
pub const STONE_U8: u8 = 1;

/// Every storage id other than air is solid.
pub fn is_solid(id: u8) -> (solid: bool)
    ensures
        solid == (id != AIR_U8),
{
    id != AIR_U8
}

/// Placement allow-list for vanilla MVP ruleset: only stone may be placed.
pub fn is_place_allowed_v0(id: u8) -> (allowed: bool)
    ensures
        allowed == (id == STONE_U8),
{
    id == STONE_U8
}

} // verus!
