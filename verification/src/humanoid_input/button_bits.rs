//! Button bit assignments of the humanoid input payload.

use vstd::prelude::*;

verus! {

/// Jump button bit.
pub const JUMP: u16 = 1;

/// Sprint button bit.
pub const SPRINT: u16 = 2;

/// Crouch button bit.
pub const CROUCH: u16 = 4;

} // verus!
