//! The scale of lengths and times, and the arena the player moves in.

use vstd::prelude::*;

verus! {

/// Steps in one world unit.
pub const UNIT: i64 = 1000;

/// The player's x stays strictly right of this.
pub const ARENA_LEFT: i64 = -300 * UNIT;

/// The player's x stays strictly left of this.
pub const ARENA_RIGHT: i64 = 300 * UNIT;

/// The player's y stays strictly above this.
pub const ARENA_BOTTOM: i64 = -350 * UNIT;

/// The player's y stays strictly below this.
pub const ARENA_TOP: i64 = 425 * UNIT;

/// Nanoseconds between two animation frames: a tenth of a second.
pub const FRAME_INTERVAL: u64 = 100_000_000;

/// First cell of the idle cycle.
pub const IDLE_FIRST: u32 = 8;

/// One past the last cell of the idle cycle.
pub const IDLE_END: u32 = 12;

/// First cell of the moving cycle.
pub const MOVING_FIRST: u32 = 17;

/// One past the last cell of the moving cycle.
pub const MOVING_END: u32 = 25;

/// Whether `(x, y)` lies inside the arena, borders excluded.
pub open spec fn in_arena(x: int, y: int) -> bool {
    ARENA_LEFT < x < ARENA_RIGHT && ARENA_BOTTOM < y < ARENA_TOP
}

} // verus!
