use vstd::prelude::*;

pub mod obstacle;
pub mod player;
pub mod rng;
pub mod state;

verus! {

/// Width of the visible playfield, in columns.
pub const SCREEN_WIDTH: i64 = 40;

/// Height of the visible playfield, in rows.
pub const SCREEN_HEIGHT: i64 = 25;

/// Vertical positions and velocities are kept in tenths of a row.
pub const SCALE: i64 = 10;

/// Gravity adds this much velocity (tenths of a row per step) each physics step.
pub const GRAVITY: i64 = 1;

/// Velocity never grows past this terminal value (two rows per step).
pub const TERMINAL_VELOCITY: i64 = 20;

/// A flap subtracts this impulse (one row per step) from the velocity.
pub const FLAP_IMPULSE: i64 = 10;

/// Accumulated elapsed time (tenths of a millisecond) that must be exceeded
/// before one physics step fires.
pub const FRAME_DURATION: u64 = 750;

/// Number of sprite animation frames the player cycles through.
pub const FRAME_COUNT: usize = 6;

/// The gap never shrinks below this many rows.
pub const MIN_GAP_SIZE: i64 = 2;

/// Gap size at score zero.
pub const BASE_GAP_SIZE: i64 = 10;

/// Lowest row the gap center may take (inclusive).
pub const GAP_CENTER_MIN: i64 = 5;

/// Upper bound on the row of the gap center (exclusive).
pub const GAP_CENTER_MAX: i64 = 20;

/// Column the player starts in.
pub const PLAYER_START_X: i64 = 5;

/// Row the player starts at when a session is first created.
pub const PLAYER_START_Y: i64 = 25;

/// The player's column stays below this bound, so that an obstacle placed one
/// screen ahead always fits in an `i64`.
pub const MAX_PLAYER_X: i64 = i64::MAX - SCREEN_WIDTH;

} // verus!
