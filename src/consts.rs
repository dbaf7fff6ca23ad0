use vstd::prelude::*;

verus! {

/// Width of the screen in world units.
pub const SCREEN_WIDTH: i64 = 448;

/// Height of the screen in world units.
pub const SCREEN_HEIGHT: i64 = 512;

/// Height of the band above the play field that holds the score readout.
pub const TOP_MENU_HEIGHT: i64 = 50;

/// Height of the band below the play field that holds the lives readout.
pub const BOTTOM_MENU_HEIGHT: i64 = 30;

/// Side of a sprite cell.
pub const SPRITE_SIZE: i64 = 32;

/// Upper edge of the play field: half the screen height above the centre,
/// less the top band.
pub const TOP_WALL: i64 = 206;

/// Right edge of the play field: half the screen width right of the centre.
pub const RIGHT_WALL: i64 = 224;

/// Lower edge of the play field: half the screen height below the centre,
/// plus the bottom band.
pub const BOTTOM_WALL: i64 = -226;

/// Left edge of the play field: half the screen width left of the centre.
pub const LEFT_WALL: i64 = -224;

/// Units the cannon moves per controller event.
pub const CANNON_SPEED: i64 = 3;

/// Units the laser beam rises per frame.
pub const LASER_SPEED: i64 = 8;

/// Units a bomb falls per frame.
pub const BOMB_SPEED: i64 = 1;

/// Units the UFO travels per frame.
pub const UFO_SPEED: i64 = 1;

/// Chance, in percent, that a front-rank invader drops a bomb on a fixed tick.
pub const BOMB_DROP_THRESHOLD: u32 = 10;

/// Number of formation rows.
pub const FORMATION_ROWS: u8 = 5;

/// Number of formation columns.
pub const FORMATION_COLUMNS: u8 = 11;

/// Period of the UFO spawn timer, in milliseconds.
pub const UFO_SPAWN_PERIOD_MS: u64 = 10_000;

/// Lives a player starts a session with.
pub const START_LIVES: i8 = 3;

/// Largest bounty any target can carry.
pub const MAX_BOUNTY: i32 = 300;

} // verus!

verus! {

/// Height at which the cannon sits: one sprite above the lower edge.
pub const CANNON_Y: i64 = -194;

/// Leftmost centre the cannon may take: half a sprite inside the left edge.
pub const CANNON_MIN_X: i64 = -208;

/// Rightmost centre the cannon may take: half a sprite inside the right edge.
pub const CANNON_MAX_X: i64 = 208;

/// Height at which a UFO flies: half a sprite below the upper edge.
pub const UFO_Y: i64 = 190;

/// Largest distance from the origin that any coordinate of the world may
/// reach; it keeps every step of the simulation clear of `i64` overflow.
pub const COORD_LIMIT: i64 = 1_099_511_627_776;

/// The difficulty a session starts with.
pub const DEFAULT_DIFFICULTY: i32 = 100;

/// The difficulty never drops below this.
pub const MIN_DIFFICULTY: i32 = 10;

/// How much each completed level hardens the difficulty a level starts with.
pub const LEVEL_DIFFICULTY_STEP: i32 = 10;

/// Milliseconds of fixed-step period per unit of difficulty.
pub const MS_PER_DIFFICULTY: u64 = 10;

/// Number of invaders in a full formation.
pub const FORMATION_SIZE: usize = 55;

} // verus!
