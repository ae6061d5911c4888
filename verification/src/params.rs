//! The simulation parameters: every physical, combat and reward constant,
//! named so that each can be tuned on its own.
//!
//! Real quantities are fixed-point values in millionths (see `fixed::UNIT`);
//! ratios are whole percentages.

use vstd::prelude::*;
use crate::fixed::UNIT;
use crate::trig::QUARTER_TURN;

verus! {

// Combat.

/// How far apart two fighters may be for a swing to land, in blocks.
pub const ATTACK_RANGE: i64 = 3 * UNIT;

/// The widest angle between the attacker's heading and the bearing to the
/// defender at which a swing still lands, in degrees.
pub const FACING_HALF_ANGLE: i64 = 60 * UNIT;

/// Ticks an attacker waits after a hit before the next swing.
pub const ATTACK_COOLDOWN_TICKS: u32 = 10;

/// Damage of an unarmoured, uncritical hit.
pub const BASE_DAMAGE: i64 = 6 * UNIT;

/// Damage of a critical hit, as a percentage of the base damage.
pub const CRIT_PERCENT: i64 = 150;

/// The share of a hit that the defender's armour absorbs, in percent.
pub const ARMOR_PERCENT: i64 = 80;

/// Horizontal speed that a hit gives the defender, along the attacker's heading.
pub const KNOCKBACK_HORIZONTAL: i64 = 400_000;

/// Upward speed that a hit gives the defender.
pub const KNOCKBACK_VERTICAL: i64 = 360_000;

// Vital signs and food.

/// Full health.
pub const MAX_HEALTH: i64 = 20 * UNIT;

/// A full stomach.
pub const MAX_FOOD: i64 = 20 * UNIT;

/// The food level from which health regenerates by itself.
pub const FOOD_HEAL_THRESHOLD: i64 = 18 * UNIT;

/// Health regained in one tick of regeneration.
pub const REGEN_HEALTH: i64 = 50_000;

/// Food spent on one tick of regeneration.
pub const REGEN_FOOD_COST: i64 = 100_000;

/// Food restored by one consumable unit.
pub const FOOD_PER_STEAK: i64 = 8 * UNIT;

/// Ticks it takes to eat one consumable unit.
pub const EAT_TICKS: u32 = 32;

/// Consumable units a fighter starts with.
pub const INITIAL_STEAKS: u32 = 64;

/// Sprinting needs more food than this.
pub const SPRINT_FOOD_THRESHOLD: i64 = 6 * UNIT;

// Movement.

/// Speed gained per tick of walking, in blocks per tick.
pub const WALK_SPEED: i64 = 100_000;

/// Speed gained per tick of sprinting, in blocks per tick.
pub const SPRINT_SPEED: i64 = 130_000;

/// Upward speed of a jump.
pub const JUMP_VELOCITY: i64 = 420_000;

/// Downward speed gained per airborne tick.
pub const GRAVITY: i64 = 80_000;

/// The share of the horizontal speed that survives a tick, in percent.
pub const DRAG_PERCENT: i64 = 98;

/// Ticks between two jumps.
pub const JUMP_COOLDOWN_TICKS: u32 = 10;

/// The steepest pitch, up or down, in degrees.
pub const MAX_PITCH: i64 = QUARTER_TURN;

// Match.

/// Edge length of the arena unless the caller gives one, in blocks.
pub const DEFAULT_ARENA_SIZE: i64 = 32 * UNIT;

/// Tick budget of a match unless the caller gives one.
pub const DEFAULT_MAX_TICKS: u32 = 2400;

/// `winner` while no one has won.
pub const WINNER_NONE: i32 = 0;

/// `winner` when the first fighter has won.
pub const WINNER_FIGHTER1: i32 = 1;

/// `winner` when the second fighter has won.
pub const WINNER_FIGHTER2: i32 = 2;

/// `winner` when the tick budget ran out on equal health.
pub const WINNER_DRAW: i32 = -1;

// Rewards.

/// Reward per point of damage dealt, in percent.
pub const DAMAGE_DEALT_PERCENT: i64 = 50;

/// Penalty per point of damage taken, in percent.
pub const DAMAGE_TAKEN_PERCENT: i64 = 30;

/// Bonus for landing a hit.
pub const HIT_BONUS: i64 = 200_000;

/// Penalty for swinging without landing a hit.
pub const WHIFF_PENALTY: i64 = 50_000;

/// Penalty for asking to jump while the jump cooldown runs.
pub const JUMP_SPAM_PENALTY: i64 = 30_000;

/// Reward per point of health regained, in percent.
pub const HEAL_PERCENT: i64 = 30;

/// Bonus for each tick spent going on with a meal.
pub const EATING_TICK_BONUS: i64 = 20_000;

/// Bonus for finishing a meal.
pub const MEAL_BONUS: i64 = 500_000;

/// Penalty for a meal cut short by a hit.
pub const MEAL_INTERRUPTED_PENALTY: i64 = 300_000;

/// Below this planar distance both fighters are rewarded for closeness, in blocks.
pub const PROXIMITY_RADIUS: i64 = 10 * UNIT;

/// Reward per block of closeness inside the radius, in percent.
pub const PROXIMITY_PERCENT: i64 = 1;

/// Penalty that every tick costs.
pub const TIME_PENALTY: i64 = 1_000;

/// What a kill adds to the winner's reward and takes from the loser's.
pub const KILL_REWARD: i64 = 10 * UNIT;

/// The most that a quick kill adds to the winner's reward.
pub const SPEED_BONUS: i64 = 5 * UNIT;

/// What a win on health at the end of the budget adds and takes.
pub const TIMEOUT_REWARD: i64 = 2 * UNIT;

/// What a draw takes from both rewards.
pub const DRAW_PENALTY: i64 = 3 * UNIT;

// Observation.

/// Number of entries of an observation.
pub const OBS_LEN: usize = 31;

/// Positions and planar offsets are divided by this many blocks.
pub const POSITION_SCALE: i64 = 32;

/// The vertical offset is divided by this many blocks.
pub const HEIGHT_SCALE: i64 = 16;

/// Cumulative damage is divided by this many points.
pub const DAMAGE_SCALE: i64 = 40;

/// Hit counts are divided by this many hits.
pub const HITS_SCALE: i64 = 20;

/// The stock of consumables is divided by this many units.
pub const STEAKS_SCALE: i64 = 64;

/// Degrees of a half turn, by which headings are divided.
pub const YAW_SCALE: i64 = 180;

/// Degrees of a quarter turn, by which the pitch is divided.
pub const PITCH_SCALE: i64 = 90;

} // verus!
