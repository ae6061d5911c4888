//! One fighter's state, and the intent that drives it for one tick.

use vstd::prelude::*;
use crate::fixed::{product, quotient, UNIT};
use crate::params::{ATTACK_COOLDOWN_TICKS, INITIAL_STEAKS, MAX_FOOD, MAX_HEALTH};

verus! {

/// The complete physical, combat and resource state of one fighter.
#[derive(Clone, Copy, Debug, PartialEq, Eq)]
pub struct Fighter {
    /// Position, in blocks.
    pub x: i64,
    pub y: i64,
    pub z: i64,
    /// Velocity, in blocks per tick.
    pub vx: i64,
    pub vy: i64,
    pub vz: i64,
    /// Heading, in degrees: 0 looks along +z, 90 along -x, -90 along +x.
    pub yaw: i64,
    /// Elevation of the view, in degrees.
    pub pitch: i64,
    pub health: i64,
    pub food: i64,
    /// Consumable units left.
    pub steaks: u32,
    /// Ticks until the next swing may land.
    pub attack_cooldown: u32,
    /// Ticks until the meal in progress is finished.
    pub eating_ticks: u32,
    /// Ticks until the next jump.
    pub jump_cooldown: u32,
    pub on_ground: bool,
    pub sprinting: bool,
    pub eating: bool,
    /// Totals over the match.
    pub damage_dealt: i64,
    pub damage_taken: i64,
    pub hits_landed: u32,
    pub hits_taken: u32,
}

/// What one fighter wants to do in one tick.
#[derive(Clone, Copy, Debug, PartialEq, Eq)]
pub struct FighterAction {
    pub forward: bool,
    pub backward: bool,
    pub left: bool,
    pub right: bool,
    pub jump: bool,
    pub sprint: bool,
    pub attack: bool,
    pub eat: bool,
    /// Change of heading, in degrees.
    pub delta_yaw: i64,
    /// Change of pitch, in degrees.
    pub delta_pitch: i64,
}

impl Fighter {
    /// A fighter at rest at the origin: full health and food, a full stock
    /// of consumables, nothing in progress, no history.
    pub open spec fn fresh() -> Fighter {
        Fighter {
            x: 0,
            y: 0,
            z: 0,
            vx: 0,
            vy: 0,
            vz: 0,
            yaw: 0,
            pitch: 0,
            health: MAX_HEALTH,
            food: MAX_FOOD,
            steaks: INITIAL_STEAKS,
            attack_cooldown: 0,
            eating_ticks: 0,
            jump_cooldown: 0,
            on_ground: true,
            sprinting: false,
            eating: false,
            damage_dealt: 0,
            damage_taken: 0,
            hits_landed: 0,
            hits_taken: 0,
        }
    }

    /// A fresh fighter placed at `x` on the floor and looking along `yaw`.
    pub open spec fn spawned(x: int, yaw: int) -> Fighter {
        Fighter { x: x as i64, yaw: yaw as i64, ..Fighter::fresh() }
    }

    /// Health and food are within their ranges.
    pub open spec fn vitals_in_range(self) -> bool {
        0 <= self.health <= MAX_HEALTH && 0 <= self.food <= MAX_FOOD
    }

    /// How far the attack cooldown has run: one when ready, zero right after
    /// a hit, `1 - cooldown / ATTACK_COOLDOWN_TICKS` in between.
    pub open spec fn readiness(self) -> int {
        if self.attack_cooldown == 0 {
            UNIT as int
        } else {
            UNIT - quotient(self.attack_cooldown * UNIT, ATTACK_COOLDOWN_TICKS as int)
        }
    }

    /// A fighter at rest at the origin.
    pub fn new() -> (f: Fighter)
        ensures
            f == Fighter::fresh(),
    {
        Fighter {
            x: 0,
            y: 0,
            z: 0,
            vx: 0,
            vy: 0,
            vz: 0,
            yaw: 0,
            pitch: 0,
            health: MAX_HEALTH,
            food: MAX_FOOD,
            steaks: INITIAL_STEAKS,
            attack_cooldown: 0,
            eating_ticks: 0,
            jump_cooldown: 0,
            on_ground: true,
            sprinting: false,
            eating: false,
            damage_dealt: 0,
            damage_taken: 0,
            hits_landed: 0,
            hits_taken: 0,
        }
    }

    /// The attack cooldown as a fraction: `UNIT` when a swing is ready.
    pub fn cooldown_progress(&self) -> (p: i64)
        ensures
            p == self.readiness(),
    {
        if self.attack_cooldown == 0 {
            UNIT
        } else {
            let used: i128 = product(self.attack_cooldown as i64, UNIT)
                / ATTACK_COOLDOWN_TICKS as i128;
            (UNIT as i128 - used) as i64
        }
    }
}

impl Default for Fighter {
    fn default() -> (f: Fighter)
        ensures
            f == Fighter::fresh(),
    {
        Fighter::new()
    }
}

impl FighterAction {
    /// The action that asks for nothing.
    pub open spec fn idle() -> FighterAction {
        FighterAction {
            forward: false,
            backward: false,
            left: false,
            right: false,
            jump: false,
            sprint: false,
            attack: false,
            eat: false,
            delta_yaw: 0,
            delta_pitch: 0,
        }
    }

    /// The action that asks for nothing.
    pub fn new() -> (a: FighterAction)
        ensures
            a == FighterAction::idle(),
    {
        FighterAction {
            forward: false,
            backward: false,
            left: false,
            right: false,
            jump: false,
            sprint: false,
            attack: false,
            eat: false,
            delta_yaw: 0,
            delta_pitch: 0,
        }
    }
}

impl Default for FighterAction {
    fn default() -> (a: FighterAction)
        ensures
            a == FighterAction::idle(),
    {
        FighterAction::new()
    }
}

} // verus!
