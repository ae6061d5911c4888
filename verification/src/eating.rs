//! The consumable and regeneration processor: one fighter's meal and
//! passive healing for one tick.

use vstd::prelude::*;
use crate::arena::FastArena;
use crate::fighter::Fighter;
use crate::params::{
    EAT_TICKS, FOOD_HEAL_THRESHOLD, FOOD_PER_STEAK, MAX_FOOD, MAX_HEALTH, REGEN_FOOD_COST,
    REGEN_HEALTH,
};

verus! {

/// The smaller of two numbers.
pub open spec fn lesser(a: int, b: int) -> int {
    if a <= b {
        a
    } else {
        b
    }
}

/// Whether an idle fighter sits down to eat this tick: it wants to, has a
/// consumable unit left, and is not full.
pub open spec fn starts_meal(f: Fighter, wants_eat: bool) -> bool {
    wants_eat && !f.eating && f.steaks > 0 && f.food < MAX_FOOD
}

/// Whether the fighter spends this tick eating.
pub open spec fn at_table(f: Fighter, wants_eat: bool) -> bool {
    f.eating || starts_meal(f, wants_eat)
}

/// The countdown of a fighter at table after this tick's bite; it stops at zero.
pub open spec fn countdown(f: Fighter, wants_eat: bool) -> int {
    let before = if starts_meal(f, wants_eat) {
        EAT_TICKS as int
    } else {
        f.eating_ticks as int
    };
    if before > 0 {
        before - 1
    } else {
        0
    }
}

/// Whether the meal is finished this tick.
pub open spec fn finishes_meal(f: Fighter, wants_eat: bool) -> bool {
    at_table(f, wants_eat) && countdown(f, wants_eat) == 0
}

/// The food level after the meal: a finished meal restores a fixed amount,
/// up to a full stomach.
pub open spec fn fed(f: Fighter, wants_eat: bool) -> int {
    if finishes_meal(f, wants_eat) {
        lesser(f.food + FOOD_PER_STEAK, MAX_FOOD as int)
    } else {
        f.food as int
    }
}

/// Whether health regenerates this tick: the food level after the meal is
/// high enough and health is not full.
pub open spec fn regenerates(f: Fighter, wants_eat: bool) -> bool {
    fed(f, wants_eat) >= FOOD_HEAL_THRESHOLD && f.health < MAX_HEALTH
}

/// One fighter after one tick of eating and regeneration.
///
/// The meal comes first and regeneration is decided on the food level it
/// leaves, so a meal finished this tick can pay for this tick's regeneration:
/// the two effects add up.
pub open spec fn digested(f: Fighter, wants_eat: bool) -> Fighter {
    Fighter {
        eating: at_table(f, wants_eat) && !finishes_meal(f, wants_eat),
        eating_ticks: if at_table(f, wants_eat) {
            countdown(f, wants_eat) as u32
        } else {
            f.eating_ticks
        },
        steaks: if finishes_meal(f, wants_eat) && f.steaks > 0 {
            (f.steaks - 1) as u32
        } else {
            f.steaks
        },
        food: if regenerates(f, wants_eat) {
            (fed(f, wants_eat) - REGEN_FOOD_COST) as i64
        } else {
            fed(f, wants_eat) as i64
        },
        health: if regenerates(f, wants_eat) {
            lesser(f.health + REGEN_HEALTH, MAX_HEALTH as int) as i64
        } else {
            f.health
        },
        ..f
    }
}

/// Whether the fighter spends this tick eating.
pub fn sits_at_table(fighter: &Fighter, wants_eat: bool) -> (b: bool)
    ensures
        b == at_table(*fighter, wants_eat),
{
    fighter.eating || (wants_eat && fighter.steaks > 0 && fighter.food < MAX_FOOD)
}

impl FastArena {
    /// Advances `fighter` by one tick of eating and regeneration; `wants_eat`
    /// is the eat intent of its action. The arena itself is not touched.
    pub fn process_eating(&mut self, fighter: &mut Fighter, wants_eat: bool)
        ensures
            *final(fighter) == digested(*old(fighter), wants_eat),
            *final(self) == *old(self),
    {
        if wants_eat && !fighter.eating && fighter.steaks > 0 && fighter.food < MAX_FOOD {
            fighter.eating = true;
            fighter.eating_ticks = EAT_TICKS;
        }
        if fighter.eating {
            if fighter.eating_ticks > 0 {
                fighter.eating_ticks = fighter.eating_ticks - 1;
            }
            if fighter.eating_ticks == 0 {
                fighter.eating = false;
                if fighter.steaks > 0 {
                    fighter.steaks = fighter.steaks - 1;
                }
                let restored: i128 = fighter.food as i128 + FOOD_PER_STEAK as i128;
                fighter.food = if restored <= MAX_FOOD as i128 {
                    restored as i64
                } else {
                    MAX_FOOD
                };
            }
        }
        if fighter.food >= FOOD_HEAL_THRESHOLD && fighter.health < MAX_HEALTH {
            let healed: i64 = fighter.health + REGEN_HEALTH;
            fighter.health = if healed <= MAX_HEALTH {
                healed
            } else {
                MAX_HEALTH
            };
            fighter.food = fighter.food - REGEN_FOOD_COST;
        }
    }
}

} // verus!
