//! The combat resolver: whether one fighter's swing lands on the other, and
//! what a hit does to both.

use vstd::prelude::*;
use crate::arena::FastArena;
use crate::fighter::Fighter;
use crate::fixed::{magnitude, product, quotient, saturate, saturated, UNIT};
use crate::params::{
    ARMOR_PERCENT, ATTACK_COOLDOWN_TICKS, ATTACK_RANGE, BASE_DAMAGE, CRIT_PERCENT,
    FACING_HALF_ANGLE, KNOCKBACK_HORIZONTAL, KNOCKBACK_VERTICAL,
};
use crate::trig::{bearing, bearing_deg, cos_deg, cosine, sin_deg, sine, FULL_TURN, HALF_TURN};

verus! {

/// Whether the attacker may swing at all: no cooldown running, not eating.
pub open spec fn ready_to_swing(att: Fighter) -> bool {
    att.attack_cooldown == 0 && !att.eating
}

/// The square of the distance between the two fighters, in three dimensions.
pub open spec fn gap_squared(att: Fighter, def: Fighter) -> int {
    (def.x - att.x) * (def.x - att.x) + (def.y - att.y) * (def.y - att.y) + (def.z - att.z) * (def.z
        - att.z)
}

/// Whether the defender is within the attack range of the attacker.
pub open spec fn in_reach(att: Fighter, def: Fighter) -> bool {
    gap_squared(att, def) <= ATTACK_RANGE * ATTACK_RANGE
}

/// The heading along which the attacker would look straight at the defender,
/// from their horizontal displacement.
pub open spec fn bearing_to(att: Fighter, def: Fighter) -> int {
    bearing(-(def.x - att.x), def.z - att.z)
}

/// The angle between the attacker's heading and the bearing to the defender,
/// folded at the half turn.
pub open spec fn aim_error(att: Fighter, def: Fighter) -> int {
    let off = magnitude(att.yaw - bearing_to(att, def));
    if off > HALF_TURN {
        FULL_TURN - off
    } else {
        off
    }
}

/// Whether the defender is inside the attacker's facing cone.
pub open spec fn faces(att: Fighter, def: Fighter) -> bool {
    aim_error(att, def) <= FACING_HALF_ANGLE
}

/// Whether a swing of the attacker at the defender is a hit.
pub open spec fn connects(att: Fighter, def: Fighter) -> bool {
    ready_to_swing(att) && in_reach(att, def) && faces(att, def)
}

/// Whether the attacker's hit is critical: sprinting and off the ground.
pub open spec fn is_critical(att: Fighter) -> bool {
    att.sprinting && !att.on_ground
}

/// The damage of the attacker's hit after the defender's armour.
pub open spec fn blow(att: Fighter) -> int {
    let raw = if is_critical(att) {
        quotient(BASE_DAMAGE * CRIT_PERCENT, 100)
    } else {
        BASE_DAMAGE as int
    };
    quotient(raw * (100 - ARMOR_PERCENT), 100)
}

/// A count one higher, unless it is full.
pub open spec fn bumped(n: u32) -> u32 {
    if n < u32::MAX {
        (n + 1) as u32
    } else {
        n
    }
}

/// The x component of the velocity that a hit gives the defender.
pub open spec fn knock_x(att: Fighter) -> int {
    quotient(-sine(att.yaw as int) * KNOCKBACK_HORIZONTAL, UNIT as int)
}

/// The z component of the velocity that a hit gives the defender.
pub open spec fn knock_z(att: Fighter) -> int {
    quotient(cosine(att.yaw as int) * KNOCKBACK_HORIZONTAL, UNIT as int)
}

/// The attacker after a hit: the damage is on record, the cooldown starts
/// anew, and the sprint is over.
pub open spec fn striker(att: Fighter) -> Fighter {
    Fighter {
        damage_dealt: saturated(att.damage_dealt + blow(att)) as i64,
        hits_landed: bumped(att.hits_landed),
        attack_cooldown: ATTACK_COOLDOWN_TICKS,
        sprinting: false,
        ..att
    }
}

/// The defender after a hit: health is lower by the damage (and may be
/// negative), the hit is on record, the knockback pushes along the attacker's
/// heading and upward, the defender is off the ground, and a meal in progress
/// is lost: nothing was eaten and the countdown is zero.
pub open spec fn victim(att: Fighter, def: Fighter) -> Fighter {
    Fighter {
        health: saturated(def.health - blow(att)) as i64,
        damage_taken: saturated(def.damage_taken + blow(att)) as i64,
        hits_taken: bumped(def.hits_taken),
        vx: saturated(def.vx + knock_x(att)) as i64,
        vy: saturated(def.vy + KNOCKBACK_VERTICAL) as i64,
        vz: saturated(def.vz + knock_z(att)) as i64,
        on_ground: false,
        eating: false,
        eating_ticks: 0,
        ..def
    }
}

impl FastArena {
    /// The attacker of a swing by index: the first fighter for index zero,
    /// the second for any other.
    pub open spec fn attacker(self, attacker_idx: usize) -> Fighter {
        if attacker_idx == 0 {
            self.fighter1
        } else {
            self.fighter2
        }
    }

    /// The defender of a swing by index.
    pub open spec fn defender(self, attacker_idx: usize) -> Fighter {
        if attacker_idx == 0 {
            self.fighter2
        } else {
            self.fighter1
        }
    }

    /// The arena after the swing of the fighter with the given index.
    pub open spec fn after_attack(self, attacker_idx: usize) -> FastArena {
        let att = self.attacker(attacker_idx);
        let def = self.defender(attacker_idx);
        if !connects(att, def) {
            self
        } else if attacker_idx == 0 {
            FastArena { fighter1: striker(att), fighter2: victim(att, def), ..self }
        } else {
            FastArena { fighter1: victim(att, def), fighter2: striker(att), ..self }
        }
    }
}

/// A squared distance beyond the range on one axis is beyond it in space.
proof fn lemma_far_on_one_axis(dx: int, dy: int, dz: int, r: int)
    requires
        0 <= r,
        magnitude(dx) > r || magnitude(dy) > r || magnitude(dz) > r,
    ensures
        dx * dx + dy * dy + dz * dz > r * r,
{
    assert(dx * dx >= 0 && dy * dy >= 0 && dz * dz >= 0) by (nonlinear_arith);
    assert(magnitude(dx) > r ==> dx * dx > r * r) by (nonlinear_arith)
        requires
            0 <= r,
    ;
    assert(magnitude(dy) > r ==> dy * dy > r * r) by (nonlinear_arith)
        requires
            0 <= r,
    ;
    assert(magnitude(dz) > r ==> dz * dz > r * r) by (nonlinear_arith)
        requires
            0 <= r,
    ;
}

/// Whether the defender is within the attack range of the attacker.
fn within_reach(att: &Fighter, def: &Fighter) -> (near: bool)
    ensures
        near == in_reach(*att, *def),
{
    let dx: i128 = def.x as i128 - att.x as i128;
    let dy: i128 = def.y as i128 - att.y as i128;
    let dz: i128 = def.z as i128 - att.z as i128;
    let r: i128 = ATTACK_RANGE as i128;
    if dx > r || dx < -r || dy > r || dy < -r || dz > r || dz < -r {
        proof {
            lemma_far_on_one_axis(dx as int, dy as int, dz as int, r as int);
        }
        false
    } else {
        let ex: i64 = dx as i64;
        let ey: i64 = dy as i64;
        let ez: i64 = dz as i64;
        assert(0 <= ex * ex <= 9_000_000_000_000 && 0 <= ey * ey <= 9_000_000_000_000 && 0 <= ez
            * ez <= 9_000_000_000_000) by (nonlinear_arith)
            requires
                -3_000_000 <= ex <= 3_000_000,
                -3_000_000 <= ey <= 3_000_000,
                -3_000_000 <= ez <= 3_000_000,
        ;
        let sum: i128 = product(ex, ex) + product(ey, ey) + product(ez, ez);
        sum <= product(ATTACK_RANGE, ATTACK_RANGE)
    }
}

/// Whether the defender is inside the attacker's facing cone.
fn within_cone(att: &Fighter, def: &Fighter) -> (facing: bool)
    ensures
        facing == faces(*att, *def),
{
    let dx: i128 = def.x as i128 - att.x as i128;
    let dz: i128 = def.z as i128 - att.z as i128;
    let to_target: i64 = bearing_deg(-dx, dz);
    let diff: i128 = att.yaw as i128 - to_target as i128;
    let mut off: i128 = if diff < 0 {
        -diff
    } else {
        diff
    };
    if off > HALF_TURN as i128 {
        off = FULL_TURN as i128 - off;
    }
    off <= FACING_HALF_ANGLE as i128
}

/// The damage of the attacker's hit after the defender's armour.
fn damage_of(att: &Fighter) -> (d: i64)
    ensures
        d == blow(*att),
        0 <= d <= 2 * UNIT,
{
    let mut raw: i64 = BASE_DAMAGE;
    if att.sprinting && !att.on_ground {
        raw = (raw * CRIT_PERCENT) / 100;
    }
    (raw * (100 - ARMOR_PERCENT)) / 100
}

/// A count one higher, unless it is full.
fn bump(n: u32) -> (r: u32)
    ensures
        r == bumped(n),
{
    if n < u32::MAX {
        n + 1
    } else {
        n
    }
}

/// One component of the knockback, from the matching component of the
/// attacker's heading.
fn knock(part: i64) -> (r: i64)
    requires
        -UNIT <= part <= UNIT,
    ensures
        r == quotient(part * KNOCKBACK_HORIZONTAL, UNIT as int),
{
    (product(part, KNOCKBACK_HORIZONTAL) / UNIT as i128) as i64
}

/// Resolves one swing of `attacker` at `defender`.
///
/// The swing lands when the attacker is ready, the defender is within range
/// and inside the facing cone. A miss changes neither fighter.
pub fn resolve_attack(attacker: &mut Fighter, defender: &mut Fighter) -> (hit: bool)
    ensures
        hit == connects(*old(attacker), *old(defender)),
        hit ==> *final(attacker) == striker(*old(attacker)),
        hit ==> *final(defender) == victim(*old(attacker), *old(defender)),
        !hit ==> *final(attacker) == *old(attacker) && *final(defender) == *old(defender),
{
    if attacker.attack_cooldown > 0 || attacker.eating {
        return false;
    }
    if !within_reach(attacker, defender) {
        return false;
    }
    if !within_cone(attacker, defender) {
        return false;
    }
    let damage: i64 = damage_of(attacker);
    let push_x: i64 = knock(-sin_deg(attacker.yaw));
    let push_z: i64 = knock(cos_deg(attacker.yaw));

    defender.health = saturate(defender.health as i128 - damage as i128);
    defender.damage_taken = saturate(defender.damage_taken as i128 + damage as i128);
    defender.hits_taken = bump(defender.hits_taken);
    defender.vx = saturate(defender.vx as i128 + push_x as i128);
    defender.vy = saturate(defender.vy as i128 + KNOCKBACK_VERTICAL as i128);
    defender.vz = saturate(defender.vz as i128 + push_z as i128);
    defender.on_ground = false;
    defender.eating = false;
    defender.eating_ticks = 0;

    attacker.damage_dealt = saturate(attacker.damage_dealt as i128 + damage as i128);
    attacker.hits_landed = bump(attacker.hits_landed);
    attacker.attack_cooldown = ATTACK_COOLDOWN_TICKS;
    attacker.sprinting = false;
    true
}

impl FastArena {
    /// Resolves the swing of the fighter with index `attacker_idx` (zero for
    /// the first fighter, anything else for the second) at the other one.
    pub fn try_attack(&mut self, attacker_idx: usize) -> (hit: bool)
        ensures
            hit == connects(old(self).attacker(attacker_idx), old(self).defender(attacker_idx)),
            *final(self) == old(self).after_attack(attacker_idx),
    {
        let mut first: Fighter = self.fighter1;
        let mut second: Fighter = self.fighter2;
        let hit: bool = if attacker_idx == 0 {
            resolve_attack(&mut first, &mut second)
        } else {
            resolve_attack(&mut second, &mut first)
        };
        self.fighter1 = first;
        self.fighter2 = second;
        hit
    }
}

} // verus!
