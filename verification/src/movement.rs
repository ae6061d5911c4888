//! The movement integrator: one fighter's kinematics for one tick.

use vstd::prelude::*;
use crate::arena::FastArena;
use crate::fighter::{Fighter, FighterAction};
use crate::fixed::{clamp, clamped, floor_sqrt, isqrt, product, quotient, saturate, saturated, UNIT};
use crate::params::{
    DRAG_PERCENT, GRAVITY, JUMP_COOLDOWN_TICKS, JUMP_VELOCITY, MAX_PITCH, SPRINT_FOOD_THRESHOLD,
    SPRINT_SPEED, WALK_SPEED,
};
use crate::trig::{cos_deg, cosine, lemma_sine_bounds, sin_deg, sine, wrap_sum, wrapped};

verus! {

/// The heading after the action's turn, in `(-180, 180]` degrees.
pub open spec fn turned_yaw(f: Fighter, a: FighterAction) -> int {
    wrapped(f.yaw + a.delta_yaw)
}

/// The pitch after the action's turn, held within the steepest pitch.
pub open spec fn turned_pitch(f: Fighter, a: FighterAction) -> int {
    clamped(f.pitch + a.delta_pitch, -MAX_PITCH, MAX_PITCH as int)
}

/// `v` if `wanted`, else nothing.
pub open spec fn only_if(wanted: bool, v: int) -> int {
    if wanted {
        v
    } else {
        0
    }
}

/// The x component of the wanted direction for a heading of `yaw`:
/// forward is `(-sin, cos)`, left is `(cos, sin)`, and opposite intents cancel.
pub open spec fn drive_x(a: FighterAction, yaw: int) -> int {
    only_if(a.backward, sine(yaw)) - only_if(a.forward, sine(yaw)) + only_if(a.left, cosine(yaw)) - only_if(
        a.right,
        cosine(yaw),
    )
}

/// The z component of the wanted direction for a heading of `yaw`.
pub open spec fn drive_z(a: FighterAction, yaw: int) -> int {
    only_if(a.forward, cosine(yaw)) - only_if(a.backward, cosine(yaw)) + only_if(a.left, sine(yaw)) - only_if(
        a.right,
        sine(yaw),
    )
}

/// The component `c` of the vector `(c, d)` after the vector is scaled to
/// length one; a vector shorter than one millionth is left as it is.
pub open spec fn unit_part(c: int, d: int) -> int {
    let len = floor_sqrt(c * c + d * d);
    if len > 0 {
        quotient(c * UNIT, len)
    } else {
        c
    }
}

/// Whether the fighter sprints this tick: only forward, and only when fed.
pub open spec fn sprints(f: Fighter, a: FighterAction) -> bool {
    a.sprint && a.forward && f.food > SPRINT_FOOD_THRESHOLD
}

/// The speed that one tick of movement adds along the wanted direction.
pub open spec fn pace(f: Fighter, a: FighterAction) -> int {
    if sprints(f, a) {
        SPRINT_SPEED as int
    } else {
        WALK_SPEED as int
    }
}

/// The speed gained along one axis, given that axis' share `part` of the
/// unit direction. A fighter who eats gains none.
pub open spec fn thrust(f: Fighter, a: FighterAction, part: int) -> int {
    if f.eating {
        0
    } else {
        quotient(part * pace(f, a), UNIT as int)
    }
}

/// A horizontal speed after one tick of drag.
pub open spec fn dragged(v: int) -> int {
    quotient(v * DRAG_PERCENT, 100)
}

/// The velocity along x after thrust and drag.
pub open spec fn moved_vx(f: Fighter, a: FighterAction) -> int {
    let yaw = turned_yaw(f, a);
    dragged(f.vx + thrust(f, a, unit_part(drive_x(a, yaw), drive_z(a, yaw))))
}

/// The velocity along z after thrust and drag.
pub open spec fn moved_vz(f: Fighter, a: FighterAction) -> int {
    let yaw = turned_yaw(f, a);
    dragged(f.vz + thrust(f, a, unit_part(drive_z(a, yaw), drive_x(a, yaw))))
}

/// Whether the fighter leaves the ground by a jump this tick.
pub open spec fn leaps(f: Fighter, a: FighterAction) -> bool {
    a.jump && f.on_ground && !f.eating && f.jump_cooldown == 0
}

/// Whether the fighter is off the ground once a jump has been decided.
pub open spec fn aloft(f: Fighter, a: FighterAction) -> bool {
    leaps(f, a) || !f.on_ground
}

/// The vertical velocity after a jump and gravity, before the floor is met.
pub open spec fn falling_vy(f: Fighter, a: FighterAction) -> int {
    let launched = if leaps(f, a) {
        JUMP_VELOCITY as int
    } else {
        f.vy as int
    };
    if aloft(f, a) {
        saturated(launched - GRAVITY)
    } else {
        launched
    }
}

/// Whether the fighter is on the floor at the end of the tick.
pub open spec fn touches_down(f: Fighter, a: FighterAction, floor_y: int) -> bool {
    f.y + falling_vy(f, a) <= floor_y
}

/// One fighter after one tick of movement in `arena`.
///
/// Heading and pitch turn first. Thrust along the unit direction is added to
/// the horizontal velocity unless the fighter eats; a jump replaces the
/// vertical velocity and starts the jump cooldown; gravity pulls on a fighter
/// who is off the ground; drag shrinks the horizontal velocity. The position
/// then advances by the velocity, stops at the floor (which zeroes the
/// vertical velocity and grounds the fighter) and at the walls.
pub open spec fn moved(f: Fighter, a: FighterAction, arena: FastArena) -> Fighter {
    let grounded = touches_down(f, a, arena.floor_y as int);
    Fighter {
        yaw: turned_yaw(f, a) as i64,
        pitch: turned_pitch(f, a) as i64,
        sprinting: sprints(f, a),
        vx: moved_vx(f, a) as i64,
        vz: moved_vz(f, a) as i64,
        vy: if grounded {
            0
        } else {
            falling_vy(f, a) as i64
        },
        jump_cooldown: if leaps(f, a) {
            JUMP_COOLDOWN_TICKS
        } else {
            f.jump_cooldown
        },
        on_ground: grounded || !aloft(f, a),
        x: clamped(f.x + moved_vx(f, a), arena.min_x as int, arena.max_x as int) as i64,
        y: if grounded {
            arena.floor_y
        } else {
            saturated(f.y + falling_vy(f, a)) as i64
        },
        z: clamped(f.z + moved_vz(f, a), arena.min_z as int, arena.max_z as int) as i64,
        ..f
    }
}

/// The drive vector is at most two units long along each axis.
pub proof fn lemma_drive_bounds(a: FighterAction, yaw: int)
    ensures
        -2 * UNIT <= drive_x(a, yaw) <= 2 * UNIT,
        -2 * UNIT <= drive_z(a, yaw) <= 2 * UNIT,
{
    lemma_sine_bounds(yaw);
}

/// What thrust and drag make of a horizontal speed still fits an `i64`.
pub proof fn lemma_dragged_fits(v: int, push: int)
    requires
        i64::MIN <= v <= i64::MAX,
        -1_000_000_000_000 <= push <= 1_000_000_000_000,
    ensures
        i64::MIN <= dragged(v + push) <= i64::MAX,
{
}

/// One axis of the unit direction, from the two components of the drive vector.
fn unit_component(c: i64, d: i64) -> (r: i64)
    requires
        -2 * UNIT <= c <= 2 * UNIT,
        -2 * UNIT <= d <= 2 * UNIT,
    ensures
        r == unit_part(c as int, d as int),
        -2 * UNIT * UNIT <= r <= 2 * UNIT * UNIT,
{
    assert(0 <= c * c <= 4_000_000_000_000 && 0 <= d * d <= 4_000_000_000_000) by (nonlinear_arith)
        requires
            -2_000_000 <= c <= 2_000_000,
            -2_000_000 <= d <= 2_000_000,
    ;
    let square: i128 = product(c, c) + product(d, d);
    let len: u64 = isqrt(square as u64);
    if len > 0 {
        let scaled: i128 = product(c, UNIT);
        assert(-2_000_000_000_000 <= scaled <= 2_000_000_000_000);
        let part: i128 = scaled / (len as i128);
        assert(-2_000_000_000_000 <= part <= 2_000_000_000_000) by (nonlinear_arith)
            requires
                len >= 1,
                -2_000_000_000_000 <= scaled <= 2_000_000_000_000,
                part == quotient(scaled as int, len as int),
        ;
        part as i64
    } else {
        c
    }
}

/// The speed gained along one axis.
fn thrust_along(part: i64, speed: i64) -> (r: i64)
    requires
        -2 * UNIT * UNIT <= part <= 2 * UNIT * UNIT,
        0 <= speed <= SPRINT_SPEED,
    ensures
        r == quotient(part * speed, UNIT as int),
        -1_000_000_000_000 <= r <= 1_000_000_000_000,
{
    let p: i128 = product(part, speed);
    assert(-260_000_000_000_000_000 <= part * speed <= 260_000_000_000_000_000)
        by (nonlinear_arith)
        requires
            -2_000_000_000_000 <= part <= 2_000_000_000_000,
            0 <= speed <= 130_000,
    ;
    (p / UNIT as i128) as i64
}

impl FastArena {
    /// Advances `fighter` by one tick of movement under `action`.
    pub fn apply_movement(&self, fighter: &mut Fighter, action: &FighterAction)
        ensures
            *final(fighter) == moved(*old(fighter), *action, *self),
    {
        let yaw: i64 = wrap_sum(fighter.yaw, action.delta_yaw);
        let pitch: i64 = clamp(
            fighter.pitch as i128 + action.delta_pitch as i128,
            -MAX_PITCH,
            MAX_PITCH,
        );
        let sin: i64 = sin_deg(yaw);
        let cos: i64 = cos_deg(yaw);
        proof {
            lemma_drive_bounds(*action, yaw as int);
        }
        let mut move_x: i64 = 0;
        let mut move_z: i64 = 0;
        if action.forward {
            move_x = move_x - sin;
            move_z = move_z + cos;
        }
        if action.backward {
            move_x = move_x + sin;
            move_z = move_z - cos;
        }
        if action.left {
            move_x = move_x + cos;
            move_z = move_z + sin;
        }
        if action.right {
            move_x = move_x - cos;
            move_z = move_z - sin;
        }
        assert(move_x == drive_x(*action, yaw as int));
        assert(move_z == drive_z(*action, yaw as int));
        let part_x: i64 = unit_component(move_x, move_z);
        let part_z: i64 = unit_component(move_z, move_x);

        let sprinting: bool = action.sprint && action.forward && fighter.food
            > SPRINT_FOOD_THRESHOLD;
        let speed: i64 = if sprinting {
            SPRINT_SPEED
        } else {
            WALK_SPEED
        };
        let mut push_x: i64 = 0;
        let mut push_z: i64 = 0;
        if !fighter.eating {
            push_x = thrust_along(part_x, speed);
            push_z = thrust_along(part_z, speed);
        }
        proof {
            lemma_dragged_fits(fighter.vx as int, push_x as int);
            lemma_dragged_fits(fighter.vz as int, push_z as int);
        }
        let vx: i64 = (((fighter.vx as i128 + push_x as i128) * DRAG_PERCENT as i128) / 100) as i64;
        let vz: i64 = (((fighter.vz as i128 + push_z as i128) * DRAG_PERCENT as i128) / 100) as i64;

        let mut vy: i64 = fighter.vy;
        let mut on_ground: bool = fighter.on_ground;
        let mut jump_cooldown: u32 = fighter.jump_cooldown;
        if action.jump && on_ground && !fighter.eating && jump_cooldown == 0 {
            vy = JUMP_VELOCITY;
            on_ground = false;
            jump_cooldown = JUMP_COOLDOWN_TICKS;
        }
        if !on_ground {
            vy = saturate(vy as i128 - GRAVITY as i128);
        }
        let mut y: i64 = fighter.y;
        let risen: i128 = y as i128 + vy as i128;
        if risen <= self.floor_y as i128 {
            y = self.floor_y;
            vy = 0;
            on_ground = true;
        } else {
            y = saturate(risen);
        }

        fighter.yaw = yaw;
        fighter.pitch = pitch;
        fighter.sprinting = sprinting;
        fighter.vx = vx;
        fighter.vy = vy;
        fighter.vz = vz;
        fighter.jump_cooldown = jump_cooldown;
        fighter.on_ground = on_ground;
        fighter.x = clamp(fighter.x as i128 + vx as i128, self.min_x, self.max_x);
        fighter.y = y;
        fighter.z = clamp(fighter.z as i128 + vz as i128, self.min_z, self.max_z);
    }
}

} // verus!
