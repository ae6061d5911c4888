//! The observation encoder: the match as one side sees it, as a vector of
//! fixed-point numbers in a fixed order.

use vstd::prelude::*;
use crate::arena::FastArena;
use crate::combat::gap_squared;
use crate::eating::lesser;
use crate::fighter::Fighter;
use crate::fixed::{floor_sqrt, isqrt, lemma_floor_sqrt_at_least, product, quotient, UNIT};
use crate::params::{
    DAMAGE_SCALE, EAT_TICKS, HEIGHT_SCALE, HITS_SCALE, MAX_FOOD, MAX_HEALTH, OBS_LEN, PITCH_SCALE,
    POSITION_SCALE, STEAKS_SCALE, YAW_SCALE,
};
use crate::trig::{bearing, bearing_deg};

verus! {

/// A flag as a number: one or zero.
pub open spec fn flag(b: bool) -> int {
    if b {
        UNIT as int
    } else {
        0
    }
}

/// `part` as a fraction of `whole`.
pub open spec fn fraction(part: int, whole: int) -> int {
    quotient(part * UNIT, whole)
}

/// The distance to the foe as a fraction of the position scale, at most one.
pub open spec fn nearness(me: Fighter, foe: Fighter) -> int {
    lesser(quotient(floor_sqrt(gap_squared(me, foe)), POSITION_SCALE as int), UNIT as int)
}

/// The heading along which the foe would look straight at `me`, from their
/// horizontal displacement.
pub open spec fn bearing_from(me: Fighter, foe: Fighter) -> int {
    bearing(foe.x - me.x, -(foe.z - me.z))
}

/// Entry `i` of the observation of `me` facing `foe`:
///
/// * 0-2: own position over the position scale;
/// * 3-5: own velocity;
/// * 6-7: own health and food as fractions of their maxima;
/// * 8: how far the attack cooldown has run (one when ready);
/// * 9-10: own heading over a half turn and pitch over a quarter turn;
/// * 11-12: whether on the ground, whether sprinting;
/// * 13-15: the offset to the foe, x and z over the position scale and
///   y over the height scale;
/// * 16: the distance to the foe over the position scale, at most one;
/// * 17: the foe's health as a fraction;
/// * 18: the heading from the foe to oneself over a half turn;
/// * 19-21: the foe's velocity;
/// * 22: one (the foe is always in sight);
/// * 23-26: own damage dealt and taken and hits landed and taken, over
///   their scales;
/// * 27-28: whether eating, and the meal's countdown as a fraction of a
///   whole meal;
/// * 29: whether the foe is eating;
/// * 30: own stock of consumables over its scale.
pub open spec fn entry(me: Fighter, foe: Fighter, i: int) -> int {
    if i == 0 {
        quotient(me.x as int, POSITION_SCALE as int)
    } else if i == 1 {
        quotient(me.y as int, POSITION_SCALE as int)
    } else if i == 2 {
        quotient(me.z as int, POSITION_SCALE as int)
    } else if i == 3 {
        me.vx as int
    } else if i == 4 {
        me.vy as int
    } else if i == 5 {
        me.vz as int
    } else if i == 6 {
        fraction(me.health as int, MAX_HEALTH as int)
    } else if i == 7 {
        fraction(me.food as int, MAX_FOOD as int)
    } else if i == 8 {
        me.readiness()
    } else if i == 9 {
        quotient(me.yaw as int, YAW_SCALE as int)
    } else if i == 10 {
        quotient(me.pitch as int, PITCH_SCALE as int)
    } else if i == 11 {
        flag(me.on_ground)
    } else if i == 12 {
        flag(me.sprinting)
    } else if i == 13 {
        quotient(foe.x - me.x, POSITION_SCALE as int)
    } else if i == 14 {
        quotient(foe.y - me.y, HEIGHT_SCALE as int)
    } else if i == 15 {
        quotient(foe.z - me.z, POSITION_SCALE as int)
    } else if i == 16 {
        nearness(me, foe)
    } else if i == 17 {
        fraction(foe.health as int, MAX_HEALTH as int)
    } else if i == 18 {
        quotient(bearing_from(me, foe), YAW_SCALE as int)
    } else if i == 19 {
        foe.vx as int
    } else if i == 20 {
        foe.vy as int
    } else if i == 21 {
        foe.vz as int
    } else if i == 22 {
        UNIT as int
    } else if i == 23 {
        quotient(me.damage_dealt as int, DAMAGE_SCALE as int)
    } else if i == 24 {
        quotient(me.damage_taken as int, DAMAGE_SCALE as int)
    } else if i == 25 {
        fraction(me.hits_landed as int, HITS_SCALE as int)
    } else if i == 26 {
        fraction(me.hits_taken as int, HITS_SCALE as int)
    } else if i == 27 {
        flag(me.eating)
    } else if i == 28 {
        fraction(me.eating_ticks as int, EAT_TICKS as int)
    } else if i == 29 {
        flag(foe.eating)
    } else {
        fraction(me.steaks as int, STEAKS_SCALE as int)
    }
}

/// The observation of `me` facing `foe`: its `OBS_LEN` entries in order.
pub open spec fn encoded(me: Fighter, foe: Fighter) -> Seq<int> {
    Seq::new(OBS_LEN as nat, |i: int| entry(me, foe, i))
}

/// Whether a vector of fixed-point numbers holds exactly the numbers of `s`.
pub open spec fn holds(v: Seq<i64>, s: Seq<int>) -> bool {
    v.len() == s.len() && forall|i: int| 0 <= i < v.len() ==> v[i] as int == s[i]
}

impl FastArena {
    /// The match as the first fighter sees it.
    pub open spec fn view1(self) -> Seq<int> {
        encoded(self.fighter1, self.fighter2)
    }

    /// The match as the second fighter sees it.
    pub open spec fn view2(self) -> Seq<int> {
        encoded(self.fighter2, self.fighter1)
    }
}

/// A flag as a number.
fn flag_of(b: bool) -> (r: i64)
    ensures
        r == flag(b),
{
    if b {
        UNIT
    } else {
        0
    }
}

/// A fixed-point amount as a fraction of a maximum of at least one.
fn amount_fraction(v: i64, whole: i64) -> (r: i64)
    requires
        whole >= UNIT,
    ensures
        r == fraction(v as int, whole as int),
{
    let scaled: i128 = product(v, UNIT);
    let r: i128 = scaled / whole as i128;
    assert(-0x8000_0000_0000_0000 <= r <= 0x7fff_ffff_ffff_ffff) by (nonlinear_arith)
        requires
            whole >= 1_000_000,
            scaled == v * 1_000_000,
            -0x8000_0000_0000_0000 <= v <= 0x7fff_ffff_ffff_ffff,
            r == quotient(scaled as int, whole as int),
    ;
    r as i64
}

/// A count as a fraction of a positive whole.
fn count_fraction(n: u32, whole: i64) -> (r: i64)
    requires
        whole >= 1,
    ensures
        r == fraction(n as int, whole as int),
{
    let scaled: i128 = product(n as i64, UNIT);
    assert(0 <= scaled <= 4_294_967_295_000_000);
    let r: i128 = scaled / whole as i128;
    assert(0 <= r <= 4_294_967_295_000_000) by (nonlinear_arith)
        requires
            whole >= 1,
            0 <= scaled <= 4_294_967_295_000_000,
            r == quotient(scaled as int, whole as int),
    ;
    r as i64
}

/// The distance to the foe as a fraction of the position scale, at most one.
fn nearness_of(me: &Fighter, foe: &Fighter) -> (r: i64)
    ensures
        r == nearness(*me, *foe),
{
    let dx: i128 = foe.x as i128 - me.x as i128;
    let dy: i128 = foe.y as i128 - me.y as i128;
    let dz: i128 = foe.z as i128 - me.z as i128;
    let far: i128 = product(POSITION_SCALE, UNIT);
    if dx >= far || dx <= -far || dy >= far || dy <= -far || dz >= far || dz <= -far {
        proof {
            assert(dx * dx >= 0 && dy * dy >= 0 && dz * dz >= 0) by (nonlinear_arith);
            assert(dx >= far || dx <= -far ==> dx * dx >= far * far) by (nonlinear_arith)
                requires
                    0 <= far,
            ;
            assert(dy >= far || dy <= -far ==> dy * dy >= far * far) by (nonlinear_arith)
                requires
                    0 <= far,
            ;
            assert(dz >= far || dz <= -far ==> dz * dz >= far * far) by (nonlinear_arith)
                requires
                    0 <= far,
            ;
            lemma_floor_sqrt_at_least(gap_squared(*me, *foe), far as int);
        }
        UNIT
    } else {
        let ex: i64 = dx as i64;
        let ey: i64 = dy as i64;
        let ez: i64 = dz as i64;
        assert(0 <= ex * ex <= 1_024_000_000_000_000 && 0 <= ey * ey <= 1_024_000_000_000_000 && 0
            <= ez * ez <= 1_024_000_000_000_000) by (nonlinear_arith)
            requires
                -32_000_000 <= ex <= 32_000_000,
                -32_000_000 <= ey <= 32_000_000,
                -32_000_000 <= ez <= 32_000_000,
        ;
        let square: i128 = product(ex, ex) + product(ey, ey) + product(ez, ez);
        let scaled: u64 = isqrt(square as u64) / POSITION_SCALE as u64;
        if scaled <= UNIT as u64 {
            scaled as i64
        } else {
            UNIT
        }
    }
}

impl FastArena {
    /// The observation of `me` facing `enemy`.
    pub fn get_obs(&self, me: &Fighter, enemy: &Fighter) -> (obs: Vec<i64>)
        ensures
            obs@.len() == OBS_LEN,
            holds(obs@, encoded(*me, *enemy)),
    {
        let dx: i128 = enemy.x as i128 - me.x as i128;
        let dy: i128 = enemy.y as i128 - me.y as i128;
        let dz: i128 = enemy.z as i128 - me.z as i128;
        let enemy_to_me_yaw: i64 = bearing_deg(dx, -dz);
        let obs: Vec<i64> = vec![
            me.x / POSITION_SCALE,
            me.y / POSITION_SCALE,
            me.z / POSITION_SCALE,
            me.vx,
            me.vy,
            me.vz,
            amount_fraction(me.health, MAX_HEALTH),
            amount_fraction(me.food, MAX_FOOD),
            me.cooldown_progress(),
            me.yaw / YAW_SCALE,
            me.pitch / PITCH_SCALE,
            flag_of(me.on_ground),
            flag_of(me.sprinting),
            (dx / POSITION_SCALE as i128) as i64,
            (dy / HEIGHT_SCALE as i128) as i64,
            (dz / POSITION_SCALE as i128) as i64,
            nearness_of(me, enemy),
            amount_fraction(enemy.health, MAX_HEALTH),
            enemy_to_me_yaw / YAW_SCALE,
            enemy.vx,
            enemy.vy,
            enemy.vz,
            UNIT,
            me.damage_dealt / DAMAGE_SCALE,
            me.damage_taken / DAMAGE_SCALE,
            count_fraction(me.hits_landed, HITS_SCALE),
            count_fraction(me.hits_taken, HITS_SCALE),
            flag_of(me.eating),
            count_fraction(me.eating_ticks, EAT_TICKS as i64),
            flag_of(enemy.eating),
            count_fraction(me.steaks, STEAKS_SCALE),
        ];
        assert forall|i: int| 0 <= i < obs@.len() implies obs@[i] as int == encoded(
            *me,
            *enemy,
        )[i] by {
            assert(encoded(*me, *enemy)[i] == entry(*me, *enemy, i));
        }
        obs
    }

    /// The observation of the first fighter.
    pub fn get_obs1(&self) -> (obs: Vec<i64>)
        ensures
            obs@.len() == OBS_LEN,
            holds(obs@, self.view1()),
    {
        self.get_obs(&self.fighter1, &self.fighter2)
    }

    /// The observation of the second fighter.
    pub fn get_obs2(&self) -> (obs: Vec<i64>)
        ensures
            obs@.len() == OBS_LEN,
            holds(obs@, self.view2()),
    {
        self.get_obs(&self.fighter2, &self.fighter1)
    }
}

} // verus!
