//! The match orchestrator: one tick of a match, its rewards and its outcome.
//!
//! A tick runs in a fixed order: cooldowns, movement of both fighters, the
//! first fighter's swing, the second fighter's swing, meals and regeneration
//! of both, the tick counter, rewards, the outcome. When both fighters fall
//! in the same tick, the first fighter's fall is seen first and the second
//! fighter wins: the order of the swings and of the outcome tests is part of
//! the rules, not an accident.

use vstd::prelude::*;
use crate::arena::FastArena;
use crate::combat::{bumped, connects};
use crate::eating::{digested, finishes_meal, sits_at_table};
use crate::fighter::{Fighter, FighterAction};
use crate::fixed::{
    clamp, clamped, floor_sqrt, isqrt, lemma_floor_sqrt_monotonic, lemma_floor_sqrt_of_square,
    lemma_quotient_away_bounds, product, quotient, quotient_away, saturate, saturated,
};
use crate::movement::{moved, only_if};
use crate::params::{
    DAMAGE_DEALT_PERCENT, DAMAGE_TAKEN_PERCENT, DRAW_PENALTY, EATING_TICK_BONUS, HEAL_PERCENT,
    HIT_BONUS, JUMP_SPAM_PENALTY, KILL_REWARD, MAX_FOOD, MAX_HEALTH, MEAL_BONUS,
    MEAL_INTERRUPTED_PENALTY, PROXIMITY_PERCENT, PROXIMITY_RADIUS, SPEED_BONUS, TIMEOUT_REWARD,
    TIME_PENALTY, WHIFF_PENALTY, WINNER_DRAW, WINNER_FIGHTER1, WINNER_FIGHTER2,
};

verus! {

/// How a tick ends the match, or does not, and what that adds to each reward.
#[derive(Clone, Copy, Debug, PartialEq, Eq)]
pub struct Verdict {
    pub done: bool,
    pub winner: i32,
    pub bonus1: i64,
    pub bonus2: i64,
}

/// A cooldown one tick later; it stops at zero.
pub open spec fn ticked_down(n: u32) -> u32 {
    if n > 0 {
        (n - 1) as u32
    } else {
        0
    }
}

/// A fighter after its cooldowns have run for one tick.
pub open spec fn cooled(f: Fighter) -> Fighter {
    Fighter {
        attack_cooldown: ticked_down(f.attack_cooldown),
        jump_cooldown: ticked_down(f.jump_cooldown),
        ..f
    }
}

/// A fighter with health and food brought into their ranges.
pub open spec fn settled(f: Fighter) -> Fighter {
    Fighter {
        health: clamped(f.health as int, 0, MAX_HEALTH as int) as i64,
        food: clamped(f.food as int, 0, MAX_FOOD as int) as i64,
        ..f
    }
}

/// `p` percent of `v`, rounded toward zero.
pub open spec fn percent(v: int, p: int) -> int {
    quotient(v * p, 100)
}

/// The distance between two fighters in the horizontal plane.
pub open spec fn planar_gap(a: Fighter, b: Fighter) -> int {
    floor_sqrt((b.x - a.x) * (b.x - a.x) + (b.z - a.z) * (b.z - a.z))
}

/// What both fighters earn for being close: nothing at the proximity radius
/// or beyond, more the closer they are within it.
pub open spec fn closeness(a: Fighter, b: Fighter) -> int {
    if planar_gap(a, b) < PROXIMITY_RADIUS {
        percent(PROXIMITY_RADIUS - planar_gap(a, b), PROXIMITY_PERCENT as int)
    } else {
        0
    }
}

/// What a kill at `tick` adds for its speed: the full bonus scaled by the
/// unused share of the budget, `SPEED_BONUS * (1 - tick / max_ticks)`, and
/// nothing when there is no budget.
///
/// The share is rounded away from zero, so that a kill before the budget is
/// used up earns at least one millionth however long the budget is, and only
/// a kill in the very tick that uses it up earns nothing. With a budget
/// longer than `SPEED_BONUS` millionths, neighbouring ticks can earn the same.
pub open spec fn speed_bonus(tick: int, max_ticks: int) -> int {
    if max_ticks > 0 {
        quotient_away(SPEED_BONUS * (max_ticks - tick), max_ticks)
    } else {
        0
    }
}

/// The outcome of a tick from the fighters' health after it, the tick
/// counter after it and the budget.
///
/// A fighter at or below zero health loses at once (the first fighter's fall
/// is tested first): the kill reward goes from the loser to the winner, who
/// also earns the speed bonus. Otherwise, when the budget is used up, the
/// fighter with strictly more health wins the smaller timeout reward, and on
/// equal health the match is a draw and both pay the draw penalty. Otherwise
/// the match goes on and `winner` stays what it was.
pub open spec fn verdict(h1: int, h2: int, tick: int, max_ticks: int, winner: i32) -> Verdict {
    if h1 <= 0 {
        Verdict {
            done: true,
            winner: WINNER_FIGHTER2,
            bonus1: -KILL_REWARD as i64,
            bonus2: (KILL_REWARD + speed_bonus(tick, max_ticks)) as i64,
        }
    } else if h2 <= 0 {
        Verdict {
            done: true,
            winner: WINNER_FIGHTER1,
            bonus1: (KILL_REWARD + speed_bonus(tick, max_ticks)) as i64,
            bonus2: -KILL_REWARD as i64,
        }
    } else if tick >= max_ticks {
        if h1 > h2 {
            Verdict {
                done: true,
                winner: WINNER_FIGHTER1,
                bonus1: TIMEOUT_REWARD,
                bonus2: -TIMEOUT_REWARD as i64,
            }
        } else if h2 > h1 {
            Verdict {
                done: true,
                winner: WINNER_FIGHTER2,
                bonus1: -TIMEOUT_REWARD as i64,
                bonus2: TIMEOUT_REWARD,
            }
        } else {
            Verdict {
                done: true,
                winner: WINNER_DRAW,
                bonus1: -DRAW_PENALTY as i64,
                bonus2: -DRAW_PENALTY as i64,
            }
        }
    } else {
        Verdict { done: false, winner, bonus1: 0, bonus2: 0 }
    }
}

/// What one side earns in one tick, apart from the outcome.
///
/// `before` is the state at the start of the tick and `after` the state once
/// meals are done, for the side itself and for its foe; `hit` says whether
/// its swing landed, `was_hit` whether the foe's did, and `meal_done` whether
/// it finished a meal. The terms, in order: damage dealt and taken, by the
/// change of health over the tick; the hit bonus; the penalty for a swing
/// that did not land; the penalty for asking to jump while the jump cooldown
/// still ran after this tick's countdown; health regained; going on with a
/// meal; finishing one; a meal cut short by a hit; closeness; time.
pub open spec fn shaping(
    before: Fighter,
    after: Fighter,
    foe_before: Fighter,
    foe_after: Fighter,
    action: FighterAction,
    hit: bool,
    was_hit: bool,
    meal_done: bool,
) -> int {
    percent(foe_before.health - foe_after.health, DAMAGE_DEALT_PERCENT as int) - percent(
        before.health - after.health,
        DAMAGE_TAKEN_PERCENT as int,
    ) + only_if(hit, HIT_BONUS as int) - only_if(action.attack && !hit, WHIFF_PENALTY as int) - only_if(
        action.jump && ticked_down(before.jump_cooldown) > 0,
        JUMP_SPAM_PENALTY as int,
    ) + percent(
        if after.health > before.health {
            after.health - before.health
        } else {
            0
        },
        HEAL_PERCENT as int,
    ) + only_if(before.eating && after.eating, EATING_TICK_BONUS as int) + only_if(
        meal_done,
        MEAL_BONUS as int,
    ) - only_if(before.eating && was_hit, MEAL_INTERRUPTED_PENALTY as int) + closeness(after, foe_after)
        - TIME_PENALTY
}

impl FastArena {
    /// The arena after cooldowns and movement.
    pub open spec fn after_movement(self, a1: FighterAction, a2: FighterAction) -> FastArena {
        FastArena {
            fighter1: moved(cooled(self.fighter1), a1, self),
            fighter2: moved(cooled(self.fighter2), a2, self),
            ..self
        }
    }

    /// The arena after the swings of those fighters who asked for one: the
    /// first fighter's is resolved first, and the second fighter swings at
    /// the first as that swing left them.
    pub open spec fn swung(self, attack1: bool, attack2: bool) -> FastArena {
        let s = if attack1 {
            self.after_attack(0)
        } else {
            self
        };
        if attack2 {
            s.after_attack(1)
        } else {
            s
        }
    }

    /// The arena after meals and regeneration of both fighters.
    pub open spec fn dined(self, eat1: bool, eat2: bool) -> FastArena {
        FastArena {
            fighter1: digested(self.fighter1, eat1),
            fighter2: digested(self.fighter2, eat2),
            ..self
        }
    }

    /// The arena after the first fighter's swing, if it asked for one.
    pub open spec fn after_first_swing(self, a1: FighterAction, a2: FighterAction) -> FastArena {
        self.after_movement(a1, a2).swung(a1.attack, false)
    }

    /// The arena after both swings.
    pub open spec fn after_swings(self, a1: FighterAction, a2: FighterAction) -> FastArena {
        self.after_movement(a1, a2).swung(a1.attack, a2.attack)
    }

    /// Whether the first fighter's swing lands this tick.
    pub open spec fn first_hits(self, a1: FighterAction, a2: FighterAction) -> bool {
        let m = self.after_movement(a1, a2);
        a1.attack && connects(m.fighter1, m.fighter2)
    }

    /// Whether the second fighter's swing lands this tick.
    pub open spec fn second_hits(self, a1: FighterAction, a2: FighterAction) -> bool {
        let s = self.after_first_swing(a1, a2);
        a2.attack && connects(s.fighter2, s.fighter1)
    }

    /// The arena after meals and regeneration, before the outcome.
    pub open spec fn after_meals(self, a1: FighterAction, a2: FighterAction) -> FastArena {
        self.after_swings(a1, a2).dined(a1.eat, a2.eat)
    }

    /// The outcome of this tick.
    pub open spec fn outcome(self, a1: FighterAction, a2: FighterAction) -> Verdict {
        let e = self.after_meals(a1, a2);
        verdict(
            e.fighter1.health as int,
            e.fighter2.health as int,
            bumped(self.tick) as int,
            self.max_ticks as int,
            self.winner,
        )
    }

    /// What the first fighter earns in this tick apart from the outcome.
    pub open spec fn shaping1(self, a1: FighterAction, a2: FighterAction) -> int {
        shaping(
            self.fighter1,
            self.after_meals(a1, a2).fighter1,
            self.fighter2,
            self.after_meals(a1, a2).fighter2,
            a1,
            self.first_hits(a1, a2),
            self.second_hits(a1, a2),
            finishes_meal(self.after_swings(a1, a2).fighter1, a1.eat),
        )
    }

    /// What the second fighter earns in this tick apart from the outcome.
    pub open spec fn shaping2(self, a1: FighterAction, a2: FighterAction) -> int {
        shaping(
            self.fighter2,
            self.after_meals(a1, a2).fighter2,
            self.fighter1,
            self.after_meals(a1, a2).fighter1,
            a2,
            self.second_hits(a1, a2),
            self.first_hits(a1, a2),
            finishes_meal(self.after_swings(a1, a2).fighter2, a2.eat),
        )
    }

    /// The first fighter's reward for this tick of a running match.
    pub open spec fn reward1(self, a1: FighterAction, a2: FighterAction) -> int {
        self.shaping1(a1, a2) + self.outcome(a1, a2).bonus1
    }

    /// The second fighter's reward for this tick of a running match.
    pub open spec fn reward2(self, a1: FighterAction, a2: FighterAction) -> int {
        self.shaping2(a1, a2) + self.outcome(a1, a2).bonus2
    }

    /// A running match one tick later: the fighters after meals with their
    /// vital signs brought into range, the tick counter one higher, and the
    /// outcome of the tick.
    pub open spec fn advanced(self, a1: FighterAction, a2: FighterAction) -> FastArena {
        let e = self.after_meals(a1, a2);
        FastArena {
            fighter1: settled(e.fighter1),
            fighter2: settled(e.fighter2),
            tick: bumped(self.tick),
            done: self.outcome(a1, a2).done,
            winner: self.outcome(a1, a2).winner,
            ..self
        }
    }

    /// The match one step later: a match that is over stays as it is.
    pub open spec fn stepped(self, a1: FighterAction, a2: FighterAction) -> FastArena {
        if self.done {
            self
        } else {
            self.advanced(a1, a2)
        }
    }

    /// The first fighter's reward for one step: nothing once the match is over.
    pub open spec fn step_reward1(self, a1: FighterAction, a2: FighterAction) -> int {
        if self.done {
            0
        } else {
            saturated(self.reward1(a1, a2))
        }
    }

    /// The second fighter's reward for one step: nothing once the match is over.
    pub open spec fn step_reward2(self, a1: FighterAction, a2: FighterAction) -> int {
        if self.done {
            0
        } else {
            saturated(self.reward2(a1, a2))
        }
    }
}

impl FastArena {
    /// The match after up to `n` steps with the same two actions; the run
    /// stops with the step that ends the match.
    pub open spec fn ran(self, n: nat, a1: FighterAction, a2: FighterAction) -> FastArena
        decreases n,
    {
        if n == 0 {
            self
        } else if self.stepped(a1, a2).done {
            self.stepped(a1, a2)
        } else {
            self.stepped(a1, a2).ran((n - 1) as nat, a1, a2)
        }
    }

    /// The sum of the first fighter's rewards over such a run.
    pub open spec fn run_reward1(self, n: nat, a1: FighterAction, a2: FighterAction) -> int
        decreases n,
    {
        if n == 0 {
            0
        } else if self.stepped(a1, a2).done {
            self.step_reward1(a1, a2)
        } else {
            self.step_reward1(a1, a2) + self.stepped(a1, a2).run_reward1((n - 1) as nat, a1, a2)
        }
    }

    /// The sum of the second fighter's rewards over such a run.
    pub open spec fn run_reward2(self, n: nat, a1: FighterAction, a2: FighterAction) -> int
        decreases n,
    {
        if n == 0 {
            0
        } else if self.stepped(a1, a2).done {
            self.step_reward2(a1, a2)
        } else {
            self.step_reward2(a1, a2) + self.stepped(a1, a2).run_reward2((n - 1) as nat, a1, a2)
        }
    }
}

/// A cooldown one tick later.
fn tick_down(n: u32) -> (r: u32)
    ensures
        r == ticked_down(n),
{
    if n > 0 {
        n - 1
    } else {
        0
    }
}

/// `p` percent of `v`, for `p` up to a hundred and `v` a difference of two `i64`.
fn percent_of(v: i128, p: i64) -> (r: i128)
    requires
        -0x1_0000_0000_0000_0000 <= v <= 0x1_0000_0000_0000_0000,
        0 <= p <= 100,
    ensures
        r == percent(v as int, p as int),
        -0x1_0000_0000_0000_0000 <= r <= 0x1_0000_0000_0000_0000,
{
    assert(-100 * 0x1_0000_0000_0000_0000 <= v * p <= 100 * 0x1_0000_0000_0000_0000)
        by (nonlinear_arith)
        requires
            -0x1_0000_0000_0000_0000 <= v <= 0x1_0000_0000_0000_0000,
            0 <= p <= 100,
    ;
    (v * p as i128) / 100
}

/// A planar gap is at least as long as either of its legs.
proof fn lemma_gap_spans_leg(dx: int, dz: int, r: int)
    requires
        0 <= r,
        dx >= r || dx <= -r || dz >= r || dz <= -r,
    ensures
        floor_sqrt(dx * dx + dz * dz) >= r,
{
    assert(dx * dx >= 0 && dz * dz >= 0) by (nonlinear_arith);
    assert(dx >= r || dx <= -r ==> dx * dx >= r * r) by (nonlinear_arith)
        requires
            0 <= r,
    ;
    assert(dz >= r || dz <= -r ==> dz * dz >= r * r) by (nonlinear_arith)
        requires
            0 <= r,
    ;
    assert(0 <= r * r) by (nonlinear_arith);
    lemma_floor_sqrt_monotonic(r * r, dx * dx + dz * dz);
    lemma_floor_sqrt_of_square(r);
}

/// What both fighters earn for being close.
fn closeness_of(a: &Fighter, b: &Fighter) -> (r: i64)
    ensures
        r == closeness(*a, *b),
        0 <= r <= PROXIMITY_RADIUS,
{
    let dx: i128 = b.x as i128 - a.x as i128;
    let dz: i128 = b.z as i128 - a.z as i128;
    let radius: i128 = PROXIMITY_RADIUS as i128;
    if dx >= radius || dx <= -radius || dz >= radius || dz <= -radius {
        proof {
            lemma_gap_spans_leg(dx as int, dz as int, radius as int);
        }
        0
    } else {
        let ex: i64 = dx as i64;
        let ez: i64 = dz as i64;
        assert(0 <= ex * ex <= 100_000_000_000_000 && 0 <= ez * ez <= 100_000_000_000_000)
            by (nonlinear_arith)
            requires
                -10_000_000 <= ex <= 10_000_000,
                -10_000_000 <= ez <= 10_000_000,
        ;
        let square: i128 = product(ex, ex) + product(ez, ez);
        let gap: u64 = isqrt(square as u64);
        if gap < PROXIMITY_RADIUS as u64 {
            ((PROXIMITY_RADIUS - gap as i64) * PROXIMITY_PERCENT) / 100
        } else {
            0
        }
    }
}

/// What a kill at `tick` adds for its speed.
fn speed_bonus_of(tick: u32, max_ticks: u32) -> (r: i64)
    ensures
        r == speed_bonus(tick as int, max_ticks as int),
        -21_474_836_480_000_000 <= r <= 21_474_836_480_000_000,
{
    if max_ticks > 0 {
        let unused: i64 = max_ticks as i64 - tick as i64;
        let scaled: i128 = product(SPEED_BONUS, unused);
        assert(-21_474_836_480_000_000 <= scaled <= 21_474_836_480_000_000);
        let budget: i128 = max_ticks as i128;
        proof {
            lemma_quotient_away_bounds(scaled as int, budget as int);
        }
        if scaled >= 0 {
            ((scaled + budget - 1) / budget) as i64
        } else {
            (-((-scaled + budget - 1) / budget)) as i64
        }
    } else {
        0
    }
}

/// The outcome of a tick.
pub fn judge(h1: i64, h2: i64, tick: u32, max_ticks: u32, winner: i32) -> (v: Verdict)
    ensures
        v == verdict(h1 as int, h2 as int, tick as int, max_ticks as int, winner),
{
    if h1 <= 0 {
        Verdict {
            done: true,
            winner: WINNER_FIGHTER2,
            bonus1: -KILL_REWARD,
            bonus2: KILL_REWARD + speed_bonus_of(tick, max_ticks),
        }
    } else if h2 <= 0 {
        Verdict {
            done: true,
            winner: WINNER_FIGHTER1,
            bonus1: KILL_REWARD + speed_bonus_of(tick, max_ticks),
            bonus2: -KILL_REWARD,
        }
    } else if tick >= max_ticks {
        if h1 > h2 {
            Verdict {
                done: true,
                winner: WINNER_FIGHTER1,
                bonus1: TIMEOUT_REWARD,
                bonus2: -TIMEOUT_REWARD,
            }
        } else if h2 > h1 {
            Verdict {
                done: true,
                winner: WINNER_FIGHTER2,
                bonus1: -TIMEOUT_REWARD,
                bonus2: TIMEOUT_REWARD,
            }
        } else {
            Verdict { done: true, winner: WINNER_DRAW, bonus1: -DRAW_PENALTY, bonus2: -DRAW_PENALTY }
        }
    } else {
        Verdict { done: false, winner, bonus1: 0, bonus2: 0 }
    }
}

/// What one side earns in one tick, apart from the outcome and closeness.
fn shaping_of(
    before: &Fighter,
    after: &Fighter,
    foe_before: &Fighter,
    foe_after: &Fighter,
    action: &FighterAction,
    hit: bool,
    was_hit: bool,
    meal_done: bool,
) -> (r: i128)
    ensures
        r == shaping(
            *before,
            *after,
            *foe_before,
            *foe_after,
            *action,
            hit,
            was_hit,
            meal_done,
        ),
        -0x8_0000_0000_0000_0000 <= r <= 0x8_0000_0000_0000_0000,
{
    let dealt: i128 = percent_of(
        foe_before.health as i128 - foe_after.health as i128,
        DAMAGE_DEALT_PERCENT,
    );
    let taken: i128 = percent_of(
        before.health as i128 - after.health as i128,
        DAMAGE_TAKEN_PERCENT,
    );
    let healed: i128 = percent_of(
        if after.health > before.health {
            after.health as i128 - before.health as i128
        } else {
            0
        },
        HEAL_PERCENT,
    );
    let hit_bonus: i128 = gate(hit, HIT_BONUS);
    let whiff: i128 = gate(action.attack && !hit, WHIFF_PENALTY);
    let jump_spam: i128 = gate(
        action.jump && tick_down(before.jump_cooldown) > 0,
        JUMP_SPAM_PENALTY,
    );
    let chewing: i128 = gate(before.eating && after.eating, EATING_TICK_BONUS);
    let meal: i128 = gate(meal_done, MEAL_BONUS);
    let cut_short: i128 = gate(before.eating && was_hit, MEAL_INTERRUPTED_PENALTY);
    let near: i128 = closeness_of(after, foe_after) as i128;
    dealt - taken + hit_bonus - whiff - jump_spam + healed + chewing + meal - cut_short + near
        - TIME_PENALTY as i128
}

/// `v` if `wanted`, else nothing.
fn gate(wanted: bool, v: i64) -> (r: i128)
    ensures
        r == only_if(wanted, v as int),
{
    if wanted {
        v as i128
    } else {
        0
    }
}

/// A fighter with health and food brought into their ranges.
fn settle(f: &mut Fighter)
    ensures
        *final(f) == settled(*old(f)),
        final(f).vitals_in_range(),
{
    f.health = clamp(f.health as i128, 0, MAX_HEALTH);
    f.food = clamp(f.food as i128, 0, MAX_FOOD);
}

impl FastArena {
    /// Runs the cooldowns and the movement of both fighters.
    fn run_movement(&mut self, action1: &FighterAction, action2: &FighterAction)
        ensures
            *final(self) == old(self).after_movement(*action1, *action2),
    {
        let mut f1: Fighter = self.fighter1;
        let mut f2: Fighter = self.fighter2;
        f1.attack_cooldown = tick_down(f1.attack_cooldown);
        f2.attack_cooldown = tick_down(f2.attack_cooldown);
        f1.jump_cooldown = tick_down(f1.jump_cooldown);
        f2.jump_cooldown = tick_down(f2.jump_cooldown);
        self.apply_movement(&mut f1, action1);
        self.apply_movement(&mut f2, action2);
        self.fighter1 = f1;
        self.fighter2 = f2;
    }

    /// Resolves the first fighter's swing, then the second's, and says which landed.
    fn run_swings(&mut self, attack1: bool, attack2: bool) -> (hits: (bool, bool))
        ensures
            *final(self) == old(self).swung(attack1, attack2),
            hits.0 == (attack1 && connects(old(self).fighter1, old(self).fighter2)),
            hits.1 == (attack2 && connects(
                old(self).swung(attack1, false).fighter2,
                old(self).swung(attack1, false).fighter1,
            )),
    {
        let mut hit1: bool = false;
        if attack1 {
            hit1 = self.try_attack(0);
        }
        let mut hit2: bool = false;
        if attack2 {
            hit2 = self.try_attack(1);
        }
        (hit1, hit2)
    }

    /// Runs meals and regeneration of both fighters and says who finished a meal.
    fn run_meals(&mut self, eat1: bool, eat2: bool) -> (finished: (bool, bool))
        ensures
            *final(self) == old(self).dined(eat1, eat2),
            finished.0 == finishes_meal(old(self).fighter1, eat1),
            finished.1 == finishes_meal(old(self).fighter2, eat2),
    {
        let mut f1: Fighter = self.fighter1;
        let mut f2: Fighter = self.fighter2;
        let at_table1: bool = sits_at_table(&f1, eat1);
        let at_table2: bool = sits_at_table(&f2, eat2);
        self.process_eating(&mut f1, eat1);
        self.process_eating(&mut f2, eat2);
        self.fighter1 = f1;
        self.fighter2 = f2;
        (at_table1 && !f1.eating, at_table2 && !f2.eating)
    }

    /// Plays one tick with the two fighters' actions and returns both
    /// rewards and whether the match is over.
    ///
    /// A match that is already over is left untouched and earns nothing.
    /// After every tick of a running match, health and food of both fighters
    /// are within their ranges.
    pub fn step(&mut self, action1: &FighterAction, action2: &FighterAction) -> (r: (i64, i64, bool))
        ensures
            *final(self) == old(self).stepped(*action1, *action2),
            r.0 == old(self).step_reward1(*action1, *action2),
            r.1 == old(self).step_reward2(*action1, *action2),
            r.2 == final(self).done,
            r.2 == (old(self).done || old(self).outcome(*action1, *action2).done),
            old(self).done ==> *final(self) == *old(self) && r == (0i64, 0i64, true),
            !old(self).done ==> final(self).fighter1.vitals_in_range(),
            !old(self).done ==> final(self).fighter2.vitals_in_range(),
    {
        if self.done {
            return (0, 0, true);
        }
        let before1: Fighter = self.fighter1;
        let before2: Fighter = self.fighter2;
        let tick: u32 = if self.tick < u32::MAX {
            self.tick + 1
        } else {
            self.tick
        };

        self.run_movement(action1, action2);
        let hits: (bool, bool) = self.run_swings(action1.attack, action2.attack);
        assert(*self == old(self).after_swings(*action1, *action2));
        assert(hits.0 == old(self).first_hits(*action1, *action2));
        assert(hits.1 == old(self).second_hits(*action1, *action2));
        let finished: (bool, bool) = self.run_meals(action1.eat, action2.eat);
        assert(*self == old(self).after_meals(*action1, *action2));

        let mut f1: Fighter = self.fighter1;
        let mut f2: Fighter = self.fighter2;
        let shaped1: i128 = shaping_of(
            &before1,
            &f1,
            &before2,
            &f2,
            action1,
            hits.0,
            hits.1,
            finished.0,
        );
        let shaped2: i128 = shaping_of(
            &before2,
            &f2,
            &before1,
            &f1,
            action2,
            hits.1,
            hits.0,
            finished.1,
        );
        let v: Verdict = judge(f1.health, f2.health, tick, self.max_ticks, self.winner);
        assert(v == old(self).outcome(*action1, *action2));

        settle(&mut f1);
        settle(&mut f2);
        self.fighter1 = f1;
        self.fighter2 = f2;
        self.tick = tick;
        self.done = v.done;
        self.winner = v.winner;
        (saturate(shaped1 + v.bonus1 as i128), saturate(shaped2 + v.bonus2 as i128), v.done)
    }

    /// Plays up to `n` ticks with the same two actions, stopping with the
    /// tick that ends the match, and returns the summed rewards and whether
    /// the match is over. A convenience for benchmarks.
    pub fn step_n(&mut self, n: u32, action1: &FighterAction, action2: &FighterAction) -> (r: (
        i64,
        i64,
        bool,
    ))
        ensures
            *final(self) == old(self).ran(n as nat, *action1, *action2),
            r.0 == saturated(old(self).run_reward1(n as nat, *action1, *action2)),
            r.1 == saturated(old(self).run_reward2(n as nat, *action1, *action2)),
            r.2 == final(self).done,
    {
        let mut total1: i128 = 0;
        let mut total2: i128 = 0;
        let mut played: u32 = 0;
        let mut over: bool = false;
        while played < n && !over
            invariant
                played <= n,
                -played * 0x8000_0000_0000_0000 <= total1 <= played * 0x8000_0000_0000_0000,
                -played * 0x8000_0000_0000_0000 <= total2 <= played * 0x8000_0000_0000_0000,
                over ==> self.done,
                old(self).ran(n as nat, *action1, *action2) == if over {
                    *self
                } else {
                    self.ran((n - played) as nat, *action1, *action2)
                },
                old(self).run_reward1(n as nat, *action1, *action2) == total1 + if over {
                    0
                } else {
                    self.run_reward1((n - played) as nat, *action1, *action2)
                },
                old(self).run_reward2(n as nat, *action1, *action2) == total2 + if over {
                    0
                } else {
                    self.run_reward2((n - played) as nat, *action1, *action2)
                },
            decreases n - played + if over { 0int } else { 1int },
        {
            let r: (i64, i64, bool) = self.step(action1, action2);
            total1 = total1 + r.0 as i128;
            total2 = total2 + r.1 as i128;
            played = played + 1;
            over = r.2;
        }
        (saturate(total1), saturate(total2), self.done)
    }
}

} // verus!
