//! What holds of every match: the rules that the contracts of the single
//! functions add up to, each stated over the same specifications and proved.

use vstd::prelude::*;
use crate::arena::FastArena;
use crate::combat::{
    aim_error, bearing_to, blow, bumped, connects, gap_squared, is_critical, ready_to_swing,
    striker, victim,
};
use crate::eating::finishes_meal;
use crate::fighter::{Fighter, FighterAction};
use crate::fixed::{
    lemma_quotient_away_bounds, lemma_quotient_away_monotonic, quotient, quotient_away, saturated,
    UNIT,
};
use crate::movement::{dragged, leaps, moved, moved_vx, moved_vz, touches_down};
use crate::observation::{bearing_from, entry, nearness};
use crate::params::{
    ATTACK_COOLDOWN_TICKS, ATTACK_RANGE, DRAW_PENALTY, JUMP_COOLDOWN_TICKS, KILL_REWARD, MAX_PITCH,
    OBS_LEN, SPEED_BONUS, WINNER_DRAW, WINNER_FIGHTER1, WINNER_FIGHTER2,
};
use crate::step::{closeness, cooled, planar_gap, speed_bonus, ticked_down, verdict};
use crate::trig::{lemma_axis_bearings, lemma_wrapped_range, HALF_TURN, QUARTER_TURN};

verus! {

/// The match after one step for each pair of actions in `actions`, in order.
pub open spec fn played(arena: FastArena, actions: Seq<(FighterAction, FighterAction)>) -> FastArena
    decreases actions.len(),
{
    if actions.len() == 0 {
        arena
    } else {
        played(arena, actions.drop_last()).stepped(actions.last().0, actions.last().1)
    }
}

/// Both fighters' health and food are within their ranges.
pub open spec fn vitals_in_range(arena: FastArena) -> bool {
    arena.fighter1.vitals_in_range() && arena.fighter2.vitals_in_range()
}

/// A step keeps health and food of both fighters within their ranges, and a
/// tick of a running match brings them there whatever they were.
pub proof fn law_step_keeps_vitals(arena: FastArena, a1: FighterAction, a2: FighterAction)
    requires
        vitals_in_range(arena) || !arena.done,
    ensures
        vitals_in_range(arena.stepped(a1, a2)),
{
}

/// From a reset on, after any number of steps with any actions, health and
/// food of both fighters are within their ranges.
pub proof fn law_vitals_always_in_range(
    arena: FastArena,
    spawn_distance: i64,
    actions: Seq<(FighterAction, FighterAction)>,
)
    ensures
        vitals_in_range(played(arena.restarted(spawn_distance as int), actions)),
    decreases actions.len(),
{
    if actions.len() > 0 {
        law_vitals_always_in_range(arena, spawn_distance, actions.drop_last());
        law_step_keeps_vitals(
            played(arena.restarted(spawn_distance as int), actions.drop_last()),
            actions.last().0,
            actions.last().1,
        );
    }
}

/// The second fighter's observation is the first fighter's observation of
/// the match with the two fighters exchanged.
pub proof fn law_views_swap(arena: FastArena)
    ensures
        arena.view2() == (FastArena {
            fighter1: arena.fighter2,
            fighter2: arena.fighter1,
            ..arena
        }).view1(),
{
}

/// Whether entry `i` of an observation changes sign when the two fighters
/// stand mirrored across the origin: the own x position, the own heading,
/// the x offset to the foe, and the heading from the foe.
pub open spec fn mirrored_entry(i: int) -> bool {
    i == 0 || i == 9 || i == 13 || i == 18
}

/// Right after a reset the two observations mirror each other: the mirrored
/// entries are opposite, all others are equal. The own heading is minus one
/// half for the first fighter and one half for the second. The heading from
/// the foe is computed anew from each side: from a distance of two
/// millionths on it is one half for the first fighter and minus one half for
/// the second (closer than that, both stand on one point and it is zero).
pub proof fn law_reset_views_mirror(arena: FastArena, spawn_distance: i64)
    ensures
        arena.restarted(spawn_distance as int).view1().len() == OBS_LEN,
        arena.restarted(spawn_distance as int).view2().len() == OBS_LEN,
        forall|i: int|
            0 <= i < OBS_LEN ==> arena.restarted(spawn_distance as int).view2()[i] == if mirrored_entry(
                i,
            ) {
                -arena.restarted(spawn_distance as int).view1()[i]
            } else {
                arena.restarted(spawn_distance as int).view1()[i]
            },
        arena.restarted(spawn_distance as int).view1()[9] == -UNIT / 2,
        arena.restarted(spawn_distance as int).view2()[9] == UNIT / 2,
        spawn_distance >= 2 ==> arena.restarted(spawn_distance as int).view1()[18] == UNIT / 2,
        spawn_distance >= 2 ==> arena.restarted(spawn_distance as int).view2()[18] == -UNIT / 2,
{
    let r = arena.restarted(spawn_distance as int);
    let h = quotient(spawn_distance as int, 2);
    assert(r.fighter1.x == -h);
    assert(r.fighter2.x == h);
    let f1 = r.fighter1;
    let f2 = r.fighter2;
    assert(gap_squared(f1, f2) == gap_squared(f2, f1)) by {
        assert((h - (-h)) * (h - (-h)) == ((-h) - h) * ((-h) - h)) by (nonlinear_arith);
    }
    assert(bearing_from(f2, f1) == -bearing_from(f1, f2)) by {
        if h > 0 {
            lemma_axis_bearings(2 * h);
        } else if h < 0 {
            lemma_axis_bearings(-2 * h);
        } else {
            lemma_axis_bearings(1);
        }
    }
    assert(nearness(f1, f2) == nearness(f2, f1));
    assert forall|i: int| 0 <= i < OBS_LEN implies r.view2()[i] == if mirrored_entry(i) {
        -r.view1()[i]
    } else {
        r.view1()[i]
    } by {
        assert(r.view1()[i] == entry(f1, f2, i));
        assert(r.view2()[i] == entry(f2, f1, i));
        if i == 0 {
        } else if i == 9 {
        } else if i == 13 {
        } else if i == 16 {
        } else if i == 18 {
        } else {
        }
    }
    assert(r.view1()[9] == entry(f1, f2, 9));
    assert(r.view2()[9] == entry(f2, f1, 9));
    assert(r.view1()[18] == entry(f1, f2, 18));
    assert(r.view2()[18] == entry(f2, f1, 18));
    if spawn_distance >= 2 {
        lemma_axis_bearings(2 * h);
        assert(bearing_from(f1, f2) == QUARTER_TURN);
    }
}

/// Right after a reset at a distance of at least two millionths, each
/// fighter looks straight at the other; if the distance is also within the
/// attack range, either fighter's swing would land.
pub proof fn law_reset_face_to_face(arena: FastArena, spawn_distance: i64)
    requires
        spawn_distance >= 2,
    ensures
        aim_error(
            arena.restarted(spawn_distance as int).fighter1,
            arena.restarted(spawn_distance as int).fighter2,
        ) == 0,
        aim_error(
            arena.restarted(spawn_distance as int).fighter2,
            arena.restarted(spawn_distance as int).fighter1,
        ) == 0,
        spawn_distance <= ATTACK_RANGE ==> connects(
            arena.restarted(spawn_distance as int).fighter1,
            arena.restarted(spawn_distance as int).fighter2,
        ) && connects(
            arena.restarted(spawn_distance as int).fighter2,
            arena.restarted(spawn_distance as int).fighter1,
        ),
{
    let r = arena.restarted(spawn_distance as int);
    let h = quotient(spawn_distance as int, 2);
    assert(r.fighter1.x == -h);
    assert(r.fighter2.x == h);
    lemma_axis_bearings(2 * h);
    assert(bearing_to(r.fighter1, r.fighter2) == -QUARTER_TURN);
    assert(bearing_to(r.fighter2, r.fighter1) == QUARTER_TURN);
    if spawn_distance <= ATTACK_RANGE {
        assert((2 * h) * (2 * h) <= ATTACK_RANGE * ATTACK_RANGE) by (nonlinear_arith)
            requires
                0 <= 2 * h <= ATTACK_RANGE,
        ;
        assert((-2 * h) * (-2 * h) == (2 * h) * (2 * h)) by (nonlinear_arith);
        assert(gap_squared(r.fighter1, r.fighter2) == (2 * h) * (2 * h));
        assert(gap_squared(r.fighter2, r.fighter1) == (-2 * h) * (-2 * h));
    }
}

/// A match that is over stays exactly as it is under any step, and the step
/// earns nothing.
pub proof fn law_over_stays_over(arena: FastArena, a1: FighterAction, a2: FighterAction)
    requires
        arena.done,
    ensures
        arena.stepped(a1, a2) == arena,
        arena.step_reward1(a1, a2) == 0,
        arena.step_reward2(a1, a2) == 0,
{
}

/// Once a match is over, no sequence of steps changes it.
pub proof fn law_over_for_good(arena: FastArena, actions: Seq<(FighterAction, FighterAction)>)
    requires
        arena.done,
    ensures
        played(arena, actions) == arena,
    decreases actions.len(),
{
    if actions.len() > 0 {
        law_over_for_good(arena, actions.drop_last());
    }
}

/// A swing at a defender beyond the attack range misses, whatever the
/// attacker's cooldown and heading, and changes nothing in the arena.
pub proof fn law_out_of_reach_misses(arena: FastArena, attacker_idx: usize)
    requires
        gap_squared(arena.attacker(attacker_idx), arena.defender(attacker_idx)) > ATTACK_RANGE
            * ATTACK_RANGE,
    ensures
        !connects(arena.attacker(attacker_idx), arena.defender(attacker_idx)),
        arena.after_attack(attacker_idx) == arena,
{
}

/// A hit takes exactly the blow from the defender's health, which is not
/// held at zero and may become negative (only the end of the `i64` range
/// stops it): 1.2, or 1.8 from an attacker who sprints in the air. The
/// attacker's health is untouched and its cooldown starts in full. The hit
/// interrupts the defender's meal without feeding: the countdown is zero,
/// food and stock are what they were.
pub proof fn law_hit(att: Fighter, def: Fighter)
    ensures
        blow(att) == if is_critical(att) {
            1_800_000int
        } else {
            1_200_000int
        },
        victim(att, def).health == saturated(def.health - blow(att)),
        def.health - blow(att) >= i64::MIN ==> victim(att, def).health == def.health - blow(att),
        striker(att).health == att.health,
        !victim(att, def).eating,
        victim(att, def).eating_ticks == 0,
        victim(att, def).food == def.food,
        victim(att, def).steaks == def.steaks,
        striker(att).attack_cooldown == ATTACK_COOLDOWN_TICKS,
        !ready_to_swing(striker(att)),
{
}

/// A swing that lands changes the two fighters as a hit does, and nothing
/// else in the arena; a swing that does not land changes nothing.
pub proof fn law_swing(arena: FastArena, attacker_idx: usize)
    ensures
        connects(arena.attacker(attacker_idx), arena.defender(attacker_idx)) ==> {
            &&& arena.after_attack(attacker_idx).attacker(attacker_idx) == striker(
                arena.attacker(attacker_idx),
            )
            &&& arena.after_attack(attacker_idx).defender(attacker_idx) == victim(
                arena.attacker(attacker_idx),
                arena.defender(attacker_idx),
            )
        },
        !connects(arena.attacker(attacker_idx), arena.defender(attacker_idx))
            ==> arena.after_attack(attacker_idx) == arena,
        arena.after_attack(attacker_idx).tick == arena.tick,
        arena.after_attack(attacker_idx).done == arena.done,
        arena.after_attack(attacker_idx).winner == arena.winner,
{
}

/// A tick of a running match raises the tick counter by one (a counter that
/// is full stays full) and leaves walls, floor and budget as they are.
pub proof fn law_step_counts_ticks(arena: FastArena, a1: FighterAction, a2: FighterAction)
    requires
        !arena.done,
    ensures
        arena.stepped(a1, a2).tick == bumped(arena.tick),
        arena.tick < u32::MAX ==> arena.stepped(a1, a2).tick == arena.tick + 1,
        arena.stepped(a1, a2).max_ticks == arena.max_ticks,
        arena.stepped(a1, a2).min_x == arena.min_x,
        arena.stepped(a1, a2).max_x == arena.max_x,
        arena.stepped(a1, a2).min_z == arena.min_z,
        arena.stepped(a1, a2).max_z == arena.max_z,
        arena.stepped(a1, a2).floor_y == arena.floor_y,
{
}

/// While the match runs, an attack cooldown of two or more drops by exactly
/// one per tick and no swing of that fighter lands; a cooldown of one or
/// zero is over when the swings are resolved.
pub proof fn law_cooldown_runs_down(arena: FastArena, a1: FighterAction, a2: FighterAction)
    requires
        !arena.done,
    ensures
        arena.fighter1.attack_cooldown >= 2 ==> !arena.first_hits(a1, a2) && arena.stepped(
            a1,
            a2,
        ).fighter1.attack_cooldown == arena.fighter1.attack_cooldown - 1,
        arena.fighter2.attack_cooldown >= 2 ==> !arena.second_hits(a1, a2) && arena.stepped(
            a1,
            a2,
        ).fighter2.attack_cooldown == arena.fighter2.attack_cooldown - 1,
        arena.fighter1.attack_cooldown <= 1 ==> arena.after_movement(
            a1,
            a2,
        ).fighter1.attack_cooldown == 0,
        arena.fighter2.attack_cooldown <= 1 ==> arena.after_first_swing(
            a1,
            a2,
        ).fighter2.attack_cooldown == 0,
{
}

/// While the match runs, a jump cooldown drops by one per tick down to zero,
/// unless the fighter jumps in that tick, which starts it anew.
pub proof fn law_jump_cooldown_runs_down(arena: FastArena, a1: FighterAction, a2: FighterAction)
    requires
        !arena.done,
    ensures
        arena.stepped(a1, a2).fighter1.jump_cooldown == if leaps(cooled(arena.fighter1), a1) {
            JUMP_COOLDOWN_TICKS
        } else {
            ticked_down(arena.fighter1.jump_cooldown)
        },
        arena.stepped(a1, a2).fighter2.jump_cooldown == if leaps(cooled(arena.fighter2), a2) {
            JUMP_COOLDOWN_TICKS
        } else {
            ticked_down(arena.fighter2.jump_cooldown)
        },
        arena.fighter1.jump_cooldown >= 2 ==> !leaps(cooled(arena.fighter1), a1),
        arena.fighter2.jump_cooldown >= 2 ==> !leaps(cooled(arena.fighter2), a2),
{
}

/// A fighter who is hit in a tick finishes no meal in it and ends the tick
/// with no more food than it began with, whatever it asked for.
pub proof fn law_hit_spoils_meal(arena: FastArena, a1: FighterAction, a2: FighterAction)
    ensures
        arena.first_hits(a1, a2) ==> !finishes_meal(arena.after_swings(a1, a2).fighter2, a2.eat)
            && arena.after_meals(a1, a2).fighter2.food <= arena.fighter2.food
            && arena.after_meals(a1, a2).fighter2.steaks == arena.fighter2.steaks,
        arena.second_hits(a1, a2) ==> !finishes_meal(arena.after_swings(a1, a2).fighter1, a1.eat)
            && arena.after_meals(a1, a2).fighter1.food <= arena.fighter1.food
            && arena.after_meals(a1, a2).fighter1.steaks == arena.fighter1.steaks,
{
}

/// Within the budget the speed bonus is positive for every kill before the
/// budget is used up and nothing in the tick that uses it up; it is never
/// more than the full bonus.
pub proof fn law_speed_bonus(tick: int, max_ticks: int)
    requires
        0 <= tick <= max_ticks,
    ensures
        0 <= speed_bonus(tick, max_ticks) <= SPEED_BONUS,
        tick < max_ticks <==> speed_bonus(tick, max_ticks) > 0,
{
    if max_ticks > 0 {
        let left = max_ticks - tick;
        assert(0 <= SPEED_BONUS * left <= SPEED_BONUS * max_ticks && (left > 0 ==> SPEED_BONUS
            * left > 0)) by (nonlinear_arith)
            requires
                0 <= left <= max_ticks,
                SPEED_BONUS == 5_000_000,
        ;
        lemma_quotient_away_bounds(SPEED_BONUS * left, max_ticks);
        lemma_quotient_away_monotonic(SPEED_BONUS * left, SPEED_BONUS * max_ticks, max_ticks);
        assert(quotient_away(SPEED_BONUS * max_ticks, max_ticks) == SPEED_BONUS)
            by (nonlinear_arith)
            requires
                max_ticks > 0,
                SPEED_BONUS == 5_000_000,
        ;
    }
}

/// Within the budget the speed bonus never grows from one tick to a later
/// one, and with a budget of at most `SPEED_BONUS` ticks it falls with every
/// tick.
pub proof fn law_speed_bonus_falls(earlier: int, later: int, max_ticks: int)
    requires
        0 <= earlier <= later <= max_ticks,
    ensures
        speed_bonus(later, max_ticks) <= speed_bonus(earlier, max_ticks),
        earlier < later && max_ticks <= SPEED_BONUS ==> speed_bonus(later, max_ticks)
            < speed_bonus(earlier, max_ticks),
{
    if max_ticks > 0 {
        let a = SPEED_BONUS * (max_ticks - later);
        let c = SPEED_BONUS * (max_ticks - earlier);
        assert(0 <= a <= c && (earlier < later ==> a + SPEED_BONUS <= c)) by (nonlinear_arith)
            requires
                0 <= earlier <= later <= max_ticks,
                a == SPEED_BONUS * (max_ticks - later),
                c == SPEED_BONUS * (max_ticks - earlier),
                SPEED_BONUS == 5_000_000,
        ;
        lemma_quotient_away_monotonic(a, c, max_ticks);
    }
}

/// A fighter who falls to zero health or below loses to the survivor at
/// once: the survivor wins the kill reward and the speed bonus, the fallen
/// fighter pays the kill reward. When both fall in one tick, the second
/// fighter wins.
pub proof fn law_kill(h1: int, h2: int, tick: int, max_ticks: int, winner: i32)
    requires
        h1 <= 0 || h2 <= 0,
        0 <= tick <= u32::MAX,
        0 <= max_ticks <= u32::MAX,
    ensures
        verdict(h1, h2, tick, max_ticks, winner).done,
        h1 > 0 ==> verdict(h1, h2, tick, max_ticks, winner).winner == WINNER_FIGHTER1,
        h1 > 0 ==> verdict(h1, h2, tick, max_ticks, winner).bonus1 == KILL_REWARD + speed_bonus(
            tick,
            max_ticks,
        ),
        h1 > 0 ==> verdict(h1, h2, tick, max_ticks, winner).bonus2 == -KILL_REWARD,
        h1 <= 0 ==> verdict(h1, h2, tick, max_ticks, winner).winner == WINNER_FIGHTER2,
        h1 <= 0 ==> verdict(h1, h2, tick, max_ticks, winner).bonus2 == KILL_REWARD + speed_bonus(
            tick,
            max_ticks,
        ),
        h1 <= 0 ==> verdict(h1, h2, tick, max_ticks, winner).bonus1 == -KILL_REWARD,
{
    lemma_speed_bonus_fits(tick, max_ticks);
}

/// The speed bonus fits well within an `i64` for every tick and budget.
pub proof fn lemma_speed_bonus_fits(tick: int, max_ticks: int)
    requires
        0 <= tick <= u32::MAX,
        0 <= max_ticks <= u32::MAX,
    ensures
        -21_474_836_480_000_000 <= speed_bonus(tick, max_ticks) <= 21_474_836_480_000_000,
{
    if max_ticks > 0 {
        let scaled = SPEED_BONUS * (max_ticks - tick);
        assert(-21_474_836_480_000_000 <= scaled <= 21_474_836_480_000_000);
        lemma_quotient_away_bounds(scaled, max_ticks);
    }
}

/// A match whose budget is used up with both fighters alive and on exactly
/// equal health is a draw, and both pay the draw penalty.
pub proof fn law_draw(h1: int, h2: int, tick: int, max_ticks: int, winner: i32)
    requires
        h1 > 0,
        h1 == h2,
        tick >= max_ticks,
    ensures
        verdict(h1, h2, tick, max_ticks, winner).done,
        verdict(h1, h2, tick, max_ticks, winner).winner == WINNER_DRAW,
        verdict(h1, h2, tick, max_ticks, winner).bonus1 == -DRAW_PENALTY,
        verdict(h1, h2, tick, max_ticks, winner).bonus2 == -DRAW_PENALTY,
{
}

/// In a running match, a tick that leaves a fighter at zero health or below
/// ends the match, whatever the tick count. If the first fighter is alive it
/// wins: on top of what the tick earns otherwise, it gets the kill reward and
/// the speed bonus, and the second fighter pays the kill reward and is left
/// with no health. If the first fighter has fallen, alone or together with
/// the second, the same holds with the fighters exchanged. Within the budget
/// the speed bonus is positive exactly when the kill comes before the tick
/// that uses the budget up.
pub proof fn law_kill_ends_match(arena: FastArena, a1: FighterAction, a2: FighterAction)
    requires
        !arena.done,
        arena.after_meals(a1, a2).fighter1.health <= 0 || arena.after_meals(a1, a2).fighter2.health
            <= 0,
    ensures
        arena.stepped(a1, a2).done,
        arena.stepped(a1, a2).tick == bumped(arena.tick),
        arena.after_meals(a1, a2).fighter1.health > 0 ==> {
            &&& arena.stepped(a1, a2).winner == WINNER_FIGHTER1
            &&& arena.stepped(a1, a2).fighter2.health == 0
            &&& arena.reward1(a1, a2) == arena.shaping1(a1, a2) + KILL_REWARD + speed_bonus(
                bumped(arena.tick) as int,
                arena.max_ticks as int,
            )
            &&& arena.reward2(a1, a2) == arena.shaping2(a1, a2) - KILL_REWARD
        },
        arena.after_meals(a1, a2).fighter1.health <= 0 ==> {
            &&& arena.stepped(a1, a2).winner == WINNER_FIGHTER2
            &&& arena.stepped(a1, a2).fighter1.health == 0
            &&& arena.reward2(a1, a2) == arena.shaping2(a1, a2) + KILL_REWARD + speed_bonus(
                bumped(arena.tick) as int,
                arena.max_ticks as int,
            )
            &&& arena.reward1(a1, a2) == arena.shaping1(a1, a2) - KILL_REWARD
        },
        bumped(arena.tick) <= arena.max_ticks ==> (speed_bonus(
            bumped(arena.tick) as int,
            arena.max_ticks as int,
        ) > 0 <==> bumped(arena.tick) < arena.max_ticks),
{
    law_kill(
        arena.after_meals(a1, a2).fighter1.health as int,
        arena.after_meals(a1, a2).fighter2.health as int,
        bumped(arena.tick) as int,
        arena.max_ticks as int,
        arena.winner,
    );
    if bumped(arena.tick) <= arena.max_ticks {
        law_speed_bonus(bumped(arena.tick) as int, arena.max_ticks as int);
    }
}

/// In a running match, the tick that uses up the budget with both fighters
/// alive and on exactly equal health ends the match in a draw, and the draw
/// penalty is taken from both rewards.
pub proof fn law_budget_draw(arena: FastArena, a1: FighterAction, a2: FighterAction)
    requires
        !arena.done,
        bumped(arena.tick) >= arena.max_ticks,
        arena.after_meals(a1, a2).fighter1.health > 0,
        arena.after_meals(a1, a2).fighter1.health == arena.after_meals(a1, a2).fighter2.health,
    ensures
        arena.stepped(a1, a2).done,
        arena.stepped(a1, a2).winner == WINNER_DRAW,
        arena.outcome(a1, a2).bonus1 == -DRAW_PENALTY,
        arena.outcome(a1, a2).bonus2 == -DRAW_PENALTY,
{
}

/// Movement leaves the heading in `(-180, 180]` degrees and the pitch within
/// the steepest pitch, keeps the fighter on or above the floor (a fighter who
/// meets the floor rests on it), and, in an arena whose walls are in order,
/// between the walls.
pub proof fn law_movement_stays_inside(f: Fighter, a: FighterAction, arena: FastArena)
    ensures
        -HALF_TURN < moved(f, a, arena).yaw <= HALF_TURN,
        -MAX_PITCH <= moved(f, a, arena).pitch <= MAX_PITCH,
        moved(f, a, arena).y >= arena.floor_y,
        touches_down(f, a, arena.floor_y as int) ==> moved(f, a, arena).y == arena.floor_y && moved(
            f,
            a,
            arena,
        ).vy == 0 && moved(f, a, arena).on_ground,
        arena.min_x <= arena.max_x ==> arena.min_x <= moved(f, a, arena).x <= arena.max_x,
        arena.min_z <= arena.max_z ==> arena.min_z <= moved(f, a, arena).z <= arena.max_z,
{
    lemma_wrapped_range(f.yaw + a.delta_yaw);
}

/// Whether a fighter stands inside the arena: between the walls, on or above
/// the floor, with its heading in `(-180, 180]` degrees and its pitch within
/// the steepest pitch.
pub open spec fn stands_inside(f: Fighter, arena: FastArena) -> bool {
    &&& arena.min_x <= f.x <= arena.max_x
    &&& arena.min_z <= f.z <= arena.max_z
    &&& arena.floor_y <= f.y
    &&& -HALF_TURN < f.yaw <= HALF_TURN
    &&& -MAX_PITCH <= f.pitch <= MAX_PITCH
}

/// After every tick of a running match in an arena whose walls are in order,
/// both fighters stand inside the arena, wherever they were before.
pub proof fn law_step_keeps_inside(arena: FastArena, a1: FighterAction, a2: FighterAction)
    requires
        !arena.done,
        arena.min_x <= arena.max_x,
        arena.min_z <= arena.max_z,
    ensures
        stands_inside(arena.stepped(a1, a2).fighter1, arena.stepped(a1, a2)),
        stands_inside(arena.stepped(a1, a2).fighter2, arena.stepped(a1, a2)),
{
    law_movement_stays_inside(cooled(arena.fighter1), a1, arena);
    law_movement_stays_inside(cooled(arena.fighter2), a2, arena);
}

/// Closeness is the same seen from either side: both fighters earn the same
/// for it, and never less than nothing.
pub proof fn law_closeness_symmetric(a: Fighter, b: Fighter)
    ensures
        closeness(a, b) == closeness(b, a),
        closeness(a, b) >= 0,
{
    assert((b.x - a.x) * (b.x - a.x) == (a.x - b.x) * (a.x - b.x)) by (nonlinear_arith);
    assert((b.z - a.z) * (b.z - a.z) == (a.z - b.z) * (a.z - b.z)) by (nonlinear_arith);
    assert(planar_gap(a, b) == planar_gap(b, a));
}

/// A fighter who eats gains no speed from its intents: only drag acts on its
/// horizontal velocity.
pub proof fn law_eating_stops_thrust(f: Fighter, a: FighterAction)
    requires
        f.eating,
    ensures
        moved_vx(f, a) == dragged(f.vx as int),
        moved_vz(f, a) == dragged(f.vz as int),
{
}

} // verus!
