//! The match: two fighters in a bounded arena, a tick counter and an outcome.

use vstd::prelude::*;
use crate::fighter::Fighter;
use crate::fixed::quotient;
use crate::params::{DEFAULT_ARENA_SIZE, DEFAULT_MAX_TICKS, WINNER_NONE};
use crate::trig::QUARTER_TURN;

verus! {

/// One match between two fighters.
#[derive(Clone, Copy, Debug, PartialEq, Eq)]
pub struct FastArena {
    pub fighter1: Fighter,
    pub fighter2: Fighter,
    /// Ticks played since the last reset.
    pub tick: u32,
    /// Whether the match is over; it stays over until the next reset.
    pub done: bool,
    /// One of `WINNER_NONE`, `WINNER_FIGHTER1`, `WINNER_FIGHTER2`, `WINNER_DRAW`.
    pub winner: i32,
    /// The walls, in blocks.
    pub min_x: i64,
    pub max_x: i64,
    pub min_z: i64,
    pub max_z: i64,
    /// Height of the floor, in blocks.
    pub floor_y: i64,
    /// The tick budget.
    pub max_ticks: u32,
}

impl FastArena {
    /// A square arena of edge `arena_size` centred on the origin, with the
    /// floor at height zero and two fresh fighters at its centre. Each wall
    /// stands half the edge from the origin, the half rounded toward zero.
    /// An edge below zero puts the walls out of order; no position lies
    /// between such walls, and movement then leaves a fighter on one of them.
    pub open spec fn built(arena_size: int, max_ticks: u32) -> FastArena {
        FastArena {
            fighter1: Fighter::fresh(),
            fighter2: Fighter::fresh(),
            tick: 0,
            done: false,
            winner: WINNER_NONE,
            min_x: (-quotient(arena_size, 2)) as i64,
            max_x: quotient(arena_size, 2) as i64,
            min_z: (-quotient(arena_size, 2)) as i64,
            max_z: quotient(arena_size, 2) as i64,
            floor_y: 0,
            max_ticks,
        }
    }

    /// The arena at the start of a new episode: the fighters face each other
    /// across the origin along the x axis, and the tick counter and the
    /// outcome are cleared. Walls and budget stay.
    ///
    /// Each fighter stands half of `spawn_distance` from the origin, the half
    /// rounded toward zero, so that the two are mirror images: an odd number
    /// of millionths leaves them one millionth closer than asked, and a
    /// distance of one millionth leaves both on the origin. The fighters are
    /// placed where asked even if that is beyond the walls; the first tick
    /// brings them inside.
    pub open spec fn restarted(self, spawn_distance: int) -> FastArena {
        FastArena {
            fighter1: Fighter::spawned(-quotient(spawn_distance, 2), -QUARTER_TURN),
            fighter2: Fighter::spawned(quotient(spawn_distance, 2), QUARTER_TURN as int),
            tick: 0,
            done: false,
            winner: WINNER_NONE,
            ..self
        }
    }

    /// A match in an arena of edge `arena_size` blocks that lasts at most
    /// `max_ticks` ticks.
    pub fn new(arena_size: i64, max_ticks: u32) -> (arena: FastArena)
        ensures
            arena == FastArena::built(arena_size as int, max_ticks),
            arena.min_x == -arena.max_x,
            arena.min_z == -arena.max_z,
            arena.max_x == arena.max_z,
            arena_size >= 0 ==> arena.min_x <= arena.max_x && arena.min_z <= arena.max_z,
    {
        let half: i64 = arena_size / 2;
        FastArena {
            fighter1: Fighter::new(),
            fighter2: Fighter::new(),
            tick: 0,
            done: false,
            winner: WINNER_NONE,
            min_x: -half,
            max_x: half,
            min_z: -half,
            max_z: half,
            floor_y: 0,
            max_ticks,
        }
    }

    /// Starts a new episode with the fighters `spawn_distance` blocks apart.
    pub fn reset(&mut self, spawn_distance: i64)
        ensures
            *final(self) == old(self).restarted(spawn_distance as int),
    {
        let half: i64 = spawn_distance / 2;
        let mut first: Fighter = Fighter::new();
        first.x = -half;
        first.yaw = -QUARTER_TURN;
        let mut second: Fighter = Fighter::new();
        second.x = half;
        second.yaw = QUARTER_TURN;
        self.fighter1 = first;
        self.fighter2 = second;
        self.tick = 0;
        self.done = false;
        self.winner = WINNER_NONE;
    }

    /// The first fighter's state.
    pub fn get_fighter1(&self) -> (f: Fighter)
        ensures
            f == self.fighter1,
    {
        self.fighter1
    }

    /// The second fighter's state.
    pub fn get_fighter2(&self) -> (f: Fighter)
        ensures
            f == self.fighter2,
    {
        self.fighter2
    }
}

impl Default for FastArena {
    /// A match in an arena of the default size with the default budget.
    fn default() -> (arena: FastArena)
        ensures
            arena == FastArena::built(DEFAULT_ARENA_SIZE as int, DEFAULT_MAX_TICKS),
    {
        FastArena::new(DEFAULT_ARENA_SIZE, DEFAULT_MAX_TICKS)
    }
}

} // verus!
