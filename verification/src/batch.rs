//! The batch container: independent matches addressed by index.
//!
//! An index that names no match is not an error: the call changes nothing and
//! answers with a neutral default (no reward, an all-zero observation, a match
//! that is over, no winner), so that a caller may probe indices freely.

use vstd::prelude::*;
use crate::arena::FastArena;
use crate::fighter::FighterAction;
use crate::observation::holds;
use crate::params::{OBS_LEN, WINNER_NONE};

verus! {

/// A row of independent matches.
pub struct ArenaVec {
    arenas: Vec<FastArena>,
}

impl View for ArenaVec {
    type V = Seq<FastArena>;

    /// The matches in index order.
    closed spec fn view(&self) -> Seq<FastArena> {
        self.arenas@
    }
}

/// The observation that stands for a match the batch does not hold: as long
/// as every observation, and all zero.
pub open spec fn neutral_observation() -> Seq<i64> {
    Seq::new(OBS_LEN as nat, |i: int| 0i64)
}

/// The observation that stands for a match the batch does not hold.
fn neutral_obs() -> (obs: Vec<i64>)
    ensures
        obs@ == neutral_observation(),
{
    let mut obs: Vec<i64> = Vec::new();
    let mut i: usize = 0;
    while i < OBS_LEN
        invariant
            i <= OBS_LEN,
            obs@.len() == i,
            forall|j: int| 0 <= j < i ==> obs@[j] == 0,
        decreases OBS_LEN - i,
    {
        obs.push(0);
        i = i + 1;
    }
    assert(obs@ =~= neutral_observation());
    obs
}

impl ArenaVec {
    /// `count` matches, each in an arena of edge `arena_size` blocks with a
    /// budget of `max_ticks` ticks.
    pub fn new(count: usize, arena_size: i64, max_ticks: u32) -> (batch: ArenaVec)
        ensures
            batch@.len() == count,
            forall|i: int|
                0 <= i < count ==> batch@[i] == FastArena::built(arena_size as int, max_ticks),
    {
        let mut arenas: Vec<FastArena> = Vec::new();
        let mut i: usize = 0;
        while i < count
            invariant
                i <= count,
                arenas@.len() == i,
                forall|j: int|
                    0 <= j < i ==> arenas@[j] == FastArena::built(arena_size as int, max_ticks),
            decreases count - i,
        {
            arenas.push(FastArena::new(arena_size, max_ticks));
            i = i + 1;
        }
        ArenaVec { arenas }
    }

    /// The number of matches.
    pub fn len(&self) -> (n: usize)
        ensures
            n == self@.len(),
    {
        self.arenas.len()
    }

    /// Starts a new episode in every match.
    pub fn reset_all(&mut self, spawn_distance: i64)
        ensures
            final(self)@.len() == old(self)@.len(),
            forall|i: int|
                0 <= i < old(self)@.len() ==> final(self)@[i] == old(self)@[i].restarted(
                    spawn_distance as int,
                ),
    {
        let count: usize = self.arenas.len();
        let mut i: usize = 0;
        while i < count
            invariant
                i <= count,
                count == self.arenas@.len(),
                count == old(self).arenas@.len(),
                forall|j: int|
                    0 <= j < i ==> self.arenas@[j] == old(self).arenas@[j].restarted(
                        spawn_distance as int,
                    ),
                forall|j: int| i <= j < count ==> self.arenas@[j] == old(self).arenas@[j],
            decreases count - i,
        {
            let mut arena: FastArena = self.arenas[i];
            arena.reset(spawn_distance);
            self.arenas.set(i, arena);
            i = i + 1;
        }
    }

    /// Starts a new episode in the match at `idx`, if there is one.
    pub fn reset(&mut self, idx: usize, spawn_distance: i64)
        ensures
            idx < old(self)@.len() ==> final(self)@ == old(self)@.update(
                idx as int,
                old(self)@[idx as int].restarted(spawn_distance as int),
            ),
            idx >= old(self)@.len() ==> final(self)@ == old(self)@,
    {
        if idx < self.arenas.len() {
            let mut arena: FastArena = self.arenas[idx];
            arena.reset(spawn_distance);
            self.arenas.set(idx, arena);
        }
    }

    /// Plays one tick of the match at `idx`. Where there is no such match,
    /// nothing changes and the answer is no reward and a match that is over.
    pub fn step(&mut self, idx: usize, action1: &FighterAction, action2: &FighterAction) -> (r: (
        i64,
        i64,
        bool,
    ))
        ensures
            idx < old(self)@.len() ==> final(self)@ == old(self)@.update(
                idx as int,
                old(self)@[idx as int].stepped(*action1, *action2),
            ),
            idx < old(self)@.len() ==> r == (
                old(self)@[idx as int].step_reward1(*action1, *action2) as i64,
                old(self)@[idx as int].step_reward2(*action1, *action2) as i64,
                old(self)@[idx as int].stepped(*action1, *action2).done,
            ),
            idx >= old(self)@.len() ==> final(self)@ == old(self)@ && r == (0i64, 0i64, true),
    {
        if idx < self.arenas.len() {
            let mut arena: FastArena = self.arenas[idx];
            let r: (i64, i64, bool) = arena.step(action1, action2);
            self.arenas.set(idx, arena);
            r
        } else {
            (0, 0, true)
        }
    }

    /// The first fighter's observation of the match at `idx`, or the neutral
    /// observation where there is no such match.
    pub fn get_obs1(&self, idx: usize) -> (obs: Vec<i64>)
        ensures
            obs@.len() == OBS_LEN,
            idx < self@.len() ==> holds(obs@, self@[idx as int].view1()),
            idx >= self@.len() ==> obs@ == neutral_observation(),
    {
        if idx < self.arenas.len() {
            self.arenas[idx].get_obs1()
        } else {
            neutral_obs()
        }
    }

    /// The second fighter's observation of the match at `idx`, or the neutral
    /// observation where there is no such match.
    pub fn get_obs2(&self, idx: usize) -> (obs: Vec<i64>)
        ensures
            obs@.len() == OBS_LEN,
            idx < self@.len() ==> holds(obs@, self@[idx as int].view2()),
            idx >= self@.len() ==> obs@ == neutral_observation(),
    {
        if idx < self.arenas.len() {
            self.arenas[idx].get_obs2()
        } else {
            neutral_obs()
        }
    }

    /// Whether the match at `idx` is over; a match that is not there is over.
    pub fn is_done(&self, idx: usize) -> (done: bool)
        ensures
            done == (idx >= self@.len() || self@[idx as int].done),
    {
        if idx < self.arenas.len() {
            self.arenas[idx].done
        } else {
            true
        }
    }

    /// The winner of the match at `idx`; a match that is not there has none.
    pub fn get_winner(&self, idx: usize) -> (winner: i32)
        ensures
            winner == if idx < self@.len() {
                self@[idx as int].winner
            } else {
                WINNER_NONE
            },
    {
        if idx < self.arenas.len() {
            self.arenas[idx].winner
        } else {
            WINNER_NONE
        }
    }
}

} // verus!
