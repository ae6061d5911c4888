//! The command surface shared with a live game client: how the directional
//! intents of an action translate into one walk command.

use vstd::prelude::*;
use crate::fighter::FighterAction;

verus! {

/// The eight directions a client can be told to walk in, and standing still.
#[derive(Clone, Copy, Debug, PartialEq, Eq)]
pub enum WalkDirection {
    Halt,
    Forward,
    Backward,
    Left,
    Right,
    ForwardLeft,
    ForwardRight,
    BackwardLeft,
    BackwardRight,
}

/// The walk command for four directional intents.
///
/// One intent alone gives its direction. Forward or backward together with
/// left or right gives the diagonal. Every other combination (nothing at all,
/// both of an opposite pair, three or four intents) gives no walk.
pub open spec fn walk_command(forward: bool, backward: bool, left: bool, right: bool)
    -> WalkDirection {
    if forward && backward || left && right {
        WalkDirection::Halt
    } else if forward {
        if left {
            WalkDirection::ForwardLeft
        } else if right {
            WalkDirection::ForwardRight
        } else {
            WalkDirection::Forward
        }
    } else if backward {
        if left {
            WalkDirection::BackwardLeft
        } else if right {
            WalkDirection::BackwardRight
        } else {
            WalkDirection::Backward
        }
    } else if left {
        WalkDirection::Left
    } else if right {
        WalkDirection::Right
    } else {
        WalkDirection::Halt
    }
}

/// The walk command for four directional intents.
pub fn walk_direction(forward: bool, backward: bool, left: bool, right: bool) -> (d: WalkDirection)
    ensures
        d == walk_command(forward, backward, left, right),
{
    match (forward, backward, left, right) {
        (true, false, false, false) => WalkDirection::Forward,
        (false, true, false, false) => WalkDirection::Backward,
        (false, false, true, false) => WalkDirection::Left,
        (false, false, false, true) => WalkDirection::Right,
        (true, false, true, false) => WalkDirection::ForwardLeft,
        (true, false, false, true) => WalkDirection::ForwardRight,
        (false, true, true, false) => WalkDirection::BackwardLeft,
        (false, true, false, true) => WalkDirection::BackwardRight,
        _ => WalkDirection::Halt,
    }
}

impl FighterAction {
    /// The walk command that stands for this action's directional intents.
    pub fn walk_direction(&self) -> (d: WalkDirection)
        ensures
            d == walk_command(self.forward, self.backward, self.left, self.right),
    {
        walk_direction(self.forward, self.backward, self.left, self.right)
    }
}

} // verus!
