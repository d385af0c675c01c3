use vstd::prelude::*;

verus! {

/// The kinds of ordinary enemies.
#[derive(Clone, Copy, Debug, PartialEq, Eq, Hash, Structural)]
pub enum EnemyType {
    Walker,
    Jumper,
    Flyer,
    Spiker,
}

/// Walking speed of a patrolling walker.
pub const WALKER_SPEED: u32 = 80;

/// Upward speed a jumper takes each time its timer fires.
pub const JUMPER_VELOCITY: u32 = 400;

/// Which way a patrolling walker is heading.
#[derive(Clone, Copy, Debug, PartialEq, Eq, Structural)]
pub struct PatrolDirection {
    pub right: bool,
}

impl PatrolDirection {
    /// The heading after a patrol step: a walker that went past the right
    /// end of its beat turns left, one past the left end turns right, and
    /// otherwise it keeps going.
    pub open spec fn spec_after_step(self, past_right_end: bool, past_left_end: bool) -> PatrolDirection {
        if past_right_end {
            PatrolDirection { right: false }
        } else if past_left_end {
            PatrolDirection { right: true }
        } else {
            self
        }
    }

    /// Turns the walker around at the ends of its beat.
    pub fn after_step(&mut self, past_right_end: bool, past_left_end: bool)
        ensures
            *final(self) == old(self).spec_after_step(past_right_end, past_left_end),
    {
        if past_right_end {
            self.right = false;
        } else if past_left_end {
            self.right = true;
        }
    }
}

/// Past an end of the beat, a walker always heads back toward the other end.
pub proof fn lemma_patrol_turns_back(d: PatrolDirection, past_right_end: bool, past_left_end: bool)
    ensures
        past_right_end ==> !d.spec_after_step(past_right_end, past_left_end).right,
        !past_right_end && past_left_end ==> d.spec_after_step(past_right_end, past_left_end).right,
        !past_right_end && !past_left_end ==> d.spec_after_step(past_right_end, past_left_end) == d,
{
}

} // verus!
