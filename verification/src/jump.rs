//! The jump resolver: a buffered jump input and the three-stage jump cycle.

use vstd::prelude::*;
use crate::timer::Countdown;

verus! {

/// How long a jump press stays buffered: 0.2 s.
pub const JUMP_BUFFER_NANOS: u64 = 200_000_000;

/// Upward speed of the first jump of the cycle: 10 units.
pub const SINGLE_JUMP_FORCE: i64 = 10_000;

/// Upward speed of the second jump of the cycle: 15 units.
pub const DOUBLE_JUMP_FORCE: i64 = 15_000;

/// Upward speed of the third jump of the cycle: 20 units.
pub const TRIPLE_JUMP_FORCE: i64 = 20_000;

/// Speed of a jump off a wall: 15 units.
pub const WALL_JUMP_FORCE: i64 = 15_000;

/// Where the player stands in the cycle of single, double and triple jump.
#[derive(Clone, Copy, Debug, PartialEq, Eq, Structural)]
pub enum JumpStage {
    Single,
    Double,
    Triple,
}

impl JumpStage {
    /// The stage that the next jump is made at.
    pub open spec fn spec_next(self) -> JumpStage {
        match self {
            JumpStage::Single => JumpStage::Double,
            JumpStage::Double => JumpStage::Triple,
            JumpStage::Triple => JumpStage::Single,
        }
    }

    /// The upward speed of a jump made at this stage.
    pub open spec fn spec_force(self) -> i64 {
        match self {
            JumpStage::Single => SINGLE_JUMP_FORCE,
            JumpStage::Double => DOUBLE_JUMP_FORCE,
            JumpStage::Triple => TRIPLE_JUMP_FORCE,
        }
    }

    pub fn next(self) -> (r: JumpStage)
        ensures
            r == self.spec_next(),
    {
        match self {
            JumpStage::Single => JumpStage::Double,
            JumpStage::Double => JumpStage::Triple,
            JumpStage::Triple => JumpStage::Single,
        }
    }

    pub fn force(self) -> (r: i64)
        ensures
            r == self.spec_force(),
    {
        match self {
            JumpStage::Single => SINGLE_JUMP_FORCE,
            JumpStage::Double => DOUBLE_JUMP_FORCE,
            JumpStage::Triple => TRIPLE_JUMP_FORCE,
        }
    }
}

impl Default for JumpStage {
    fn default() -> (r: JumpStage)
        ensures
            r == JumpStage::Single,
    {
        JumpStage::Single
    }
}

/// The jump state of a player: the buffered input, the timer that lets it
/// expire, and the stage of the jump cycle.
#[derive(Clone, Copy, Debug, PartialEq, Eq, Structural)]
pub struct Jump {
    /// Runs while a jump press is buffered; the press expires when it
    /// finishes.
    pub input_timer: Countdown,
    /// The stage that the next jump is made at.
    pub jump_stage: JumpStage,
    /// Whether a jump press waits to be carried out.
    pub jump_buffered: bool,
}

impl Jump {
    /// The state of a player that has not jumped yet.
    pub open spec fn spec_default() -> Jump {
        Jump {
            input_timer: Countdown::spec_new(JUMP_BUFFER_NANOS),
            jump_stage: JumpStage::Single,
            jump_buffered: false,
        }
    }

    /// The state with the input timer fresh and no press buffered.
    pub open spec fn spec_reset_input(self) -> Jump {
        Jump {
            input_timer: Countdown::spec_new(self.input_timer.duration),
            jump_buffered: false,
            ..self
        }
    }

    /// The state with the cycle back at the single jump.
    pub open spec fn spec_reset_jump_stage(self) -> Jump {
        Jump { jump_stage: JumpStage::Single, ..self }
    }

    /// The state after a jump press: the press is buffered and its window
    /// starts over.
    pub open spec fn spec_buffer_jump(self) -> Jump {
        Jump {
            input_timer: Countdown::spec_new(self.input_timer.duration),
            jump_buffered: true,
            ..self
        }
    }

    /// Whether a buffered press runs out within the next `delta`
    /// nanoseconds.
    pub open spec fn expires_within(self, delta: u64) -> bool {
        self.jump_buffered && self.input_timer.spec_tick(delta).finished
    }

    /// The state after `delta` nanoseconds without a jump. Nothing moves
    /// while no press is buffered. A buffered press that runs out is
    /// dropped; the stage of the cycle stays as it is.
    pub open spec fn spec_update(self, delta: u64) -> Jump {
        if !self.jump_buffered {
            self
        } else if self.expires_within(delta) {
            self.spec_reset_input()
        } else {
            Jump { input_timer: self.input_timer.spec_tick(delta), ..self }
        }
    }

    /// The force that a jump attempt yields: that of the current stage while
    /// a press is buffered, none otherwise.
    pub open spec fn spec_jump_force(self) -> Option<i64> {
        if self.jump_buffered {
            Some(self.jump_stage.spec_force())
        } else {
            None
        }
    }

    /// The state after a jump attempt: a buffered press is used up and the
    /// cycle moves on; without one nothing changes.
    pub open spec fn spec_after_jump(self) -> Jump {
        if self.jump_buffered {
            Jump { jump_stage: self.jump_stage.spec_next(), ..self.spec_reset_input() }
        } else {
            self
        }
    }

    /// Puts the cycle back at the single jump.
    pub fn reset_jump_stage(&mut self)
        ensures
            *final(self) == old(self).spec_reset_jump_stage(),
    {
        self.jump_stage = JumpStage::Single;
    }

    /// Drops a buffered press and starts the input timer over.
    pub fn reset_input(&mut self)
        ensures
            *final(self) == old(self).spec_reset_input(),
    {
        self.jump_buffered = false;
        self.input_timer.reset();
    }

    /// Lets `delta` nanoseconds pass.
    pub fn update(&mut self, delta: u64)
        ensures
            *final(self) == old(self).spec_update(delta),
    {
        if self.jump_buffered {
            self.input_timer.tick(delta);
            if self.input_timer.finished() {
                self.reset_input();
            }
        }
    }

    /// Attempts a jump. Returns the upward speed of the jump if a press was
    /// buffered, and uses the press up.
    pub fn get_jump_force(&mut self) -> (force: Option<i64>)
        ensures
            force == old(self).spec_jump_force(),
            *final(self) == old(self).spec_after_jump(),
    {
        if self.jump_buffered {
            self.reset_input();
            let force = self.jump_stage.force();
            self.jump_stage = self.jump_stage.next();
            Some(force)
        } else {
            None
        }
    }

    /// The speed of a jump off a wall. Drops any buffered press.
    pub fn get_wall_jump_force(&mut self) -> (force: i64)
        ensures
            force == WALL_JUMP_FORCE,
            *final(self) == old(self).spec_reset_input(),
    {
        self.reset_input();
        WALL_JUMP_FORCE
    }

    /// Records a jump press and starts its window over.
    pub fn buffer_jump(&mut self)
        ensures
            *final(self) == old(self).spec_buffer_jump(),
    {
        self.jump_buffered = true;
        self.input_timer.reset();
    }
}

impl Default for Jump {
    fn default() -> (j: Jump)
        ensures
            j == Jump::spec_default(),
    {
        Jump {
            input_timer: Countdown::new(JUMP_BUFFER_NANOS),
            jump_stage: JumpStage::Single,
            jump_buffered: false,
        }
    }
}

/// The sum of a sequence of tick lengths.
pub open spec fn total_nanos(deltas: Seq<u64>) -> int
    decreases deltas.len(),
{
    if deltas.len() == 0 {
        0
    } else {
        deltas[0] + total_nanos(deltas.drop_first())
    }
}

impl Jump {
    /// The state after a jump press followed by a jump attempt.
    pub open spec fn spec_pressed_jump(self) -> Jump {
        self.spec_buffer_jump().spec_after_jump()
    }

    /// The state after one update for each tick length in `deltas`, in
    /// order, with no jump attempt in between.
    pub open spec fn spec_updates(self, deltas: Seq<u64>) -> Jump
        decreases deltas.len(),
    {
        if deltas.len() == 0 {
            self
        } else {
            self.spec_update(deltas[0]).spec_updates(deltas.drop_first())
        }
    }

    /// Jumps made one after the other from the single stage have the forces
    /// of 10, 15 and 20 units, and the fourth has 10 units again.
    pub proof fn lemma_jump_cycle(self)
        requires
            self.jump_stage == JumpStage::Single,
        ensures
            self.spec_buffer_jump().spec_jump_force() == Some(10_000i64),
            self.spec_pressed_jump().spec_buffer_jump().spec_jump_force() == Some(15_000i64),
            self.spec_pressed_jump().spec_pressed_jump().spec_buffer_jump().spec_jump_force()
                == Some(20_000i64),
            self.spec_pressed_jump().spec_pressed_jump().spec_pressed_jump().spec_buffer_jump().spec_jump_force()
                == Some(10_000i64),
    {
    }

    /// Whatever the stage, three jumps made one after the other bring the
    /// cycle back to where it was.
    pub proof fn lemma_cycle_of_three(self)
        ensures
            self.spec_pressed_jump().spec_pressed_jump().spec_pressed_jump().jump_stage
                == self.jump_stage,
    {
    }

    /// A second press before the jump changes nothing: the two presses make
    /// one jump, and the attempt after that jump yields no force.
    pub proof fn lemma_buffer_once(self)
        ensures
            self.spec_buffer_jump().spec_buffer_jump() == self.spec_buffer_jump(),
            self.spec_buffer_jump().spec_buffer_jump().spec_jump_force() == Some(
                self.jump_stage.spec_force(),
            ),
            self.spec_buffer_jump().spec_buffer_jump().spec_after_jump().spec_jump_force()
                is None,
            self.spec_buffer_jump().spec_buffer_jump().spec_after_jump().spec_after_jump()
                == self.spec_buffer_jump().spec_after_jump(),
    {
    }

    /// Without a buffered press, updates change nothing.
    pub proof fn lemma_idle_updates(self, deltas: Seq<u64>)
        requires
            !self.jump_buffered,
        ensures
            self.spec_updates(deltas) == self,
        decreases deltas.len(),
    {
        if deltas.len() > 0 {
            self.spec_update(deltas[0]).lemma_idle_updates(deltas.drop_first());
        }
    }

    /// A buffered press is gone once the updates since have added up to the
    /// time that was left of its window.
    pub proof fn lemma_buffer_runs_out(self, deltas: Seq<u64>)
        requires
            self.jump_buffered,
            !self.input_timer.finished,
            deltas.len() >= 1,
            self.input_timer.elapsed + total_nanos(deltas) >= self.input_timer.duration,
        ensures
            !self.spec_updates(deltas).jump_buffered,
            self.spec_updates(deltas).spec_jump_force() is None,
        decreases deltas.len(),
    {
        let next = self.spec_update(deltas[0]);
        let rest = deltas.drop_first();
        if !next.jump_buffered {
            next.lemma_idle_updates(rest);
        } else {
            assert(!self.input_timer.reaches(deltas[0]));
            if rest.len() == 0 {
                assert(total_nanos(rest) == 0);
            } else {
                next.lemma_buffer_runs_out(rest);
            }
        }
    }

    /// Jump buffer expiry: when the updates after a press add up to the
    /// buffer window or more and no jump was attempted in between, the press
    /// is gone and a jump attempt yields no force.
    pub proof fn lemma_press_expires(self, deltas: Seq<u64>)
        requires
            deltas.len() >= 1,
            total_nanos(deltas) >= self.input_timer.duration,
        ensures
            !self.spec_buffer_jump().spec_updates(deltas).jump_buffered,
            self.spec_buffer_jump().spec_updates(deltas).spec_jump_force() is None,
    {
        self.spec_buffer_jump().lemma_buffer_runs_out(deltas);
    }
}

} // verus!
