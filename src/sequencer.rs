//! Frame-counted blink and motion schedule.
use vstd::prelude::*;
use crate::raster::EyeState;

verus! {

/// Number of ticks in one animation cycle.
pub const CYCLE_LENGTH: u32 = 80;

/// Duration of one tick, in milliseconds.
pub const TICK_PERIOD_MS: u32 = 50;

/// What to do on a tick.
#[derive(Clone, Copy, PartialEq, Eq, Structural, Debug)]
pub enum Action {
    /// Leave the display and the servos as they are.
    Hold,
    /// Redraw the face with both eyes in the given state.
    DrawFace(EyeState),
    /// Send a new random duty to each servo and toggle the heartbeat light.
    Move,
}

/// The action for tick `t`, taken modulo the cycle length: the eyes open at
/// the start of the cycle, blink from tick 60 to 65, and the head moves at
/// tick 71.
pub open spec fn action_spec(t: int) -> Action {
    let p = t % (CYCLE_LENGTH as int);
    if p == 0 {
        Action::DrawFace(EyeState::Opened)
    } else if p == 60 {
        Action::DrawFace(EyeState::HalfOpened)
    } else if p == 61 {
        Action::DrawFace(EyeState::AlmostClosed)
    } else if p == 62 {
        Action::DrawFace(EyeState::Closed)
    } else if p == 63 {
        Action::DrawFace(EyeState::AlmostClosed)
    } else if p == 64 {
        Action::DrawFace(EyeState::HalfOpened)
    } else if p == 65 {
        Action::DrawFace(EyeState::Opened)
    } else if p == 71 {
        Action::Move
    } else {
        Action::Hold
    }
}

/// The schedule repeats every cycle: tick `t` and tick `t + CYCLE_LENGTH`
/// call for the same action.
pub proof fn lemma_action_periodic(t: int)
    ensures
        action_spec(t) == action_spec(t + CYCLE_LENGTH),
{
    assert((t + 80) % 80 == t % 80);
}

/// The action for any tick count `t`.
pub fn action_at(t: u32) -> (a: Action)
    ensures
        a == action_spec(t as int),
{
    let p = t % CYCLE_LENGTH;
    if p == 0 {
        Action::DrawFace(EyeState::Opened)
    } else if p == 60 {
        Action::DrawFace(EyeState::HalfOpened)
    } else if p == 61 {
        Action::DrawFace(EyeState::AlmostClosed)
    } else if p == 62 {
        Action::DrawFace(EyeState::Closed)
    } else if p == 63 {
        Action::DrawFace(EyeState::AlmostClosed)
    } else if p == 64 {
        Action::DrawFace(EyeState::HalfOpened)
    } else if p == 65 {
        Action::DrawFace(EyeState::Opened)
    } else if p == 71 {
        Action::Move
    } else {
        Action::Hold
    }
}

/// The animation tick, counting from 0 to `CYCLE_LENGTH - 1` and wrapping.
pub struct Sequencer {
    tick: u32,
}

impl Sequencer {
    pub closed spec fn tick_spec(&self) -> int {
        self.tick as int
    }

    pub open spec fn wf(&self) -> bool {
        0 <= self.tick_spec() < CYCLE_LENGTH
    }

    /// A sequencer at tick 0.
    pub fn new() -> (s: Sequencer)
        ensures
            s.wf(),
            s.tick_spec() == 0,
    {
        Sequencer { tick: 0 }
    }

    pub fn tick(&self) -> (t: u32)
        ensures
            t == self.tick_spec(),
    {
        self.tick
    }

    /// The action for the current tick.
    pub fn action(&self) -> (a: Action)
        ensures
            a == action_spec(self.tick_spec()),
    {
        action_at(self.tick)
    }

    /// Moves to the next tick, wrapping to 0 at the end of the cycle.
    pub fn advance(&mut self)
        requires
            old(self).wf(),
        ensures
            final(self).wf(),
            final(self).tick_spec() == (old(self).tick_spec() + 1) % (CYCLE_LENGTH as int),
    {
        if self.tick + 1 < CYCLE_LENGTH {
            self.tick = self.tick + 1;
        } else {
            self.tick = 0;
        }
    }
}

} // verus!
