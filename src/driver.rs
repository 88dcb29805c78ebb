//! The state machine that drives a sketch: set up once, then draw frame after
//! frame until asked to stop.

use vstd::prelude::*;

verus! {

/// Where a sketch is in its life.
#[derive(Clone, Copy, Debug, PartialEq, Eq, Structural)]
pub enum Phase {
    Uninitialized,
    Running,
    Stopped,
}

/// One thing the driver's loop must do, in the order handed out.
#[derive(Clone, Copy, Debug, PartialEq, Eq, Structural)]
pub enum Step {
    /// Queue the context owner's setup.
    SetupContext,
    /// Call the user's `setup` callback.
    UserSetup,
    /// Call the user's `draw` callback.
    UserDraw,
    /// Queue a poll of the window's events.
    PollEvents,
    /// Queue the presentation of the frame.
    SwapBuffers,
    /// Run every command waiting on the bridge.
    RunQueued,
}

/// The steps that start a sketch.
pub open spec fn start_steps() -> Seq<Step> {
    seq![Step::SetupContext, Step::UserSetup]
}

/// The steps of one frame.
pub open spec fn frame_steps() -> Seq<Step> {
    seq![Step::UserDraw, Step::PollEvents, Step::SwapBuffers, Step::RunQueued]
}

/// The sketch driver.
pub struct Driver {
    phase: Phase,
}

impl Driver {
    /// A driver that has not started.
    pub fn new() -> (r: Driver)
        ensures
            r.phase_spec() == Phase::Uninitialized,
    {
        Driver { phase: Phase::Uninitialized }
    }

    pub closed spec fn phase_spec(&self) -> Phase {
        self.phase
    }

    /// The current phase.
    pub fn phase(&self) -> (r: Phase)
        ensures
            r == self.phase_spec(),
    {
        self.phase
    }

    /// Whether frames are being drawn.
    pub fn is_running(&self) -> (r: bool)
        ensures
            r == (self.phase_spec() == Phase::Running),
    {
        match self.phase {
            Phase::Running => true,
            _ => false,
        }
    }

    /// Starts the sketch: from `Uninitialized` it moves to `Running` and hands
    /// out the context's setup and the user's setup; in any other phase it does
    /// nothing and hands out nothing, so setup happens at most once.
    pub fn start(&mut self) -> (r: Vec<Step>)
        ensures
            old(self).phase_spec() == Phase::Uninitialized ==> {
                &&& final(self).phase_spec() == Phase::Running
                &&& r@ == start_steps()
            },
            old(self).phase_spec() != Phase::Uninitialized ==> {
                &&& final(self).phase_spec() == old(self).phase_spec()
                &&& r@.len() == 0
            },
    {
        match self.phase {
            Phase::Uninitialized => {
                self.phase = Phase::Running;
                let r: Vec<Step> = vec![Step::SetupContext, Step::UserSetup];
                assert(r@ =~= start_steps());
                r
            },
            _ => Vec::new(),
        }
    }

    /// The steps of the next frame while running: draw, queue a poll of the
    /// window and the presentation of the frame, then run everything queued, in
    /// order. In any other phase there is no frame.
    pub fn frame(&self) -> (r: Vec<Step>)
        ensures
            self.phase_spec() == Phase::Running ==> r@ == frame_steps(),
            self.phase_spec() != Phase::Running ==> r@.len() == 0,
    {
        match self.phase {
            Phase::Running => {
                let r: Vec<Step> = vec![
                    Step::UserDraw,
                    Step::PollEvents,
                    Step::SwapBuffers,
                    Step::RunQueued,
                ];
                assert(r@ =~= frame_steps());
                r
            },
            _ => Vec::new(),
        }
    }

    /// Stops the sketch, on a close request or on the user's wish. A stopped
    /// sketch never runs again.
    pub fn stop(&mut self)
        ensures
            final(self).phase_spec() == Phase::Stopped,
    {
        self.phase = Phase::Stopped;
    }
}

} // verus!
