//! The two halves of a run side by side.
//!
//! The simulation engine owns the bodies and leaves a snapshot of their
//! positions; the render pipeline draws one instance for every body of that
//! snapshot. The state of a run holds both plans, so that the instance count
//! of a frame is the body count of the engine and cannot drift from it.

use vstd::prelude::*;
use crate::layout::{padded_row_bytes, FrameDims};
use crate::naming::ImageFormat;
use crate::render::{frame_commands, RenderCommand, RenderState, RenderView};
use crate::sim::{step_commands, SimCommand, SimState};

verus! {

/// Why a run cannot be set up.
#[derive(Clone, Copy, Debug, PartialEq, Eq, Structural)]
pub enum SetupError {
    /// A padded row of the frame is longer than a 32-bit stride can say.
    FrameTooWide,
    /// There are more bodies than a 32-bit instance count can say.
    TooManyBodies,
}

/// The plans of a run: the simulation engine's and the render pipeline's.
pub struct State {
    /// The simulation engine's plan.
    pub sim_state: SimState,
    /// The render and readback pipeline's plan.
    pub render_state: RenderState,
}

/// What setting up a run of `body_count` bodies and `width` x `height`
/// frames gives: the frame is looked at first, then the bodies.
pub open spec fn setup_is(
    result: Result<State, SetupError>,
    body_count: nat,
    width: nat,
    height: nat,
    format: ImageFormat,
) -> bool {
    if padded_row_bytes(width as int) > u32::MAX {
        result matches Err(e) && e == SetupError::FrameTooWide
    } else if body_count > u32::MAX {
        result matches Err(e) && e == SetupError::TooManyBodies
    } else {
        &&& result matches Ok(state)
        &&& state.sim_state@ == body_count
        &&& state.render_state@ == (RenderView { dims: FrameDims { width, height }, format })
    }
}

impl State {
    /// Plans a run of `body_count` bodies that writes frames of `width` x
    /// `height` pixels as `format`.
    pub fn new(body_count: usize, width: u32, height: u32, format: ImageFormat) -> (result: Result<
        State,
        SetupError,
    >)
        ensures
            setup_is(result, body_count as nat, width as nat, height as nat, format),
    {
        let render_state: RenderState = match RenderState::new(width, height, format) {
            Some(render_state) => render_state,
            None => {
                return Err(SetupError::FrameTooWide);
            },
        };
        let sim_state: SimState = match SimState::new(body_count) {
            Some(sim_state) => sim_state,
            None => {
                return Err(SetupError::TooManyBodies);
            },
        };
        Ok(State { sim_state, render_state })
    }

    /// The commands of one integration step.
    pub fn tick(&self) -> (commands: Vec<SimCommand>)
        ensures
            commands@ == step_commands(self.sim_state@ as int),
    {
        self.sim_state.tick()
    }

    /// The commands of one frame: it draws one instance for every body of
    /// the engine.
    pub fn render(&self) -> (commands: Vec<RenderCommand>)
        ensures
            commands@ == frame_commands(self.render_state@.dims, self.sim_state@ as int),
    {
        self.render_state.render(self.sim_state.body_count())
    }
}

} // verus!
