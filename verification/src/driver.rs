//! The order of work in a run.
//!
//! A run is a row of iterations, one frame each. An iteration steps the
//! simulation, renders the snapshot, maps the staging buffer, extracts the
//! pixels and releases the mapping, and has the frame encoded. Each of these
//! is work on the device or on disk that the caller carries out; when it is
//! done, or has failed, the caller says so and is told what to do next.
//! Nothing of one iteration overlaps the next, and a frame that cannot be
//! extracted is reported and left out, while any other failure ends the run.
//! A run also ends, between two iterations, once the caller has asked it to.

use vstd::prelude::*;
use crate::render::ExtractError;

verus! {

/// What can go wrong in a run.
#[derive(Clone, Copy, Debug, PartialEq, Eq, Structural)]
pub enum Failure {
    /// No device, or a buffer or pipeline could not be made.
    Device,
    /// The device rejected or lost a submission.
    Submission,
    /// The device did not map the staging buffer.
    Mapping,
    /// The mapped bytes were not a capture of the frame.
    Capture,
    /// The image could not be encoded or written.
    Encoding,
}

/// What a failure does to the run.
#[derive(Clone, Copy, Debug, PartialEq, Eq, Structural)]
pub enum Severity {
    /// The frame is left out and the run goes on.
    SkipFrame,
    /// The run ends.
    AbortRun,
}

/// Where an iteration stands.
#[derive(Clone, Copy, Debug, PartialEq, Eq, Structural)]
pub enum Phase {
    /// The simulation step has been handed out.
    Stepping,
    /// The render of the snapshot has been handed out.
    Rendering,
    /// The mapping of the staging buffer has been asked for.
    Mapping,
    /// The staging buffer is mapped and the extraction has been handed out.
    Extracting,
    /// The frame has been handed to the encoder.
    Encoding,
    /// The report of a skipped frame has been handed out.
    Reporting,
    /// The run has ended.
    Stopped,
}

/// What the caller says of the work it was last handed.
#[derive(Clone, Copy, Debug, PartialEq, Eq, Structural)]
pub enum Event {
    /// The work has been carried out.
    Done,
    /// The work has failed.
    Failed(Failure),
}

/// The work that the caller is handed.
#[derive(Clone, Copy, Debug, PartialEq, Eq, Structural)]
pub enum Action {
    /// Carry out the commands of one simulation step.
    Step { frame: u32 },
    /// Carry out the commands of one frame.
    Render { frame: u32 },
    /// Ask for the staging buffer to be mapped, and wait for the answer.
    MapStaging { frame: u32 },
    /// Extract the pixels from the mapped staging buffer and release the
    /// mapping, whether or not a frame comes out.
    Extract { frame: u32 },
    /// Encode the extracted frame and write its file.
    Encode { frame: u32 },
    /// Report that the frame is left out.
    Report { frame: u32, failure: Failure },
    /// Leave the loop: after the failure `cause`, or because the caller asked for the
    /// end or the frame indices are used up.
    Stop { cause: Option<Failure> },
}

/// The state of a run.
pub ghost struct RunState {
    /// Where the current iteration stands.
    pub phase: Phase,
    /// Index of the current iteration's frame, from one.
    pub frame: nat,
    /// Whether the caller has asked for the run to end.
    pub stopping: bool,
}

/// What a failure does to the run: a frame that cannot be mapped or cut out
/// is left out, anything else ends the run.
pub open spec fn severity_of(failure: Failure) -> Severity {
    match failure {
        Failure::Mapping => Severity::SkipFrame,
        Failure::Capture => Severity::SkipFrame,
        Failure::Device => Severity::AbortRun,
        Failure::Submission => Severity::AbortRun,
        Failure::Encoding => Severity::AbortRun,
    }
}

/// Whether the staging buffer is mapped for the host.
pub open spec fn staging_mapped(state: RunState) -> bool {
    state.phase == Phase::Extracting
}

/// Which failure of a run an extraction that gave no frame is.
pub open spec fn failure_of(error: ExtractError) -> Failure {
    match error {
        ExtractError::MapFailed => Failure::Mapping,
        ExtractError::BadCapture => Failure::Capture,
    }
}

/// The first state of a run and the work it starts with.
pub open spec fn first() -> (RunState, Action) {
    (RunState { phase: Phase::Stepping, frame: 1, stopping: false }, Action::Step { frame: 1 })
}

/// The start of the iteration after frame `frame`, or the end of the run
/// where the caller has asked for it or no 32-bit index is left.
pub open spec fn next_iteration(frame: nat, stopping: bool) -> (RunState, Action) {
    if !stopping && frame < u32::MAX {
        (
            RunState { phase: Phase::Stepping, frame: frame + 1, stopping },
            Action::Step { frame: (frame + 1) as u32 },
        )
    } else {
        (RunState { phase: Phase::Stopped, frame, stopping }, Action::Stop { cause: None })
    }
}

/// The state after the caller has asked for the end of the run.
pub open spec fn stop_requested(state: RunState) -> RunState {
    RunState { stopping: true, ..state }
}

/// The state that follows `state` on `event`, and the work to do next.
pub open spec fn next(state: RunState, event: Event) -> (RunState, Action) {
    let frame = state.frame;
    let stopping = state.stopping;
    match (state.phase, event) {
        (Phase::Stopped, _) => (state, Action::Stop { cause: None }),
        (_, Event::Failed(failure)) => match severity_of(failure) {
            Severity::AbortRun => (
                RunState { phase: Phase::Stopped, frame, stopping },
                Action::Stop { cause: Some(failure) },
            ),
            Severity::SkipFrame => (
                RunState { phase: Phase::Reporting, frame, stopping },
                Action::Report { frame: frame as u32, failure },
            ),
        },
        (Phase::Stepping, Event::Done) => (
            RunState { phase: Phase::Rendering, frame, stopping },
            Action::Render { frame: frame as u32 },
        ),
        (Phase::Rendering, Event::Done) => (
            RunState { phase: Phase::Mapping, frame, stopping },
            Action::MapStaging { frame: frame as u32 },
        ),
        (Phase::Mapping, Event::Done) => (
            RunState { phase: Phase::Extracting, frame, stopping },
            Action::Extract { frame: frame as u32 },
        ),
        (Phase::Extracting, Event::Done) => (
            RunState { phase: Phase::Encoding, frame, stopping },
            Action::Encode { frame: frame as u32 },
        ),
        (Phase::Encoding, Event::Done) => next_iteration(frame, stopping),
        (Phase::Reporting, Event::Done) => next_iteration(frame, stopping),
    }
}

/// The state of a run after the events `events`, one after another.
pub open spec fn after(events: Seq<Event>) -> RunState
    decreases events.len(),
{
    if events.len() == 0 {
        first().0
    } else {
        next(after(events.drop_last()), events.last()).0
    }
}

/// A render is handed out only when the step of the same iteration is done,
/// and a step only when the iteration before has been encoded or reported:
/// no work of one iteration starts before the iteration before has ended.
pub proof fn lemma_iterations_do_not_overlap(state: RunState, event: Event)
    requires
        1 <= state.frame <= u32::MAX,
    ensures
        next(state, event).1 is Render ==> state.phase == Phase::Stepping && event == Event::Done
            && next(state, event).1 == (Action::Render { frame: state.frame as u32 }),
        next(state, event).1 is Step ==> (state.phase == Phase::Encoding || state.phase
            == Phase::Reporting) && event == Event::Done && next(state, event).1 == (Action::Step {
            frame: (state.frame + 1) as u32,
        }),
        next(state, event).1 is Encode ==> state.phase == Phase::Extracting && event
            == Event::Done,
{
}

/// The staging buffer is mapped by one extraction at a time: a mapping is
/// asked for only while the buffer is unmapped, the buffer is mapped only
/// while the extraction that releases it is at work, and no step or render
/// is handed out while it is mapped.
pub proof fn lemma_one_mapping_at_a_time(state: RunState, event: Event)
    ensures
        next(state, event).1 is MapStaging ==> !staging_mapped(state),
        staging_mapped(next(state, event).0) ==> !staging_mapped(state) && state.phase
            == Phase::Mapping && next(state, event).1 is Extract,
        staging_mapped(state) ==> !staging_mapped(next(state, event).0),
        next(state, event).1 is Step || next(state, event).1 is Render ==> !staging_mapped(
            state,
        ) && !staging_mapped(next(state, event).0),
{
}

/// Frame indices go up by one from iteration to iteration and never come
/// back: the index changes only where a step is handed out, and a skipped
/// frame uses up its index.
pub proof fn lemma_frame_indices_increase(state: RunState, event: Event)
    requires
        1 <= state.frame <= u32::MAX,
    ensures
        1 <= next(state, event).0.frame <= u32::MAX,
        next(state, event).1 is Step ==> next(state, event).0.frame == state.frame + 1,
        !(next(state, event).1 is Step) ==> next(state, event).0.frame == state.frame,
{
}

/// A failure ends the run unless it is a frame that cannot be mapped or cut
/// out; such a frame is reported under its index and the run goes on with
/// the next. A run that has ended stays ended.
pub proof fn lemma_failures(state: RunState, failure: Failure)
    requires
        1 <= state.frame <= u32::MAX,
    ensures
        state.phase != Phase::Stopped && severity_of(failure) == Severity::AbortRun ==> next(
            state,
            Event::Failed(failure),
        ) == (
            RunState { phase: Phase::Stopped, ..state },
            Action::Stop { cause: Some(failure) },
        ),
        state.phase != Phase::Stopped && severity_of(failure) == Severity::SkipFrame ==> next(
            state,
            Event::Failed(failure),
        ).1 == (Action::Report { frame: state.frame as u32, failure }) && next(
            next(state, Event::Failed(failure)).0,
            Event::Done,
        ) == next_iteration(state.frame, state.stopping),
        state.phase == Phase::Stopped ==> next(state, Event::Failed(failure)).0 == state && next(
            state,
            Event::Done,
        ).0 == state,
{
}

/// Asking for the end never cuts an iteration short: the work in hand goes
/// on as it would have, and the run ends where the next step would have
/// been handed out.
pub proof fn lemma_stop_waits_for_the_iteration(state: RunState, event: Event)
    ensures
        !(next(state, event).1 is Step) ==> next(stop_requested(state), event) == (
            stop_requested(next(state, event).0),
            next(state, event).1,
        ),
        next(state, event).1 is Step ==> next(stop_requested(state), event) == (
            RunState { phase: Phase::Stopped, frame: state.frame, stopping: true },
            Action::Stop { cause: None },
        ),
        state.stopping ==> !(next(state, event).1 is Step),
{
}

/// Every state that a run reaches holds a frame index from one up to the
/// largest 32-bit index.
pub proof fn lemma_reachable(events: Seq<Event>)
    ensures
        1 <= after(events).frame <= u32::MAX,
    decreases events.len(),
{
    if events.len() > 0 {
        lemma_reachable(events.drop_last());
        lemma_frame_indices_increase(after(events.drop_last()), events.last());
    }
}

impl Failure {
    /// Which failure of a run an extraction that gave no frame is.
    pub fn of_extraction(error: ExtractError) -> (failure: Failure)
        ensures
            failure == failure_of(error),
            severity_of(failure) == Severity::SkipFrame,
    {
        match error {
            ExtractError::MapFailed => Failure::Mapping,
            ExtractError::BadCapture => Failure::Capture,
        }
    }

    /// What the failure does to the run.
    pub fn severity(&self) -> (severity: Severity)
        ensures
            severity == severity_of(*self),
    {
        match self {
            Failure::Mapping => Severity::SkipFrame,
            Failure::Capture => Severity::SkipFrame,
            Failure::Device => Severity::AbortRun,
            Failure::Submission => Severity::AbortRun,
            Failure::Encoding => Severity::AbortRun,
        }
    }
}

/// The loop of a run: it is told how the last piece of work ended and says
/// which comes next.
pub struct Driver {
    phase: Phase,
    frame: u32,
    stopping: bool,
}

impl View for Driver {
    type V = RunState;

    closed spec fn view(&self) -> RunState {
        RunState { phase: self.phase, frame: self.frame as nat, stopping: self.stopping }
    }
}

impl Driver {
    #[verifier::type_invariant]
    spec fn inv(self) -> bool {
        self.frame >= 1
    }

    /// Starts a run: the driver of the first iteration, and the step that
    /// the iteration starts with.
    pub fn begin() -> (start: (Driver, Action))
        ensures
            start.0@ == first().0,
            start.1 == first().1,
    {
        (Driver { phase: Phase::Stepping, frame: 1, stopping: false }, Action::Step { frame: 1 })
    }

    /// Where the current iteration stands.
    pub fn phase(&self) -> (phase: Phase)
        ensures
            phase == self@.phase,
    {
        self.phase
    }

    /// Index of the current iteration's frame.
    pub fn frame(&self) -> (frame: u32)
        ensures
            frame == self@.frame,
            frame >= 1,
    {
        proof {
            use_type_invariant(self);
        }
        self.frame
    }

    /// Whether the staging buffer is mapped for the host.
    pub fn staging_is_mapped(&self) -> (mapped: bool)
        ensures
            mapped == staging_mapped(self@),
    {
        match self.phase {
            Phase::Extracting => true,
            _ => false,
        }
    }

    /// Whether the run has ended.
    pub fn is_stopped(&self) -> (stopped: bool)
        ensures
            stopped == (self@.phase == Phase::Stopped),
    {
        match self.phase {
            Phase::Stopped => true,
            _ => false,
        }
    }

    /// Asks for the run to end. The iteration in hand is finished first.
    pub fn request_stop(&mut self)
        ensures
            final(self)@ == stop_requested(old(self)@),
    {
        proof {
            use_type_invariant(&*self);
        }
        self.stopping = true;
    }

    /// Starts the next iteration, or ends the run where the caller has
    /// asked for it or no index is left.
    fn start_next(&mut self) -> (action: Action)
        ensures
            final(self)@ == next_iteration(old(self)@.frame, old(self)@.stopping).0,
            action == next_iteration(old(self)@.frame, old(self)@.stopping).1,
    {
        proof {
            use_type_invariant(&*self);
        }
        if !self.stopping && self.frame < u32::MAX {
            let frame: u32 = self.frame + 1;
            self.frame = frame;
            self.phase = Phase::Stepping;
            Action::Step { frame }
        } else {
            self.phase = Phase::Stopped;
            Action::Stop { cause: None }
        }
    }

    /// Takes in how the work last handed out has ended, and hands out the
    /// next.
    pub fn advance(&mut self, event: Event) -> (action: Action)
        ensures
            final(self)@ == next(old(self)@, event).0,
            action == next(old(self)@, event).1,
    {
        proof {
            use_type_invariant(&*self);
        }
        let frame: u32 = self.frame;
        match self.phase {
            Phase::Stopped => {
                return Action::Stop { cause: None };
            },
            _ => {},
        }
        match event {
            Event::Failed(failure) => match failure.severity() {
                Severity::AbortRun => {
                    self.phase = Phase::Stopped;
                    Action::Stop { cause: Some(failure) }
                },
                Severity::SkipFrame => {
                    self.phase = Phase::Reporting;
                    Action::Report { frame, failure }
                },
            },
            Event::Done => match self.phase {
                Phase::Stepping => {
                    self.phase = Phase::Rendering;
                    Action::Render { frame }
                },
                Phase::Rendering => {
                    self.phase = Phase::Mapping;
                    Action::MapStaging { frame }
                },
                Phase::Mapping => {
                    self.phase = Phase::Extracting;
                    Action::Extract { frame }
                },
                Phase::Extracting => {
                    self.phase = Phase::Encoding;
                    Action::Encode { frame }
                },
                Phase::Encoding => self.start_next(),
                Phase::Reporting => self.start_next(),
                Phase::Stopped => Action::Stop { cause: None },
            },
        }
    }
}

} // verus!
