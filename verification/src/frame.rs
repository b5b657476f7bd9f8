//! The event loop's decisions and the stages of one frame.

use vstd::prelude::*;

verus! {

/// What the event loop does once the current event has been handled.
#[derive(Clone, Copy, Debug, PartialEq, Eq, Structural)]
pub enum Flow {
    /// Run again at once.
    Poll,
    /// Sleep until the next event arrives.
    Wait,
    /// Leave the loop.
    Exit,
}

/// An event as the loop's logic sees it.
#[derive(Clone, Copy, Debug, PartialEq, Eq, Structural)]
pub enum LoopEvent {
    /// The user asked to close a window; `own_window` tells whether it is
    /// the window that is drawn to.
    CloseRequested { own_window: bool },
    /// All pending redraws have been handled.
    RedrawEventsCleared,
    /// The window must be drawn.
    RedrawRequested,
    /// Anything else.
    Other,
}

/// The work an event asks of the program.
#[derive(Clone, Copy, Debug, PartialEq, Eq, Structural)]
pub enum Effect {
    /// Nothing to do.
    Idle,
    /// Ask the window for another redraw.
    RequestRedraw,
    /// Draw and present one frame.
    DrawFrame,
}

/// The loop's flow after `event`, given the flow before it. Closing the
/// drawn window ends the loop; an event of no interest puts the loop to
/// sleep; every other event leaves the flow as it was.
pub open spec fn flow_after(event: LoopEvent, flow: Flow) -> Flow {
    match event {
        LoopEvent::CloseRequested { own_window } => if own_window {
            Flow::Exit
        } else {
            flow
        },
        LoopEvent::RedrawEventsCleared => flow,
        LoopEvent::RedrawRequested => flow,
        LoopEvent::Other => Flow::Wait,
    }
}

/// The work that `event` asks for.
pub open spec fn effect_of(event: LoopEvent) -> Effect {
    match event {
        LoopEvent::RedrawEventsCleared => Effect::RequestRedraw,
        LoopEvent::RedrawRequested => Effect::DrawFrame,
        _ => Effect::Idle,
    }
}

/// Handles one event: updates the loop's flow and says what to do.
pub fn on_event(event: LoopEvent, flow: &mut Flow) -> (effect: Effect)
    ensures
        *final(flow) == flow_after(event, *old(flow)),
        effect == effect_of(event),
{
    match event {
        LoopEvent::CloseRequested { own_window } => {
            if own_window {
                *flow = Flow::Exit;
            }
            Effect::Idle
        },
        LoopEvent::RedrawEventsCleared => Effect::RequestRedraw,
        LoopEvent::RedrawRequested => Effect::DrawFrame,
        LoopEvent::Other => {
            *flow = Flow::Wait;
            Effect::Idle
        },
    }
}

/// Where the drawing of one frame stands.
#[derive(Clone, Copy, Debug, PartialEq, Eq, Structural)]
pub enum FrameStage {
    /// Acquire the next presentable image.
    Acquire,
    /// Submit the recorded commands against the acquired image.
    Submit,
    /// Present the image and wait until the GPU is done.
    Present,
    /// Nothing is left to do for this frame.
    Finished,
}

/// The stage that follows `stage`, given whether its work succeeded. A
/// failed stage ends the frame without a report; what presenting returns is
/// not looked at.
pub open spec fn stage_after(stage: FrameStage, succeeded: bool) -> FrameStage {
    match stage {
        FrameStage::Acquire => if succeeded {
            FrameStage::Submit
        } else {
            FrameStage::Finished
        },
        FrameStage::Submit => if succeeded {
            FrameStage::Present
        } else {
            FrameStage::Finished
        },
        FrameStage::Present => FrameStage::Finished,
        FrameStage::Finished => FrameStage::Finished,
    }
}

impl FrameStage {
    /// The stage every frame starts in.
    pub fn start() -> (stage: FrameStage)
        ensures
            stage == FrameStage::Acquire,
    {
        FrameStage::Acquire
    }

    /// Moves on from `self` once its work has been attempted.
    pub fn advance(self, succeeded: bool) -> (next: FrameStage)
        ensures
            next == stage_after(self, succeeded),
    {
        match self {
            FrameStage::Acquire => if succeeded {
                FrameStage::Submit
            } else {
                FrameStage::Finished
            },
            FrameStage::Submit => if succeeded {
                FrameStage::Present
            } else {
                FrameStage::Finished
            },
            FrameStage::Present => FrameStage::Finished,
            FrameStage::Finished => FrameStage::Finished,
        }
    }

    /// Tells whether the frame is over.
    pub fn is_finished(self) -> (r: bool)
        ensures
            r == (self == FrameStage::Finished),
    {
        match self {
            FrameStage::Finished => true,
            _ => false,
        }
    }
}

/// A close request for the drawn window ends the loop whatever the flow was
/// before, and asks for no other work.
pub proof fn lemma_close_ends_loop(flow: Flow)
    ensures
        flow_after(LoopEvent::CloseRequested { own_window: true }, flow) == Flow::Exit,
        effect_of(LoopEvent::CloseRequested { own_window: true }) == Effect::Idle,
{
}

/// A frame is over after at most three stages, whatever succeeded.
pub proof fn lemma_frame_ends(acquired: bool, submitted: bool, presented: bool)
    ensures
        stage_after(
            stage_after(stage_after(FrameStage::Acquire, acquired), submitted),
            presented,
        ) == FrameStage::Finished,
{
}

/// A frame reaches presentation exactly when both acquiring the image and
/// submitting the commands succeeded.
pub proof fn lemma_present_needs_both(acquired: bool, submitted: bool)
    ensures
        stage_after(stage_after(FrameStage::Acquire, acquired), submitted) == FrameStage::Present
            <==> acquired && submitted,
{
}

/// A finished frame stays finished.
pub proof fn lemma_finished_is_final(succeeded: bool)
    ensures
        stage_after(FrameStage::Finished, succeeded) == FrameStage::Finished,
{
}

} // verus!
