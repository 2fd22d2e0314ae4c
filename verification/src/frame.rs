//! One frame: the steps that turn an acquired surface texture into a
//! presented image, and what they amount to.
//!
//! The host acquires the texture and performs the steps; which steps, and in
//! which order, is decided here.

use vstd::prelude::*;
use crate::backend::{surface_failure_text, SurfaceFailure};
use crate::error::{surface_failure_message, RenderError};

verus! {

/// The value of a colour channel at full intensity.
pub const FULL_INTENSITY: u8 = 10;

/// A colour, each channel in tenths of full intensity.
#[derive(Clone, Copy, Debug, PartialEq, Eq, Structural)]
pub struct ClearColor {
    pub red: u8,
    pub green: u8,
    pub blue: u8,
    pub alpha: u8,
}

/// What a pass does to its attachment when it begins.
#[derive(Clone, Copy, Debug, PartialEq, Eq, Structural)]
pub enum LoadOp {
    /// Overwrite it with one colour.
    Clear(ClearColor),
    /// Keep what it holds.
    Load,
}

/// What a pass does to its attachment when it ends.
#[derive(Clone, Copy, Debug, PartialEq, Eq, Structural)]
pub enum StoreOp {
    Store,
    Discard,
}

/// A render pass with a single colour attachment, the view of the frame.
#[derive(Clone, Copy, Debug, PartialEq, Eq, Structural)]
pub struct RenderPass {
    pub load: LoadOp,
    pub store: StoreOp,
    pub depth_stencil: bool,
    pub occlusion_queries: bool,
    pub timestamp_writes: bool,
}

/// One thing for the host to do with the acquired texture.
#[derive(Clone, Copy, Debug, PartialEq, Eq, Structural)]
pub enum FrameStep {
    /// Create a default view over the texture.
    CreateView,
    /// Record one command buffer that holds this pass and nothing else,
    /// targeting the view.
    Encode(RenderPass),
    /// Hand every command buffer recorded so far to the queue, in one call.
    Submit,
    /// Present the texture.
    Present,
}

/// The colour every frame is cleared to: nine tenths of red, two of green,
/// three of blue, and opaque.
pub open spec fn clear_color() -> ClearColor {
    ClearColor { red: 9, green: 2, blue: 3, alpha: 10 }
}

/// The only pass of a frame: clear to the fixed colour, store the result; no
/// depth or stencil attachment, no occlusion queries, no timestamps.
pub open spec fn clear_pass() -> RenderPass {
    RenderPass {
        load: LoadOp::Clear(clear_color()),
        store: StoreOp::Store,
        depth_stencil: false,
        occlusion_queries: false,
        timestamp_writes: false,
    }
}

/// The steps of a frame, in order.
pub open spec fn frame_steps() -> Seq<FrameStep> {
    seq![
        FrameStep::CreateView,
        FrameStep::Encode(clear_pass()),
        FrameStep::Submit,
        FrameStep::Present,
    ]
}

/// What a run of steps has done.
pub struct FrameTally {
    /// Views created.
    pub views: nat,
    /// Command buffers recorded and not yet submitted.
    pub pending: nat,
    /// Command buffers handed to the queue.
    pub submitted: nat,
    /// Calls that handed command buffers to the queue.
    pub submissions: nat,
    /// Calls that presented the texture.
    pub presents: nat,
    /// Every step found what it needs: a pass its view, a submission a
    /// recorded command buffer, a presentation submitted work and a texture
    /// not presented before.
    pub in_order: bool,
}

/// Nothing done yet.
pub open spec fn empty_tally() -> FrameTally {
    FrameTally { views: 0, pending: 0, submitted: 0, submissions: 0, presents: 0, in_order: true }
}

/// A frame rendered whole: one view, one command buffer submitted in one
/// call, none left behind, one presentation, everything in order.
pub open spec fn whole_frame() -> FrameTally {
    FrameTally { views: 1, pending: 0, submitted: 1, submissions: 1, presents: 1, in_order: true }
}

/// The tally after one more step.
pub open spec fn tally_step(tally: FrameTally, step: FrameStep) -> FrameTally {
    match step {
        FrameStep::CreateView => FrameTally { views: tally.views + 1, ..tally },
        FrameStep::Encode(_) => FrameTally {
            pending: tally.pending + 1,
            in_order: tally.in_order && tally.views > 0,
            ..tally
        },
        FrameStep::Submit => FrameTally {
            pending: 0,
            submitted: tally.submitted + tally.pending,
            submissions: tally.submissions + 1,
            in_order: tally.in_order && tally.pending > 0,
            ..tally
        },
        FrameStep::Present => FrameTally {
            presents: tally.presents + 1,
            in_order: tally.in_order && tally.submitted > 0 && tally.presents == 0,
            ..tally
        },
    }
}

/// The tally after a run of steps.
pub open spec fn tally(steps: Seq<FrameStep>) -> FrameTally
    decreases steps.len(),
{
    if steps.len() == 0 {
        empty_tally()
    } else {
        tally_step(tally(steps.drop_last()), steps.last())
    }
}

/// The passes that a run of steps records, in order.
pub open spec fn passes(steps: Seq<FrameStep>) -> Seq<RenderPass>
    decreases steps.len(),
{
    if steps.len() == 0 {
        Seq::empty()
    } else {
        match steps.last() {
            FrameStep::Encode(pass) => passes(steps.drop_last()).push(pass),
            _ => passes(steps.drop_last()),
        }
    }
}

/// What rendering owes for the outcome of acquiring the texture: on success
/// the texture again and the steps of a frame, on a failure of any kind the
/// error that wraps the sentence of the failure.
pub open spec fn frame_outcome<T>(
    acquired: Result<T, SurfaceFailure>,
    outcome: Result<(T, Vec<FrameStep>), RenderError>,
) -> bool {
    match acquired {
        Ok(texture) => {
            &&& outcome matches Ok((target, steps))
            &&& target == texture
            &&& steps@ == frame_steps()
        },
        Err(failure) => {
            &&& outcome matches Err(error)
            &&& error@ == surface_failure_message(surface_failure_text(failure))
        },
    }
}

/// Two outcomes say the same: the same texture and steps, or the same
/// message.
pub open spec fn same_outcome<T>(
    first: Result<(T, Vec<FrameStep>), RenderError>,
    second: Result<(T, Vec<FrameStep>), RenderError>,
) -> bool {
    match (first, second) {
        (Ok(a), Ok(b)) => a.0 == b.0 && a.1@ == b.1@,
        (Err(a), Err(b)) => a@ == b@,
        _ => false,
    }
}

/// The steps of a frame.
pub fn plan_frame() -> (steps: Vec<FrameStep>)
    ensures
        steps@ == frame_steps(),
{
    let pass = RenderPass {
        load: LoadOp::Clear(ClearColor { red: 9, green: 2, blue: 3, alpha: FULL_INTENSITY }),
        store: StoreOp::Store,
        depth_stencil: false,
        occlusion_queries: false,
        timestamp_writes: false,
    };
    let mut steps: Vec<FrameStep> = Vec::new();
    steps.push(FrameStep::CreateView);
    steps.push(FrameStep::Encode(pass));
    steps.push(FrameStep::Submit);
    steps.push(FrameStep::Present);
    assert(steps@ =~= frame_steps());
    steps
}

/// A frame's steps render it whole: they record exactly one pass, the clear
/// pass, submit exactly one command buffer in one call, present once, and
/// leave nothing recorded behind.
pub proof fn lemma_frame_is_whole()
    ensures
        tally(frame_steps()) == whole_frame(),
        passes(frame_steps()) == seq![clear_pass()],
{
    let steps = frame_steps();
    let three = steps.drop_last();
    let two = three.drop_last();
    let one = two.drop_last();
    let none = one.drop_last();
    assert(none.len() == 0);
    assert(tally(none) == empty_tally());
    assert(tally(one) == tally_step(tally(none), FrameStep::CreateView));
    assert(tally(two) == tally_step(tally(one), FrameStep::Encode(clear_pass())));
    assert(tally(three) == tally_step(tally(two), FrameStep::Submit));
    assert(tally(steps) == tally_step(tally(three), FrameStep::Present));
    assert(passes(none) == Seq::<RenderPass>::empty());
    assert(passes(one) == passes(none));
    assert(passes(two) == passes(one).push(clear_pass()));
    assert(passes(three) == passes(two));
    assert(passes(steps) == passes(three));
    assert(passes(steps) =~= seq![clear_pass()]);
}

/// A frame is rendered whole or not at all: it succeeds exactly when its
/// texture was acquired, and then its steps are those of a whole frame; a
/// failure comes with no steps to perform.
pub proof fn lemma_frame_whole_or_nothing<T>(
    acquired: Result<T, SurfaceFailure>,
    outcome: Result<(T, Vec<FrameStep>), RenderError>,
)
    requires
        frame_outcome(acquired, outcome),
    ensures
        outcome is Ok <==> acquired is Ok,
        outcome matches Ok((_, steps)) ==> tally(steps@) == whole_frame(),
{
    lemma_frame_is_whole();
}

/// A renderer that is handed an acquired texture renders, however fresh it
/// is: the frame is whole, with exactly one command buffer submitted and
/// exactly one presentation.
pub proof fn lemma_acquired_texture_renders<T>(
    texture: T,
    outcome: Result<(T, Vec<FrameStep>), RenderError>,
)
    requires
        frame_outcome(Ok(texture), outcome),
    ensures
        outcome matches Ok((_, steps)) && tally(steps@) == whole_frame(),
        outcome matches Ok((_, steps)) && tally(steps@).submitted == 1 && tally(steps@).presents
            == 1,
{
    lemma_frame_is_whole();
}

/// Frames are independent: what comes of a frame depends on the acquisition
/// of its own texture and on nothing that went before.
pub proof fn lemma_frames_independent<T>(
    acquired: Result<T, SurfaceFailure>,
    first: Result<(T, Vec<FrameStep>), RenderError>,
    second: Result<(T, Vec<FrameStep>), RenderError>,
)
    requires
        frame_outcome(acquired, first),
        frame_outcome(acquired, second),
    ensures
        same_outcome(first, second),
{
}

} // verus!
