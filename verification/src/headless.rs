//! A host without a window. It drives the handler exactly as a real host
//! does, but performs nothing: it records the commands it is handed and
//! decides from a script which operation, if any, is to fail.

use vstd::prelude::*;
use crate::handler::{
    capped, AnimationModel, AnimationState, DrawEvent, HostFailure, NextStep,
};
use crate::scene::{Circle, DrawCommand, DrawStage};
use crate::time::{FrameDelta, Timing};

verus! {

/// What happened during one frame.
#[derive(Debug)]
pub struct FrameReport {
    /// The commands the handler issued, in order.
    pub commands: Vec<DrawCommand>,
    /// Whether the frame was finished, or given up and why.
    pub result: Result<(), HostFailure>,
}

/// How a frame ends in which the operation of stage `failing` fails, or none
/// does.
pub open spec fn frame_result(failing: Option<DrawStage>) -> Result<(), HostFailure> {
    match failing {
        None => Ok(()),
        Some(stage) => Err(HostFailure { stage }),
    }
}

/// The number of commands the handler has issued in the current frame when
/// the host is about to send `event`.
spec fn issued(event: DrawEvent) -> int {
    match event {
        DrawEvent::Begin => 0,
        DrawEvent::Completed(stage) => stage.index() + 1,
        DrawEvent::Failed(stage) => stage.index() + 1,
    }
}

/// Whether the circle has made its move for the current frame when the host
/// is about to send `event`.
spec fn moved(event: DrawEvent) -> bool {
    match event {
        DrawEvent::Begin => false,
        DrawEvent::Completed(stage) => stage != DrawStage::Clear,
        DrawEvent::Failed(stage) => stage != DrawStage::Clear,
    }
}

/// An upper bound on the number of events still to come in the current
/// frame once `event` has been sent.
spec fn remaining(event: DrawEvent) -> int {
    match event {
        DrawEvent::Begin => 5,
        DrawEvent::Completed(stage) => 4 - stage.index(),
        DrawEvent::Failed(_) => 0,
    }
}

/// Whether `event` can be the next event of a frame in which the operation
/// of stage `failing` fails, or none does.
spec fn on_script(event: DrawEvent, failing: Option<DrawStage>) -> bool {
    match event {
        DrawEvent::Begin => true,
        DrawEvent::Completed(stage) => failing matches Some(f) ==> stage.index() < f.index(),
        DrawEvent::Failed(stage) => failing == Some(stage),
    }
}

/// Whether the operation of `stage` is the one to fail.
fn fails(failing: Option<DrawStage>, stage: DrawStage) -> (b: bool)
    ensures
        b == (failing == Some(stage)),
{
    match failing {
        None => false,
        Some(f) => f == stage,
    }
}

/// Draws one frame of `state`. Every operation succeeds except the one of
/// stage `failing`, if there is one.
///
/// The handler issues its commands in order up to and including the failing
/// one, then gives the frame up; with no failure it issues all four and
/// finishes. The circle moves unless the clear itself failed.
pub fn draw_frame(state: &mut AnimationState, failing: Option<DrawStage>) -> (report: FrameReport)
    ensures
        final(state)@ == old(state)@.after_frame(failing),
        report.commands@ == old(state)@.commands_until(failing),
        report.result == frame_result(failing),
{
    let mut commands: Vec<DrawCommand> = Vec::new();
    let mut event = DrawEvent::Begin;
    loop
        invariant
            on_script(event, failing),
            commands@ == old(state)@.frame_commands().take(issued(event)),
            state@ == (if moved(event) {
                old(state)@.advance()
            } else {
                old(state)@
            }),
        decreases remaining(event),
    {
        match state.on_draw(event) {
            NextStep::Perform(command) => {
                let stage = command.stage();
                commands.push(command);
                event = if fails(failing, stage) {
                    DrawEvent::Failed(stage)
                } else {
                    DrawEvent::Completed(stage)
                };
            },
            NextStep::Finished => {
                return FrameReport { commands, result: Ok(()) };
            },
            NextStep::Aborted(failure) => {
                return FrameReport { commands, result: Err(failure) };
            },
        }
    }
}

/// The animation after `deltas.len()` frames, each drawn without failure:
/// frame `i` first reports `deltas[i]` as elapsed, then draws.
pub open spec fn after_frames(start: AnimationModel, deltas: Seq<FrameDelta>) -> AnimationModel
    decreases deltas.len(),
{
    if deltas.len() == 0 {
        start
    } else {
        after_frames(start, deltas.drop_last()).on_update(deltas.last()).advance()
    }
}

/// Where the circle is drawn in each of `deltas.len()` successive frames:
/// entry `i` is the x coordinate of its centre in frame `i`, in ticks.
pub open spec fn positions(start: AnimationModel, deltas: Seq<FrameDelta>) -> Seq<u64> {
    Seq::new(deltas.len(), |i: int| after_frames(start, deltas.take(i + 1)).horizontal_offset)
}

/// The sum of the movements that frames of the given lengths call for.
pub open spec fn total_ticks(timing: Timing, deltas: Seq<FrameDelta>) -> nat
    decreases deltas.len(),
{
    if deltas.len() == 0 {
        0
    } else {
        total_ticks(timing, deltas.drop_last()) + timing.ticks_for(deltas.last())
    }
}

/// Runs one frame per entry of `deltas`, in order and without failure, and
/// returns where the circle was drawn in each.
pub fn run_frames(state: &mut AnimationState, deltas: &Vec<FrameDelta>) -> (drawn: Vec<u64>)
    ensures
        final(state)@ == after_frames(old(state)@, deltas@),
        drawn@ == positions(old(state)@, deltas@),
{
    let mut drawn: Vec<u64> = Vec::new();
    let mut i: usize = 0;
    while i < deltas.len()
        invariant
            i <= deltas.len(),
            state@ == after_frames(old(state)@, deltas@.take(i as int)),
            drawn@ == positions(old(state)@, deltas@.take(i as int)),
        decreases deltas.len() - i,
    {
        state.on_update(deltas[i]);
        let report = draw_frame(state, None);
        proof {
            let prefix = deltas@.take(i + 1);
            assert(prefix.drop_last() == deltas@.take(i as int));
            assert(prefix.last() == deltas@[i as int]);
            assert(state@ == after_frames(old(state)@, prefix));
            assert(report.commands@[1] == DrawCommand::BuildCircle(
                Circle::at(state@.horizontal_offset),
            ));
        }
        // The second command of a finished frame is the circle.
        match report.commands[1] {
            DrawCommand::BuildCircle(circle) => {
                drawn.push(circle.center_x);
            },
            _ => {},
        }
        proof {
            let shorter = deltas@.take(i as int);
            let longer = deltas@.take(i + 1);
            assert forall|k: int| 0 <= k < longer.len() implies drawn@[k] == positions(
                old(state)@,
                longer,
            )[k] by {
                if k < i {
                    assert(longer.take(k + 1) == shorter.take(k + 1));
                } else {
                    assert(longer.take(k + 1) == longer);
                }
            }
        }
        i = i + 1;
    }
    proof {
        assert(deltas@.take(i as int) == deltas@);
    }
    drawn
}

/// After any number of frames the circle stands at its starting offset
/// plus the sum of the movements of all frames so far, or at
/// [`OFFSET_MAX`] if that is nearer. What the animation held as its delta
/// before the first frame plays no part, and the timing stays what it was.
pub proof fn lemma_after_frames(start: AnimationModel, deltas: Seq<FrameDelta>)
    ensures
        after_frames(start, deltas).timing == start.timing,
        after_frames(start, deltas).horizontal_offset == capped(
            start.horizontal_offset + total_ticks(start.timing, deltas),
        ),
    decreases deltas.len(),
{
    if deltas.len() > 0 {
        lemma_after_frames(start, deltas.drop_last());
    }
}

/// The positions at which the circle is drawn are the running sums of the
/// frames' movements, in order: in frame `i` it is drawn at the starting
/// offset plus the movements of frames `0` to `i`, as long as that does not
/// pass [`OFFSET_MAX`], and at [`OFFSET_MAX`] from then on.
pub proof fn lemma_positions_are_running_sums(
    start: AnimationModel,
    deltas: Seq<FrameDelta>,
    i: int,
)
    requires
        0 <= i < deltas.len(),
    ensures
        positions(start, deltas).len() == deltas.len(),
        positions(start, deltas)[i] == capped(
            start.horizontal_offset + total_ticks(start.timing, deltas.take(i + 1)),
        ),
        total_ticks(start.timing, deltas.take(i + 1)) == total_ticks(start.timing, deltas.take(i))
            + start.timing.ticks_for(deltas[i]),
{
    lemma_after_frames(start, deltas.take(i + 1));
    assert(deltas.take(i + 1).drop_last() == deltas.take(i));
}

/// Over any run of frames the circle never moves to the left: it is drawn
/// no further left in a later frame than in an earlier one, and in the first
/// frame no further left than where it started.
pub proof fn lemma_positions_never_decrease(
    start: AnimationModel,
    deltas: Seq<FrameDelta>,
    i: int,
    j: int,
)
    requires
        0 <= i <= j < deltas.len(),
    ensures
        start.horizontal_offset <= positions(start, deltas)[i],
        positions(start, deltas)[i] <= positions(start, deltas)[j],
    decreases j,
{
    if i < j {
        lemma_positions_never_decrease(start, deltas, i, j - 1);
        assert(deltas.take(j + 1).drop_last() == deltas.take(j));
    } else if i > 0 {
        lemma_positions_never_decrease(start, deltas, i - 1, i - 1);
        assert(deltas.take(i + 1).drop_last() == deltas.take(i));
    } else {
        assert(deltas.take(1).drop_last() == deltas.take(0));
        assert(after_frames(start, deltas.take(0)) == start);
    }
}

} // verus!
