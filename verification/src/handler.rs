//! The frame handler: the state of the animation and its two entry points,
//! one for the passing of time and one for drawing.
//!
//! Drawing is a conversation. The host opens a frame with
//! [`DrawEvent::Begin`], performs the command it is handed, reports how that
//! went, and goes on until the handler says the frame is finished or aborted.
//! The handler never touches a window itself.

use vstd::prelude::*;
use crate::scene::{Circle, Color, DrawCommand, DrawStage, TICKS_PER_PIXEL};
use crate::time::{FrameDelta, Timing, NANOS_PER_SEC};

verus! {

/// The largest horizontal offset the handler can hold. The offset stops
/// growing when it gets there.
pub const OFFSET_MAX: u64 = 0xffff_ffff_ffff_ffff;

/// The offset that stands for the position `x`: `x` itself as long as it
/// fits, [`OFFSET_MAX`] beyond that.
pub open spec fn capped(x: int) -> u64 {
    if x <= OFFSET_MAX {
        x as u64
    } else {
        OFFSET_MAX
    }
}

/// What the host tells the handler while a frame is being drawn.
#[derive(Clone, Copy, Debug, PartialEq, Eq, Structural)]
pub enum DrawEvent {
    /// A new frame is to be drawn; nothing has been done for it yet.
    Begin,
    /// The command of the given stage was performed and succeeded.
    Completed(DrawStage),
    /// The command of the given stage was attempted and failed.
    Failed(DrawStage),
}

/// The one kind of failure there is: an operation of the host did not
/// succeed. `stage` says which.
#[derive(Clone, Copy, Debug, PartialEq, Eq, Structural)]
pub struct HostFailure {
    pub stage: DrawStage,
}

/// The handler's answer to a [`DrawEvent`].
#[derive(Clone, Copy, Debug, PartialEq, Eq, Structural)]
pub enum NextStep {
    /// Perform this command, then report the outcome.
    Perform(DrawCommand),
    /// The frame is complete and on screen.
    Finished,
    /// The frame is given up. Nothing more is to be done for it, and the
    /// failure goes to whoever drives the host.
    Aborted(HostFailure),
}

/// The animation as a mathematical value: what [`AnimationState`] holds, and
/// how each entry point changes it.
pub struct AnimationModel {
    /// The time that passed between the two most recent frames.
    pub last_frame_delta: FrameDelta,
    /// The x coordinate of the circle's centre, in ticks.
    pub horizontal_offset: u64,
    /// How frame deltas are read as movement.
    pub timing: Timing,
}

impl AnimationModel {
    /// The animation before any frame: no time has passed, and the circle's
    /// centre sits on the left edge.
    pub open spec fn initial(timing: Timing) -> AnimationModel {
        AnimationModel { last_frame_delta: FrameDelta { nanos: 0 }, horizontal_offset: 0, timing }
    }

    /// The animation after the host reported that `elapsed` has passed since
    /// the previous frame. Only the stored delta changes.
    pub open spec fn on_update(self, elapsed: FrameDelta) -> AnimationModel {
        AnimationModel { last_frame_delta: elapsed, ..self }
    }

    /// The number of ticks by which drawing a frame now would move the
    /// circle, were there no upper limit.
    pub open spec fn increment(self) -> nat {
        self.timing.ticks_for(self.last_frame_delta)
    }

    /// The animation after the circle moved for one frame: the offset grows
    /// by [`Self::increment`] and stops at [`OFFSET_MAX`].
    pub open spec fn advance(self) -> AnimationModel {
        AnimationModel {
            horizontal_offset: capped(self.horizontal_offset + self.increment()),
            ..self
        }
    }

    /// The handler's reaction to `event`: the animation afterwards, and the
    /// answer to the host.
    ///
    /// A frame runs clear, move, construct, submit, present. The circle moves
    /// once per frame, after the clear succeeded and before the circle is
    /// constructed, so the circle is constructed at the position it has just
    /// moved to. A failure changes nothing and ends the frame at once.
    pub open spec fn on_draw(self, event: DrawEvent) -> (AnimationModel, NextStep) {
        match event {
            DrawEvent::Begin => (self, NextStep::Perform(DrawCommand::Clear(Color::black()))),
            DrawEvent::Completed(DrawStage::Clear) => (
                self.advance(),
                NextStep::Perform(
                    DrawCommand::BuildCircle(Circle::at(self.advance().horizontal_offset)),
                ),
            ),
            DrawEvent::Completed(DrawStage::Shape) => (self, NextStep::Perform(DrawCommand::Submit)),
            DrawEvent::Completed(DrawStage::Submit) => (
                self,
                NextStep::Perform(DrawCommand::Present),
            ),
            DrawEvent::Completed(DrawStage::Present) => (self, NextStep::Finished),
            DrawEvent::Failed(stage) => (self, NextStep::Aborted(HostFailure { stage })),
        }
    }

    /// The commands of one frame in which every operation succeeds, in the
    /// order in which the host gets them.
    pub open spec fn frame_commands(self) -> Seq<DrawCommand> {
        seq![
            DrawCommand::Clear(Color::black()),
            DrawCommand::BuildCircle(Circle::at(self.advance().horizontal_offset)),
            DrawCommand::Submit,
            DrawCommand::Present,
        ]
    }

    /// The commands the host gets during one frame in which the operation of
    /// stage `failing` fails, or none does: all commands up to and including
    /// the failing one, and nothing after it.
    pub open spec fn commands_until(self, failing: Option<DrawStage>) -> Seq<DrawCommand> {
        match failing {
            None => self.frame_commands(),
            Some(stage) => self.frame_commands().take(stage.index() + 1),
        }
    }

    /// The animation after one frame in which the operation of stage
    /// `failing` fails, or none does. The circle has moved unless the frame
    /// was given up before it got to move, that is, unless the clear failed.
    pub open spec fn after_frame(self, failing: Option<DrawStage>) -> AnimationModel {
        if failing == Some(DrawStage::Clear) {
            self
        } else {
            self.advance()
        }
    }
}

/// The state of the animation: the length of the last frame, and where the
/// circle is. Only [`AnimationState::on_update`] and
/// [`AnimationState::on_draw`] change it.
#[derive(Debug)]
pub struct AnimationState {
    last_frame_delta: FrameDelta,
    horizontal_offset: u64,
    timing: Timing,
}

impl View for AnimationState {
    type V = AnimationModel;

    closed spec fn view(&self) -> AnimationModel {
        AnimationModel {
            last_frame_delta: self.last_frame_delta,
            horizontal_offset: self.horizontal_offset,
            timing: self.timing,
        }
    }
}

impl AnimationState {
    /// A fresh animation with the default timing, [`Timing::Subsecond`].
    pub fn new() -> (state: AnimationState)
        ensures
            state@ == AnimationModel::initial(Timing::Subsecond),
            state@.horizontal_offset == 0,
            state@.last_frame_delta.nanos == 0,
    {
        AnimationState::with_timing(Timing::Subsecond)
    }

    /// A fresh animation that reads frame deltas as `timing` says.
    pub fn with_timing(timing: Timing) -> (state: AnimationState)
        ensures
            state@ == AnimationModel::initial(timing),
            state@.horizontal_offset == 0,
            state@.last_frame_delta.nanos == 0,
    {
        AnimationState { last_frame_delta: FrameDelta::zero(), horizontal_offset: 0, timing }
    }

    /// The time that passed between the two most recent frames.
    pub fn last_frame_delta(&self) -> (delta: FrameDelta)
        ensures
            delta == self@.last_frame_delta,
    {
        self.last_frame_delta
    }

    /// The x coordinate of the circle's centre, in ticks.
    pub fn horizontal_offset(&self) -> (x: u64)
        ensures
            x == self@.horizontal_offset,
    {
        self.horizontal_offset
    }

    /// How this animation reads frame deltas.
    pub fn timing(&self) -> (timing: Timing)
        ensures
            timing == self@.timing,
    {
        self.timing
    }

    /// Records that `elapsed` has passed since the previous frame. The circle
    /// does not move until the next frame is drawn.
    pub fn on_update(&mut self, elapsed: FrameDelta)
        ensures
            final(self)@ == old(self)@.on_update(elapsed),
    {
        self.last_frame_delta = elapsed;
    }

    /// Reacts to `event` and says what the host is to do next.
    pub fn on_draw(&mut self, event: DrawEvent) -> (next: NextStep)
        ensures
            (final(self)@, next) == old(self)@.on_draw(event),
    {
        match event {
            DrawEvent::Begin => NextStep::Perform(DrawCommand::Clear(Color::black())),
            DrawEvent::Completed(DrawStage::Clear) => {
                self.move_circle();
                NextStep::Perform(DrawCommand::BuildCircle(Circle::at(self.horizontal_offset)))
            },
            DrawEvent::Completed(DrawStage::Shape) => NextStep::Perform(DrawCommand::Submit),
            DrawEvent::Completed(DrawStage::Submit) => NextStep::Perform(DrawCommand::Present),
            DrawEvent::Completed(DrawStage::Present) => NextStep::Finished,
            DrawEvent::Failed(stage) => NextStep::Aborted(HostFailure { stage }),
        }
    }

    /// Moves the circle for one frame.
    fn move_circle(&mut self)
        ensures
            final(self)@ == old(self)@.advance(),
    {
        let ticks: u128 = self.timing.ticks(self.last_frame_delta);
        let room: u64 = OFFSET_MAX - self.horizontal_offset;
        if ticks <= room as u128 {
            self.horizontal_offset = self.horizontal_offset + ticks as u64;
        } else {
            self.horizontal_offset = OFFSET_MAX;
        }
    }
}

/// The circle never moves to the left: whatever the host reports, the
/// offset afterwards is at least what it was before. Reporting elapsed time
/// leaves the offset as it is.
pub proof fn lemma_offset_never_decreases(m: AnimationModel, event: DrawEvent, elapsed: FrameDelta)
    ensures
        m.on_draw(event).0.horizontal_offset >= m.horizontal_offset,
        m.after_frame(Some(DrawStage::Clear)).horizontal_offset == m.horizontal_offset,
        m.advance().horizontal_offset >= m.horizontal_offset,
        m.on_update(elapsed).horizontal_offset == m.horizontal_offset,
{
}

/// A frame in which everything succeeds is this conversation: on `Begin`
/// the handler asks for the clear; on each completed stage it asks for the
/// command of the next one; after the present it declares the frame
/// finished. The commands are those of [`AnimationModel::frame_commands`] in
/// their order. The circle moves exactly once, between the clear and the
/// construction of the circle, and nothing else about the animation changes.
pub proof fn lemma_frame_conversation(m: AnimationModel)
    ensures
        ({
            let (m0, s0) = m.on_draw(DrawEvent::Begin);
            let (m1, s1) = m0.on_draw(DrawEvent::Completed(DrawStage::Clear));
            let (m2, s2) = m1.on_draw(DrawEvent::Completed(DrawStage::Shape));
            let (m3, s3) = m2.on_draw(DrawEvent::Completed(DrawStage::Submit));
            let (m4, s4) = m3.on_draw(DrawEvent::Completed(DrawStage::Present));
            &&& s0 == NextStep::Perform(m.frame_commands()[0])
            &&& s1 == NextStep::Perform(m.frame_commands()[1])
            &&& s2 == NextStep::Perform(m.frame_commands()[2])
            &&& s3 == NextStep::Perform(m.frame_commands()[3])
            &&& s4 == NextStep::Finished
            &&& m.frame_commands().len() == 4
            &&& m0 == m
            &&& m1 == m.advance()
            &&& m2 == m1 && m3 == m1 && m4 == m1
            &&& m4 == m.after_frame(None)
        }),
{
}

/// The commands of a frame come in the order of their stages: first the
/// clear, then the construction of the circle, then its submission, then the
/// present, one command each.
pub proof fn lemma_commands_in_stage_order(m: AnimationModel, i: int)
    requires
        0 <= i < 4,
    ensures
        m.frame_commands().len() == 4,
        m.frame_commands()[i].stage().index() == i,
{
}

/// A failure ends the frame at once and changes nothing: the handler
/// answers with the failure it was told of and keeps its state.
pub proof fn lemma_failure_aborts(m: AnimationModel, stage: DrawStage)
    ensures
        m.on_draw(DrawEvent::Failed(stage)) == (m, NextStep::Aborted(HostFailure { stage })),
{
}

/// Reporting `elapsed` and then drawing a frame moves the circle by exactly
/// what the timing makes of `elapsed`, provided the result does not pass
/// [`OFFSET_MAX`]. With [`Timing::Subsecond`] that is `elapsed` modulo one
/// second, in nanoseconds; with [`Timing::Whole`] it is all of `elapsed`.
pub proof fn lemma_update_then_draw(m: AnimationModel, elapsed: FrameDelta)
    requires
        m.horizontal_offset + m.timing.ticks_for(elapsed) <= OFFSET_MAX,
    ensures
        m.on_update(elapsed).after_frame(None).horizontal_offset == m.horizontal_offset
            + m.timing.ticks_for(elapsed),
        m.timing == Timing::Subsecond ==> m.timing.ticks_for(elapsed) == elapsed.nanos
            % NANOS_PER_SEC,
        m.timing == Timing::Whole ==> m.timing.ticks_for(elapsed) == elapsed.nanos,
{
}

/// Reporting `elapsed` and then drawing a frame moves the circle by what the
/// timing makes of `elapsed`, or up to [`OFFSET_MAX`] if that is nearer.
pub proof fn lemma_update_then_draw_capped(m: AnimationModel, elapsed: FrameDelta)
    ensures
        m.on_update(elapsed).after_frame(None).horizontal_offset == capped(
            m.horizontal_offset + m.timing.ticks_for(elapsed),
        ),
{
}

/// Drawing does not touch the stored delta, so a frame drawn without a new
/// report of elapsed time moves the circle by the same amount as the frame
/// before it.
pub proof fn lemma_redraw_reuses_delta(m: AnimationModel)
    ensures
        m.after_frame(None).last_frame_delta == m.last_frame_delta,
        m.after_frame(None).timing == m.timing,
        m.after_frame(None).increment() == m.increment(),
        m.horizontal_offset + 2 * m.increment() <= OFFSET_MAX ==> m.after_frame(None).after_frame(
            None,
        ).horizontal_offset == m.horizontal_offset + 2 * m.increment(),
{
}

/// What is drawn depends on the circle's position alone. When the circle
/// stands at `x` after its move, the frame is: clear to opaque black, then a
/// filled circle, opaque red, of radius 75 pixels with its centre at `x` and
/// 300 pixels down, outlined to a tenth of a pixel, then the submission and
/// the present.
pub proof fn lemma_frame_commands_at(m: AnimationModel, x: u64)
    requires
        m.advance().horizontal_offset == x,
    ensures
        m.frame_commands() == seq![
            DrawCommand::Clear(Color { r: 0, g: 0, b: 0, a: 255 }),
            DrawCommand::BuildCircle(
                Circle {
                    center_x: x,
                    center_y: 3_000_000_000,
                    radius: 750_000_000,
                    tolerance: 1_000_000,
                    color: Color { r: 255, g: 0, b: 0, a: 255 },
                },
            ),
            DrawCommand::Submit,
            DrawCommand::Present,
        ],
        3_000_000_000 == 300 * TICKS_PER_PIXEL,
        750_000_000 == 75 * TICKS_PER_PIXEL,
        1_000_000 * 10 == TICKS_PER_PIXEL,
{
}

} // verus!
