//! What gets drawn: colours, the circle, and the operations a host performs
//! to put one frame on screen.

use vstd::prelude::*;

verus! {

/// Ticks in one pixel. Every length in this crate is a whole number of ticks.
pub const TICKS_PER_PIXEL: u64 = 10_000_000;

/// Height of the circle's centre: 300 pixels.
pub const CIRCLE_CENTER_Y: u64 = 3_000_000_000;

/// Radius of the circle: 75 pixels.
pub const CIRCLE_RADIUS: u64 = 750_000_000;

/// Largest deviation allowed between the drawn outline and the true circle:
/// a tenth of a pixel.
pub const CIRCLE_TOLERANCE: u64 = 1_000_000;

/// A colour with four channels. A channel value of 255 is full intensity
/// (for `a`: fully opaque) and 0 is none.
#[derive(Clone, Copy, Debug, PartialEq, Eq, Structural)]
pub struct Color {
    pub r: u8,
    pub g: u8,
    pub b: u8,
    pub a: u8,
}

impl Color {
    /// Opaque black, the background of every frame.
    pub open spec fn opaque_black() -> Color {
        Color { r: 0, g: 0, b: 0, a: 255 }
    }

    /// Opaque red, the colour of the circle.
    pub open spec fn opaque_red() -> Color {
        Color { r: 255, g: 0, b: 0, a: 255 }
    }

    /// Opaque black.
    #[verifier::when_used_as_spec(opaque_black)]
    pub fn black() -> (c: Color)
        ensures
            c == Color::opaque_black(),
    {
        Color { r: 0, g: 0, b: 0, a: 255 }
    }

    /// Opaque red.
    #[verifier::when_used_as_spec(opaque_red)]
    pub fn red() -> (c: Color)
        ensures
            c == Color::opaque_red(),
    {
        Color { r: 255, g: 0, b: 0, a: 255 }
    }
}

/// A filled circle. Centre, radius and tolerance are in ticks.
#[derive(Clone, Copy, Debug, PartialEq, Eq, Structural)]
pub struct Circle {
    pub center_x: u64,
    pub center_y: u64,
    pub radius: u64,
    pub tolerance: u64,
    pub color: Color,
}

impl Circle {
    /// The circle of the animation with its centre `x` ticks from the left
    /// edge. Only the horizontal position ever varies.
    pub open spec fn at_offset(x: u64) -> Circle {
        Circle {
            center_x: x,
            center_y: CIRCLE_CENTER_Y,
            radius: CIRCLE_RADIUS,
            tolerance: CIRCLE_TOLERANCE,
            color: Color::red(),
        }
    }

    /// Builds the circle of the animation with its centre `x` ticks from the
    /// left edge.
    #[verifier::when_used_as_spec(at_offset)]
    pub fn at(x: u64) -> (c: Circle)
        ensures
            c == Circle::at_offset(x),
    {
        Circle {
            center_x: x,
            center_y: CIRCLE_CENTER_Y,
            radius: CIRCLE_RADIUS,
            tolerance: CIRCLE_TOLERANCE,
            color: Color::red(),
        }
    }
}

/// The four operations a host performs for one frame, in the order in which
/// they happen.
#[derive(Clone, Copy, Debug, PartialEq, Eq, Structural)]
pub enum DrawStage {
    /// Clearing the frame buffer.
    Clear,
    /// Constructing the shape.
    Shape,
    /// Submitting the constructed shape for drawing.
    Submit,
    /// Presenting the finished frame buffer.
    Present,
}

impl DrawStage {
    /// Position of the stage within a frame, counting from zero.
    pub open spec fn index(self) -> int {
        match self {
            DrawStage::Clear => 0,
            DrawStage::Shape => 1,
            DrawStage::Submit => 2,
            DrawStage::Present => 3,
        }
    }
}

/// One operation for the host to perform, with everything it needs to know.
#[derive(Clone, Copy, Debug, PartialEq, Eq, Structural)]
pub enum DrawCommand {
    /// Clear the whole frame buffer to the given colour.
    Clear(Color),
    /// Construct the given filled circle.
    BuildCircle(Circle),
    /// Submit the shape constructed last, with the host's default draw
    /// parameters: no translation, scaling or rotation on top of the shape's
    /// own geometry.
    Submit,
    /// Show the finished frame buffer.
    Present,
}

impl DrawCommand {
    /// The stage a command belongs to.
    pub open spec fn stage_of(&self) -> DrawStage {
        match self {
            DrawCommand::Clear(_) => DrawStage::Clear,
            DrawCommand::BuildCircle(_) => DrawStage::Shape,
            DrawCommand::Submit => DrawStage::Submit,
            DrawCommand::Present => DrawStage::Present,
        }
    }

    /// The stage this command belongs to.
    #[verifier::when_used_as_spec(stage_of)]
    pub fn stage(&self) -> (s: DrawStage)
        ensures
            s == self.stage_of(),
    {
        match self {
            DrawCommand::Clear(_) => DrawStage::Clear,
            DrawCommand::BuildCircle(_) => DrawStage::Shape,
            DrawCommand::Submit => DrawStage::Submit,
            DrawCommand::Present => DrawStage::Present,
        }
    }
}

} // verus!
