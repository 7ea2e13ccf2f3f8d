//! Drawing commands and a model of the surface they act on.

use vstd::prelude::*;

verus! {

/// The fill style that a command makes active.
#[derive(Clone, Copy, Debug, PartialEq, Eq, Structural)]
pub enum Paint {
    /// Opaque white, used to clear the surface.
    White,
    /// The color that the renderer was configured with.
    Configured,
}

/// One call on a 2D immediate-mode drawing context.
#[derive(Clone, Copy, Debug, PartialEq, Eq, Structural)]
pub enum DrawOp {
    /// Make `paint` the active fill style.
    SetFillStyle(Paint),
    /// Fill the rectangle with corner `(x, y)` and the given size with the active fill style.
    FillRect { x: u32, y: u32, width: u32, height: u32 },
    /// Start a new, empty path.
    BeginPath,
    /// Add to the path a full clockwise turn, from angle 0 to angle 2π, of the
    /// circle with the given center and radius.
    Arc { center_x: i128, center_y: i128, radius: u64 },
    /// Fill the current path with the active fill style.
    Fill,
}

} // verus!

verus! {

/// A circle in device pixels.
pub struct Circle {
    pub center_x: int,
    pub center_y: int,
    pub radius: int,
}

/// One fill that has reached the surface, in the order they were made.
pub enum Layer {
    /// A filled rectangle.
    Rect { x: int, y: int, width: int, height: int, paint: Paint },
    /// A filled path made of full circles.
    Shape { path: Seq<Circle>, paint: Paint },
}

/// The state of a drawing context and of the surface it is bound to.
pub struct Canvas {
    /// Current width of the surface in device pixels.
    pub width: nat,
    /// Current height of the surface in device pixels.
    pub height: nat,
    /// The active fill style.
    pub style: Paint,
    /// The circles of the current path.
    pub path: Seq<Circle>,
    /// Every fill made so far, oldest first.
    pub layers: Seq<Layer>,
}

/// The effect of one command on a canvas.
pub open spec fn step(c: Canvas, op: DrawOp) -> Canvas {
    match op {
        DrawOp::SetFillStyle(p) => Canvas { style: p, ..c },
        DrawOp::FillRect { x, y, width, height } => Canvas {
            layers: c.layers.push(
                Layer::Rect { x: x as int, y: y as int, width: width as int, height: height as int, paint: c.style },
            ),
            ..c
        },
        DrawOp::BeginPath => Canvas { path: Seq::empty(), ..c },
        DrawOp::Arc { center_x, center_y, radius } => Canvas {
            path: c.path.push(Circle { center_x: center_x as int, center_y: center_y as int, radius: radius as int }),
            ..c
        },
        DrawOp::Fill => Canvas { layers: c.layers.push(Layer::Shape { path: c.path, paint: c.style }), ..c },
    }
}

/// The effect of a list of commands, run first to last.
pub open spec fn run(c: Canvas, ops: Seq<DrawOp>) -> Canvas
    decreases ops.len(),
{
    if ops.len() == 0 {
        c
    } else {
        run(step(c, ops[0]), ops.drop_first())
    }
}

/// A layer that hides everything beneath it: opaque white over the whole surface.
pub open spec fn covers(l: Layer, width: nat, height: nat) -> bool {
    l matches Layer::Rect { x, y, width: w, height: h, paint }
        && x <= 0 && y <= 0 && x + w >= width && y + h >= height && paint == Paint::White
}

/// The layers that can still be seen: those made since the last one that covers the surface.
pub open spec fn visible(layers: Seq<Layer>, width: nat, height: nat) -> Seq<Layer>
    decreases layers.len(),
{
    if layers.len() == 0 {
        layers
    } else if covers(layers.last(), width, height) {
        seq![layers.last()]
    } else {
        visible(layers.drop_last(), width, height).push(layers.last())
    }
}

/// What an observer can tell of a canvas: its visible layers and the context's state.
pub open spec fn appearance(c: Canvas) -> Canvas {
    Canvas { layers: visible(c.layers, c.width, c.height), ..c }
}

} // verus!
