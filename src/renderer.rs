//! The renderer: its configuration and the frame it draws.

use vstd::prelude::*;

use crate::draw::{Canvas, Circle, DrawOp, Layer, Paint, appearance, run, step, visible};

verus! {

/// Offset, in device pixels, subtracted from each coordinate of the circle's center.
pub const CENTER_SHIFT: i128 = 25;

/// Radius of the circle at a pixel ratio of one.
pub const BASE_RADIUS: u64 = 50;

/// Why a renderer could not be made.
#[derive(Clone, Copy, Debug, PartialEq, Eq, Structural)]
pub enum RendererError {
    /// The surface did not yield a 2D drawing context.
    ContextUnavailable,
}

/// Draws one filled circle on a surface, cleared to white before each frame.
///
/// `S` is the host's surface handle, `X` the 2D context bound to it and `C` the
/// fill color, carried through unread.
pub struct Renderer<S, X, C> {
    surface: S,
    context: X,
    pixel_ratio: u32,
    color: C,
}

/// The circle drawn for the given offsets.
pub open spec fn circle_at(pixel_ratio: int, offset_x: int, offset_y: int) -> Circle {
    Circle {
        center_x: pixel_ratio * offset_x - CENTER_SHIFT,
        center_y: pixel_ratio * offset_y - CENTER_SHIFT,
        radius: pixel_ratio * BASE_RADIUS,
    }
}

/// The commands that clear a surface of the given size to white and make the
/// configured color active again.
pub open spec fn clear_ops(width: u32, height: u32) -> Seq<DrawOp> {
    seq![
        DrawOp::SetFillStyle(Paint::White),
        DrawOp::FillRect { x: 0, y: 0, width, height },
        DrawOp::SetFillStyle(Paint::Configured),
    ]
}

/// The commands of one frame: clear, then fill the circle at the scaled offsets.
pub open spec fn frame_ops(pixel_ratio: u32, offset_x: u32, offset_y: u32, width: u32, height: u32) -> Seq<DrawOp> {
    clear_ops(width, height) + seq![
        DrawOp::BeginPath,
        DrawOp::Arc {
            center_x: (pixel_ratio * offset_x - CENTER_SHIFT) as i128,
            center_y: (pixel_ratio * offset_y - CENTER_SHIFT) as i128,
            radius: (pixel_ratio * BASE_RADIUS) as u64,
        },
        DrawOp::Fill,
    ]
}

impl<S, X, C> Renderer<S, X, C> {
    /// The surface handle.
    pub closed spec fn surface_spec(&self) -> S {
        self.surface
    }

    /// The 2D context bound to the surface.
    pub closed spec fn context_spec(&self) -> X {
        self.context
    }

    /// The factor from logical coordinates to device pixels.
    pub closed spec fn pixel_ratio_spec(&self) -> u32 {
        self.pixel_ratio
    }

    /// The configured fill color.
    pub closed spec fn color_spec(&self) -> C {
        self.color
    }

    /// A renderer's pixel ratio is at least one.
    pub open spec fn well_formed(&self) -> bool {
        self.pixel_ratio_spec() >= 1
    }

    /// Makes a renderer over `surface`, given the 2D context that the host
    /// acquired from it, or `None` where the surface yielded none.
    pub fn new(surface: S, context: Option<X>, pixel_ratio: u32, color: C) -> (r: Result<Self, RendererError>)
        requires
            pixel_ratio >= 1,
        ensures
            r is Ok <==> context is Some,
            context is None ==> r == Err::<Self, RendererError>(RendererError::ContextUnavailable),
            r matches Ok(rd) ==> {
                &&& context == Some(rd.context_spec())
                &&& rd.surface_spec() == surface
                &&& rd.pixel_ratio_spec() == pixel_ratio
                &&& rd.color_spec() == color
                &&& rd.well_formed()
            },
    {
        match context {
            Some(context) => Ok(Renderer { surface, context, pixel_ratio, color }),
            None => Err(RendererError::ContextUnavailable),
        }
    }

    /// The commands that draw one frame with the circle at the given logical
    /// offsets, on a surface whose current size is `surface_width` by
    /// `surface_height` device pixels.
    pub fn update(&self, offset_x: u32, offset_y: u32, surface_width: u32, surface_height: u32) -> (ops: Vec<DrawOp>)
        requires
            self.well_formed(),
        ensures
            ops@ == frame_ops(self.pixel_ratio_spec(), offset_x, offset_y, surface_width, surface_height),
    {
        let mut ops = Self::clear(surface_width, surface_height);
        ops.push(DrawOp::BeginPath);
        let ratio = self.pixel_ratio as u64;
        proof {
            assert(ratio * offset_x <= 0xffff_ffff * 0xffff_ffff) by (nonlinear_arith)
                requires
                    ratio <= 0xffff_ffff,
                    offset_x <= 0xffff_ffff,
            ;
            assert(ratio * offset_y <= 0xffff_ffff * 0xffff_ffff) by (nonlinear_arith)
                requires
                    ratio <= 0xffff_ffff,
                    offset_y <= 0xffff_ffff,
            ;
        }
        let center_x = (ratio * offset_x as u64) as i128 - CENTER_SHIFT;
        let center_y = (ratio * offset_y as u64) as i128 - CENTER_SHIFT;
        let radius = ratio * BASE_RADIUS;
        ops.push(DrawOp::Arc { center_x, center_y, radius });
        ops.push(DrawOp::Fill);
        proof {
            assert(ops@ =~= frame_ops(self.pixel_ratio_spec(), offset_x, offset_y, surface_width, surface_height));
        }
        ops
    }

    /// The surface this renderer draws on.
    pub fn surface(&self) -> (r: &S)
        ensures
            *r == self.surface_spec(),
    {
        &self.surface
    }

    /// The 2D context bound to the surface.
    pub fn context(&self) -> (r: &X)
        ensures
            *r == self.context_spec(),
    {
        &self.context
    }

    /// The factor from logical coordinates to device pixels.
    pub fn pixel_ratio(&self) -> (r: u32)
        ensures
            r == self.pixel_ratio_spec(),
    {
        self.pixel_ratio
    }

    /// The color the circle is filled with.
    pub fn color(&self) -> (r: &C)
        ensures
            *r == self.color_spec(),
    {
        &self.color
    }

    /// Clears the whole surface to white, then makes the configured color active.
    fn clear(surface_width: u32, surface_height: u32) -> (ops: Vec<DrawOp>)
        ensures
            ops@ == clear_ops(surface_width, surface_height),
    {
        let mut ops: Vec<DrawOp> = Vec::new();
        ops.push(DrawOp::SetFillStyle(Paint::White));
        ops.push(DrawOp::FillRect { x: 0, y: 0, width: surface_width, height: surface_height });
        ops.push(DrawOp::SetFillStyle(Paint::Configured));
        proof {
            assert(ops@ =~= clear_ops(surface_width, surface_height));
        }
        ops
    }
}

/// The canvas after one frame: a white rectangle over the whole surface, then
/// the circle filled with the configured color, which stays active.
pub open spec fn after_frame(c: Canvas, pixel_ratio: u32, offset_x: u32, offset_y: u32, width: u32, height: u32) -> Canvas {
    let circle = circle_at(pixel_ratio as int, offset_x as int, offset_y as int);
    Canvas {
        style: Paint::Configured,
        path: seq![circle],
        layers: c.layers.push(white_over(width, height)).push(Layer::Shape { path: seq![circle], paint: Paint::Configured }),
        ..c
    }
}

/// The white rectangle that clears a surface of the given size.
pub open spec fn white_over(width: u32, height: u32) -> Layer {
    Layer::Rect { x: 0, y: 0, width: width as int, height: height as int, paint: Paint::White }
}

proof fn lemma_run_from(c: Canvas, ops: Seq<DrawOp>, i: int)
    requires
        0 <= i < ops.len(),
    ensures
        run(c, ops.subrange(i, ops.len() as int)) == run(step(c, ops[i]), ops.subrange(i + 1, ops.len() as int)),
{
    assert(ops.subrange(i, ops.len() as int).drop_first() =~= ops.subrange(i + 1, ops.len() as int));
}

/// Running the commands of a frame on any canvas gives `after_frame`.
pub proof fn lemma_frame_effect(c: Canvas, pixel_ratio: u32, offset_x: u32, offset_y: u32, width: u32, height: u32)
    requires
        pixel_ratio >= 1,
    ensures
        run(c, frame_ops(pixel_ratio, offset_x, offset_y, width, height))
            == after_frame(c, pixel_ratio, offset_x, offset_y, width, height),
{
    let f = frame_ops(pixel_ratio, offset_x, offset_y, width, height);
    let n = f.len() as int;
    assert(f.subrange(0, n) =~= f);
    lemma_run_from(c, f, 0);
    let k1 = step(c, f[0]);
    lemma_run_from(k1, f, 1);
    let k2 = step(k1, f[1]);
    lemma_run_from(k2, f, 2);
    let k3 = step(k2, f[2]);
    lemma_run_from(k3, f, 3);
    let k4 = step(k3, f[3]);
    lemma_run_from(k4, f, 4);
    let k5 = step(k4, f[4]);
    lemma_run_from(k5, f, 5);
    let k = step(k5, f[5]);
    assert(run(k, f.subrange(n, n)) == k);
    assert(0 <= pixel_ratio * offset_x <= 0xffff_ffff * 0xffff_ffff) by (nonlinear_arith)
        requires
            pixel_ratio <= 0xffff_ffff,
            offset_x <= 0xffff_ffff,
    ;
    assert(0 <= pixel_ratio * offset_y <= 0xffff_ffff * 0xffff_ffff) by (nonlinear_arith)
        requires
            pixel_ratio <= 0xffff_ffff,
            offset_y <= 0xffff_ffff,
    ;
    assert(k.path =~= seq![circle_at(pixel_ratio as int, offset_x as int, offset_y as int)]);
    assert(k.layers =~= after_frame(c, pixel_ratio, offset_x, offset_y, width, height).layers);
}

/// The circle a frame fills is centered at the offsets scaled by the pixel
/// ratio, less 25 on each axis, with radius 50 times the pixel ratio, and
/// nothing else is filled with it.
pub proof fn lemma_circle_geometry(c: Canvas, pixel_ratio: u32, offset_x: u32, offset_y: u32, width: u32, height: u32)
    requires
        pixel_ratio >= 1,
    ensures
        ({
            let after = run(c, frame_ops(pixel_ratio, offset_x, offset_y, width, height));
            &&& after.layers.len() == c.layers.len() + 2
            &&& after.layers.last() matches Layer::Shape { path, .. } && path == seq![
                Circle {
                    center_x: pixel_ratio * offset_x - 25,
                    center_y: pixel_ratio * offset_y - 25,
                    radius: pixel_ratio * 50,
                },
            ]
        }),
{
    lemma_frame_effect(c, pixel_ratio, offset_x, offset_y, width, height);
}

/// Each frame first covers the whole surface with white: whatever was drawn
/// before, what is visible afterwards is that white and the new circle alone.
pub proof fn lemma_frame_hides_history(c: Canvas, pixel_ratio: u32, offset_x: u32, offset_y: u32, width: u32, height: u32)
    requires
        pixel_ratio >= 1,
        c.width == width,
        c.height == height,
    ensures
        visible(run(c, frame_ops(pixel_ratio, offset_x, offset_y, width, height)).layers, c.width, c.height) == seq![
            white_over(width, height),
            Layer::Shape {
                path: seq![circle_at(pixel_ratio as int, offset_x as int, offset_y as int)],
                paint: Paint::Configured,
            },
        ],
{
    lemma_frame_effect(c, pixel_ratio, offset_x, offset_y, width, height);
    let after = after_frame(c, pixel_ratio, offset_x, offset_y, width, height);
    let cleared = c.layers.push(white_over(width, height));
    assert(after.layers.drop_last() =~= cleared);
    assert(visible(cleared, c.width, c.height) == seq![white_over(width, height)]);
    assert(visible(after.layers, c.width, c.height) =~= seq![
        white_over(width, height),
        Layer::Shape {
            path: seq![circle_at(pixel_ratio as int, offset_x as int, offset_y as int)],
            paint: Paint::Configured,
        },
    ]);
}

/// After a frame the active fill style is the configured color, never white.
pub proof fn lemma_fill_style_restored(c: Canvas, pixel_ratio: u32, offset_x: u32, offset_y: u32, width: u32, height: u32)
    requires
        pixel_ratio >= 1,
    ensures
        run(c, frame_ops(pixel_ratio, offset_x, offset_y, width, height)).style == Paint::Configured,
        run(c, frame_ops(pixel_ratio, offset_x, offset_y, width, height)).style != Paint::White,
{
    lemma_frame_effect(c, pixel_ratio, offset_x, offset_y, width, height);
}

/// Drawing the same frame twice in a row looks the same as drawing it once.
pub proof fn lemma_frame_idempotent(c: Canvas, pixel_ratio: u32, offset_x: u32, offset_y: u32, width: u32, height: u32)
    requires
        pixel_ratio >= 1,
        c.width == width,
        c.height == height,
    ensures
        ({
            let f = frame_ops(pixel_ratio, offset_x, offset_y, width, height);
            appearance(run(run(c, f), f)) == appearance(run(c, f))
        }),
{
    let f = frame_ops(pixel_ratio, offset_x, offset_y, width, height);
    let once = run(c, f);
    lemma_frame_effect(c, pixel_ratio, offset_x, offset_y, width, height);
    lemma_frame_effect(once, pixel_ratio, offset_x, offset_y, width, height);
    lemma_frame_hides_history(c, pixel_ratio, offset_x, offset_y, width, height);
    lemma_frame_hides_history(once, pixel_ratio, offset_x, offset_y, width, height);
}

} // verus!
