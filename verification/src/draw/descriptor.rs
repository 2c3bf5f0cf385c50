//! Brush and stroke descriptors, and their resolution into the native-shaped
//! structures that a drawing call hands to the toolkit.  Resolution happens
//! at the moment of use, owns nothing past the call, and preserves every
//! field of the descriptor exactly.

use vstd::prelude::*;

verus! {

/// One whole unit in the 16.16 fixed-point scale used for all continuous
/// quantities (stroke thickness, gradient endpoints, scale ratios, blit
/// offsets): the value 1.0 of the native layer's coordinate space.
pub const FIXED_ONE: i64 = 65536;

/// A color with 8-bit red, green, blue and alpha components.
#[derive(Clone, Copy, Debug, PartialEq, Eq, Structural)]
pub struct Color {
    pub r: u8,
    pub g: u8,
    pub b: u8,
    pub a: u8,
}

/// A fill/stroke color or gradient descriptor, in its convenient high-level
/// form.  Gradient endpoints are 16.16 fixed-point surface coordinates.
#[derive(Clone, Copy, Debug, PartialEq, Eq, Structural)]
pub enum Brush {
    Solid { color: Color },
    LinearGradient { start: Color, end: Color, start_x: i64, start_y: i64, end_x: i64, end_y: i64 },
}

/// The native on-stack brush structure a drawing call receives, scoped to
/// that call.
#[derive(Clone, Copy, Debug, PartialEq, Eq, Structural)]
pub enum NativeBrush {
    Solid { color: Color },
    LinearGradient { start: Color, end: Color, start_x: i64, start_y: i64, end_x: i64, end_y: i64 },
}

/// The style drawn at the ends of an open stroked figure.
#[derive(Clone, Copy, Debug, PartialEq, Eq, Structural)]
pub enum LineCap {
    Flat,
    Round,
    Square,
}

/// The style drawn where two stroked segments meet.
#[derive(Clone, Copy, Debug, PartialEq, Eq, Structural)]
pub enum LineJoin {
    Miter,
    Round,
    Bevel,
}

/// Cap style, join style, thickness, miter limit and dash configuration for
/// a stroke operation.  Thickness, miter limit, dash lengths and dash phase
/// are 16.16 fixed-point values.
#[derive(Clone, Debug, PartialEq, Eq)]
pub struct StrokeParams {
    pub cap: LineCap,
    pub join: LineJoin,
    pub thickness: i64,
    pub miter_limit: i64,
    pub dash: Vec<i64>,
    pub dash_phase: i64,
}

/// The native on-stack stroke-parameter structure a stroke call receives,
/// scoped to that call.
#[derive(Clone, Debug, PartialEq, Eq)]
pub struct NativeStrokeParams {
    pub cap: LineCap,
    pub join: LineJoin,
    pub thickness: i64,
    pub miter_limit: i64,
    pub dash: Vec<i64>,
    pub dash_phase: i64,
}

/// What resolving a brush yields: the native variant matching the
/// descriptor's variant, with every component carried over unchanged.
pub open spec fn resolve_brush_spec(b: Brush) -> NativeBrush {
    match b {
        Brush::Solid { color } => NativeBrush::Solid { color },
        Brush::LinearGradient { start, end, start_x, start_y, end_x, end_y } => {
            NativeBrush::LinearGradient { start, end, start_x, start_y, end_x, end_y }
        },
    }
}

/// Whether `n` is the faithful native resolution of the stroke descriptor
/// `p`: cap, join, thickness, miter limit, dash pattern and dash phase all
/// preserved unchanged.
pub open spec fn stroke_params_resolved(p: StrokeParams, n: NativeStrokeParams) -> bool {
    &&& n.cap == p.cap
    &&& n.join == p.join
    &&& n.thickness == p.thickness
    &&& n.miter_limit == p.miter_limit
    &&& n.dash@ == p.dash@
    &&& n.dash_phase == p.dash_phase
}

/// Copies a dash pattern so the resolved structure owns its own buffer for
/// the duration of the call.
fn copy_dash(src: &Vec<i64>) -> (r: Vec<i64>)
    ensures
        r@ == src@,
{
    let mut out: Vec<i64> = Vec::new();
    let mut i: usize = 0;
    while i < src.len()
        invariant
            i <= src@.len(),
            out@ == src@.subrange(0, i as int),
        decreases src@.len() - i,
    {
        out.push(src[i]);
        i = i + 1;
        assert(out@ =~= src@.subrange(0, i as int));
    }
    assert(out@ =~= src@);
    out
}

impl Brush {
    /// Resolves this descriptor into the native structure handed to a fill
    /// or stroke call, preserving every field.
    pub fn resolve(&self) -> (n: NativeBrush)
        ensures
            n == resolve_brush_spec(*self),
    {
        match *self {
            Brush::Solid { color } => NativeBrush::Solid { color },
            Brush::LinearGradient { start, end, start_x, start_y, end_x, end_y } => {
                NativeBrush::LinearGradient { start, end, start_x, start_y, end_x, end_y }
            },
        }
    }
}

impl StrokeParams {
    /// Resolves this descriptor into the native structure handed to a
    /// stroke call, preserving every field.
    pub fn resolve(&self) -> (n: NativeStrokeParams)
        ensures
            stroke_params_resolved(*self, n),
    {
        NativeStrokeParams {
            cap: self.cap,
            join: self.join,
            thickness: self.thickness,
            miter_limit: self.miter_limit,
            dash: copy_dash(&self.dash),
            dash_phase: self.dash_phase,
        }
    }
}

/// Resolving a brush keeps the native variant aligned with the descriptor's
/// variant and carries every color component and gradient endpoint over
/// exactly.
pub proof fn lemma_resolve_brush_preserves_fields(b: Brush)
    ensures
        b matches Brush::Solid { color } ==> resolve_brush_spec(b) == (NativeBrush::Solid {
            color,
        }),
        b matches Brush::LinearGradient { start, end, start_x, start_y, end_x, end_y }
            ==> resolve_brush_spec(b) == (NativeBrush::LinearGradient {
            start,
            end,
            start_x,
            start_y,
            end_x,
            end_y,
        }),
{
}

/// Resolving stroke parameters preserves cap, join, thickness, miter limit,
/// dash pattern and dash phase unchanged.
pub proof fn lemma_resolve_stroke_preserves_fields(p: StrokeParams, n: NativeStrokeParams)
    requires
        stroke_params_resolved(p, n),
    ensures
        n.cap == p.cap,
        n.join == p.join,
        n.thickness == p.thickness,
        n.miter_limit == p.miter_limit,
        n.dash@ == p.dash@,
        n.dash_phase == p.dash_phase,
{
}

} // verus!
