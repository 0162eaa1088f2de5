//! Per-canvas graphics state: fill and stroke styles, line, shadow,
//! composition and text settings, the current transform and clip.
//!
//! Scalar settings that are real numbers in the drawing model (line width,
//! shadow offsets, global alpha, transform entries, gradient geometry) are
//! carried as the IEEE-754 bit patterns of those numbers: the state machine
//! stores, saves and restores them bit-exactly and hands them to whatever
//! rasterizes strokes and gradients; it never does arithmetic on them.

use vstd::prelude::*;
use crate::geom::Size;
use crate::surface::Color;

verus! {

/// Bit pattern of 1.0 as a 64-bit float.
pub const F64_ONE_BITS: u64 = 0x3FF0_0000_0000_0000;

/// Bit pattern of 10.0 as a 64-bit float: the default miter limit.
pub const F64_TEN_BITS: u64 = 0x4024_0000_0000_0000;

/// Bit pattern of 1.0 as a 32-bit float.
pub const F32_ONE_BITS: u32 = 0x3F80_0000;

/// A 2D affine transform: the bit patterns of its six float entries,
/// column-major as in the usual `[m11 m12 m21 m22 m31 m32]` layout.
#[derive(Clone, Copy, PartialEq, Eq, Structural, Debug)]
pub struct Transform {
    pub m11: u32,
    pub m12: u32,
    pub m21: u32,
    pub m22: u32,
    pub m31: u32,
    pub m32: u32,
}

impl Transform {
    pub open spec fn identity_spec() -> Transform {
        Transform { m11: F32_ONE_BITS, m12: 0, m21: 0, m22: F32_ONE_BITS, m31: 0, m32: 0 }
    }

    pub fn identity() -> (t: Transform)
        ensures
            t == Transform::identity_spec(),
    {
        Transform { m11: F32_ONE_BITS, m12: 0, m21: 0, m22: F32_ONE_BITS, m31: 0, m32: 0 }
    }
}

#[derive(Clone, Copy, PartialEq, Eq, Structural, Debug)]
pub enum LineCap {
    Butt,
    Round,
    Square,
}

#[derive(Clone, Copy, PartialEq, Eq, Structural, Debug)]
pub enum LineJoin {
    Round,
    Bevel,
    Miter,
}

/// Compositing and blending operators a canvas can be set to. The operator
/// is recorded state; the reference rasterizer composites by replacement and
/// leaves operator-dependent blending to a richer backend.
#[derive(Clone, Copy, PartialEq, Eq, Structural, Debug)]
pub enum CompositionOp {
    SourceOver,
    SourceIn,
    SourceOut,
    SourceAtop,
    DestinationOver,
    DestinationIn,
    DestinationOut,
    DestinationAtop,
    Lighter,
    Copy,
    Xor,
    Clear,
    Multiply,
    Screen,
    Overlay,
    Darken,
    Lighten,
}

#[derive(Clone, Copy, PartialEq, Eq, Structural, Debug)]
pub enum TextAlign {
    Start,
    End,
    Left,
    Right,
    Center,
}

#[derive(Clone, Copy, PartialEq, Eq, Structural, Debug)]
pub enum TextBaseline {
    Top,
    Hanging,
    Middle,
    Alphabetic,
    Ideographic,
    Bottom,
}

/// One gradient colour stop: the bit pattern of its float offset, and its
/// colour.
#[derive(Clone, Copy, PartialEq, Eq, Structural, Debug)]
pub struct GradientStop {
    pub offset: u32,
    pub color: Color,
}

/// What a fill or stroke paints with: a closed variant set.
#[derive(Clone, PartialEq, Debug)]
pub enum FillOrStrokeStyle {
    Solid(Color),
    LinearGradient { x0: u32, y0: u32, x1: u32, y1: u32, stops: Vec<GradientStop> },
    RadialGradient {
        cx0: u32,
        cy0: u32,
        r0: u32,
        cx1: u32,
        cy1: u32,
        r1: u32,
        stops: Vec<GradientStop>,
    },
    Pattern { size: Size, data: Vec<Color>, repeat_x: bool, repeat_y: bool },
}

/// The mathematical value of a style.
pub enum StyleV {
    Solid(Color),
    LinearGradient { x0: u32, y0: u32, x1: u32, y1: u32, stops: Seq<GradientStop> },
    RadialGradient {
        cx0: u32,
        cy0: u32,
        r0: u32,
        cx1: u32,
        cy1: u32,
        r1: u32,
        stops: Seq<GradientStop>,
    },
    Pattern { size: Size, data: Seq<Color>, repeat_x: bool, repeat_y: bool },
}

impl View for FillOrStrokeStyle {
    type V = StyleV;

    open spec fn view(&self) -> StyleV {
        match self {
            FillOrStrokeStyle::Solid(c) => StyleV::Solid(*c),
            FillOrStrokeStyle::LinearGradient { x0, y0, x1, y1, stops } => StyleV::LinearGradient {
                x0: *x0,
                y0: *y0,
                x1: *x1,
                y1: *y1,
                stops: stops@,
            },
            FillOrStrokeStyle::RadialGradient { cx0, cy0, r0, cx1, cy1, r1, stops } => {
                StyleV::RadialGradient {
                    cx0: *cx0,
                    cy0: *cy0,
                    r0: *r0,
                    cx1: *cx1,
                    cy1: *cy1,
                    r1: *r1,
                    stops: stops@,
                }
            },
            FillOrStrokeStyle::Pattern { size, data, repeat_x, repeat_y } => StyleV::Pattern {
                size: *size,
                data: data@,
                repeat_x: *repeat_x,
                repeat_y: *repeat_y,
            },
        }
    }
}

/// The colour the reference rasterizer paints a fill with: the solid colour
/// itself, the first stop of a gradient, transparent otherwise. Gradient
/// ramps and pattern tiling are the floating-point pipeline's work.
pub open spec fn paint_color_v(s: StyleV) -> Color {
    match s {
        StyleV::Solid(c) => c,
        StyleV::LinearGradient { stops, .. } => if stops.len() > 0 {
            stops[0].color
        } else {
            Color::transparent_spec()
        },
        StyleV::RadialGradient { stops, .. } => if stops.len() > 0 {
            stops[0].color
        } else {
            Color::transparent_spec()
        },
        StyleV::Pattern { .. } => Color::transparent_spec(),
    }
}

/// Copy a vector of plain values.
pub fn dup_vec<T: Copy>(v: &Vec<T>) -> (r: Vec<T>)
    ensures
        r@ == v@,
{
    let mut r: Vec<T> = Vec::new();
    let mut i: usize = 0;
    while i < v.len()
        invariant
            i <= v.len(),
            r@ =~= v@.subrange(0, i as int),
        decreases v.len() - i,
    {
        r.push(v[i]);
        i = i + 1;
    }
    proof {
        assert(r@ =~= v@);
    }
    r
}

impl FillOrStrokeStyle {
    /// The exec side of [`paint_color_v`].
    pub fn paint_color(&self) -> (c: Color)
        ensures
            c == paint_color_v(self@),
    {
        match self {
            FillOrStrokeStyle::Solid(c) => *c,
            FillOrStrokeStyle::LinearGradient { stops, .. } => if stops.len() > 0 {
                stops[0].color
            } else {
                Color::transparent()
            },
            FillOrStrokeStyle::RadialGradient { stops, .. } => if stops.len() > 0 {
                stops[0].color
            } else {
                Color::transparent()
            },
            FillOrStrokeStyle::Pattern { .. } => Color::transparent(),
        }
    }

    /// An owned copy with the same value.
    pub fn duplicate(&self) -> (r: FillOrStrokeStyle)
        ensures
            r@ == self@,
    {
        match self {
            FillOrStrokeStyle::Solid(c) => FillOrStrokeStyle::Solid(*c),
            FillOrStrokeStyle::LinearGradient { x0, y0, x1, y1, stops } => {
                FillOrStrokeStyle::LinearGradient {
                    x0: *x0,
                    y0: *y0,
                    x1: *x1,
                    y1: *y1,
                    stops: dup_vec(stops),
                }
            },
            FillOrStrokeStyle::RadialGradient { cx0, cy0, r0, cx1, cy1, r1, stops } => {
                FillOrStrokeStyle::RadialGradient {
                    cx0: *cx0,
                    cy0: *cy0,
                    r0: *r0,
                    cx1: *cx1,
                    cy1: *cy1,
                    r1: *r1,
                    stops: dup_vec(stops),
                }
            },
            FillOrStrokeStyle::Pattern { size, data, repeat_x, repeat_y } => {
                FillOrStrokeStyle::Pattern {
                    size: *size,
                    data: dup_vec(data),
                    repeat_x: *repeat_x,
                    repeat_y: *repeat_y,
                }
            },
        }
    }
}

/// Line rasterization settings; float-valued ones as bit patterns
/// (`width` and `miter_limit` and `dash_offset` of 64-bit floats, dash
/// entries of 32-bit floats).
#[derive(Clone, PartialEq, Debug)]
pub struct LineOptions {
    pub width: u64,
    pub cap: LineCap,
    pub join: LineJoin,
    pub miter_limit: u64,
    pub dash: Vec<u32>,
    pub dash_offset: u64,
}

pub struct LineV {
    pub width: u64,
    pub cap: LineCap,
    pub join: LineJoin,
    pub miter_limit: u64,
    pub dash: Seq<u32>,
    pub dash_offset: u64,
}

impl View for LineOptions {
    type V = LineV;

    open spec fn view(&self) -> LineV {
        LineV {
            width: self.width,
            cap: self.cap,
            join: self.join,
            miter_limit: self.miter_limit,
            dash: self.dash@,
            dash_offset: self.dash_offset,
        }
    }
}

impl LineOptions {
    pub fn duplicate(&self) -> (r: LineOptions)
        ensures
            r@ == self@,
    {
        LineOptions {
            width: self.width,
            cap: self.cap,
            join: self.join,
            miter_limit: self.miter_limit,
            dash: dup_vec(&self.dash),
            dash_offset: self.dash_offset,
        }
    }
}

/// Shadow settings: float offsets and blur as 64-bit bit patterns.
#[derive(Clone, Copy, PartialEq, Eq, Structural, Debug)]
pub struct ShadowOptions {
    pub offset_x: u64,
    pub offset_y: u64,
    pub blur: u64,
    pub color: Color,
}

/// Global alpha (bits of a 64-bit float) and the composition operator.
#[derive(Clone, Copy, PartialEq, Eq, Structural, Debug)]
pub struct CompositionOptions {
    pub alpha: u64,
    pub op: CompositionOp,
}

/// A font face as the host's font capability identifies it, with its size
/// in bits of a 32-bit float.
#[derive(Clone, Copy, PartialEq, Eq, Structural, Debug)]
pub struct FontSpec {
    pub key: u64,
    pub size: u32,
}

/// Text settings; a message that carries no font leaves the current font
/// in place.
#[derive(Clone, Copy, PartialEq, Eq, Structural, Debug)]
pub struct TextOptions {
    pub font: Option<FontSpec>,
    pub align: TextAlign,
    pub baseline: TextBaseline,
}

/// One path segment; coordinates are bit patterns of 32-bit floats.
#[derive(Clone, Copy, PartialEq, Eq, Structural, Debug)]
pub enum PathSeg {
    MoveTo { x: u32, y: u32 },
    LineTo { x: u32, y: u32 },
    QuadTo { cx: u32, cy: u32, x: u32, y: u32 },
    CubicTo { c1x: u32, c1y: u32, c2x: u32, c2y: u32, x: u32, y: u32 },
    Close,
}

/// A path: the segments in order.
#[derive(Clone, PartialEq, Debug)]
pub struct Path {
    pub segments: Vec<PathSeg>,
}

impl View for Path {
    type V = Seq<PathSeg>;

    open spec fn view(&self) -> Seq<PathSeg> {
        self.segments@
    }
}

impl Path {
    pub fn duplicate(&self) -> (r: Path)
        ensures
            r@ == self@,
    {
        Path { segments: dup_vec(&self.segments) }
    }
}

/// The full non-raster state of one canvas.
#[derive(PartialEq, Debug)]
pub struct DrawState {
    pub transform: Transform,
    pub fill_style: FillOrStrokeStyle,
    pub stroke_style: FillOrStrokeStyle,
    pub line: LineOptions,
    pub shadow: ShadowOptions,
    pub composition: CompositionOptions,
    pub text: TextOptions,
    pub clip: Option<Path>,
}

/// The mathematical value of a [`DrawState`].
pub struct StateV {
    pub transform: Transform,
    pub fill_style: StyleV,
    pub stroke_style: StyleV,
    pub line: LineV,
    pub shadow: ShadowOptions,
    pub composition: CompositionOptions,
    pub text: TextOptions,
    pub clip: Option<Seq<PathSeg>>,
}

impl View for DrawState {
    type V = StateV;

    open spec fn view(&self) -> StateV {
        StateV {
            transform: self.transform,
            fill_style: self.fill_style@,
            stroke_style: self.stroke_style@,
            line: self.line@,
            shadow: self.shadow,
            composition: self.composition,
            text: self.text,
            clip: match self.clip {
                Some(p) => Some(p@),
                None => None,
            },
        }
    }
}

impl DrawState {
    /// The state a fresh canvas starts in: identity transform, solid black
    /// fill and stroke, one-pixel miter-joined butt-capped lines with no
    /// dash, no shadow, full alpha with source-over composition, no font,
    /// start-aligned alphabetic text, no clip.
    pub open spec fn default_spec() -> StateV {
        StateV {
            transform: Transform::identity_spec(),
            fill_style: StyleV::Solid(Color { r: 0, g: 0, b: 0, a: 255 }),
            stroke_style: StyleV::Solid(Color { r: 0, g: 0, b: 0, a: 255 }),
            line: LineV {
                width: F64_ONE_BITS,
                cap: LineCap::Butt,
                join: LineJoin::Miter,
                miter_limit: F64_TEN_BITS,
                dash: Seq::empty(),
                dash_offset: 0,
            },
            shadow: ShadowOptions {
                offset_x: 0,
                offset_y: 0,
                blur: 0,
                color: Color::transparent_spec(),
            },
            composition: CompositionOptions { alpha: F64_ONE_BITS, op: CompositionOp::SourceOver },
            text: TextOptions {
                font: None,
                align: TextAlign::Start,
                baseline: TextBaseline::Alphabetic,
            },
            clip: None,
        }
    }

    pub fn new() -> (s: DrawState)
        ensures
            s@ == DrawState::default_spec(),
    {
        let s = DrawState {
            transform: Transform::identity(),
            fill_style: FillOrStrokeStyle::Solid(Color { r: 0, g: 0, b: 0, a: 255 }),
            stroke_style: FillOrStrokeStyle::Solid(Color { r: 0, g: 0, b: 0, a: 255 }),
            line: LineOptions {
                width: F64_ONE_BITS,
                cap: LineCap::Butt,
                join: LineJoin::Miter,
                miter_limit: F64_TEN_BITS,
                dash: Vec::new(),
                dash_offset: 0,
            },
            shadow: ShadowOptions { offset_x: 0, offset_y: 0, blur: 0, color: Color::transparent() },
            composition: CompositionOptions { alpha: F64_ONE_BITS, op: CompositionOp::SourceOver },
            text: TextOptions {
                font: None,
                align: TextAlign::Start,
                baseline: TextBaseline::Alphabetic,
            },
            clip: None,
        };
        proof {
            assert(s@.line.dash =~= DrawState::default_spec().line.dash);
        }
        s
    }

    /// An owned copy with the same value: what `save` pushes.
    pub fn snapshot(&self) -> (r: DrawState)
        ensures
            r@ == self@,
    {
        DrawState {
            transform: self.transform,
            fill_style: self.fill_style.duplicate(),
            stroke_style: self.stroke_style.duplicate(),
            line: self.line.duplicate(),
            shadow: self.shadow,
            composition: self.composition,
            text: self.text,
            clip: match &self.clip {
                Some(p) => Some(p.duplicate()),
                None => None,
            },
        }
    }
}

} // verus!
