//! One canvas: a raster surface, its graphics state, and the save/restore
//! stack of snapshots of that state.

use vstd::prelude::*;
use crate::geom::{Rect, Size};
use crate::state::{
    paint_color_v, CompositionOptions, DrawState, FillOrStrokeStyle, LineOptions, Path,
    ShadowOptions, StateV, TextOptions, Transform,
};
use crate::surface::{blank_v, blit_v, fill_rect_v, read_rect_v, write_rect_v, Color, ImageV,
    Snapshot};

verus! {

/// The handle an external compositor locates a canvas's pixels by. Its
/// identity survives surface recreation; only closing the canvas ends it.
#[derive(Clone, Copy, PartialEq, Eq, Structural, Debug)]
pub struct ImageRef(pub u64);

/// Text measurement under the reference shaper, which advances every glyph
/// by a fixed eight pixels with an eight-pixel ascent and a two-pixel
/// descent; shaping against real font data is the font capability's work.
#[derive(Clone, Copy, PartialEq, Eq, Structural, Debug)]
pub struct TextMetrics {
    pub width: u64,
    pub ascent: u64,
    pub descent: u64,
}

/// The metrics the reference shaper reports for a text of `len` glyphs.
pub open spec fn metrics_v(len: nat) -> TextMetrics {
    TextMetrics {
        width: if 8 * len <= u64::MAX {
            (8 * len) as u64
        } else {
            u64::MAX
        },
        ascent: 8,
        descent: 2,
    }
}

/// The mathematical value of one canvas.
pub struct CtxV {
    pub state: StateV,
    pub stack: Seq<StateV>,
    pub surface: ImageV,
    pub image: ImageRef,
    pub dirty: bool,
}

impl CtxV {
    pub open spec fn with_state(self, s: StateV) -> CtxV {
        CtxV { state: s, ..self }
    }

    pub open spec fn with_surface(self, s: ImageV) -> CtxV {
        CtxV { surface: s, ..self }
    }
}

/// What `save` does: push a snapshot of the non-raster state.
pub open spec fn save_v(c: CtxV) -> CtxV {
    CtxV { stack: c.stack.push(c.state), ..c }
}

/// What `restore` does: pop the newest snapshot back into the state, or
/// nothing at all when the stack is empty.
pub open spec fn restore_v(c: CtxV) -> CtxV {
    if c.stack.len() == 0 {
        c
    } else {
        CtxV { state: c.stack.last(), stack: c.stack.drop_last(), ..c }
    }
}

/// What `recreate` does: a fresh transparent surface of the requested size
/// (or of the old size when none is requested); every non-raster field,
/// the save stack and the external image reference survive.
pub open spec fn recreate_v(c: CtxV, size: Option<Size>) -> CtxV {
    let sz = match size {
        Some(s) => s,
        None => c.surface.size(),
    };
    CtxV { surface: blank_v(sz), ..c }
}

/// A fresh canvas: default state, empty stack, transparent pixels.
pub open spec fn fresh_ctx_v(size: Size, image: ImageRef) -> CtxV {
    CtxV {
        state: DrawState::default_spec(),
        stack: Seq::empty(),
        surface: blank_v(size),
        image,
        dirty: false,
    }
}

/// What drawing an image buffer does: a nearest-neighbour blit of `sr` out
/// of `img` onto `dr` of the canvas.
pub open spec fn draw_image_ctx(c: CtxV, img: ImageV, dr: Rect, sr: Rect) -> CtxV {
    c.with_surface(blit_v(c.surface, img, sr, dr))
}

pub struct Context {
    state: DrawState,
    saved: Vec<DrawState>,
    surface: Snapshot,
    image: ImageRef,
    dirty: bool,
}

impl View for Context {
    type V = CtxV;

    closed spec fn view(&self) -> CtxV {
        CtxV {
            state: self.state@,
            stack: Seq::new(self.saved@.len(), |i: int| self.saved@[i]@),
            surface: self.surface@,
            image: self.image,
            dirty: self.dirty,
        }
    }
}

impl Context {
    pub open spec fn wf(self) -> bool {
        self@.surface.wf()
    }

    pub fn new(size: Size, image: ImageRef) -> (c: Context)
        requires
            size.area() <= usize::MAX,
        ensures
            c@ == fresh_ctx_v(size, image),
            c.wf(),
    {
        let c = Context {
            state: DrawState::new(),
            saved: Vec::new(),
            surface: Snapshot::new(size),
            image,
            dirty: false,
        };
        proof {
            assert(c@.stack =~= fresh_ctx_v(size, image).stack);
        }
        c
    }

    pub fn image_ref(&self) -> (r: ImageRef)
        ensures
            r == self@.image,
    {
        self.image
    }

    /// An owned copy of the current non-raster state.
    pub fn state_snapshot(&self) -> (s: DrawState)
        ensures
            s@ == self@.state,
    {
        self.state.snapshot()
    }

    /// How many snapshots the save/restore stack holds.
    pub fn save_depth(&self) -> (n: usize)
        ensures
            n == self@.stack.len(),
    {
        self.saved.len()
    }

    /// Push a snapshot of the non-raster state.
    pub fn save_context_state(&mut self)
        ensures
            final(self)@ == save_v(old(self)@),
    {
        let snap = self.state.snapshot();
        self.saved.push(snap);
        proof {
            assert(self@.stack =~= save_v(old(self)@).stack);
        }
    }

    /// Pop the newest snapshot back into the state; on an empty stack this
    /// is a no-op, never an error.
    pub fn restore_context_state(&mut self)
        ensures
            final(self)@ == restore_v(old(self)@),
    {
        match self.saved.pop() {
            Some(s) => {
                self.state = s;
                proof {
                    assert(self@.stack =~= restore_v(old(self)@).stack);
                }
            },
            None => {
                proof {
                    assert(self@.stack =~= restore_v(old(self)@).stack);
                }
            },
        }
    }

    /// Replace the raster surface in place, keeping all other state.
    pub fn recreate(&mut self, size: Option<Size>)
        requires
            old(self).wf(),
            match size {
                Some(s) => s.area() <= usize::MAX,
                None => true,
            },
        ensures
            final(self)@ == recreate_v(old(self)@, size),
            final(self).wf(),
    {
        match size {
            Some(s) => {
                self.surface = Snapshot::new(s);
            },
            None => {
                let n = self.surface.pixel_count();
                let sz = self.surface.size();
                assert(sz.area() == n);
                self.surface = Snapshot::new(sz);
            },
        }
    }

    pub fn set_transform(&mut self, t: Transform)
        ensures
            final(self)@ == old(self)@.with_state(
                StateV { transform: t, ..old(self)@.state },
            ),
    {
        self.state.transform = t;
    }

    pub fn set_fill_style(&mut self, style: FillOrStrokeStyle)
        ensures
            final(self)@ == old(self)@.with_state(
                StateV { fill_style: style@, ..old(self)@.state },
            ),
    {
        self.state.fill_style = style;
    }

    pub fn set_stroke_style(&mut self, style: FillOrStrokeStyle)
        ensures
            final(self)@ == old(self)@.with_state(
                StateV { stroke_style: style@, ..old(self)@.state },
            ),
    {
        self.state.stroke_style = style;
    }

    pub fn set_line_options(&mut self, line: LineOptions)
        ensures
            final(self)@ == old(self)@.with_state(StateV { line: line@, ..old(self)@.state }),
    {
        self.state.line = line;
    }

    pub fn set_shadow_options(&mut self, shadow: ShadowOptions)
        ensures
            final(self)@ == old(self)@.with_state(StateV { shadow, ..old(self)@.state }),
    {
        self.state.shadow = shadow;
    }

    pub fn set_composition_options(&mut self, composition: CompositionOptions)
        ensures
            final(self)@ == old(self)@.with_state(
                StateV { composition, ..old(self)@.state },
            ),
    {
        self.state.composition = composition;
    }

    /// Apply text settings; a message without a font keeps the current one.
    pub fn set_text_options(&mut self, text: TextOptions)
        ensures
            final(self)@ == old(self)@.with_state(
                StateV {
                    text: TextOptions {
                        font: match text.font {
                            Some(f) => Some(f),
                            None => old(self)@.state.text.font,
                        },
                        align: text.align,
                        baseline: text.baseline,
                    },
                    ..old(self)@.state
                },
            ),
    {
        match text.font {
            Some(f) => {
                self.state.text.font = Some(f);
            },
            None => {},
        }
        self.state.text.align = text.align;
        self.state.text.baseline = text.baseline;
    }

    /// Intersecting the clip with a new path; the reference rasterizer
    /// records the newest clip path as the clip state.
    pub fn clip_path(&mut self, path: &Path)
        ensures
            final(self)@ == old(self)@.with_state(
                StateV { clip: Some(path@), ..old(self)@.state },
            ),
    {
        self.state.clip = Some(path.duplicate());
    }

    /// Fill a rectangle with the current fill style's paint colour.
    pub fn fill_rect(&mut self, r: Rect)
        requires
            old(self).wf(),
        ensures
            final(self)@ == old(self)@.with_surface(
                fill_rect_v(old(self)@.surface, r, paint_color_v(old(self)@.state.fill_style)),
            ),
            final(self).wf(),
    {
        let c = self.state.fill_style.paint_color();
        self.surface.fill_rect_raw(r, c);
    }

    /// Reset a rectangle to fully transparent, ignoring the fill style.
    pub fn clear_rect(&mut self, r: Rect)
        requires
            old(self).wf(),
        ensures
            final(self)@ == old(self)@.with_surface(
                fill_rect_v(old(self)@.surface, r, Color::transparent_spec()),
            ),
            final(self).wf(),
    {
        self.surface.fill_rect_raw(r, Color::transparent());
    }

    /// Stroke a rectangle outline. Stroke geometry needs the float pipeline
    /// (line width, joins), so the reference rasterizer records the state
    /// but leaves the pixels as they are.
    pub fn stroke_rect(&mut self, r: Rect)
        ensures
            final(self)@ == old(self)@,
    {
        let _ = r;
    }

    /// Fill a path. Path coverage needs the float pipeline, so the
    /// reference rasterizer records the state but leaves the pixels.
    pub fn fill_path(&mut self, path: &Path)
        ensures
            final(self)@ == old(self)@,
    {
        let _ = path;
    }

    /// Stroke a path; as with [`Context::fill_path`], pixels are untouched.
    pub fn stroke_path(&mut self, path: &Path)
        ensures
            final(self)@ == old(self)@,
    {
        let _ = path;
    }

    /// Rasterize text. Glyph rasterization is the font capability's work,
    /// so the reference rasterizer leaves the pixels as they are.
    pub fn fill_text(&mut self, text: &str, x: u64, y: u64, max_width: Option<u64>, is_rtl: bool)
        ensures
            final(self)@ == old(self)@,
    {
        let _ = text;
        let _ = x;
        let _ = y;
        let _ = max_width;
        let _ = is_rtl;
    }

    /// Measure text under the reference shaper's fixed-advance metrics.
    pub fn measure_text(&self, text: &str) -> (m: TextMetrics)
        ensures
            m == metrics_v(text@.len()),
    {
        let len: usize = text.unicode_len();
        let width: u64 = if len as u64 <= 0x1FFF_FFFF_FFFF_FFFF {
            (len as u64) * 8
        } else {
            u64::MAX
        };
        TextMetrics { width, ascent: 8, descent: 2 }
    }

    /// Composite a pixel buffer onto the surface: a nearest-neighbour blit
    /// of `source_rect` out of `snapshot` onto `dest_rect`. The smoothing
    /// flag selects interpolated sampling in backends that resample with
    /// floats; the reference rasterizer always samples nearest-neighbour.
    pub fn draw_image(
        &mut self,
        snapshot: &Snapshot,
        dest_rect: Rect,
        source_rect: Rect,
        smoothing: bool,
    )
        requires
            old(self).wf(),
            snapshot@.wf(),
        ensures
            final(self)@ == draw_image_ctx(old(self)@, snapshot@, dest_rect, source_rect),
            final(self).wf(),
    {
        let _ = smoothing;
        self.surface.blit(snapshot, source_rect, dest_rect);
    }

    /// Copy out pixels: the whole surface, or a region clamped to it.
    pub fn read_pixels(&self, region: Option<Rect>) -> (out: Snapshot)
        requires
            self.wf(),
        ensures
            out@ == read_rect_v(self@.surface, read_region(self@.surface, region)),
            out@.wf(),
    {
        match region {
            Some(r) => self.surface.read_rect(r),
            None => {
                let r = Rect { x: 0, y: 0, w: self.surface.width(), h: self.surface.height() };
                self.surface.read_rect(r)
            },
        }
    }

    /// Overwrite a rectangle raw from a buffer of exactly its size; a
    /// buffer of any other size changes nothing.
    pub fn put_image_data(&mut self, snapshot: &Snapshot, r: Rect)
        requires
            old(self).wf(),
            snapshot@.wf(),
        ensures
            final(self)@ == (if snapshot@.width == r.w && snapshot@.height == r.h {
                old(self)@.with_surface(write_rect_v(old(self)@.surface, r, snapshot@))
            } else {
                old(self)@
            }),
            final(self).wf(),
    {
        if snapshot.width() == r.w && snapshot.height() == r.h {
            self.surface.write_rect(r, snapshot);
        }
    }

    /// Note that the external image reference's backing content changed, so
    /// a compositor should treat it as dirty.
    pub fn update_image_rendering(&mut self)
        ensures
            final(self)@ == (CtxV { dirty: true, ..old(self)@ }),
    {
        self.dirty = true;
    }
}

/// The rectangle [`Context::read_pixels`] reads: the given region, or the
/// whole surface when none is given.
pub open spec fn read_region(s: ImageV, region: Option<Rect>) -> Rect {
    match region {
        Some(r) => r,
        None => Rect { x: 0, y: 0, w: s.width, h: s.height },
    }
}

/// Style round-trip law: whatever happens to the drawing state and the
/// pixels between a `save` and the matching `restore`, the restore brings
/// the non-raster state back to exactly what it was when saved, and leaves
/// the stack as it was before the save.
pub proof fn lemma_save_restore_round_trip(c: CtxV, meddled: StateV, repainted: ImageV)
    ensures
        restore_v(save_v(c).with_state(meddled).with_surface(repainted)).state == c.state,
        restore_v(save_v(c).with_state(meddled).with_surface(repainted)).stack == c.stack,
        restore_v(save_v(c).with_state(meddled).with_surface(repainted)).surface == repainted,
{
    assert(save_v(c).with_state(meddled).with_surface(repainted).stack.drop_last() =~= c.stack);
}

/// The round-trip law for whole command sequences: any meddling `f` that
/// leaves the save stack alone — every drawing and style command does, and
/// by [`lemma_save_restore_round_trip`] so does any balanced inner
/// save/restore pair — is undone by the matching restore, as far as the
/// non-raster state goes.
pub proof fn lemma_save_restore_round_trip_general(c: CtxV, f: spec_fn(CtxV) -> CtxV)
    requires
        forall|x: CtxV| (#[trigger] f(x)).stack == x.stack,
    ensures
        restore_v(f(save_v(c))).state == c.state,
        restore_v(f(save_v(c))).stack == c.stack,
{
    assert(f(save_v(c)).stack == c.stack.push(c.state));
    assert(c.stack.push(c.state).drop_last() =~= c.stack);
}

/// Restore on an empty save stack is a no-op: the whole canvas value is
/// unchanged, and no error arises.
pub proof fn lemma_restore_on_empty_is_no_op(c: CtxV)
    requires
        c.stack.len() == 0,
    ensures
        restore_v(c) == c,
{
}

/// Recreate preserves everything but the pixels: without a requested size
/// the surface keeps its old dimensions; with one it takes exactly that
/// size; either way the pixels are transparent again and the state, the
/// save stack and the external image reference are intact.
pub proof fn lemma_recreate_preserves_state(c: CtxV, size: Option<Size>)
    ensures
        recreate_v(c, size).state == c.state,
        recreate_v(c, size).stack == c.stack,
        recreate_v(c, size).image == c.image,
        recreate_v(c, None).surface.size() == c.surface.size(),
        forall|s: Size| recreate_v(c, Some(s)).surface.size() == s,
        forall|s: Size, i: int|
            0 <= i < recreate_v(c, Some(s)).surface.data.len()
                ==> recreate_v(c, Some(s)).surface.data[i] == Color::transparent_spec(),
{
}

} // verus!
