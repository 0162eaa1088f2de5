//! The canvas actor: a registry of canvases keyed by monotonically
//! increasing identifiers, a handle allocator, and the serialized execution
//! point every command funnels through. The host side owns the two inbound
//! channels and the worker thread; it drives one `CanvasPaintThread` value
//! by handing it each received message (or receive failure) as a
//! [`StreamEvent`] and acting on the returned flow decision and reply.

use vstd::prelude::*;
use crate::context::{
    draw_image_ctx, fresh_ctx_v, metrics_v, read_region, recreate_v, restore_v, save_v, Context,
    CtxV, ImageRef,
};
use crate::geom::{Rect, Size};
use crate::messages::{
    Canvas2dMsg, CanvasError, CanvasId, CanvasMsg, CanvasResponse, ConstellationCanvasMsg, Flow,
    FromScriptMsg, ResponseV, StreamEvent,
};
use crate::state::{CompositionOptions, ShadowOptions, StateV, TextOptions, Transform};
use crate::surface::{blit_v, fill_rect_v, read_rect_v, write_rect_v, Color};

verus! {

/// The mathematical value of the actor: the live canvases by identifier,
/// and the allocator counters.
pub struct ThreadV {
    pub canvases: Map<u64, CtxV>,
    pub next_canvas_id: u64,
    pub next_image_key: u64,
}

/// Every live identifier lies below the allocator counter, so a future
/// create can never collide with a live canvas.
pub open spec fn ids_bounded(t: ThreadV) -> bool {
    forall|id: u64| t.canvases.dom().contains(id) ==> id < t.next_canvas_id
}

/// What a create does: register a fresh canvas under the next identifier
/// and advance both allocator counters.
pub open spec fn create_v(t: ThreadV, size: Size) -> ThreadV {
    ThreadV {
        canvases: t.canvases.insert(
            t.next_canvas_id,
            fresh_ctx_v(size, ImageRef(t.next_image_key)),
        ),
        next_canvas_id: (t.next_canvas_id + 1) as u64,
        next_image_key: (t.next_image_key + 1) as u64,
    }
}

/// What a close does: drop the canvas; the identifier is never reissued.
pub open spec fn close_v(t: ThreadV, id: u64) -> ThreadV {
    ThreadV { canvases: t.canvases.remove(id), ..t }
}

pub open spec fn upd(t: ThreadV, id: u64, c: CtxV) -> ThreadV {
    ThreadV { canvases: t.canvases.insert(id, c), ..t }
}

/// Shadow, composition and transform settings applied, as every drawing
/// command carries them.
pub open spec fn common_state(
    s: StateV,
    shadow: ShadowOptions,
    composition: CompositionOptions,
    transform: Transform,
) -> StateV {
    StateV { shadow, composition, transform, ..s }
}

/// Text settings applied: a message without a font keeps the current one.
pub open spec fn text_applied(s: StateV, text: TextOptions) -> StateV {
    StateV {
        text: TextOptions {
            font: match text.font {
                Some(f) => Some(f),
                None => s.text.font,
            },
            align: text.align,
            baseline: text.baseline,
        },
        ..s
    }
}

/// Are the canvas identifiers a drawing command names all live?
pub open spec fn canvas2d_ids_ok(t: ThreadV, id: u64, msg: Canvas2dMsg) -> bool {
    &&& t.canvases.dom().contains(id)
    &&& match msg {
        Canvas2dMsg::DrawImageInOther { other_canvas, .. } => t.canvases.dom().contains(
            other_canvas.0,
        ),
        _ => true,
    }
}

/// Pixel buffers inside a command are well-formed (their length matches
/// their dimensions); every constructor of [`crate::surface::Snapshot`]
/// guarantees this.
pub open spec fn canvas2d_msg_wf(msg: Canvas2dMsg) -> bool {
    match msg {
        Canvas2dMsg::DrawImage { snapshot, .. } => snapshot@.wf(),
        Canvas2dMsg::PutImageData { snapshot, .. } => snapshot@.wf(),
        _ => true,
    }
}

/// What one drawing command does to the actor state.
pub open spec fn apply_canvas2d_msg(t: ThreadV, id: u64, msg: Canvas2dMsg) -> ThreadV {
    let c = t.canvases[id];
    match msg {
        Canvas2dMsg::FillText {
            style,
            text_options,
            shadow_options,
            composition_options,
            transform,
            ..
        } => upd(
            t,
            id,
            c.with_state(
                text_applied(
                    StateV {
                        fill_style: style@,
                        ..common_state(c.state, shadow_options, composition_options, transform)
                    },
                    text_options,
                ),
            ),
        ),
        Canvas2dMsg::FillRect { rect, style, shadow_options, composition_options, transform } => {
            let c1 = c.with_state(
                StateV {
                    fill_style: style@,
                    ..common_state(c.state, shadow_options, composition_options, transform)
                },
            );
            upd(
                t,
                id,
                c1.with_surface(
                    fill_rect_v(c1.surface, rect, crate::state::paint_color_v(style@)),
                ),
            )
        },
        Canvas2dMsg::StrokeRect {
            style,
            line_options,
            shadow_options,
            composition_options,
            transform,
            ..
        } => upd(
            t,
            id,
            c.with_state(
                StateV {
                    stroke_style: style@,
                    line: line_options@,
                    ..common_state(c.state, shadow_options, composition_options, transform)
                },
            ),
        ),
        Canvas2dMsg::ClearRect { rect, transform } => {
            let c1 = c.with_state(StateV { transform, ..c.state });
            upd(t, id, c1.with_surface(fill_rect_v(c1.surface, rect, Color::transparent_spec())))
        },
        Canvas2dMsg::FillPath { style, shadow_options, composition_options, transform, .. } => upd(
            t,
            id,
            c.with_state(
                StateV {
                    fill_style: style@,
                    ..common_state(c.state, shadow_options, composition_options, transform)
                },
            ),
        ),
        Canvas2dMsg::StrokePath {
            style,
            line_options,
            shadow_options,
            composition_options,
            transform,
            ..
        } => upd(
            t,
            id,
            c.with_state(
                StateV {
                    stroke_style: style@,
                    line: line_options@,
                    ..common_state(c.state, shadow_options, composition_options, transform)
                },
            ),
        ),
        Canvas2dMsg::ClipPath { path, transform } => upd(
            t,
            id,
            c.with_state(StateV { clip: Some(path@), transform, ..c.state }),
        ),
        Canvas2dMsg::DrawImage {
            snapshot,
            dest_rect,
            source_rect,
            shadow_options,
            composition_options,
            transform,
            ..
        } => {
            let c1 = c.with_state(
                common_state(c.state, shadow_options, composition_options, transform),
            );
            upd(t, id, draw_image_ctx(c1, snapshot@, dest_rect, source_rect))
        },
        // Equal to blitting a blank buffer of the carried size, by
        // `crate::surface::lemma_blit_of_blank_is_transparent_fill`.
        Canvas2dMsg::DrawEmptyImage {
            dest_rect,
            shadow_options,
            composition_options,
            transform,
            ..
        } => {
            let c1 = c.with_state(
                common_state(c.state, shadow_options, composition_options, transform),
            );
            upd(
                t,
                id,
                c1.with_surface(fill_rect_v(c1.surface, dest_rect, Color::transparent_spec())),
            )
        },
        Canvas2dMsg::DrawImageInOther {
            other_canvas,
            dest_rect,
            source_rect,
            shadow_options,
            composition_options,
            transform,
            ..
        } => {
            let snap = read_rect_v(c.surface, source_rect);
            let dc = t.canvases[other_canvas.0];
            let dc1 = dc.with_state(
                common_state(dc.state, shadow_options, composition_options, transform),
            );
            upd(t, other_canvas.0, draw_image_ctx(dc1, snap, dest_rect, source_rect))
        },
        Canvas2dMsg::MeasureText { text_options, .. } => upd(
            t,
            id,
            c.with_state(text_applied(c.state, text_options)),
        ),
        Canvas2dMsg::RestoreContext => upd(t, id, restore_v(c)),
        Canvas2dMsg::SaveContext => upd(t, id, save_v(c)),
        Canvas2dMsg::GetImageData { .. } => t,
        Canvas2dMsg::PutImageData { rect, snapshot } => {
            if snapshot@.width == rect.w && snapshot@.height == rect.h {
                upd(t, id, c.with_surface(write_rect_v(c.surface, rect, snapshot@)))
            } else {
                t
            }
        },
        Canvas2dMsg::UpdateImage => upd(t, id, CtxV { dirty: true, ..c }),
    }
}

/// What one drawing command answers.
pub open spec fn canvas2d_reply(t: ThreadV, id: u64, msg: Canvas2dMsg) -> ResponseV {
    let c = t.canvases[id];
    match msg {
        Canvas2dMsg::MeasureText { text, .. } => ResponseV::Metrics(metrics_v(text@.len())),
        Canvas2dMsg::GetImageData { dest_rect, .. } => ResponseV::Pixels(
            read_rect_v(c.surface, dest_rect),
        ),
        Canvas2dMsg::UpdateImage => ResponseV::Done,
        _ => ResponseV::Empty,
    }
}

/// Are the identifiers a draw-stream message names all live?
pub open spec fn canvas_msg_ids_ok(t: ThreadV, msg: CanvasMsg) -> bool {
    match msg {
        CanvasMsg::Canvas2d(m, id) => canvas2d_ids_ok(t, id.0, m),
        CanvasMsg::Close(_) => true,
        CanvasMsg::Recreate(_, id) => t.canvases.dom().contains(id.0),
        CanvasMsg::FromScript(_, id) => t.canvases.dom().contains(id.0),
    }
}

/// A recreate must ask for a surface that fits in memory.
pub open spec fn canvas_msg_size_ok(msg: CanvasMsg) -> bool {
    match msg {
        CanvasMsg::Recreate(Some(s), _) => s.area() <= usize::MAX,
        _ => true,
    }
}

pub open spec fn canvas_msg_wf(msg: CanvasMsg) -> bool {
    match msg {
        CanvasMsg::Canvas2d(m, _) => canvas2d_msg_wf(m),
        _ => true,
    }
}

/// What one draw-stream message does to the actor state.
pub open spec fn apply_canvas_msg(t: ThreadV, msg: CanvasMsg) -> ThreadV {
    match msg {
        CanvasMsg::Canvas2d(m, id) => apply_canvas2d_msg(t, id.0, m),
        CanvasMsg::Close(id) => close_v(t, id.0),
        CanvasMsg::Recreate(size, id) => upd(t, id.0, recreate_v(t.canvases[id.0], size)),
        CanvasMsg::FromScript(_, _) => t,
    }
}

/// What one draw-stream message answers.
pub open spec fn canvas_msg_reply(t: ThreadV, msg: CanvasMsg) -> ResponseV {
    match msg {
        CanvasMsg::Canvas2d(m, id) => canvas2d_reply(t, id.0, m),
        CanvasMsg::FromScript(FromScriptMsg::SendPixels, id) => {
            let s = t.canvases[id.0].surface;
            ResponseV::Pixels(read_rect_v(s, read_region(s, None)))
        },
        _ => ResponseV::Empty,
    }
}

/// The actor. One value of this type owns every canvas; a single host
/// thread drives it, which is what serializes all mutation.
pub struct CanvasPaintThread {
    canvases: Vec<Option<Context>>,
    next_canvas_id: u64,
    next_image_key: u64,
}

impl View for CanvasPaintThread {
    type V = ThreadV;

    closed spec fn view(&self) -> ThreadV {
        ThreadV {
            canvases: Map::new(
                |id: u64| id < self.canvases@.len() && self.canvases@[id as int] is Some,
                |id: u64| self.canvases@[id as int]->Some_0@,
            ),
            next_canvas_id: self.next_canvas_id,
            next_image_key: self.next_image_key,
        }
    }
}

impl CanvasPaintThread {
    /// Identifiers are slot indices: the counter always sits one past the
    /// highest ever issued, and every live canvas is well formed.
    pub closed spec fn wf(self) -> bool {
        &&& self.next_canvas_id == self.canvases@.len()
        &&& forall|i: int|
            0 <= i < self.canvases@.len() && self.canvases@[i] is Some ==> (
            #[trigger] self.canvases@[i])->Some_0.wf()
    }

    pub fn new() -> (t: CanvasPaintThread)
        ensures
            t.wf(),
            t@.canvases == Map::<u64, CtxV>::empty(),
            t@.next_canvas_id == 0,
            t@.next_image_key == 0,
    {
        let t = CanvasPaintThread { canvases: Vec::new(), next_canvas_id: 0, next_image_key: 0 };
        proof {
            assert(t@.canvases =~= Map::<u64, CtxV>::empty());
        }
        t
    }

    /// A well-formed actor never collides new identifiers with live ones.
    pub proof fn lemma_wf_bounded(&self)
        requires
            self.wf(),
        ensures
            ids_bounded(self@),
    {
    }

    /// Whether the allocator can issue another handle pair. The counters
    /// are 64-bit; exhausting them is out of reach in practice, but the
    /// host checks this rather than the library assuming it.
    pub fn can_create(&self) -> (r: bool)
        ensures
            r == (self@.next_canvas_id < u64::MAX && self@.next_image_key < u64::MAX),
    {
        self.next_canvas_id < u64::MAX && self.next_image_key < u64::MAX
    }

    pub fn has_canvas(&self, id: CanvasId) -> (r: bool)
        ensures
            r == self@.canvases.dom().contains(id.0),
    {
        id.0 < self.canvases.len() as u64 && self.canvases[id.0 as usize].is_some()
    }

    /// An owned copy of one canvas's current non-raster state.
    pub fn canvas_state(&self, id: CanvasId) -> (s: crate::state::DrawState)
        requires
            self.wf(),
            self@.canvases.dom().contains(id.0),
        ensures
            s@ == self@.canvases[id.0].state,
    {
        let n = self.canvases.len();
        assert(id.0 < n as u64);
        let ctx = Self::ctx_ref(&self.canvases, id.0 as usize);
        ctx.state_snapshot()
    }

    /// Allocate the next identifier and external image reference, register
    /// a fresh canvas of `size` under them, and return both.
    pub fn create_canvas(&mut self, size: Size) -> (r: (CanvasId, ImageRef))
        requires
            old(self).wf(),
            size.area() <= usize::MAX,
            old(self)@.next_canvas_id < u64::MAX,
            old(self)@.next_image_key < u64::MAX,
        ensures
            final(self).wf(),
            r.0.0 == old(self)@.next_canvas_id,
            r.1.0 == old(self)@.next_image_key,
            !old(self)@.canvases.dom().contains(r.0.0),
            final(self)@ == create_v(old(self)@, size),
    {
        let id = CanvasId(self.next_canvas_id);
        let key = ImageRef(self.next_image_key);
        let ctx = Context::new(size, key);
        self.canvases.push(Some(ctx));
        self.next_canvas_id = self.next_canvas_id + 1;
        self.next_image_key = self.next_image_key + 1;
        proof {
            assert(self@.canvases =~= create_v(old(self)@, size).canvases);
        }
        (id, key)
    }

    /// Drop a canvas. A close of an identifier that is not live changes
    /// nothing; the identifier itself is never reissued either way.
    pub fn close_canvas(&mut self, id: CanvasId)
        requires
            old(self).wf(),
        ensures
            final(self).wf(),
            final(self)@ == close_v(old(self)@, id.0),
    {
        let n = self.canvases.len();
        if id.0 < n as u64 {
            Self::clear_slot(&mut self.canvases, id.0 as usize);
        }
        proof {
            assert(self@.canvases =~= close_v(old(self)@, id.0).canvases);
        }
    }

    fn clear_slot(slots: &mut Vec<Option<Context>>, i: usize)
        requires
            i < old(slots).len(),
        ensures
            final(slots)@ == old(slots)@.update(i as int, Option::<Context>::None),
    {
        slots.push(None);
        let _replaced = slots.swap_remove(i);
        proof {
            assert(slots@ =~= old(slots)@.update(i as int, Option::<Context>::None));
        }
    }

    fn take_ctx(slots: &mut Vec<Option<Context>>, i: usize) -> (c: Context)
        requires
            i < old(slots).len(),
            old(slots)@[i as int] is Some,
        ensures
            c == old(slots)@[i as int]->Some_0,
            final(slots)@ == old(slots)@.update(i as int, Option::<Context>::None),
    {
        slots.push(None);
        let taken = slots.swap_remove(i);
        proof {
            assert(slots@ =~= old(slots)@.update(i as int, Option::<Context>::None));
        }
        match taken {
            Some(c) => c,
            None => vstd::pervasive::unreached(),
        }
    }

    fn put_ctx(slots: &mut Vec<Option<Context>>, i: usize, c: Context)
        requires
            i < old(slots).len(),
        ensures
            final(slots)@ == old(slots)@.update(i as int, Some(c)),
    {
        slots.push(Some(c));
        let _replaced = slots.swap_remove(i);
        proof {
            assert(slots@ =~= old(slots)@.update(i as int, Some(c)));
        }
    }

    fn ctx_ref(slots: &Vec<Option<Context>>, i: usize) -> (c: &Context)
        requires
            i < slots.len(),
            slots@[i as int] is Some,
        ensures
            *c == slots@[i as int]->Some_0,
    {
        match &slots[i] {
            Some(c) => c,
            None => vstd::pervasive::unreached(),
        }
    }

    /// Decode and execute one drawing command against one canvas: apply the
    /// style settings it carries, then perform its operation, and return
    /// its reply. The identifiers it names must be live; [`Self::step`]
    /// turns a command that names a dead one into the fatal error instead.
    pub fn process_canvas_2d_message(&mut self, message: Canvas2dMsg, canvas_id: CanvasId) -> (r:
        CanvasResponse)
        requires
            old(self).wf(),
            canvas2d_ids_ok(old(self)@, canvas_id.0, message),
            canvas2d_msg_wf(message),
        ensures
            final(self).wf(),
            final(self)@ == apply_canvas2d_msg(old(self)@, canvas_id.0, message),
            r@ == canvas2d_reply(old(self)@, canvas_id.0, message),
    {
        let ghost m0 = message;
        let n = self.canvases.len();
        assert(canvas_id.0 < n as u64);
        let i = canvas_id.0 as usize;
        let response: CanvasResponse = match message {
            Canvas2dMsg::FillText {
                text,
                x,
                y,
                max_width,
                is_rtl,
                style,
                text_options,
                shadow_options,
                composition_options,
                transform,
            } => {
                let mut ctx = Self::take_ctx(&mut self.canvases, i);
                ctx.set_transform(transform);
                ctx.set_fill_style(style);
                ctx.set_text_options(text_options);
                ctx.set_shadow_options(shadow_options);
                ctx.set_composition_options(composition_options);
                ctx.fill_text(text.as_str(), x, y, max_width, is_rtl);
                Self::put_ctx(&mut self.canvases, i, ctx);
                CanvasResponse::Empty
            },
            Canvas2dMsg::FillRect { rect, style, shadow_options, composition_options, transform } => {
                let mut ctx = Self::take_ctx(&mut self.canvases, i);
                ctx.set_transform(transform);
                ctx.set_fill_style(style);
                ctx.set_shadow_options(shadow_options);
                ctx.set_composition_options(composition_options);
                ctx.fill_rect(rect);
                Self::put_ctx(&mut self.canvases, i, ctx);
                CanvasResponse::Empty
            },
            Canvas2dMsg::StrokeRect {
                rect,
                style,
                line_options,
                shadow_options,
                composition_options,
                transform,
            } => {
                let mut ctx = Self::take_ctx(&mut self.canvases, i);
                ctx.set_transform(transform);
                ctx.set_stroke_style(style);
                ctx.set_line_options(line_options);
                ctx.set_shadow_options(shadow_options);
                ctx.set_composition_options(composition_options);
                ctx.stroke_rect(rect);
                Self::put_ctx(&mut self.canvases, i, ctx);
                CanvasResponse::Empty
            },
            Canvas2dMsg::ClearRect { rect, transform } => {
                let mut ctx = Self::take_ctx(&mut self.canvases, i);
                ctx.set_transform(transform);
                ctx.clear_rect(rect);
                Self::put_ctx(&mut self.canvases, i, ctx);
                CanvasResponse::Empty
            },
            Canvas2dMsg::FillPath { style, path, shadow_options, composition_options, transform } => {
                let mut ctx = Self::take_ctx(&mut self.canvases, i);
                ctx.set_transform(transform);
                ctx.set_fill_style(style);
                ctx.set_shadow_options(shadow_options);
                ctx.set_composition_options(composition_options);
                ctx.fill_path(&path);
                Self::put_ctx(&mut self.canvases, i, ctx);
                CanvasResponse::Empty
            },
            Canvas2dMsg::StrokePath {
                path,
                style,
                line_options,
                shadow_options,
                composition_options,
                transform,
            } => {
                let mut ctx = Self::take_ctx(&mut self.canvases, i);
                ctx.set_transform(transform);
                ctx.set_stroke_style(style);
                ctx.set_line_options(line_options);
                ctx.set_shadow_options(shadow_options);
                ctx.set_composition_options(composition_options);
                ctx.stroke_path(&path);
                Self::put_ctx(&mut self.canvases, i, ctx);
                CanvasResponse::Empty
            },
            Canvas2dMsg::ClipPath { path, transform } => {
                let mut ctx = Self::take_ctx(&mut self.canvases, i);
                ctx.set_transform(transform);
                ctx.clip_path(&path);
                Self::put_ctx(&mut self.canvases, i, ctx);
                CanvasResponse::Empty
            },
            Canvas2dMsg::DrawImage {
                snapshot,
                dest_rect,
                source_rect,
                smoothing,
                shadow_options,
                composition_options,
                transform,
            } => {
                let mut ctx = Self::take_ctx(&mut self.canvases, i);
                ctx.set_transform(transform);
                ctx.set_shadow_options(shadow_options);
                ctx.set_composition_options(composition_options);
                ctx.draw_image(&snapshot, dest_rect, source_rect, smoothing);
                Self::put_ctx(&mut self.canvases, i, ctx);
                CanvasResponse::Empty
            },
            Canvas2dMsg::DrawEmptyImage {
                image_size,
                dest_rect,
                source_rect,
                shadow_options,
                composition_options,
                transform,
            } => {
                // A cleared source buffer samples transparent at every
                // position, inside or outside its bounds, so drawing it is
                // a transparent fill of the destination rectangle.
                let _ = image_size;
                let _ = source_rect;
                let mut ctx = Self::take_ctx(&mut self.canvases, i);
                ctx.set_transform(transform);
                ctx.set_shadow_options(shadow_options);
                ctx.set_composition_options(composition_options);
                ctx.clear_rect(dest_rect);
                Self::put_ctx(&mut self.canvases, i, ctx);
                CanvasResponse::Empty
            },
            Canvas2dMsg::DrawImageInOther {
                other_canvas,
                image_size,
                dest_rect,
                source_rect,
                smoothing,
                shadow_options,
                composition_options,
                transform,
            } => {
                // The source region is copied into an owned buffer before
                // any mutation of the destination begins, so source and
                // destination may be the same canvas.
                let _ = image_size;
                let src = Self::ctx_ref(&self.canvases, i);
                let snapshot = src.read_pixels(Some(source_rect));
                assert(other_canvas.0 < n as u64);
                let i2 = other_canvas.0 as usize;
                let mut ctx = Self::take_ctx(&mut self.canvases, i2);
                ctx.set_transform(transform);
                ctx.set_composition_options(composition_options);
                ctx.set_shadow_options(shadow_options);
                ctx.draw_image(&snapshot, dest_rect, source_rect, smoothing);
                Self::put_ctx(&mut self.canvases, i2, ctx);
                CanvasResponse::Empty
            },
            Canvas2dMsg::MeasureText { text, text_options } => {
                let mut ctx = Self::take_ctx(&mut self.canvases, i);
                ctx.set_text_options(text_options);
                let metrics = ctx.measure_text(text.as_str());
                Self::put_ctx(&mut self.canvases, i, ctx);
                CanvasResponse::Metrics(metrics)
            },
            Canvas2dMsg::RestoreContext => {
                let mut ctx = Self::take_ctx(&mut self.canvases, i);
                ctx.restore_context_state();
                Self::put_ctx(&mut self.canvases, i, ctx);
                CanvasResponse::Empty
            },
            Canvas2dMsg::SaveContext => {
                let mut ctx = Self::take_ctx(&mut self.canvases, i);
                ctx.save_context_state();
                Self::put_ctx(&mut self.canvases, i, ctx);
                CanvasResponse::Empty
            },
            Canvas2dMsg::GetImageData { dest_rect, canvas_size } => {
                let _ = canvas_size;
                let src = Self::ctx_ref(&self.canvases, i);
                let out = src.read_pixels(Some(dest_rect));
                CanvasResponse::Pixels(out)
            },
            Canvas2dMsg::PutImageData { rect, snapshot } => {
                let mut ctx = Self::take_ctx(&mut self.canvases, i);
                ctx.put_image_data(&snapshot, rect);
                Self::put_ctx(&mut self.canvases, i, ctx);
                CanvasResponse::Empty
            },
            Canvas2dMsg::UpdateImage => {
                let mut ctx = Self::take_ctx(&mut self.canvases, i);
                ctx.update_image_rendering();
                Self::put_ctx(&mut self.canvases, i, ctx);
                CanvasResponse::Done
            },
        };
        proof {
            assert(self@.canvases =~= apply_canvas2d_msg(old(self)@, canvas_id.0, m0).canvases);
        }
        response
    }

    /// Execute one draw-stream message. A message that names an identifier
    /// that was never created or was already closed is answered with the
    /// fatal [`CanvasError::BogusCanvasId`] and changes nothing; the host
    /// treats that as the caller bug it is. A close of a dead identifier
    /// is not a lookup and stays a no-op, as the registry's removal is.
    pub fn handle_canvas_msg(&mut self, msg: CanvasMsg) -> (r: Result<
        CanvasResponse,
        CanvasError,
    >)
        requires
            old(self).wf(),
            canvas_msg_size_ok(msg),
            canvas_msg_wf(msg),
        ensures
            final(self).wf(),
            r is Ok <==> canvas_msg_ids_ok(old(self)@, msg),
            r is Ok ==> final(self)@ == apply_canvas_msg(old(self)@, msg) && (r->Ok_0)@
                == canvas_msg_reply(old(self)@, msg),
            r is Err ==> final(self)@ == old(self)@ && r->Err_0 == CanvasError::BogusCanvasId,
    {
        let ghost m0 = msg;
        match msg {
            CanvasMsg::Canvas2d(m, id) => {
                if !self.has_canvas(id) {
                    return Err(CanvasError::BogusCanvasId);
                }
                let others_ok = match &m {
                    Canvas2dMsg::DrawImageInOther { other_canvas, .. } => self.has_canvas(
                        *other_canvas,
                    ),
                    _ => true,
                };
                if !others_ok {
                    return Err(CanvasError::BogusCanvasId);
                }
                Ok(self.process_canvas_2d_message(m, id))
            },
            CanvasMsg::Close(id) => {
                self.close_canvas(id);
                Ok(CanvasResponse::Empty)
            },
            CanvasMsg::Recreate(size, id) => {
                if !self.has_canvas(id) {
                    return Err(CanvasError::BogusCanvasId);
                }
                let n = self.canvases.len();
                assert(id.0 < n as u64);
                let i = id.0 as usize;
                let mut ctx = Self::take_ctx(&mut self.canvases, i);
                ctx.recreate(size);
                Self::put_ctx(&mut self.canvases, i, ctx);
                proof {
                    assert(self@.canvases =~= apply_canvas_msg(old(self)@, m0).canvases);
                }
                Ok(CanvasResponse::Empty)
            },
            CanvasMsg::FromScript(FromScriptMsg::SendPixels, id) => {
                if !self.has_canvas(id) {
                    return Err(CanvasError::BogusCanvasId);
                }
                let n = self.canvases.len();
                assert(id.0 < n as u64);
                let src = Self::ctx_ref(&self.canvases, id.0 as usize);
                Ok(CanvasResponse::Pixels(src.read_pixels(None)))
            },
        }
    }

    /// One turn of the actor loop, fed by whichever inbound stream was
    /// ready: execute the message and say whether the loop goes on.
    /// A receive failure on the draw stream is survivable (the loop goes
    /// on); one on the control stream, like an explicit exit, stops it.
    pub fn step(&mut self, event: StreamEvent) -> (r: Result<(Flow, CanvasResponse), CanvasError>)
        requires
            old(self).wf(),
            match event {
                StreamEvent::Draw(Some(m)) => canvas_msg_size_ok(m) && canvas_msg_wf(m),
                StreamEvent::Control(Some(ConstellationCanvasMsg::Create { size })) => size.area()
                    <= usize::MAX && old(self)@.next_canvas_id < u64::MAX
                    && old(self)@.next_image_key < u64::MAX,
                _ => true,
            },
        ensures
            final(self).wf(),
            match event {
                StreamEvent::Draw(opt) => match opt {
                    Some(m) => {
                        &&& (r is Ok <==> canvas_msg_ids_ok(old(self)@, m))
                        &&& r is Ok ==> (r->Ok_0).0 == Flow::Continue && final(self)@
                            == apply_canvas_msg(old(self)@, m) && (r->Ok_0).1@ == canvas_msg_reply(
                            old(self)@,
                            m,
                        )
                        &&& r is Err ==> final(self)@ == old(self)@ && r->Err_0
                            == CanvasError::BogusCanvasId
                    },
                    None => r is Ok && (r->Ok_0).0 == Flow::Continue && (r->Ok_0).1@
                        == ResponseV::Empty && final(self)@ == old(self)@,
                },
                StreamEvent::Control(opt) => match opt {
                    Some(ConstellationCanvasMsg::Create { size }) => {
                        &&& r is Ok
                        &&& (r->Ok_0).0 == Flow::Continue
                        &&& final(self)@ == create_v(old(self)@, size)
                        &&& (r->Ok_0).1@ == ResponseV::Created(
                            CanvasId(old(self)@.next_canvas_id),
                            ImageRef(old(self)@.next_image_key),
                        )
                    },
                    Some(ConstellationCanvasMsg::Exit) => r is Ok && (r->Ok_0).0 == Flow::Stop && (
                    r->Ok_0).1@ == ResponseV::Done && final(self)@ == old(self)@,
                    None => r is Ok && (r->Ok_0).0 == Flow::Stop && (r->Ok_0).1@
                        == ResponseV::Empty && final(self)@ == old(self)@,
                },
            },
    {
        match event {
            StreamEvent::Draw(opt) => match opt {
                Some(m) => match self.handle_canvas_msg(m) {
                    Ok(resp) => Ok((Flow::Continue, resp)),
                    Err(e) => Err(e),
                },
                None => Ok((Flow::Continue, CanvasResponse::Empty)),
            },
            StreamEvent::Control(opt) => match opt {
                Some(ConstellationCanvasMsg::Create { size }) => {
                    let (id, image) = self.create_canvas(size);
                    Ok((Flow::Continue, CanvasResponse::Created(id, image)))
                },
                Some(ConstellationCanvasMsg::Exit) => Ok((Flow::Stop, CanvasResponse::Done)),
                None => Ok((Flow::Stop, CanvasResponse::Empty)),
            },
        }
    }
}

/// Identifier freshness law: a create issues exactly the counter value,
/// which is above every live identifier and distinct from every identifier
/// ever issued before; across consecutive creates the issued identifiers
/// strictly increase.
pub proof fn lemma_create_issues_fresh_increasing_ids(t: ThreadV, s1: Size, s2: Size)
    requires
        ids_bounded(t),
        t.next_canvas_id + 1 < u64::MAX,
    ensures
        !t.canvases.dom().contains(t.next_canvas_id),
        forall|id: u64| t.canvases.dom().contains(id) ==> id < t.next_canvas_id,
        create_v(t, s1).next_canvas_id > t.next_canvas_id,
        create_v(create_v(t, s1), s2).next_canvas_id > create_v(t, s1).next_canvas_id,
        ids_bounded(create_v(t, s1)),
        create_v(t, s1).canvases.dom().contains(t.next_canvas_id),
{
}

/// Closing one canvas leaves every other canvas untouched and live, and
/// the closed identifier dead.
pub proof fn lemma_close_leaves_others_intact(t: ThreadV, closed: u64, other: u64)
    requires
        other != closed,
        t.canvases.dom().contains(other),
    ensures
        close_v(t, closed).canvases.dom().contains(other),
        close_v(t, closed).canvases[other] == t.canvases[other],
        !close_v(t, closed).canvases.dom().contains(closed),
        close_v(t, closed).next_canvas_id == t.next_canvas_id,
{
}

/// Every drawing command other than an explicit save or restore leaves
/// every canvas's save stack exactly as it was: only matched save/restore
/// pairs ever move it.
pub proof fn lemma_draw_commands_preserve_save_stacks(t: ThreadV, id: u64, msg: Canvas2dMsg)
    requires
        canvas2d_ids_ok(t, id, msg),
        !(msg is SaveContext),
        !(msg is RestoreContext),
    ensures
        forall|k: u64| #[trigger]
            apply_canvas2d_msg(t, id, msg).canvases.dom().contains(k)
                ==> t.canvases.dom().contains(k) && apply_canvas2d_msg(
                t,
                id,
                msg,
            ).canvases[k].stack == t.canvases[k].stack,
{
}

/// Drawing from a canvas into itself behaves exactly as first copying the
/// source region into an owned scratch buffer and then performing an
/// ordinary draw-image with that buffer as the input.
pub proof fn lemma_draw_from_self_is_scratch_copy(
    t: ThreadV,
    id: CanvasId,
    image_size: Size,
    dest_rect: Rect,
    source_rect: Rect,
    smoothing: bool,
    shadow_options: ShadowOptions,
    composition_options: CompositionOptions,
    transform: Transform,
    scratch: Canvas2dMsg,
)
    requires
        t.canvases.dom().contains(id.0),
        scratch matches Canvas2dMsg::DrawImage {
            snapshot,
            dest_rect: d,
            source_rect: s,
            smoothing: sm,
            shadow_options: sh,
            composition_options: co,
            transform: tr,
        } && snapshot@ == read_rect_v(t.canvases[id.0].surface, source_rect) && d == dest_rect && s
            == source_rect && sm == smoothing && sh == shadow_options && co == composition_options
            && tr == transform,
    ensures
        apply_canvas2d_msg(
            t,
            id.0,
            Canvas2dMsg::DrawImageInOther {
                other_canvas: id,
                image_size,
                dest_rect,
                source_rect,
                smoothing,
                shadow_options,
                composition_options,
                transform,
            },
        ) == apply_canvas2d_msg(t, id.0, scratch),
{
}

} // verus!
