//! End-to-end scenarios against the canvas actor.

use canvas_paint::context::TextMetrics;
use canvas_paint::geom::{Rect, Size};
use canvas_paint::messages::{
    Canvas2dMsg, CanvasError, CanvasId, CanvasMsg, CanvasResponse, ConstellationCanvasMsg, Flow,
    FromScriptMsg, StreamEvent,
};
use canvas_paint::paint_thread::CanvasPaintThread;
use canvas_paint::state::{
    CompositionOp, CompositionOptions, FillOrStrokeStyle, LineCap, LineJoin, LineOptions, Path,
    PathSeg, ShadowOptions, TextAlign, TextBaseline, TextOptions, Transform, F64_ONE_BITS,
};
use canvas_paint::surface::{Color, Snapshot};

fn rgba(r: u8, g: u8, b: u8, a: u8) -> Color {
    Color { r, g, b, a }
}

fn red() -> Color {
    rgba(255, 0, 0, 255)
}

fn green() -> Color {
    rgba(0, 255, 0, 255)
}

fn blue() -> Color {
    rgba(0, 0, 255, 255)
}

fn clear() -> Color {
    rgba(0, 0, 0, 0)
}

fn shadow() -> ShadowOptions {
    ShadowOptions { offset_x: 0, offset_y: 0, blur: 0, color: clear() }
}

fn comp() -> CompositionOptions {
    CompositionOptions { alpha: F64_ONE_BITS, op: CompositionOp::SourceOver }
}

fn ident() -> Transform {
    Transform::identity()
}

fn rect(x: u32, y: u32, w: u32, h: u32) -> Rect {
    Rect { x, y, w, h }
}

fn fill_rect_msg(r: Rect, c: Color) -> Canvas2dMsg {
    Canvas2dMsg::FillRect {
        rect: r,
        style: FillOrStrokeStyle::Solid(c),
        shadow_options: shadow(),
        composition_options: comp(),
        transform: ident(),
    }
}

fn new_canvas(t: &mut CanvasPaintThread, w: u32, h: u32) -> CanvasId {
    let (id, _image) = t.create_canvas(Size { width: w, height: h });
    id
}

fn draw(t: &mut CanvasPaintThread, id: CanvasId, m: Canvas2dMsg) -> CanvasResponse {
    t.handle_canvas_msg(CanvasMsg::Canvas2d(m, id)).expect("live canvas")
}

fn pixels(t: &mut CanvasPaintThread, id: CanvasId, r: Rect) -> Snapshot {
    let resp = draw(
        t,
        id,
        Canvas2dMsg::GetImageData { dest_rect: r, canvas_size: Size { width: r.w, height: r.h } },
    );
    match resp {
        CanvasResponse::Pixels(s) => s,
        _ => panic!("expected pixels"),
    }
}

fn assert_all_pixels(s: &Snapshot, c: Color) {
    for y in 0..s.height() {
        for x in 0..s.width() {
            assert_eq!(s.pixel(x, y), c, "pixel ({}, {})", x, y);
        }
    }
}

#[test]
fn fill_rect_paints_every_pixel_red() {
    let mut t = CanvasPaintThread::new();
    let id = new_canvas(&mut t, 100, 100);
    draw(&mut t, id, fill_rect_msg(rect(0, 0, 100, 100), red()));
    let s = pixels(&mut t, id, rect(0, 0, 100, 100));
    assert_eq!(s.width(), 100);
    assert_eq!(s.height(), 100);
    assert_all_pixels(&s, red());
}

#[test]
fn fresh_canvas_is_transparent() {
    let mut t = CanvasPaintThread::new();
    let id = new_canvas(&mut t, 8, 4);
    let s = pixels(&mut t, id, rect(0, 0, 8, 4));
    assert_all_pixels(&s, clear());
}

#[test]
fn save_restore_returns_pre_save_fill_style() {
    let mut t = CanvasPaintThread::new();
    let id = new_canvas(&mut t, 10, 10);
    draw(&mut t, id, fill_rect_msg(rect(0, 0, 1, 1), red()));
    draw(&mut t, id, Canvas2dMsg::SaveContext);
    draw(&mut t, id, fill_rect_msg(rect(0, 0, 1, 1), blue()));
    assert_eq!(t.canvas_state(id).fill_style, FillOrStrokeStyle::Solid(blue()));
    draw(&mut t, id, Canvas2dMsg::RestoreContext);
    assert_eq!(t.canvas_state(id).fill_style, FillOrStrokeStyle::Solid(red()));
}

#[test]
fn restore_on_empty_stack_is_a_no_op() {
    let mut t = CanvasPaintThread::new();
    let id = new_canvas(&mut t, 5, 5);
    draw(&mut t, id, fill_rect_msg(rect(0, 0, 5, 5), green()));
    let before = t.canvas_state(id);
    let r = t.handle_canvas_msg(CanvasMsg::Canvas2d(Canvas2dMsg::RestoreContext, id));
    assert!(r.is_ok());
    assert_eq!(t.canvas_state(id), before);
    let s = pixels(&mut t, id, rect(0, 0, 5, 5));
    assert_all_pixels(&s, green());
}

#[test]
fn save_restore_keeps_text_and_shadow_settings() {
    let mut t = CanvasPaintThread::new();
    let id = new_canvas(&mut t, 4, 4);
    draw(
        &mut t,
        id,
        Canvas2dMsg::MeasureText {
            text: String::from("x"),
            text_options: TextOptions {
                font: None,
                align: TextAlign::Center,
                baseline: TextBaseline::Top,
            },
        },
    );
    draw(&mut t, id, Canvas2dMsg::SaveContext);
    draw(
        &mut t,
        id,
        Canvas2dMsg::MeasureText {
            text: String::from("x"),
            text_options: TextOptions {
                font: None,
                align: TextAlign::End,
                baseline: TextBaseline::Bottom,
            },
        },
    );
    assert_eq!(t.canvas_state(id).text.align, TextAlign::End);
    draw(&mut t, id, Canvas2dMsg::RestoreContext);
    assert_eq!(t.canvas_state(id).text.align, TextAlign::Center);
    assert_eq!(t.canvas_state(id).text.baseline, TextBaseline::Top);
}

#[test]
fn save_restore_round_trips_line_and_dash_settings() {
    let mut t = CanvasPaintThread::new();
    let id = new_canvas(&mut t, 4, 4);
    let dashed = LineOptions {
        width: 3,
        cap: LineCap::Round,
        join: LineJoin::Bevel,
        miter_limit: 7,
        dash: vec![4, 2, 1],
        dash_offset: 5,
    };
    let stroke = |line: LineOptions| Canvas2dMsg::StrokeRect {
        rect: rect(0, 0, 1, 1),
        style: FillOrStrokeStyle::Solid(blue()),
        line_options: line,
        shadow_options: shadow(),
        composition_options: comp(),
        transform: ident(),
    };
    draw(&mut t, id, stroke(dashed.clone()));
    assert_eq!(t.canvas_state(id).line, dashed);
    draw(&mut t, id, Canvas2dMsg::SaveContext);
    let plain = LineOptions {
        width: 1,
        cap: LineCap::Butt,
        join: LineJoin::Miter,
        miter_limit: 1,
        dash: vec![],
        dash_offset: 0,
    };
    draw(&mut t, id, stroke(plain.clone()));
    assert_eq!(t.canvas_state(id).line, plain);
    draw(&mut t, id, Canvas2dMsg::RestoreContext);
    assert_eq!(t.canvas_state(id).line, dashed);
    assert_eq!(t.canvas_state(id).stroke_style, FillOrStrokeStyle::Solid(blue()));
}

#[test]
fn fill_text_records_state_and_leaves_pixels() {
    let mut t = CanvasPaintThread::new();
    let id = new_canvas(&mut t, 3, 3);
    draw(&mut t, id, fill_rect_msg(rect(0, 0, 3, 3), green()));
    draw(
        &mut t,
        id,
        Canvas2dMsg::FillText {
            text: String::from("hi"),
            x: 0,
            y: 0,
            max_width: None,
            is_rtl: false,
            style: FillOrStrokeStyle::Solid(blue()),
            text_options: TextOptions {
                font: None,
                align: TextAlign::Right,
                baseline: TextBaseline::Middle,
            },
            shadow_options: shadow(),
            composition_options: comp(),
            transform: ident(),
        },
    );
    // Glyph rasterization is the font capability's work: the state took the
    // message's settings, the reference rasterizer's pixels are untouched.
    assert_eq!(t.canvas_state(id).fill_style, FillOrStrokeStyle::Solid(blue()));
    assert_eq!(t.canvas_state(id).text.align, TextAlign::Right);
    assert_all_pixels(&pixels(&mut t, id, rect(0, 0, 3, 3)), green());
}

#[test]
fn clip_path_is_recorded_and_restored() {
    let mut t = CanvasPaintThread::new();
    let id = new_canvas(&mut t, 2, 2);
    assert_eq!(t.canvas_state(id).clip, None);
    draw(&mut t, id, Canvas2dMsg::SaveContext);
    let path = Path {
        segments: vec![
            PathSeg::MoveTo { x: 0, y: 0 },
            PathSeg::LineTo { x: 8, y: 0 },
            PathSeg::Close,
        ],
    };
    draw(&mut t, id, Canvas2dMsg::ClipPath { path: path.clone(), transform: ident() });
    assert_eq!(t.canvas_state(id).clip, Some(path));
    draw(&mut t, id, Canvas2dMsg::RestoreContext);
    assert_eq!(t.canvas_state(id).clip, None);
}

#[test]
fn identifiers_increase_and_close_leaves_others() {
    let mut t = CanvasPaintThread::new();
    let a = new_canvas(&mut t, 2, 2);
    let b = new_canvas(&mut t, 2, 2);
    let c = new_canvas(&mut t, 2, 2);
    assert_eq!(a, CanvasId(0));
    assert_eq!(b, CanvasId(1));
    assert_eq!(c, CanvasId(2));
    assert!(a.0 < b.0 && b.0 < c.0);
    t.handle_canvas_msg(CanvasMsg::Close(b)).unwrap();
    assert!(t.has_canvas(a));
    assert!(!t.has_canvas(b));
    assert!(t.has_canvas(c));
    // The freed identifier is never reissued.
    let d = new_canvas(&mut t, 2, 2);
    assert_eq!(d, CanvasId(3));
    // The survivors still take commands.
    draw(&mut t, a, fill_rect_msg(rect(0, 0, 2, 2), red()));
    draw(&mut t, c, fill_rect_msg(rect(0, 0, 2, 2), blue()));
    assert_all_pixels(&pixels(&mut t, a, rect(0, 0, 2, 2)), red());
    assert_all_pixels(&pixels(&mut t, c, rect(0, 0, 2, 2)), blue());
}

#[test]
fn operating_on_dead_identifier_is_fatal() {
    let mut t = CanvasPaintThread::new();
    let r = t.handle_canvas_msg(CanvasMsg::Canvas2d(fill_rect_msg(rect(0, 0, 1, 1), red()),
        CanvasId(7)));
    assert_eq!(r.err(), Some(CanvasError::BogusCanvasId));
    let id = new_canvas(&mut t, 2, 2);
    t.handle_canvas_msg(CanvasMsg::Close(id)).unwrap();
    let r2 = t.handle_canvas_msg(CanvasMsg::Canvas2d(Canvas2dMsg::SaveContext, id));
    assert_eq!(r2.err(), Some(CanvasError::BogusCanvasId));
    let r3 = t.handle_canvas_msg(CanvasMsg::Recreate(None, id));
    assert_eq!(r3.err(), Some(CanvasError::BogusCanvasId));
    let r4 = t.handle_canvas_msg(CanvasMsg::FromScript(FromScriptMsg::SendPixels, id));
    assert_eq!(r4.err(), Some(CanvasError::BogusCanvasId));
}

#[test]
fn recreate_none_keeps_size_and_state_but_clears_pixels() {
    let mut t = CanvasPaintThread::new();
    let id = new_canvas(&mut t, 20, 10);
    draw(&mut t, id, fill_rect_msg(rect(0, 0, 20, 10), red()));
    let before = t.canvas_state(id);
    t.handle_canvas_msg(CanvasMsg::Recreate(None, id)).unwrap();
    let s = pixels(&mut t, id, rect(0, 0, 20, 10));
    assert_eq!(s.width(), 20);
    assert_eq!(s.height(), 10);
    assert_all_pixels(&s, clear());
    assert_eq!(t.canvas_state(id), before);
}

#[test]
fn recreate_with_size_resizes_and_keeps_state() {
    let mut t = CanvasPaintThread::new();
    let id = new_canvas(&mut t, 20, 10);
    draw(&mut t, id, fill_rect_msg(rect(0, 0, 20, 10), blue()));
    let before = t.canvas_state(id);
    t.handle_canvas_msg(CanvasMsg::Recreate(Some(Size { width: 5, height: 4 }), id)).unwrap();
    let s = pixels(&mut t, id, rect(0, 0, 5, 4));
    assert_eq!(s.width(), 5);
    assert_eq!(s.height(), 4);
    assert_all_pixels(&s, clear());
    assert_eq!(t.canvas_state(id), before);
}

#[test]
fn cross_canvas_copy_matches_source() {
    let mut t = CanvasPaintThread::new();
    let a = new_canvas(&mut t, 50, 50);
    let b = new_canvas(&mut t, 50, 50);
    draw(&mut t, a, fill_rect_msg(rect(0, 0, 50, 50), green()));
    draw(
        &mut t,
        a,
        Canvas2dMsg::DrawImageInOther {
            other_canvas: b,
            image_size: Size { width: 50, height: 50 },
            dest_rect: rect(0, 0, 50, 50),
            source_rect: rect(0, 0, 50, 50),
            smoothing: false,
            shadow_options: shadow(),
            composition_options: comp(),
            transform: ident(),
        },
    );
    let pa = pixels(&mut t, a, rect(0, 0, 50, 50));
    let pb = pixels(&mut t, b, rect(0, 0, 50, 50));
    assert_eq!(pa, pb);
    assert_all_pixels(&pb, green());
}

fn checkerboard(w: u32, h: u32) -> Vec<Color> {
    let mut v = Vec::new();
    for y in 0..h {
        for x in 0..w {
            v.push(rgba((x * 40) as u8, (y * 40) as u8, ((x + y) % 2 * 200) as u8, 255));
        }
    }
    v
}

#[test]
fn draw_from_self_equals_scratch_buffer_copy() {
    let mut t = CanvasPaintThread::new();
    let c = new_canvas(&mut t, 4, 4);
    let d = new_canvas(&mut t, 4, 4);
    let pattern = Snapshot::from_pixels(Size { width: 4, height: 4 }, checkerboard(4, 4)).unwrap();
    for id in [c, d] {
        let p = Snapshot::from_pixels(Size { width: 4, height: 4 }, checkerboard(4, 4)).unwrap();
        draw(&mut t, id, Canvas2dMsg::PutImageData { rect: rect(0, 0, 4, 4), snapshot: p });
    }
    assert_eq!(pixels(&mut t, c, rect(0, 0, 4, 4)), pattern);
    // On canvas `c`: read-then-draw from itself in one command.
    draw(
        &mut t,
        c,
        Canvas2dMsg::DrawImageInOther {
            other_canvas: c,
            image_size: Size { width: 2, height: 2 },
            dest_rect: rect(2, 2, 2, 2),
            source_rect: rect(0, 0, 2, 2),
            smoothing: false,
            shadow_options: shadow(),
            composition_options: comp(),
            transform: ident(),
        },
    );
    // On canvas `d`: the same thing spelled as an explicit scratch copy.
    let scratch = pixels(&mut t, d, rect(0, 0, 2, 2));
    draw(
        &mut t,
        d,
        Canvas2dMsg::DrawImage {
            snapshot: scratch,
            dest_rect: rect(2, 2, 2, 2),
            source_rect: rect(0, 0, 2, 2),
            smoothing: false,
            shadow_options: shadow(),
            composition_options: comp(),
            transform: ident(),
        },
    );
    assert_eq!(pixels(&mut t, c, rect(0, 0, 4, 4)), pixels(&mut t, d, rect(0, 0, 4, 4)));
}

#[test]
fn measure_text_reports_fixed_advance_metrics() {
    let mut t = CanvasPaintThread::new();
    let id = new_canvas(&mut t, 2, 2);
    let resp = draw(
        &mut t,
        id,
        Canvas2dMsg::MeasureText {
            text: String::from("abc"),
            text_options: TextOptions {
                font: None,
                align: TextAlign::Start,
                baseline: TextBaseline::Alphabetic,
            },
        },
    );
    match resp {
        CanvasResponse::Metrics(m) => {
            assert_eq!(m, TextMetrics { width: 24, ascent: 8, descent: 2 });
        },
        _ => panic!("expected metrics"),
    }
}

#[test]
fn clear_rect_resets_only_the_region() {
    let mut t = CanvasPaintThread::new();
    let id = new_canvas(&mut t, 4, 4);
    draw(&mut t, id, fill_rect_msg(rect(0, 0, 4, 4), red()));
    draw(&mut t, id, Canvas2dMsg::ClearRect { rect: rect(1, 1, 2, 2), transform: ident() });
    let s = pixels(&mut t, id, rect(0, 0, 4, 4));
    for y in 0..4 {
        for x in 0..4 {
            let inside = (1..3).contains(&x) && (1..3).contains(&y);
            let want = if inside { clear() } else { red() };
            assert_eq!(s.pixel(x, y), want, "pixel ({}, {})", x, y);
        }
    }
}

#[test]
fn put_then_get_image_data_round_trips() {
    let mut t = CanvasPaintThread::new();
    let id = new_canvas(&mut t, 4, 4);
    let pattern = Snapshot::from_pixels(Size { width: 2, height: 2 }, checkerboard(2, 2)).unwrap();
    let p2 = Snapshot::from_pixels(Size { width: 2, height: 2 }, checkerboard(2, 2)).unwrap();
    draw(&mut t, id, Canvas2dMsg::PutImageData { rect: rect(1, 1, 2, 2), snapshot: p2 });
    assert_eq!(pixels(&mut t, id, rect(1, 1, 2, 2)), pattern);
    // A buffer whose size disagrees with the rectangle writes nothing.
    let odd = Snapshot::from_pixels(Size { width: 2, height: 2 }, checkerboard(2, 2)).unwrap();
    draw(&mut t, id, Canvas2dMsg::PutImageData { rect: rect(0, 0, 3, 3), snapshot: odd });
    assert_eq!(pixels(&mut t, id, rect(1, 1, 2, 2)), pattern);
}

#[test]
fn draw_image_resamples_nearest_neighbour() {
    let mut t = CanvasPaintThread::new();
    let id = new_canvas(&mut t, 2, 2);
    let one = Snapshot::from_pixels(Size { width: 1, height: 1 }, vec![red()]).unwrap();
    draw(
        &mut t,
        id,
        Canvas2dMsg::DrawImage {
            snapshot: one,
            dest_rect: rect(0, 0, 2, 2),
            source_rect: rect(0, 0, 1, 1),
            smoothing: false,
            shadow_options: shadow(),
            composition_options: comp(),
            transform: ident(),
        },
    );
    assert_all_pixels(&pixels(&mut t, id, rect(0, 0, 2, 2)), red());
}

#[test]
fn draw_empty_image_clears_destination() {
    let mut t = CanvasPaintThread::new();
    let id = new_canvas(&mut t, 3, 3);
    draw(&mut t, id, fill_rect_msg(rect(0, 0, 3, 3), blue()));
    draw(
        &mut t,
        id,
        Canvas2dMsg::DrawEmptyImage {
            image_size: Size { width: 3, height: 3 },
            dest_rect: rect(0, 0, 2, 1),
            source_rect: rect(0, 0, 3, 3),
            shadow_options: shadow(),
            composition_options: comp(),
            transform: ident(),
        },
    );
    let s = pixels(&mut t, id, rect(0, 0, 3, 3));
    assert_eq!(s.pixel(0, 0), clear());
    assert_eq!(s.pixel(1, 0), clear());
    assert_eq!(s.pixel(2, 0), blue());
    assert_eq!(s.pixel(0, 1), blue());
}

#[test]
fn fill_rect_is_clamped_to_the_surface() {
    let mut t = CanvasPaintThread::new();
    let id = new_canvas(&mut t, 3, 3);
    draw(&mut t, id, fill_rect_msg(rect(2, 2, 10, 10), blue()));
    let s = pixels(&mut t, id, rect(0, 0, 3, 3));
    for y in 0..3 {
        for x in 0..3 {
            let want = if x == 2 && y == 2 { blue() } else { clear() };
            assert_eq!(s.pixel(x, y), want, "pixel ({}, {})", x, y);
        }
    }
}

#[test]
fn gradient_fill_paints_with_first_stop() {
    let mut t = CanvasPaintThread::new();
    let id = new_canvas(&mut t, 2, 2);
    let style = FillOrStrokeStyle::LinearGradient {
        x0: 0,
        y0: 0,
        x1: 0,
        y1: 0,
        stops: vec![
            canvas_paint::state::GradientStop { offset: 0, color: blue() },
            canvas_paint::state::GradientStop { offset: 1, color: red() },
        ],
    };
    draw(
        &mut t,
        id,
        Canvas2dMsg::FillRect {
            rect: rect(0, 0, 2, 2),
            style,
            shadow_options: shadow(),
            composition_options: comp(),
            transform: ident(),
        },
    );
    assert_all_pixels(&pixels(&mut t, id, rect(0, 0, 2, 2)), blue());
}

#[test]
fn update_image_acknowledges() {
    let mut t = CanvasPaintThread::new();
    let id = new_canvas(&mut t, 1, 1);
    let resp = draw(&mut t, id, Canvas2dMsg::UpdateImage);
    assert!(matches!(resp, CanvasResponse::Done));
}

#[test]
fn send_pixels_returns_whole_surface() {
    let mut t = CanvasPaintThread::new();
    let id = new_canvas(&mut t, 3, 2);
    draw(&mut t, id, fill_rect_msg(rect(0, 0, 3, 2), green()));
    let resp = t.handle_canvas_msg(CanvasMsg::FromScript(FromScriptMsg::SendPixels, id)).unwrap();
    match resp {
        CanvasResponse::Pixels(s) => {
            assert_eq!(s.width(), 3);
            assert_eq!(s.height(), 2);
            assert_all_pixels(&s, green());
        },
        _ => panic!("expected pixels"),
    }
}

#[test]
fn zero_sized_canvas_is_workable() {
    let mut t = CanvasPaintThread::new();
    let id = new_canvas(&mut t, 0, 0);
    draw(&mut t, id, fill_rect_msg(rect(0, 0, 5, 5), red()));
    let s = pixels(&mut t, id, rect(0, 0, 5, 5));
    assert_eq!(s.width(), 0);
    assert_eq!(s.height(), 0);
}

#[test]
fn step_routes_and_decides_flow() {
    let mut t = CanvasPaintThread::new();
    let r = t.step(StreamEvent::Control(Some(ConstellationCanvasMsg::Create {
        size: Size { width: 2, height: 2 },
    })));
    match r {
        Ok((Flow::Continue, CanvasResponse::Created(id, _image))) => assert_eq!(id, CanvasId(0)),
        _ => panic!("expected a created canvas"),
    }
    // A draw-stream receive failure is survivable.
    let r2 = t.step(StreamEvent::Draw(None)).unwrap();
    assert_eq!(r2.0, Flow::Continue);
    // A control-stream receive failure stops the loop.
    let r3 = t.step(StreamEvent::Control(None)).unwrap();
    assert_eq!(r3.0, Flow::Stop);
    // So does an explicit exit, with an acknowledgement.
    let r4 = t.step(StreamEvent::Control(Some(ConstellationCanvasMsg::Exit))).unwrap();
    assert_eq!(r4.0, Flow::Stop);
    assert!(matches!(r4.1, CanvasResponse::Done));
    // A draw command flows through step like through the handler.
    let r5 = t.step(StreamEvent::Draw(Some(CanvasMsg::Canvas2d(
        fill_rect_msg(rect(0, 0, 2, 2), red()),
        CanvasId(0),
    ))));
    assert!(matches!(r5, Ok((Flow::Continue, CanvasResponse::Empty))));
    let r6 = t.step(StreamEvent::Draw(Some(CanvasMsg::Canvas2d(
        fill_rect_msg(rect(0, 0, 2, 2), red()),
        CanvasId(9),
    ))));
    assert_eq!(r6.err(), Some(CanvasError::BogusCanvasId));
}
