//! One canvas context driven directly, without the actor around it.

use canvas_paint::context::{Context, ImageRef};
use canvas_paint::geom::{Rect, Size};
use canvas_paint::state::FillOrStrokeStyle;
use canvas_paint::surface::Color;

const RED: Color = Color { r: 255, g: 0, b: 0, a: 255 };

#[test]
fn save_and_restore_balance_the_stack() {
    let mut c = Context::new(Size { width: 2, height: 2 }, ImageRef(9));
    assert_eq!(c.image_ref(), ImageRef(9));
    assert_eq!(c.save_depth(), 0);
    c.save_context_state();
    c.save_context_state();
    assert_eq!(c.save_depth(), 2);
    c.restore_context_state();
    assert_eq!(c.save_depth(), 1);
    c.restore_context_state();
    assert_eq!(c.save_depth(), 0);
    // One more restore on the empty stack: clamped, not an error.
    c.restore_context_state();
    assert_eq!(c.save_depth(), 0);
}

#[test]
fn context_fill_read_and_clamped_region() {
    let mut c = Context::new(Size { width: 3, height: 2 }, ImageRef(0));
    c.set_fill_style(FillOrStrokeStyle::Solid(RED));
    c.fill_rect(Rect { x: 0, y: 0, w: 3, h: 2 });
    let whole = c.read_pixels(None);
    assert_eq!(whole.width(), 3);
    assert_eq!(whole.height(), 2);
    assert_eq!(whole.pixel(2, 1), RED);
    // A region larger than the surface is clamped to it.
    let clamped = c.read_pixels(Some(Rect { x: 1, y: 0, w: 10, h: 10 }));
    assert_eq!(clamped.width(), 2);
    assert_eq!(clamped.height(), 2);
    assert_eq!(clamped.pixel(0, 0), RED);
}

#[test]
fn measure_text_of_empty_string_is_zero_wide() {
    let c = Context::new(Size { width: 1, height: 1 }, ImageRef(0));
    let m = c.measure_text("");
    assert_eq!(m.width, 0);
    assert_eq!(m.ascent, 8);
    assert_eq!(m.descent, 2);
}
