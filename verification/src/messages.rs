//! The command protocol: the draw-command stream, tagged by canvas
//! identifier, and the lifecycle-control stream, together with the replies
//! the actor sends back. Reply channels are the host's business; here a
//! command that answers does so through the returned [`CanvasResponse`].
//! Real-valued fields (text positions, maximum text widths) ride as the
//! IEEE-754 bit patterns of 64-bit floats, as throughout [`crate::state`].

use vstd::prelude::*;
use crate::context::{ImageRef, TextMetrics};
use crate::geom::{Rect, Size};
use crate::state::{
    CompositionOptions, FillOrStrokeStyle, LineOptions, Path, ShadowOptions, TextOptions,
    Transform,
};
use crate::surface::{ImageV, Snapshot};

verus! {

/// An opaque, process-local canvas handle: monotonically increasing, never
/// reused, issued only by the actor.
#[derive(Clone, Copy, PartialEq, Eq, Structural, Hash, Debug)]
pub struct CanvasId(pub u64);

/// One drawing command against one canvas.
pub enum Canvas2dMsg {
    FillText {
        text: String,
        x: u64,
        y: u64,
        max_width: Option<u64>,
        is_rtl: bool,
        style: FillOrStrokeStyle,
        text_options: TextOptions,
        shadow_options: ShadowOptions,
        composition_options: CompositionOptions,
        transform: Transform,
    },
    FillRect {
        rect: Rect,
        style: FillOrStrokeStyle,
        shadow_options: ShadowOptions,
        composition_options: CompositionOptions,
        transform: Transform,
    },
    StrokeRect {
        rect: Rect,
        style: FillOrStrokeStyle,
        line_options: LineOptions,
        shadow_options: ShadowOptions,
        composition_options: CompositionOptions,
        transform: Transform,
    },
    ClearRect { rect: Rect, transform: Transform },
    FillPath {
        style: FillOrStrokeStyle,
        path: Path,
        shadow_options: ShadowOptions,
        composition_options: CompositionOptions,
        transform: Transform,
    },
    StrokePath {
        path: Path,
        style: FillOrStrokeStyle,
        line_options: LineOptions,
        shadow_options: ShadowOptions,
        composition_options: CompositionOptions,
        transform: Transform,
    },
    ClipPath { path: Path, transform: Transform },
    DrawImage {
        snapshot: Snapshot,
        dest_rect: Rect,
        source_rect: Rect,
        smoothing: bool,
        shadow_options: ShadowOptions,
        composition_options: CompositionOptions,
        transform: Transform,
    },
    DrawEmptyImage {
        image_size: Size,
        dest_rect: Rect,
        source_rect: Rect,
        shadow_options: ShadowOptions,
        composition_options: CompositionOptions,
        transform: Transform,
    },
    DrawImageInOther {
        other_canvas: CanvasId,
        image_size: Size,
        dest_rect: Rect,
        source_rect: Rect,
        smoothing: bool,
        shadow_options: ShadowOptions,
        composition_options: CompositionOptions,
        transform: Transform,
    },
    MeasureText { text: String, text_options: TextOptions },
    RestoreContext,
    SaveContext,
    GetImageData { dest_rect: Rect, canvas_size: Size },
    PutImageData { rect: Rect, snapshot: Snapshot },
    UpdateImage,
}

/// A script-side request: hand back the whole surface's pixels.
pub enum FromScriptMsg {
    SendPixels,
}

/// Everything the draw-command stream carries.
pub enum CanvasMsg {
    Canvas2d(Canvas2dMsg, CanvasId),
    Close(CanvasId),
    Recreate(Option<Size>, CanvasId),
    FromScript(FromScriptMsg, CanvasId),
}

/// Everything the lifecycle-control stream carries.
pub enum ConstellationCanvasMsg {
    Create { size: Size },
    Exit,
}

/// What the actor answers a command with. Commands that are one-way answer
/// [`CanvasResponse::Empty`]; request/reply commands answer exactly one of
/// the others, even on their error paths.
pub enum CanvasResponse {
    Empty,
    Pixels(Snapshot),
    Metrics(TextMetrics),
    Done,
    Created(CanvasId, ImageRef),
}

/// The mathematical value of a response.
pub enum ResponseV {
    Empty,
    Pixels(ImageV),
    Metrics(TextMetrics),
    Done,
    Created(CanvasId, ImageRef),
}

impl View for CanvasResponse {
    type V = ResponseV;

    open spec fn view(&self) -> ResponseV {
        match self {
            CanvasResponse::Empty => ResponseV::Empty,
            CanvasResponse::Pixels(s) => ResponseV::Pixels(s@),
            CanvasResponse::Metrics(m) => ResponseV::Metrics(*m),
            CanvasResponse::Done => ResponseV::Done,
            CanvasResponse::Created(id, image) => ResponseV::Created(*id, *image),
        }
    }
}

/// The one fatal error class: a command named a canvas identifier that was
/// never created or was already closed. Identifiers only ever originate
/// from the actor, so this is a caller bug, not a recoverable condition.
#[derive(Clone, Copy, PartialEq, Eq, Structural, Debug)]
pub enum CanvasError {
    BogusCanvasId,
}

/// One wake-up of the actor loop: a message (or a receive failure, `None`)
/// from one of the two inbound streams.
pub enum StreamEvent {
    Draw(Option<CanvasMsg>),
    Control(Option<ConstellationCanvasMsg>),
}

/// Whether the loop keeps running after a step.
#[derive(Clone, Copy, PartialEq, Eq, Structural, Debug)]
pub enum Flow {
    Continue,
    Stop,
}

} // verus!
