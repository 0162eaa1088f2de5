//! A verified model of a 2D canvas rendering actor.
//!
//! The crate owns a set of independent raster surfaces ("canvases"), each
//! with its own graphics state and save/restore stack, keyed by opaque,
//! monotonically increasing identifiers. All drawing commands funnel through
//! one `CanvasPaintThread` value, which a host loop drives with the messages
//! it receives; the host side (channels, threads) lives outside this crate.

pub mod context;
pub mod geom;
pub mod headless;
pub mod messages;
pub mod paint_thread;
pub mod state;
pub mod surface;
