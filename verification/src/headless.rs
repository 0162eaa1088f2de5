//! Decision core of a headless presentation window: integer window
//! geometry and the fullscreen flag. Scale factors are real-valued and the
//! rendering surface is the host's; both stay outside this crate.

use vstd::prelude::*;

verus! {

/// The size a resize request takes effect at: the rendering surface cannot
/// be zero-sized, so each requested dimension is raised to at least one.
pub open spec fn clamped_dim(v: i32) -> i32 {
    if v < 1 {
        1
    } else {
        v
    }
}

/// A headless window's observable state.
pub struct Window {
    pub fullscreen: bool,
    pub inner_width: i32,
    pub inner_height: i32,
    pub screen_width: i32,
    pub screen_height: i32,
}

impl Window {
    /// A windowed (not fullscreen) window of the given inner size; the
    /// screen reports the override when one is given, else the inner size.
    pub fn new(inner_width: i32, inner_height: i32, screen_size: Option<(i32, i32)>) -> (w: Window)
        ensures
            !w.fullscreen,
            w.inner_width == inner_width,
            w.inner_height == inner_height,
            w.screen_width == match screen_size {
                Some(s) => s.0,
                None => inner_width,
            },
            w.screen_height == match screen_size {
                Some(s) => s.1,
                None => inner_height,
            },
    {
        let (sw, sh) = match screen_size {
            Some(s) => s,
            None => (inner_width, inner_height),
        };
        Window {
            fullscreen: false,
            inner_width,
            inner_height,
            screen_width: sw,
            screen_height: sh,
        }
    }

    /// Accept a resize request: each dimension clamped to at least one
    /// pixel, and the inner size updated to exactly the accepted size.
    pub fn request_resize(&mut self, width: i32, height: i32) -> (r: (i32, i32))
        ensures
            r.0 == clamped_dim(width),
            r.1 == clamped_dim(height),
            final(self).inner_width == r.0,
            final(self).inner_height == r.1,
            final(self).fullscreen == old(self).fullscreen,
            final(self).screen_width == old(self).screen_width,
            final(self).screen_height == old(self).screen_height,
    {
        let w: i32 = if width < 1 {
            1
        } else {
            width
        };
        let h: i32 = if height < 1 {
            1
        } else {
            height
        };
        self.inner_width = w;
        self.inner_height = h;
        (w, h)
    }

    pub fn set_fullscreen(&mut self, state: bool)
        ensures
            final(self).fullscreen == state,
            final(self).inner_width == old(self).inner_width,
            final(self).inner_height == old(self).inner_height,
            final(self).screen_width == old(self).screen_width,
            final(self).screen_height == old(self).screen_height,
    {
        self.fullscreen = state;
    }

    pub fn get_fullscreen(&self) -> (r: bool)
        ensures
            r == self.fullscreen,
    {
        self.fullscreen
    }
}

} // verus!
