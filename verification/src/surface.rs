//! The reference rasterizer: an owned RGBA pixel store with exact,
//! whole-pixel raster operations.
//!
//! This is the one backend this crate ships. It is precise about the
//! integer raster operations (rectangle fills, raw pixel writes and reads,
//! nearest-neighbour blits); rasterization that needs the floating-point
//! pipeline (paths, strokes, glyphs, interpolated resampling) is the domain
//! of a richer backend and leaves the pixels of this one untouched.

use vstd::prelude::*;
use vstd::arithmetic::div_mod::{lemma_fundamental_div_mod, lemma_fundamental_div_mod_converse};
use vstd::arithmetic::mul::lemma_mul_upper_bound;
use crate::geom::{min_u64, Rect, Size};

verus! {

broadcast use vstd::arithmetic::mul::lemma_mul_is_commutative;

/// One RGBA pixel, eight bits per channel, straight (un-premultiplied) alpha.
#[derive(Clone, Copy, PartialEq, Eq, Structural, Debug)]
pub struct Color {
    pub r: u8,
    pub g: u8,
    pub b: u8,
    pub a: u8,
}

impl Color {
    /// The fully transparent pixel that fresh and cleared surfaces hold.
    pub open spec fn transparent_spec() -> Color {
        Color { r: 0, g: 0, b: 0, a: 0 }
    }

    pub fn transparent() -> (c: Color)
        ensures
            c == Color::transparent_spec(),
    {
        Color { r: 0, g: 0, b: 0, a: 0 }
    }
}

/// The mathematical value of an image: its dimensions and its pixels in
/// row-major order.
pub struct ImageV {
    pub width: u32,
    pub height: u32,
    pub data: Seq<Color>,
}

impl ImageV {
    pub open spec fn wf(self) -> bool {
        self.data.len() == self.width as int * self.height as int
    }

    pub open spec fn size(self) -> Size {
        Size { width: self.width, height: self.height }
    }

    pub open spec fn valid(self, x: int, y: int) -> bool {
        &&& 0 <= x < self.width
        &&& 0 <= y < self.height
    }

    /// The pixel in column `x` of row `y`.
    pub open spec fn pix(self, x: int, y: int) -> Color {
        self.data[y * self.width + x]
    }
}

/// A fresh, fully transparent image of the given size.
pub open spec fn blank_v(size: Size) -> ImageV {
    ImageV {
        width: size.width,
        height: size.height,
        data: Seq::new((size.width * size.height) as nat, |i: int| Color::transparent_spec()),
    }
}

/// `s` with every pixel of `r` (clamped to `s`) replaced by `c`.
pub open spec fn fill_rect_v(s: ImageV, r: Rect, c: Color) -> ImageV {
    ImageV {
        width: s.width,
        height: s.height,
        data: Seq::new(
            s.data.len(),
            |i: int|
                if r.covers(s.width, s.height, i % (s.width as int), i / (s.width as int)) {
                    c
                } else {
                    s.data[i]
                },
        ),
    }
}

/// The pixels of `r` clamped to `s`, as an image of the clamped size.
pub open spec fn read_rect_v(s: ImageV, r: Rect) -> ImageV {
    let cw = r.x1(s.width) - r.x0(s.width);
    let ch = r.y1(s.height) - r.y0(s.height);
    ImageV {
        width: cw as u32,
        height: ch as u32,
        data: Seq::new(
            (cw * ch) as nat,
            |i: int| s.pix(r.x0(s.width) + i % cw, r.y0(s.height) + i / cw),
        ),
    }
}

/// `s` with the pixels of `r` (clamped to `s`) overwritten raw by `src`,
/// whose dimensions are those of `r`.
pub open spec fn write_rect_v(s: ImageV, r: Rect, src: ImageV) -> ImageV {
    ImageV {
        width: s.width,
        height: s.height,
        data: Seq::new(
            s.data.len(),
            |i: int|
                {
                    let x = i % (s.width as int);
                    let y = i / (s.width as int);
                    if r.covers(s.width, s.height, x, y) {
                        src.pix(x - r.x, y - r.y)
                    } else {
                        s.data[i]
                    }
                },
        ),
    }
}

/// Nearest-neighbour sample for the destination pixel `(x, y)`: the source
/// position that maps to it under the `sr` to `dr` scaling, or transparent
/// when that position falls outside `src`.
pub open spec fn sample_v(src: ImageV, sr: Rect, dr: Rect, x: int, y: int) -> Color {
    let u = sr.x + (x - dr.x) * (sr.w as int) / (dr.w as int);
    let v = sr.y + (y - dr.y) * (sr.h as int) / (dr.h as int);
    if src.valid(u, v) {
        src.pix(u, v)
    } else {
        Color::transparent_spec()
    }
}

/// `s` with every pixel of `dr` (clamped to `s`) replaced by its
/// nearest-neighbour sample of `src` taken through `sr`.
pub open spec fn blit_v(s: ImageV, src: ImageV, sr: Rect, dr: Rect) -> ImageV {
    ImageV {
        width: s.width,
        height: s.height,
        data: Seq::new(
            s.data.len(),
            |i: int|
                {
                    let x = i % (s.width as int);
                    let y = i / (s.width as int);
                    if dr.covers(s.width, s.height, x, y) {
                        sample_v(src, sr, dr, x, y)
                    } else {
                        s.data[i]
                    }
                },
        ),
    }
}

/// Blitting a fully transparent buffer, of any size and through any source
/// rectangle, is exactly a transparent fill of the destination rectangle:
/// every sample of a blank image is transparent, inside or outside its
/// bounds.
pub proof fn lemma_blit_of_blank_is_transparent_fill(s: ImageV, size: Size, sr: Rect, dr: Rect)
    ensures
        blit_v(s, blank_v(size), sr, dr) == fill_rect_v(s, dr, Color::transparent_spec()),
{
    let b = blit_v(s, blank_v(size), sr, dr);
    let f = fill_rect_v(s, dr, Color::transparent_spec());
    assert forall|i: int| 0 <= i < s.data.len() implies b.data[i] == f.data[i] by {
        let x = i % (s.width as int);
        let y = i / (s.width as int);
        if dr.covers(s.width, s.height, x, y) {
            let blank = blank_v(size);
            let u = sr.x + (x - dr.x) * (sr.w as int) / (dr.w as int);
            let v = sr.y + (y - dr.y) * (sr.h as int) / (dr.h as int);
            if blank.valid(u, v) {
                lemma_pix_index(size.width as int, size.height as int, u, v);
                assert(blank.pix(u, v) == Color::transparent_spec());
            }
            assert(sample_v(blank, sr, dr, x, y) == Color::transparent_spec());
        }
    }
    assert(b.data =~= f.data);
}

/// A row-major index stays inside an image of `w` by `h` pixels.
proof fn lemma_pix_index(w: int, h: int, x: int, y: int)
    requires
        0 <= x < w,
        0 <= y < h,
    ensures
        0 <= y * w + x < w * h,
{
    assert(0 <= y * w + x < w * h) by (nonlinear_arith)
        requires
            0 <= x < w,
            0 <= y < h,
    ;
}

/// The concrete pixel store of one canvas, and the owned pixel buffers that
/// travel in messages and replies.
#[derive(PartialEq, Debug)]
pub struct Snapshot {
    width: u32,
    height: u32,
    data: Vec<Color>,
}

impl View for Snapshot {
    type V = ImageV;

    closed spec fn view(&self) -> ImageV {
        ImageV { width: self.width, height: self.height, data: self.data@ }
    }
}

impl Snapshot {
    /// A transparent surface of the given size.
    pub fn new(size: Size) -> (s: Snapshot)
        requires
            size.area() <= usize::MAX,
        ensures
            s@ == blank_v(size),
            s@.wf(),
    {
        let area: u64 = size.width as u64 * size.height as u64;
        let mut data: Vec<Color> = Vec::new();
        let mut i: u64 = 0;
        while i < area
            invariant
                i <= area,
                area == size.width as int * size.height as int,
                data@ =~= Seq::new(i as nat, |k: int| Color::transparent_spec()),
            decreases area - i,
        {
            data.push(Color::transparent());
            i = i + 1;
        }
        let s = Snapshot { width: size.width, height: size.height, data };
        proof {
            assert(s@.data =~= blank_v(size).data);
        }
        s
    }

    pub fn width(&self) -> (w: u32)
        ensures
            w == self@.width,
    {
        self.width
    }

    pub fn height(&self) -> (h: u32)
        ensures
            h == self@.height,
    {
        self.height
    }

    /// How many pixels the surface holds.
    pub fn pixel_count(&self) -> (n: usize)
        ensures
            n == self@.data.len(),
    {
        self.data.len()
    }

    pub fn size(&self) -> (s: Size)
        ensures
            s == self@.size(),
    {
        Size { width: self.width, height: self.height }
    }

    /// Build a pixel buffer from its parts; the host side uses this to hand
    /// decoded image data in.
    pub fn from_pixels(size: Size, data: Vec<Color>) -> (s: Option<Snapshot>)
        ensures
            match s {
                Some(v) => v@ == (ImageV { width: size.width, height: size.height, data: data@ })
                    && v@.wf(),
                None => data@.len() != size.area(),
            },
    {
        proof {
            lemma_mul_upper_bound(size.width as int, 0xFFFF_FFFF, size.height as int, 0xFFFF_FFFF);
        }
        let area: u64 = size.width as u64 * size.height as u64;
        if data.len() as u64 == area {
            Some(Snapshot { width: size.width, height: size.height, data })
        } else {
            None
        }
    }

    /// Replace every pixel of `r`, clamped to this surface, by `c`.
    pub fn fill_rect_raw(&mut self, r: Rect, c: Color)
        requires
            old(self)@.wf(),
        ensures
            final(self)@ == fill_rect_v(old(self)@, r, c),
            final(self)@.wf(),
    {
        let ghost orig = self@;
        let w = self.width;
        let h = self.height;
        let ghost wi = w as int;
        let n: usize = self.data.len();
        let x0: u64 = min_u64(r.x as u64, w as u64);
        let x1: u64 = min_u64(r.x as u64 + r.w as u64, w as u64);
        let y0: u64 = min_u64(r.y as u64, h as u64);
        let y1: u64 = min_u64(r.y as u64 + r.h as u64, h as u64);
        let mut y: u64 = y0;
        while y < y1
            invariant
                orig.wf(),
                self@.width == orig.width,
                self@.height == orig.height,
                self@.data.len() == orig.data.len(),
                w == orig.width,
                h == orig.height,
                wi == w as int,
                n == orig.data.len(),
                x0 == r.x0(w),
                x1 == r.x1(w),
                y0 == r.y0(h),
                y1 == r.y1(h),
                y0 <= y <= y1,
                forall|i: int|
                    0 <= i < n ==> #[trigger] self@.data[i] == (
                    if r.covers(w, h, i % wi, i / wi) && i / wi < y {
                        c
                    } else {
                        orig.data[i]
                    }),
            decreases y1 - y,
        {
            let mut x: u64 = x0;
            while x < x1
                invariant
                    orig.wf(),
                    self@.width == orig.width,
                    self@.height == orig.height,
                    self@.data.len() == orig.data.len(),
                    w == orig.width,
                    h == orig.height,
                    wi == w as int,
                    n == orig.data.len(),
                    x0 == r.x0(w),
                    x1 == r.x1(w),
                    y0 == r.y0(h),
                    y1 == r.y1(h),
                    y0 <= y < y1,
                    x0 <= x <= x1,
                    forall|i: int|
                        0 <= i < n ==> #[trigger] self@.data[i] == (
                        if r.covers(w, h, i % wi, i / wi) && (i / wi < y || (i / wi == y && i % wi
                            < x)) {
                            c
                        } else {
                            orig.data[i]
                        }),
                decreases x1 - x,
            {
                proof {
                    lemma_mul_upper_bound(y as int, 0xFFFF_FFFF, wi, 0xFFFF_FFFF);
                    lemma_pix_index(wi, h as int, x as int, y as int);
                }
                let idx: u64 = y * (w as u64) + x;
                assert(idx < n);
                self.data[idx as usize] = c;
                proof {
                    lemma_fundamental_div_mod_converse(idx as int, wi, y as int, x as int);
                    assert forall|i: int| 0 <= i < n implies #[trigger] self@.data[i] == (
                        if r.covers(w, h, i % wi, i / wi) && (i / wi < y || (i / wi == y && i % wi
                            < x + 1)) {
                            c
                        } else {
                            orig.data[i]
                        }) by {
                        lemma_fundamental_div_mod(i, wi);
                    }
                }
                x = x + 1;
            }
            y = y + 1;
        }
        proof {
            assert(self@.data =~= fill_rect_v(orig, r, c).data);
        }
    }

    /// Copy out the pixels of `r`, clamped to this surface.
    pub fn read_rect(&self, r: Rect) -> (out: Snapshot)
        requires
            self@.wf(),
        ensures
            out@ == read_rect_v(self@, r),
            out@.wf(),
    {
        let w = self.width;
        let h = self.height;
        let ghost wi = w as int;
        let n: usize = self.data.len();
        let x0: u64 = min_u64(r.x as u64, w as u64);
        let x1: u64 = min_u64(r.x as u64 + r.w as u64, w as u64);
        let y0: u64 = min_u64(r.y as u64, h as u64);
        let y1: u64 = min_u64(r.y as u64 + r.h as u64, h as u64);
        let cw: u64 = x1 - x0;
        let ch: u64 = y1 - y0;
        let ghost cwi = cw as int;
        let mut data: Vec<Color> = Vec::new();
        let mut j: u64 = 0;
        while j < ch
            invariant
                self@.wf(),
                w == self@.width,
                h == self@.height,
                wi == w as int,
                n == self@.data.len(),
                x0 == r.x0(w),
                x1 == r.x1(w),
                y0 == r.y0(h),
                y1 == r.y1(h),
                cw == x1 - x0,
                ch == y1 - y0,
                cwi == cw as int,
                0 <= j <= ch,
                data@.len() == j * cwi,
                forall|k: int|
                    0 <= k < data@.len() ==> #[trigger] data@[k] == self@.pix(
                        x0 + k % cwi,
                        y0 + k / cwi,
                    ),
            decreases ch - j,
        {
            let mut i: u64 = 0;
            while i < cw
                invariant
                    self@.wf(),
                    w == self@.width,
                    h == self@.height,
                    wi == w as int,
                    n == self@.data.len(),
                    x0 == r.x0(w),
                    x1 == r.x1(w),
                    y0 == r.y0(h),
                    y1 == r.y1(h),
                    cw == x1 - x0,
                    ch == y1 - y0,
                    cwi == cw as int,
                    0 <= j < ch,
                    0 <= i <= cw,
                    data@.len() == j * cwi + i,
                    forall|k: int|
                        0 <= k < data@.len() ==> #[trigger] data@[k] == self@.pix(
                            x0 + k % cwi,
                            y0 + k / cwi,
                        ),
                decreases cw - i,
            {
                proof {
                    lemma_mul_upper_bound((y0 + j) as int, 0xFFFF_FFFF, wi, 0xFFFF_FFFF);
                    lemma_pix_index(wi, h as int, (x0 + i) as int, (y0 + j) as int);
                }
                let idx: u64 = (y0 + j) * (w as u64) + (x0 + i);
                assert(idx < n);
                let px = self.data[idx as usize];
                data.push(px);
                proof {
                    lemma_fundamental_div_mod_converse(
                        j * cwi + i as int,
                        cwi,
                        j as int,
                        i as int,
                    );
                }
                i = i + 1;
            }
            proof {
                assert((j + 1) * cwi == j * cwi + cwi) by (nonlinear_arith);
            }
            j = j + 1;
        }
        let out = Snapshot { width: cw as u32, height: ch as u32, data };
        proof {
            assert(out@.data =~= read_rect_v(self@, r).data);
        }
        out
    }

    /// Overwrite the pixels of `r`, clamped to this surface, raw from `src`,
    /// whose dimensions are those of `r`. No state is consulted.
    pub fn write_rect(&mut self, r: Rect, src: &Snapshot)
        requires
            old(self)@.wf(),
            src@.wf(),
            src@.width == r.w,
            src@.height == r.h,
        ensures
            final(self)@ == write_rect_v(old(self)@, r, src@),
            final(self)@.wf(),
    {
        let ghost orig = self@;
        let w = self.width;
        let h = self.height;
        let ghost wi = w as int;
        let n: usize = self.data.len();
        let x0: u64 = min_u64(r.x as u64, w as u64);
        let x1: u64 = min_u64(r.x as u64 + r.w as u64, w as u64);
        let y0: u64 = min_u64(r.y as u64, h as u64);
        let y1: u64 = min_u64(r.y as u64 + r.h as u64, h as u64);
        let mut y: u64 = y0;
        while y < y1
            invariant
                orig.wf(),
                src@.wf(),
                src@.width == r.w,
                src@.height == r.h,
                self@.width == orig.width,
                self@.height == orig.height,
                self@.data.len() == orig.data.len(),
                w == orig.width,
                h == orig.height,
                wi == w as int,
                n == orig.data.len(),
                x0 == r.x0(w),
                x1 == r.x1(w),
                y0 == r.y0(h),
                y1 == r.y1(h),
                y0 <= y <= y1,
                forall|i: int|
                    0 <= i < n ==> #[trigger] self@.data[i] == (
                    if r.covers(w, h, i % wi, i / wi) && i / wi < y {
                        src@.pix(i % wi - r.x, i / wi - r.y)
                    } else {
                        orig.data[i]
                    }),
            decreases y1 - y,
        {
            let mut x: u64 = x0;
            while x < x1
                invariant
                    orig.wf(),
                    src@.wf(),
                    src@.width == r.w,
                    src@.height == r.h,
                    self@.width == orig.width,
                    self@.height == orig.height,
                    self@.data.len() == orig.data.len(),
                    w == orig.width,
                    h == orig.height,
                    wi == w as int,
                    n == orig.data.len(),
                    x0 == r.x0(w),
                    x1 == r.x1(w),
                    y0 == r.y0(h),
                    y1 == r.y1(h),
                    y0 <= y < y1,
                    x0 <= x <= x1,
                    forall|i: int|
                        0 <= i < n ==> #[trigger] self@.data[i] == (
                        if r.covers(w, h, i % wi, i / wi) && (i / wi < y || (i / wi == y && i % wi
                            < x)) {
                            src@.pix(i % wi - r.x, i / wi - r.y)
                        } else {
                            orig.data[i]
                        }),
                decreases x1 - x,
            {
                proof {
                    lemma_mul_upper_bound(y as int, 0xFFFF_FFFF, wi, 0xFFFF_FFFF);
                    lemma_pix_index(wi, h as int, x as int, y as int);
                }
                let idx: u64 = y * (w as u64) + x;
                assert(idx < n);
                let sx: u64 = x - r.x as u64;
                let sy: u64 = y - r.y as u64;
                let px = src.pixel(sx as u32, sy as u32);
                let ghost before = self@.data;
                self.data[idx as usize] = px;
                proof {
                    lemma_fundamental_div_mod_converse(idx as int, wi, y as int, x as int);
                    assert forall|i: int| 0 <= i < n implies #[trigger] self@.data[i] == (
                        if r.covers(w, h, i % wi, i / wi) && (i / wi < y || (i / wi == y && i % wi
                            < x + 1)) {
                            src@.pix(i % wi - r.x, i / wi - r.y)
                        } else {
                            orig.data[i]
                        }) by {
                        lemma_fundamental_div_mod(i, wi);
                    }
                }
                x = x + 1;
            }
            y = y + 1;
        }
        proof {
            assert(self@.data =~= write_rect_v(orig, r, src@).data);
        }
    }

    /// Replace every pixel of `dr`, clamped to this surface, by its
    /// nearest-neighbour sample of `src` taken through `sr`. The reference
    /// rasterizer always samples nearest-neighbour; interpolated sampling
    /// belongs to the floating-point pipeline and is out of its scope.
    pub fn blit(&mut self, src: &Snapshot, sr: Rect, dr: Rect)
        requires
            old(self)@.wf(),
            src@.wf(),
        ensures
            final(self)@ == blit_v(old(self)@, src@, sr, dr),
            final(self)@.wf(),
    {
        let ghost orig = self@;
        let w = self.width;
        let h = self.height;
        let ghost wi = w as int;
        let n: usize = self.data.len();
        let x0: u64 = min_u64(dr.x as u64, w as u64);
        let x1: u64 = min_u64(dr.x as u64 + dr.w as u64, w as u64);
        let y0: u64 = min_u64(dr.y as u64, h as u64);
        let y1: u64 = min_u64(dr.y as u64 + dr.h as u64, h as u64);
        let mut y: u64 = y0;
        while y < y1
            invariant
                orig.wf(),
                src@.wf(),
                self@.width == orig.width,
                self@.height == orig.height,
                self@.data.len() == orig.data.len(),
                w == orig.width,
                h == orig.height,
                wi == w as int,
                n == orig.data.len(),
                x0 == dr.x0(w),
                x1 == dr.x1(w),
                y0 == dr.y0(h),
                y1 == dr.y1(h),
                y0 <= y <= y1,
                forall|i: int|
                    0 <= i < n ==> #[trigger] self@.data[i] == (
                    if dr.covers(w, h, i % wi, i / wi) && i / wi < y {
                        sample_v(src@, sr, dr, i % wi, i / wi)
                    } else {
                        orig.data[i]
                    }),
            decreases y1 - y,
        {
            let mut x: u64 = x0;
            while x < x1
                invariant
                    orig.wf(),
                    src@.wf(),
                    self@.width == orig.width,
                    self@.height == orig.height,
                    self@.data.len() == orig.data.len(),
                    w == orig.width,
                    h == orig.height,
                    wi == w as int,
                    n == orig.data.len(),
                    x0 == dr.x0(w),
                    x1 == dr.x1(w),
                    y0 == dr.y0(h),
                    y1 == dr.y1(h),
                    y0 <= y < y1,
                    x0 <= x <= x1,
                    forall|i: int|
                        0 <= i < n ==> #[trigger] self@.data[i] == (
                        if dr.covers(w, h, i % wi, i / wi) && (i / wi < y || (i / wi == y && i % wi
                            < x)) {
                            sample_v(src@, sr, dr, i % wi, i / wi)
                        } else {
                            orig.data[i]
                        }),
                decreases x1 - x,
            {
                proof {
                    lemma_mul_upper_bound(y as int, 0xFFFF_FFFF, wi, 0xFFFF_FFFF);
                    lemma_pix_index(wi, h as int, x as int, y as int);
                }
                let idx: u64 = y * (w as u64) + x;
                assert(idx < n);
                let du: u64 = x - dr.x as u64;
                let dv: u64 = y - dr.y as u64;
                proof {
                    lemma_mul_upper_bound(du as int, 0xFFFF_FFFF, sr.w as int, 0xFFFF_FFFF);
                    lemma_mul_upper_bound(dv as int, 0xFFFF_FFFF, sr.h as int, 0xFFFF_FFFF);
                    assert(du * (sr.w as int) / (dr.w as int) <= du * (sr.w as int))
                        by (nonlinear_arith)
                        requires
                            dr.w >= 1,
                            du * (sr.w as int) >= 0,
                    ;
                    assert(dv * (sr.h as int) / (dr.h as int) <= dv * (sr.h as int))
                        by (nonlinear_arith)
                        requires
                            dr.h >= 1,
                            dv * (sr.h as int) >= 0,
                    ;
                }
                let u: u64 = sr.x as u64 + du * (sr.w as u64) / (dr.w as u64);
                let v: u64 = sr.y as u64 + dv * (sr.h as u64) / (dr.h as u64);
                let px = if u < src.width() as u64 && v < src.height() as u64 {
                    src.pixel(u as u32, v as u32)
                } else {
                    Color::transparent()
                };
                assert(px == sample_v(src@, sr, dr, x as int, y as int));
                self.data[idx as usize] = px;
                proof {
                    lemma_fundamental_div_mod_converse(idx as int, wi, y as int, x as int);
                    assert forall|i: int| 0 <= i < n implies #[trigger] self@.data[i] == (
                        if dr.covers(w, h, i % wi, i / wi) && (i / wi < y || (i / wi == y && i % wi
                            < x + 1)) {
                            sample_v(src@, sr, dr, i % wi, i / wi)
                        } else {
                            orig.data[i]
                        }) by {
                        lemma_fundamental_div_mod(i, wi);
                    }
                }
                x = x + 1;
            }
            y = y + 1;
        }
        proof {
            assert(self@.data =~= blit_v(orig, src@, sr, dr).data);
        }
    }

    /// Read one pixel.
    pub fn pixel(&self, x: u32, y: u32) -> (c: Color)
        requires
            self@.wf(),
            self@.valid(x as int, y as int),
        ensures
            c == self@.pix(x as int, y as int),
    {
        proof {
            lemma_pix_index(self@.width as int, self@.height as int, x as int, y as int);
            lemma_mul_upper_bound(y as int, 0xFFFF_FFFF, self.width as int, 0xFFFF_FFFF);
        }
        let n: usize = self.data.len();
        let idx: u64 = (y as u64) * (self.width as u64) + (x as u64);
        assert(idx < n);
        self.data[idx as usize]
    }
}

} // verus!
