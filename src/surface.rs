use vstd::prelude::*;

use crate::color::Rgb;

verus! {

/// Largest width or height of a surface.
pub const MAX_SIDE: usize = 65535;

/// A `width` by `height` grid of colours, stored row by row.
pub struct Surface {
    pub width: usize,
    pub height: usize,
    pub pixels: Vec<Rgb>,
}

/// What a surface holds, in mathematical terms.
pub struct SurfaceView {
    pub width: nat,
    pub height: nat,
    pub pixels: Seq<Rgb>,
}

impl View for Surface {
    type V = SurfaceView;

    open spec fn view(&self) -> SurfaceView {
        SurfaceView { width: self.width as nat, height: self.height as nat, pixels: self.pixels@ }
    }
}

/// The grid's sides are in range and it holds one colour per cell.
pub open spec fn surface_wf(s: SurfaceView) -> bool {
    &&& s.width <= MAX_SIDE
    &&& s.height <= MAX_SIDE
    &&& s.pixels.len() == s.width * s.height
}

impl Surface {
    pub open spec fn wf(&self) -> bool {
        surface_wf(self@)
    }

    /// A surface from its rows laid end to end; `None` where the sides are out of range or
    /// the number of pixels is not `width * height`.
    pub fn new(width: usize, height: usize, pixels: Vec<Rgb>) -> (r: Option<Surface>)
        ensures
            r is Some <==> (width <= MAX_SIDE && height <= MAX_SIDE && pixels@.len() == width * height),
            r matches Some(s) ==> s@ == (SurfaceView {
                width: width as nat,
                height: height as nat,
                pixels: pixels@,
            }) && s.wf(),
    {
        if width > MAX_SIDE || height > MAX_SIDE {
            return None;
        }
        proof {
            assert(width * height <= MAX_SIDE * MAX_SIDE) by (nonlinear_arith)
                requires width <= MAX_SIDE, height <= MAX_SIDE;
        }
        if pixels.len() != width * height {
            return None;
        }
        Some(Surface { width, height, pixels })
    }

    /// A surface of one colour.
    pub fn filled(width: usize, height: usize, c: Rgb) -> (r: Option<Surface>)
        ensures
            r is Some <==> (width <= MAX_SIDE && height <= MAX_SIDE),
            r matches Some(s) ==> s.wf() && s.width == width && s.height == height
                && forall|i: int| 0 <= i < s.pixels@.len() ==> s.pixels@[i] == c,
    {
        if width > MAX_SIDE || height > MAX_SIDE {
            return None;
        }
        proof {
            assert(width * height <= MAX_SIDE * MAX_SIDE) by (nonlinear_arith)
                requires width <= MAX_SIDE, height <= MAX_SIDE;
        }
        let n = width * height;
        let mut pixels: Vec<Rgb> = Vec::new();
        let mut i: usize = 0;
        while i < n
            invariant
                i <= n,
                pixels@.len() == i,
                forall|j: int| 0 <= j < i ==> pixels@[j] == c,
            decreases n - i,
        {
            pixels.push(c);
            i = i + 1;
        }
        Some(Surface { width, height, pixels })
    }

    /// The colour at column `x` of row `y`.
    pub fn get(&self, x: usize, y: usize) -> (c: Rgb)
        requires
            self.wf(),
            x < self.width,
            y < self.height,
        ensures
            c == self.pixels@[y * self.width + x],
    {
        let n = self.pixels.len();
        proof {
            assert(y * self.width + x < self.width * self.height) by (nonlinear_arith)
                requires x < self.width, y < self.height;
            assert(y * self.width <= y * self.width + x) by (nonlinear_arith);
        }
        self.pixels[y * self.width + x]
    }
}

/// Column and row of pixel index `i` in a row-by-row grid of width `w`.
pub proof fn lemma_index_coords(i: int, w: int, h: int)
    requires
        0 <= i < w * h,
        w > 0,
    ensures
        0 <= i % w < w,
        0 <= i / w < h,
        (i / w) * w + i % w == i,
{
    assert(0 <= i / w < h) by (nonlinear_arith)
        requires 0 <= i < w * h, w > 0;
    assert((i / w) * w + i % w == i) by (nonlinear_arith)
        requires w > 0;
}

} // verus!
