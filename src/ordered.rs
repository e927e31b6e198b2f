use vstd::prelude::*;

use crate::color::Rgb;
use crate::quantize::{lemma_nearest_is_closest, nearest_pair, spec_nearest_pair, Palette};
use crate::strategy::{eval, well_formed, Strategy};
use crate::surface::{lemma_index_coords, surface_wf, Surface, SurfaceView, MAX_SIDE};

verus! {

/// Ordered dithering of one pixel: the nearer of the two closest entries where the pixel's mix
/// ratio lies below the threshold, the farther one otherwise.
pub open spec fn ordered_pixel(c: Rgb, p: Seq<Rgb>, s: Strategy, x: int, y: int) -> Rgb {
    let (a, b, t) = spec_nearest_pair(c, p);
    if t < eval(s, x, y) { a } else { b }
}

/// Ordered dithering of a whole surface.
pub open spec fn spec_ordered(v: SurfaceView, p: Seq<Rgb>, s: Strategy) -> SurfaceView {
    SurfaceView {
        width: v.width,
        height: v.height,
        pixels: Seq::new(
            v.pixels.len(),
            |i: int| ordered_pixel(v.pixels[i], p, s, i % (v.width as int), i / (v.width as int)),
        ),
    }
}

/// Dithers `surface` against `palette` with the threshold field `strategy`.
pub fn ordered_dither(surface: &Surface, palette: &Palette, strategy: &Strategy) -> (r: Surface)
    requires
        surface.wf(),
        well_formed(*strategy),
    ensures
        r@ == spec_ordered(surface@, palette@, *strategy),
        r.wf(),
{
    let n = surface.pixels.len();
    let w = surface.width;
    let mut out: Vec<Rgb> = Vec::new();
    let mut i: usize = 0;
    while i < n
        invariant
            surface.wf(),
            well_formed(*strategy),
            n == surface.pixels@.len(),
            w == surface.width,
            i <= n,
            out@.len() == i,
            forall|j: int| 0 <= j < i ==> out@[j] == ordered_pixel(
                surface.pixels@[j], palette@, *strategy, j % (w as int), j / (w as int)),
        decreases n - i,
    {
        proof {
            assert(w > 0) by (nonlinear_arith)
                requires i < n, n == w * surface.height, w >= 0;
            lemma_index_coords(i as int, w as int, surface.height as int);
            assert(crate::strategy::reach(*strategy) <= 1024);
        }
        let x = i % w;
        let y = i / w;
        let c = surface.pixels[i];
        let (a, b, t) = nearest_pair(&c, palette);
        let tau = strategy.evaluate(x as u64, y as u64);
        let q = if t < tau { a } else { b };
        out.push(q);
        i = i + 1;
    }
    let r = Surface { width: surface.width, height: surface.height, pixels: out };
    assert(r@.pixels =~= spec_ordered(surface@, palette@, *strategy).pixels);
    r
}

/// Every pixel that ordered dithering writes is an entry of the palette.
pub proof fn lemma_ordered_in_palette(v: SurfaceView, p: Seq<Rgb>, s: Strategy, i: int)
    requires
        p.len() > 0,
        0 <= i < v.pixels.len(),
    ensures
        p.contains(spec_ordered(v, p, s).pixels[i]),
{
    let c = v.pixels[i];
    lemma_nearest_is_closest(c, p);
    if p.len() > 1 {
        crate::quantize::lemma_first_closest(c, p, p.len() as int, crate::quantize::nearest_index(c, p));
        let j = crate::quantize::second_index(c, p);
        assert(p[j] == spec_nearest_pair(c, p).1);
    }
}

} // verus!
