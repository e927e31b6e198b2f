use vstd::prelude::*;

use crate::color::Rgb;
use crate::quantize::{lemma_nearest_is_closest, nearest, spec_nearest, Palette};
use crate::surface::{lemma_index_coords, Surface, SurfaceView, MAX_SIDE};

verus! {

/// Largest number of entries of a diffusion kernel.
pub const MAX_ENTRIES: usize = 64;

/// An error-diffusion kernel: each entry `(dx, dy, weight)` sends `weight / portions` of a
/// pixel's residual to the pixel `dx` columns right and `dy` rows down.
pub struct Kernel {
    pub entries: Vec<(i8, i8, u8)>,
    pub portions: u16,
}

/// The entry points at a pixel that a row-by-row scan has not reached yet.
pub open spec fn forward(t: (i8, i8, u8)) -> bool {
    t.1 > 0 || (t.1 == 0 && t.0 > 0)
}

pub open spec fn kernel_wf(entries: Seq<(i8, i8, u8)>, portions: u16) -> bool {
    &&& 1 <= portions
    &&& entries.len() <= MAX_ENTRIES
    &&& forall|e: int| 0 <= e < entries.len() ==> forward(#[trigger] entries[e])
}

/// Why a kernel could not be built.
#[derive(Clone, Copy, Debug, PartialEq, Eq, Structural)]
pub enum KernelError {
    NoPortions,
    TooManyEntries,
    BackwardEntry,
    UnknownName,
}

impl Kernel {
    pub open spec fn wf(&self) -> bool {
        kernel_wf(self.entries@, self.portions)
    }

    /// A kernel from its entries and portion count. Refused where `portions` is 0, where there
    /// are more than `MAX_ENTRIES` entries, or where an entry points back along the scan.
    pub fn new(entries: Vec<(i8, i8, u8)>, portions: u16) -> (r: Result<Kernel, KernelError>)
        ensures
            r is Ok <==> kernel_wf(entries@, portions),
            r matches Ok(k) ==> k.entries@ == entries@ && k.portions == portions,
            r matches Err(e) ==> e == (if portions == 0 {
                KernelError::NoPortions
            } else if entries@.len() > MAX_ENTRIES {
                KernelError::TooManyEntries
            } else {
                KernelError::BackwardEntry
            }),
    {
        if portions == 0 {
            return Err(KernelError::NoPortions);
        }
        if entries.len() > MAX_ENTRIES {
            return Err(KernelError::TooManyEntries);
        }
        let mut idx: usize = 0;
        while idx < entries.len()
            invariant
                portions >= 1,
                entries@.len() <= MAX_ENTRIES,
                idx <= entries@.len(),
                forall|f: int| 0 <= f < idx ==> forward(#[trigger] entries@[f]),
            decreases entries@.len() - idx,
        {
            let (dx, dy, _) = entries[idx];
            if !(dy > 0 || (dy == 0 && dx > 0)) {
                return Err(KernelError::BackwardEntry);
            }
            idx = idx + 1;
        }
        Ok(Kernel { entries, portions })
    }
}

/// Division rounding toward zero.
pub open spec fn trunc_div(a: int, d: int) -> int {
    if a >= 0 { a / d } else { -((-a) / d) }
}

pub open spec fn clamp_channel(v: int) -> u8 {
    if v < 0 { 0 } else if v > 255 { 255 } else { v as u8 }
}

/// The pixel with the error carried to it, in units of `1 / portions`, added and clamped.
pub open spec fn with_error(c: Rgb, e: (int, int, int), portions: int) -> Rgb {
    Rgb {
        r: clamp_channel(c.r + trunc_div(e.0, portions)),
        g: clamp_channel(c.g + trunc_div(e.1, portions)),
        b: clamp_channel(c.b + trunc_div(e.2, portions)),
    }
}

/// What quantizing `c` to `q` left over.
pub open spec fn residual(c: Rgb, q: Rgb) -> (int, int, int) {
    (c.r - q.r, c.g - q.g, c.b - q.b)
}

pub open spec fn add_share(e: (int, int, int), w: int, res: (int, int, int)) -> (int, int, int) {
    (e.0 + w * res.0, e.1 + w * res.1, e.2 + w * res.2)
}

/// Index of the pixel that entry `t` of the pixel at `(x, y)` reaches, where it lies inside the
/// `w` by `h` grid.
pub open spec fn target(x: int, y: int, t: (i8, i8, u8), w: int, h: int) -> Option<int> {
    let tx = x + t.0;
    let ty = y + t.1;
    if 0 <= tx < w && 0 <= ty < h {
        Some(ty * w + tx)
    } else {
        None
    }
}

/// The accumulators after the first `k` entries have passed on their share of `res`.
pub open spec fn spread(
    acc: Seq<(int, int, int)>,
    entries: Seq<(i8, i8, u8)>,
    k: int,
    w: int,
    h: int,
    x: int,
    y: int,
    res: (int, int, int),
) -> Seq<(int, int, int)>
    decreases k,
{
    if k <= 0 {
        acc
    } else {
        let prev = spread(acc, entries, k - 1, w, h, x, y, res);
        match target(x, y, entries[k - 1], w, h) {
            Some(j) => prev.update(j, add_share(prev[j], entries[k - 1].2 as int, res)),
            None => prev,
        }
    }
}

/// Output and error accumulators once the first `i` pixels, in row order, are quantized.
pub open spec fn diffuse_upto(
    v: SurfaceView,
    p: Seq<Rgb>,
    entries: Seq<(i8, i8, u8)>,
    portions: int,
    i: nat,
) -> (Seq<Rgb>, Seq<(int, int, int)>)
    decreases i,
{
    if i == 0 {
        (v.pixels, Seq::new(v.pixels.len(), |j: int| (0int, 0int, 0int)))
    } else {
        let (out, acc) = diffuse_upto(v, p, entries, portions, (i - 1) as nat);
        let j = i - 1;
        let c = with_error(v.pixels[j], acc[j], portions);
        let q = spec_nearest(c, p);
        (
            out.update(j, q),
            spread(
                acc,
                entries,
                entries.len() as int,
                v.width as int,
                v.height as int,
                j % (v.width as int),
                j / (v.width as int),
                residual(c, q),
            ),
        )
    }
}

/// Error diffusion of a whole surface.
pub open spec fn spec_diffuse(v: SurfaceView, p: Seq<Rgb>, entries: Seq<(i8, i8, u8)>, portions: int) -> SurfaceView {
    SurfaceView {
        width: v.width,
        height: v.height,
        pixels: diffuse_upto(v, p, entries, portions, v.pixels.len()).0,
    }
}

pub open spec fn acc_view(a: Seq<(i64, i64, i64)>) -> Seq<(int, int, int)> {
    Seq::new(a.len(), |j: int| (a[j].0 as int, a[j].1 as int, a[j].2 as int))
}

pub open spec fn within(e: (i64, i64, i64), bound: int) -> bool {
    -bound <= e.0 <= bound && -bound <= e.1 <= bound && -bound <= e.2 <= bound
}

/// The largest share one entry passes on: a weight times a residual.
pub const MAX_SHARE: i64 = 65025;

fn channel_with(c: u8, e: i64, portions: u16) -> (v: u8)
    requires
        -0x4000_0000_0000_0000 <= e <= 0x4000_0000_0000_0000,
        portions >= 1,
    ensures
        v == clamp_channel(c + trunc_div(e as int, portions as int)),
{
    let t: i64 = if e >= 0 {
        ((e as u64) / (portions as u64)) as i64
    } else {
        -((((-e) as u64) / (portions as u64)) as i64)
    };
    let s = c as i64 + t;
    if s < 0 {
        0
    } else if s > 255 {
        255
    } else {
        s as u8
    }
}

/// Error diffusion: pixels are quantized in row order, each after the error carried to it is
/// added; the residual goes to later pixels by the kernel's weights, and the share of an entry
/// that points outside the surface is dropped.
#[verifier::loop_isolation(false)]
pub fn diffuse(surface: &Surface, palette: &Palette, kernel: &Kernel) -> (r: Surface)
    requires
        surface.wf(),
        kernel.wf(),
    ensures
        r@ == spec_diffuse(surface@, palette@, kernel.entries@, kernel.portions as int),
        r.wf(),
{
    let n = surface.pixels.len();
    let w = surface.width;
    let h = surface.height;
    let m = kernel.entries.len();
    let ghost sv = surface@;
    let ghost p = palette@;
    let ghost ents = kernel.entries@;
    let ghost por = kernel.portions as int;
    let mut out: Vec<Rgb> = Vec::new();
    let mut acc: Vec<(i64, i64, i64)> = Vec::new();
    let mut i: usize = 0;
    while i < n
        invariant
            n == sv.pixels.len(),
            i <= n,
            out@.len() == i,
            acc@.len() == i,
            forall|j: int| 0 <= j < i ==> out@[j] == surface.pixels@[j],
            forall|j: int| 0 <= j < i ==> acc@[j] == (0i64, 0i64, 0i64),
        decreases n - i,
    {
        out.push(surface.pixels[i]);
        acc.push((0, 0, 0));
        i = i + 1;
    }
    assert(out@ =~= diffuse_upto(sv, p, ents, por, 0).0);
    assert(acc_view(acc@) =~= diffuse_upto(sv, p, ents, por, 0).1);
    proof {
        assert(n <= MAX_SIDE * MAX_SIDE) by (nonlinear_arith)
            requires n == w * h, w <= MAX_SIDE, h <= MAX_SIDE;
    }
    i = 0;
    while i < n
        invariant
            n == sv.pixels.len(),
            n <= MAX_SIDE * MAX_SIDE,
            m == ents.len(),
            m <= MAX_ENTRIES,
            i <= n,
            out@.len() == n,
            acc@.len() == n,
            out@ == diffuse_upto(sv, p, ents, por, i as nat).0,
            acc_view(acc@) == diffuse_upto(sv, p, ents, por, i as nat).1,
            forall|j: int| 0 <= j < n ==> within(#[trigger] acc@[j], MAX_SHARE * 64 * i),
        decreases n - i,
    {
        proof {
            assert(w > 0) by (nonlinear_arith)
                requires i < n, n == w * h, w >= 0;
            lemma_index_coords(i as int, w as int, h as int);
        }
        let x = i % w;
        let y = i / w;
        let e = acc[i];
        proof {
            assert(MAX_SHARE * 64 * i <= MAX_SHARE * 64 * (MAX_SIDE * MAX_SIDE)) by (nonlinear_arith)
                requires i <= MAX_SIDE * MAX_SIDE;
            assert(within(acc@[i as int], MAX_SHARE * 64 * i));
        }
        let c = Rgb {
            r: channel_with(surface.pixels[i].r, e.0, kernel.portions),
            g: channel_with(surface.pixels[i].g, e.1, kernel.portions),
            b: channel_with(surface.pixels[i].b, e.2, kernel.portions),
        };
        let q = nearest(&c, palette);
        let res: (i64, i64, i64) = (
            c.r as i64 - q.r as i64,
            c.g as i64 - q.g as i64,
            c.b as i64 - q.b as i64,
        );
        let ghost acc0 = acc_view(acc@);
        let ghost res_i = (res.0 as int, res.1 as int, res.2 as int);
        assert(c == with_error(sv.pixels[i as int], acc0[i as int], por));
        let mut k: usize = 0;
        while k < m
            invariant
                k <= m,
                acc@.len() == n,
                acc_view(acc@) == spread(acc0, ents, k as int, w as int, h as int, x as int, y as int, res_i),
                forall|j: int| 0 <= j < n ==> within(#[trigger] acc@[j], MAX_SHARE * 64 * i + MAX_SHARE * k),
            decreases m - k,
        {
            let (dx, dy, wt) = kernel.entries[k];
            let tx: i64 = x as i64 + dx as i64;
            let ty: i64 = y as i64 + dy as i64;
            let ghost before = acc_view(acc@);
            if 0 <= tx && tx < w as i64 && 0 <= ty && ty < h as i64 {
                proof {
                    assert(ty * w + tx < w * h) by (nonlinear_arith)
                        requires 0 <= tx < w, 0 <= ty < h;
                    assert(0 <= ty * w) by (nonlinear_arith)
                        requires 0 <= ty, 0 <= w;
                }
                let j = (ty as usize) * w + (tx as usize);
                let old_e = acc[j];
                let wt64 = wt as i64;
                proof {
                    assert(-MAX_SHARE <= wt64 * res.0 <= MAX_SHARE) by (nonlinear_arith)
                        requires 0 <= wt64 <= 255, -255 <= res.0 <= 255;
                    assert(-MAX_SHARE <= wt64 * res.1 <= MAX_SHARE) by (nonlinear_arith)
                        requires 0 <= wt64 <= 255, -255 <= res.1 <= 255;
                    assert(-MAX_SHARE <= wt64 * res.2 <= MAX_SHARE) by (nonlinear_arith)
                        requires 0 <= wt64 <= 255, -255 <= res.2 <= 255;
                    assert(within(acc@[j as int], MAX_SHARE * 64 * i + MAX_SHARE * k));
                    assert(MAX_SHARE * 64 * i + MAX_SHARE * k <= MAX_SHARE * 64 * (MAX_SIDE * MAX_SIDE) + MAX_SHARE * 64) by (nonlinear_arith)
                        requires i <= MAX_SIDE * MAX_SIDE, k <= 64;
                }
                let new_e = (old_e.0 + wt64 * res.0, old_e.1 + wt64 * res.1, old_e.2 + wt64 * res.2);
                acc.set(j, new_e);
                proof {
                    assert(target(x as int, y as int, ents[k as int], w as int, h as int) == Some(j as int));
                    assert(acc_view(acc@) =~= before.update(j as int, add_share(before[j as int], wt as int, res_i)));
                }
            } else {
                assert(target(x as int, y as int, ents[k as int], w as int, h as int) is None);
            }
            k = k + 1;
        }
        out.set(i, q);
        proof {
            assert(MAX_SHARE * 64 * i + MAX_SHARE * m <= MAX_SHARE * 64 * (i + 1)) by (nonlinear_arith)
                requires m <= 64;
            assert(out@ =~= diffuse_upto(sv, p, ents, por, (i + 1) as nat).0);
        }
        i = i + 1;
    }
    Surface { width: w, height: h, pixels: out }
}

/// Sum of the weights of the first `k` entries whose pixel, inside the grid, is pixel `j`.
pub open spec fn share(entries: Seq<(i8, i8, u8)>, k: int, w: int, h: int, x: int, y: int, j: int) -> int
    decreases k,
{
    if k <= 0 {
        0
    } else {
        share(entries, k - 1, w, h, x, y, j) + if target(x, y, entries[k - 1], w, h) == Some(j) {
            entries[k - 1].2 as int
        } else {
            0
        }
    }
}

proof fn lemma_target_in_grid(x: int, y: int, t: (i8, i8, u8), w: int, h: int)
    requires
        w > 0,
        h > 0,
    ensures
        target(x, y, t, w, h) matches Some(j) ==> 0 <= j < w * h,
{
    let tx = x + t.0;
    let ty = y + t.1;
    if 0 <= tx < w && 0 <= ty < h {
        assert(0 <= ty * w + tx < w * h) by (nonlinear_arith)
            requires 0 <= tx < w, 0 <= ty < h;
    }
}

/// The residual of a pixel reaches each pixel of the grid in exactly the weights of the entries
/// that land on it inside the grid: an entry that points past an edge passes on nothing, to
/// the pixel a wrap-around would reach or to anyone else, and the weights of the others are
/// not scaled up to make up for it.
pub proof fn lemma_spread_shares(
    acc: Seq<(int, int, int)>,
    entries: Seq<(i8, i8, u8)>,
    k: int,
    w: int,
    h: int,
    x: int,
    y: int,
    res: (int, int, int),
    j: int,
)
    requires
        w > 0,
        h > 0,
        acc.len() == w * h,
        0 <= k <= entries.len(),
        0 <= j < w * h,
    ensures
        spread(acc, entries, k, w, h, x, y, res).len() == acc.len(),
        spread(acc, entries, k, w, h, x, y, res)[j] == add_share(acc[j], share(entries, k, w, h, x, y, j), res),
    decreases k,
{
    if k > 0 {
        lemma_spread_shares(acc, entries, k - 1, w, h, x, y, res, j);
        lemma_target_in_grid(x, y, entries[k - 1], w, h);
        let prev = spread(acc, entries, k - 1, w, h, x, y, res);
        let a = share(entries, k - 1, w, h, x, y, j);
        let b = entries[k - 1].2 as int;
        assert(a * res.0 + b * res.0 == (a + b) * res.0) by (nonlinear_arith);
        assert(a * res.1 + b * res.1 == (a + b) * res.1) by (nonlinear_arith);
        assert(a * res.2 + b * res.2 == (a + b) * res.2) by (nonlinear_arith);
        match target(x, y, entries[k - 1], w, h) {
            Some(t) => {
                lemma_spread_shares(acc, entries, k - 1, w, h, x, y, res, t);
            },
            None => {},
        }
    } else {
        assert(add_share(acc[j], 0, res) == acc[j]);
    }
}

/// Error diffusion is a function of the surface, palette and kernel: the same inputs give the
/// same output surface.
pub proof fn lemma_diffuse_deterministic(
    v1: SurfaceView,
    p1: Seq<Rgb>,
    e1: Seq<(i8, i8, u8)>,
    d1: int,
    v2: SurfaceView,
    p2: Seq<Rgb>,
    e2: Seq<(i8, i8, u8)>,
    d2: int,
)
    requires
        v1 == v2,
        p1 == p2,
        e1 == e2,
        d1 == d2,
    ensures
        spec_diffuse(v1, p1, e1, d1) == spec_diffuse(v2, p2, e2, d2),
{
}

proof fn lemma_diffuse_upto_in_palette(v: SurfaceView, p: Seq<Rgb>, entries: Seq<(i8, i8, u8)>, portions: int, i: nat)
    requires
        p.len() > 0,
        i <= v.pixels.len(),
    ensures
        diffuse_upto(v, p, entries, portions, i).0.len() == v.pixels.len(),
        forall|j: int| 0 <= j < i ==> p.contains(#[trigger] diffuse_upto(v, p, entries, portions, i).0[j]),
    decreases i,
{
    if i > 0 {
        lemma_diffuse_upto_in_palette(v, p, entries, portions, (i - 1) as nat);
        let (out, acc) = diffuse_upto(v, p, entries, portions, (i - 1) as nat);
        let j = i - 1;
        let c = with_error(v.pixels[j], acc[j], portions);
        lemma_nearest_is_closest(c, p);
        assert forall|k: int| 0 <= k < i implies p.contains(#[trigger] diffuse_upto(v, p, entries, portions, i).0[k]) by {
            if k < j {
                assert(p.contains(out[k]));
            }
        }
    }
}

/// Every pixel that error diffusion writes is an entry of the palette.
pub proof fn lemma_diffuse_in_palette(v: SurfaceView, p: Seq<Rgb>, entries: Seq<(i8, i8, u8)>, portions: int, i: int)
    requires
        p.len() > 0,
        0 <= i < v.pixels.len(),
    ensures
        spec_diffuse(v, p, entries, portions).pixels.len() == v.pixels.len(),
        p.contains(spec_diffuse(v, p, entries, portions).pixels[i]),
{
    lemma_diffuse_upto_in_palette(v, p, entries, portions, v.pixels.len());
}

} // verus!
