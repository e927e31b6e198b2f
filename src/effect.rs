use vstd::prelude::*;

use crate::color::Rgb;
use crate::diffusion::{diffuse, lemma_diffuse_in_palette, spec_diffuse, trunc_div, clamp_channel, Kernel};
use crate::ordered::{lemma_ordered_in_palette, ordered_dither, spec_ordered};
use crate::quantize::Palette;
use crate::strategy::{well_formed, Strategy};
use crate::surface::{Surface, SurfaceView};

verus! {

/// One stage of a pipeline: a simple colour filter or a dithering engine.
pub enum Effect {
    /// Adds `delta` to every channel.
    Brighten { delta: i16 },
    /// Scales every channel's distance from the middle grey by `num / den`.
    Contrast { num: u16, den: u16 },
    /// Ordered dithering.
    Ordered { palette: Palette, strategy: Strategy },
    /// Error diffusion.
    Diffuse { palette: Palette, kernel: Kernel },
}

/// Why an effect could not be built.
#[derive(Clone, Copy, Debug, PartialEq, Eq, Structural)]
pub enum EffectError {
    ZeroDenominator,
}

pub open spec fn effect_wf(e: Effect) -> bool {
    match e {
        Effect::Brighten { .. } => true,
        Effect::Contrast { den, .. } => den >= 1,
        Effect::Ordered { strategy, .. } => well_formed(strategy),
        Effect::Diffuse { kernel, .. } => kernel.wf(),
    }
}

pub open spec fn brighten_channel(c: u8, delta: int) -> u8 {
    clamp_channel(c + delta)
}

pub open spec fn contrast_channel(c: u8, num: int, den: int) -> u8 {
    clamp_channel(128 + trunc_div((c - 128) * num, den))
}

pub open spec fn map_pixels(v: SurfaceView, f: spec_fn(Rgb) -> Rgb) -> SurfaceView {
    SurfaceView { width: v.width, height: v.height, pixels: Seq::new(v.pixels.len(), |i: int| f(v.pixels[i])) }
}

/// What an effect makes of a surface.
pub open spec fn spec_apply(e: Effect, v: SurfaceView) -> SurfaceView {
    match e {
        Effect::Brighten { delta } => map_pixels(
            v,
            |c: Rgb| Rgb {
                r: brighten_channel(c.r, delta as int),
                g: brighten_channel(c.g, delta as int),
                b: brighten_channel(c.b, delta as int),
            },
        ),
        Effect::Contrast { num, den } => map_pixels(
            v,
            |c: Rgb| Rgb {
                r: contrast_channel(c.r, num as int, den as int),
                g: contrast_channel(c.g, num as int, den as int),
                b: contrast_channel(c.b, num as int, den as int),
            },
        ),
        Effect::Ordered { palette, strategy } => spec_ordered(v, palette@, strategy),
        Effect::Diffuse { palette, kernel } => spec_diffuse(v, palette@, kernel.entries@, kernel.portions as int),
    }
}

/// The surface after the first `k` effects, in order.
pub open spec fn spec_chain(es: Seq<Effect>, k: int, v: SurfaceView) -> SurfaceView
    decreases k,
{
    if k <= 0 {
        v
    } else {
        spec_apply(es[k - 1], spec_chain(es, k - 1, v))
    }
}

fn brighten_value(c: u8, delta: i16) -> (r: u8)
    ensures
        r == brighten_channel(c, delta as int),
{
    let s = c as i32 + delta as i32;
    if s < 0 {
        0
    } else if s > 255 {
        255
    } else {
        s as u8
    }
}

fn contrast_value(c: u8, num: u16, den: u16) -> (r: u8)
    requires
        den >= 1,
    ensures
        r == contrast_channel(c, num as int, den as int),
{
    let d = c as i64 - 128;
    proof {
        assert(-128 * 65535 <= d * num <= 127 * 65535) by (nonlinear_arith)
            requires -128 <= d <= 127, 0 <= num <= 65535;
    }
    let p = d * (num as i64);
    let t: i64 = if p >= 0 {
        ((p as u64) / (den as u64)) as i64
    } else {
        -((((-p) as u64) / (den as u64)) as i64)
    };
    let s = 128 + t;
    if s < 0 {
        0
    } else if s > 255 {
        255
    } else {
        s as u8
    }
}

impl Effect {
    /// A contrast filter scaling by `num / den`; a zero denominator is refused.
    pub fn contrast(num: u16, den: u16) -> (r: Result<Effect, EffectError>)
        ensures
            r is Ok <==> den >= 1,
            r matches Ok(e) ==> e == (Effect::Contrast { num, den }) && effect_wf(e),
            r matches Err(e) ==> e == EffectError::ZeroDenominator,
    {
        if den == 0 {
            Err(EffectError::ZeroDenominator)
        } else {
            Ok(Effect::Contrast { num, den })
        }
    }

    /// A brightness filter adding `delta` to every channel.
    pub fn brighten(delta: i16) -> (r: Effect)
        ensures
            r == (Effect::Brighten { delta }),
            effect_wf(r),
    {
        Effect::Brighten { delta }
    }

    /// Applies the effect, producing a new surface.
    pub fn apply(&self, surface: &Surface) -> (r: Surface)
        requires
            effect_wf(*self),
            surface.wf(),
        ensures
            r@ == spec_apply(*self, surface@),
            r.wf(),
    {
        match self {
            Effect::Ordered { palette, strategy } => ordered_dither(surface, palette, strategy),
            Effect::Diffuse { palette, kernel } => diffuse(surface, palette, kernel),
            _ => {
                let n = surface.pixels.len();
                let mut out: Vec<Rgb> = Vec::new();
                let mut i: usize = 0;
                while i < n
                    invariant
                        effect_wf(*self),
                        *self is Brighten || *self is Contrast,
                        n == surface.pixels@.len(),
                        i <= n,
                        out@.len() == i,
                        forall|j: int| 0 <= j < i ==> out@[j] == spec_apply(*self, surface@).pixels[j],
                    decreases n - i,
                {
                    let c = surface.pixels[i];
                    let q = match self {
                        Effect::Brighten { delta } => Rgb {
                            r: brighten_value(c.r, *delta),
                            g: brighten_value(c.g, *delta),
                            b: brighten_value(c.b, *delta),
                        },
                        Effect::Contrast { num, den } => Rgb {
                            r: contrast_value(c.r, *num, *den),
                            g: contrast_value(c.g, *num, *den),
                            b: contrast_value(c.b, *num, *den),
                        },
                        _ => c,
                    };
                    out.push(q);
                    i = i + 1;
                }
                let r = Surface { width: surface.width, height: surface.height, pixels: out };
                assert(r@.pixels =~= spec_apply(*self, surface@).pixels);
                r
            },
        }
    }
}

/// Applies the effects in order, each to the surface the one before produced.
pub fn apply_chain(effects: &Vec<Effect>, surface: Surface) -> (r: Surface)
    requires
        surface.wf(),
        forall|i: int| 0 <= i < effects@.len() ==> effect_wf(#[trigger] effects@[i]),
    ensures
        r@ == spec_chain(effects@, effects@.len() as int, surface@),
        r.wf(),
{
    let mut current = surface;
    let mut k: usize = 0;
    while k < effects.len()
        invariant
            k <= effects@.len(),
            current.wf(),
            current@ == spec_chain(effects@, k as int, surface@),
            forall|i: int| 0 <= i < effects@.len() ==> effect_wf(#[trigger] effects@[i]),
        decreases effects@.len() - k,
    {
        current = effects[k].apply(&current);
        k = k + 1;
    }
    current
}

/// The effect leaves every colour as it is: a brightness of 0 or a contrast of 1.
pub open spec fn is_no_op(e: Effect) -> bool {
    match e {
        Effect::Brighten { delta } => delta == 0,
        Effect::Contrast { num, den } => num == den && den >= 1,
        _ => false,
    }
}

proof fn lemma_contrast_unit(c: u8, n: int)
    requires
        n >= 1,
    ensures
        contrast_channel(c, n, n) == c,
{
    let d = c - 128;
    if d >= 0 {
        assert((d * n) / n == d) by (nonlinear_arith)
            requires n >= 1, d >= 0;
    } else {
        assert(-(d * n) == (-d) * n) by (nonlinear_arith);
        assert(((-d) * n) / n == -d) by (nonlinear_arith)
            requires n >= 1, d < 0;
    }
}

/// A chain of filters that change nothing returns its input unchanged.
pub proof fn lemma_no_op_chain(es: Seq<Effect>, k: int, v: SurfaceView)
    requires
        0 <= k <= es.len(),
        forall|i: int| 0 <= i < es.len() ==> is_no_op(#[trigger] es[i]),
    ensures
        spec_chain(es, k, v) == v,
    decreases k,
{
    if k > 0 {
        lemma_no_op_chain(es, k - 1, v);
        let e = es[k - 1];
        assert(is_no_op(e));
        match e {
            Effect::Brighten { delta } => {
                assert(spec_apply(e, v).pixels =~= v.pixels);
            },
            Effect::Contrast { num, den } => {
                assert forall|i: int| 0 <= i < v.pixels.len() implies #[trigger] spec_apply(e, v).pixels[i] == v.pixels[i] by {
                    lemma_contrast_unit(v.pixels[i].r, den as int);
                    lemma_contrast_unit(v.pixels[i].g, den as int);
                    lemma_contrast_unit(v.pixels[i].b, den as int);
                }
                assert(spec_apply(e, v).pixels =~= v.pixels);
            },
            _ => {},
        }
    }
}

/// With a palette of one colour, both dithering engines paint every pixel that colour.
pub proof fn lemma_single_entry_palette(
    v: SurfaceView,
    c: Rgb,
    s: Strategy,
    entries: Seq<(i8, i8, u8)>,
    portions: int,
    i: int,
)
    requires
        0 <= i < v.pixels.len(),
    ensures
        spec_ordered(v, seq![c], s).pixels[i] == c,
        spec_diffuse(v, seq![c], entries, portions).pixels[i] == c,
{
    lemma_ordered_in_palette(v, seq![c], s, i);
    lemma_diffuse_in_palette(v, seq![c], entries, portions, i);
    let o = spec_ordered(v, seq![c], s).pixels[i];
    let d = spec_diffuse(v, seq![c], entries, portions).pixels[i];
    assert(seq![c].contains(o));
    assert(seq![c].contains(d));
    let jo = choose|j: int| 0 <= j < 1 && seq![c][j] == o;
    let jd = choose|j: int| 0 <= j < 1 && seq![c][j] == d;
}

} // verus!
