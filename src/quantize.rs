use vstd::prelude::*;

use crate::color::{distance, lemma_distance_bounds, spec_distance, Rgb};

verus! {

/// Fixed-point scale of thresholds and mix ratios: a value `v` stands for `v / UNIT`.
pub const UNIT: u64 = 65536;

/// The index of the first colour among `p[0..k]` closest to `c`, leaving out index `skip`;
/// -1 where no index is left.
pub open spec fn first_closest(c: Rgb, p: Seq<Rgb>, k: int, skip: int) -> int
    decreases k,
{
    if k <= 0 {
        -1
    } else {
        let m = first_closest(c, p, k - 1, skip);
        if k - 1 == skip {
            m
        } else if m < 0 || spec_distance(c, p[k - 1]) < spec_distance(c, p[m]) {
            k - 1
        } else {
            m
        }
    }
}

/// The index of the nearest palette entry; ties go to the earliest index.
pub open spec fn nearest_index(c: Rgb, p: Seq<Rgb>) -> int {
    first_closest(c, p, p.len() as int, p.len() as int)
}

/// The colour that quantizing `c` against `p` gives.
pub open spec fn spec_nearest(c: Rgb, p: Seq<Rgb>) -> Rgb {
    p[nearest_index(c, p)]
}

/// The index of the nearest entry other than the nearest one.
pub open spec fn second_index(c: Rgb, p: Seq<Rgb>) -> int {
    first_closest(c, p, p.len() as int, nearest_index(c, p))
}

/// Where `c` falls between `a` (at 0) and `b` (at `UNIT`), by relative distance.
pub open spec fn spec_mix(c: Rgb, a: Rgb, b: Rgb) -> int {
    let da = spec_distance(c, a);
    let db = spec_distance(c, b);
    if da + db == 0 {
        0
    } else {
        da * UNIT / (da + db)
    }
}

/// The two closest entries and the mix ratio between them. With a single entry both are that
/// entry and the ratio is 0.
pub open spec fn spec_nearest_pair(c: Rgb, p: Seq<Rgb>) -> (Rgb, Rgb, int) {
    let a = spec_nearest(c, p);
    if p.len() == 1 {
        (a, a, 0)
    } else {
        let b = p[second_index(c, p)];
        (a, b, spec_mix(c, a, b))
    }
}

/// `i` is the first index other than `skip` below `k` with the least distance to `c`.
pub open spec fn is_first_closest(c: Rgb, p: Seq<Rgb>, k: int, skip: int, i: int) -> bool {
    &&& 0 <= i < k
    &&& i != skip
    &&& forall|j: int| 0 <= j < k && j != skip ==> spec_distance(c, p[i]) <= spec_distance(c, p[j])
    &&& forall|j: int| 0 <= j < i && j != skip ==> spec_distance(c, p[j]) > spec_distance(c, p[i])
}

/// Some index below `k` is not `skip`.
pub open spec fn has_candidate(k: int, skip: int) -> bool {
    k > 1 || (k == 1 && skip != 0)
}

pub proof fn lemma_first_closest(c: Rgb, p: Seq<Rgb>, k: int, skip: int)
    requires
        0 <= k <= p.len(),
    ensures
        has_candidate(k, skip) ==> is_first_closest(c, p, k, skip, first_closest(c, p, k, skip)),
        !has_candidate(k, skip) ==> first_closest(c, p, k, skip) == -1,
    decreases k,
{
    if k > 0 {
        lemma_first_closest(c, p, k - 1, skip);
        let m = first_closest(c, p, k - 1, skip);
        if !has_candidate(k - 1, skip) && k - 1 != skip {
            assert(is_first_closest(c, p, k, skip, k - 1));
        }
    }
}

/// Nearest-entry quantization yields a palette entry no farther from `c` than any other.
pub proof fn lemma_nearest_is_closest(c: Rgb, p: Seq<Rgb>)
    requires
        p.len() > 0,
    ensures
        0 <= nearest_index(c, p) < p.len(),
        p.contains(spec_nearest(c, p)),
        forall|j: int| 0 <= j < p.len() ==> spec_distance(c, spec_nearest(c, p)) <= spec_distance(c, p[j]),
        forall|j: int| 0 <= j < nearest_index(c, p) ==> spec_distance(c, p[j]) > spec_distance(c, spec_nearest(c, p)),
{
    lemma_first_closest(c, p, p.len() as int, p.len() as int);
    let i = nearest_index(c, p);
    assert(p[i] == spec_nearest(c, p));
}

/// A palette: a non-empty sequence of colours whose order decides ties.
pub struct Palette {
    colors: Vec<Rgb>,
}

/// Why a palette could not be built.
#[derive(Clone, Copy, Debug, PartialEq, Eq, Structural)]
pub enum PaletteError {
    Empty,
}

impl View for Palette {
    type V = Seq<Rgb>;

    closed spec fn view(&self) -> Seq<Rgb> {
        self.colors@
    }
}

impl Palette {
    #[verifier::type_invariant]
    spec fn inv(&self) -> bool {
        self.colors.len() > 0
    }

    /// Builds a palette from its colours; an empty list is refused.
    pub fn from_colors(colors: Vec<Rgb>) -> (r: Result<Palette, PaletteError>)
        ensures
            colors@.len() == 0 <==> r is Err,
            r matches Ok(p) ==> p@ == colors@,
            r matches Err(e) ==> e == PaletteError::Empty,
    {
        if colors.len() == 0 {
            Err(PaletteError::Empty)
        } else {
            Ok(Palette { colors })
        }
    }

    pub fn len(&self) -> (n: usize)
        ensures
            n == self@.len(),
            n > 0,
    {
        proof {
            use_type_invariant(self);
        }
        self.colors.len()
    }

    pub fn get(&self, i: usize) -> (c: Rgb)
        requires
            i < self@.len(),
        ensures
            c == self@[i as int],
    {
        self.colors[i]
    }

    pub fn colors(&self) -> (v: &Vec<Rgb>)
        ensures
            v@ == self@,
            v@.len() > 0,
    {
        proof {
            use_type_invariant(self);
        }
        &self.colors
    }
}

/// Index of the first entry of `p` closest to `c`, leaving out `skip`; `None` where no entry is left.
fn closest_index(c: &Rgb, p: &Vec<Rgb>, skip: usize) -> (r: Option<usize>)
    ensures
        r matches Some(i) ==> i as int == first_closest(*c, p@, p@.len() as int, skip as int),
        r is None ==> first_closest(*c, p@, p@.len() as int, skip as int) == -1,
{
    let mut best: Option<usize> = None;
    let mut best_d: u32 = 0;
    let mut k: usize = 0;
    while k < p.len()
        invariant
            k <= p@.len(),
            best matches Some(i) ==> i as int == first_closest(*c, p@, k as int, skip as int) && i < k
                && best_d == spec_distance(*c, p@[i as int]),
            best is None ==> first_closest(*c, p@, k as int, skip as int) == -1,
        decreases p@.len() - k,
    {
        if k != skip {
            let d = distance(c, &p[k]);
            match best {
                None => {
                    best = Some(k);
                    best_d = d;
                },
                Some(_) => {
                    if d < best_d {
                        best = Some(k);
                        best_d = d;
                    }
                },
            }
        }
        k = k + 1;
    }
    best
}

/// Index of the palette entry nearest to `c`; ties go to the earliest index.
pub fn nearest_index_of(c: &Rgb, palette: &Palette) -> (i: usize)
    ensures
        i as int == nearest_index(*c, palette@),
        i < palette@.len(),
{
    let p = palette.colors();
    proof {
        lemma_first_closest(*c, p@, p@.len() as int, p@.len() as int);
    }
    match closest_index(c, p, p.len()) {
        Some(i) => i,
        None => 0,
    }
}

/// The palette entry nearest to `c`: no entry is closer, and of equally close entries the
/// earliest is taken.
pub fn nearest(c: &Rgb, palette: &Palette) -> (r: Rgb)
    ensures
        r == spec_nearest(*c, palette@),
        palette@.contains(r),
        forall|j: int| 0 <= j < palette@.len() ==> spec_distance(*c, r) <= spec_distance(*c, palette@[j]),
{
    let i = nearest_index_of(c, palette);
    proof {
        lemma_nearest_is_closest(*c, palette@);
    }
    palette.get(i)
}

/// The two palette entries nearest to `c`, and where `c` falls between them, as a fraction of
/// `UNIT`. With a single entry both are that entry and the ratio is 0.
pub fn nearest_pair(c: &Rgb, palette: &Palette) -> (r: (Rgb, Rgb, u64))
    ensures
        (r.0, r.1, r.2 as int) == spec_nearest_pair(*c, palette@),
        r.2 <= UNIT,
{
    let p = palette.colors();
    let ia = nearest_index_of(c, palette);
    let a = p[ia];
    if p.len() == 1 {
        return (a, a, 0);
    }
    proof {
        lemma_first_closest(*c, p@, p@.len() as int, ia as int);
    }
    let ib = match closest_index(c, p, ia) {
        Some(i) => i,
        None => ia,
    };
    let b = p[ib];
    let da = distance(c, &a) as u64;
    let db = distance(c, &b) as u64;
    let t: u64 = if da + db == 0 {
        0
    } else {
        proof {
            assert(da * UNIT <= (da + db) * UNIT) by (nonlinear_arith)
                requires db >= 0;
            assert(da * UNIT / (da + db) <= UNIT) by (nonlinear_arith)
                requires da * UNIT <= (da + db) * UNIT, da + db > 0;
        }
        da * UNIT / (da + db)
    };
    (a, b, t)
}

/// Quantization is a function of its inputs: the same colour and palette give the same entry and
/// the same pair, whatever the call.
pub proof fn lemma_quantize_deterministic(c1: Rgb, p1: Seq<Rgb>, c2: Rgb, p2: Seq<Rgb>)
    requires
        c1 == c2,
        p1 == p2,
    ensures
        nearest_index(c1, p1) == nearest_index(c2, p2),
        spec_nearest(c1, p1) == spec_nearest(c2, p2),
        spec_nearest_pair(c1, p1) == spec_nearest_pair(c2, p2),
{
}

} // verus!
