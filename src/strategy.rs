use vstd::prelude::*;

use crate::quantize::UNIT;

verus! {

/// Largest tile of a pattern generator: its values then take at most `UNIT` levels.
pub const MAX_TILE: u64 = 256;

/// Largest Bayer order: a tile of `2^8` pixels a side.
pub const MAX_BAYER_ORDER: u64 = 8;

/// Largest tile of a coordinate-folding modifier (mirror, rotate, checker cell).
pub const MAX_FOLD: u64 = 1048576;

/// Largest total blur reach of a strategy.
pub const MAX_REACH: u64 = 1024;

/// Coordinates plus the reach of the strategy stay below this bound.
pub const COORD_LIMIT: u64 = 1099511627776;

/// Largest exponent of `Exponentiate`.
pub const MAX_POWER: u64 = 16;

/// Direction of a diagonal pattern.
#[derive(Clone, Copy, Debug, PartialEq, Eq, Structural)]
pub enum Slope {
    Rising,
    Falling,
}

/// How the value of a diagonal band grows across the band.
#[derive(Clone, Copy, Debug, PartialEq, Eq, Structural)]
pub enum Increase {
    Linear,
    Exponential,
}

/// Orientation of a scanline pattern.
#[derive(Clone, Copy, Debug, PartialEq, Eq, Structural)]
pub enum Orientation {
    Horizontal,
    Vertical,
}

/// Axis that a mirror reflects across.
#[derive(Clone, Copy, Debug, PartialEq, Eq, Structural)]
pub enum MirrorAxis {
    Horizontal,
    Vertical,
    Diagonal,
}

/// Why a strategy could not be built.
#[derive(Clone, Copy, Debug, PartialEq, Eq, Structural)]
pub enum StrategyError {
    InvalidSize,
    InvalidExponent,
    InvalidTurns,
    BlurTooWide,
    UnsupportedKind,
}

/// A threshold field: a pure map from pixel coordinates to a value in `[0, UNIT)`.
/// Generators produce a pattern; modifiers wrap another strategy.
#[derive(Debug)]
pub enum Strategy {
    /// The recursive Bayer matrix of side `2^order`.
    Bayer { order: u64 },
    /// Diagonal bands of width `n`.
    Diagonals { n: u64, slope: Slope, increase: Increase },
    /// Diamonds radiating from the centre of each `n`-tile.
    Diamonds { n: u64 },
    /// Concentric squares radiating from the centre of each `n`-tile.
    Squares { n: u64 },
    /// Ramps of `n` lines.
    Scanline { n: u64, orientation: Orientation },
    /// `UNIT - 1 - t`.
    Invert { inner: Box<Strategy> },
    /// Reflects coordinates into an `n`-tile before delegating; `thorough` also inverts the
    /// value on the reflected half.
    Mirror { inner: Box<Strategy>, axis: MirrorAxis, n: u64, thorough: bool },
    /// Average over the `(2 radius + 1)`-square whose corner is the pixel.
    Blur { inner: Box<Strategy>, radius: u64 },
    /// `t^power`, in fixed point.
    Exponentiate { inner: Box<Strategy>, power: u64 },
    /// Turns each `n`-tile by `turns` quarter turns before delegating.
    Rotate { inner: Box<Strategy>, turns: u64, n: u64 },
    /// `inner` on the even cells of a checkerboard of `cell`-squares, `other` on the odd ones.
    Checker { inner: Box<Strategy>, other: Box<Strategy>, cell: u64 },
}

pub open spec fn two_pow(k: nat) -> nat
    decreases k,
{
    if k == 0 {
        1
    } else {
        2 * two_pow((k - 1) as nat)
    }
}

pub proof fn lemma_two_pow_bounds(k: nat)
    requires
        k <= 8,
    ensures
        1 <= two_pow(k) <= two_pow(8),
        two_pow(8) == 256,
    decreases k,
{
    reveal_with_fuel(two_pow, 9);
    if k > 0 {
        lemma_two_pow_bounds((k - 1) as nat);
        lemma_two_pow_mono((k - 1) as nat, 7);
    }
}

proof fn lemma_two_pow_mono(a: nat, b: nat)
    requires
        a <= b,
    ensures
        two_pow(a) <= two_pow(b),
    decreases b,
{
    if a < b {
        lemma_two_pow_mono(a, (b - 1) as nat);
    }
}

/// Offset of each quadrant in the Bayer recursion.
pub open spec fn quadrant(a: int, b: int) -> int {
    if a == 0 {
        if b == 0 { 0 } else { 2 }
    } else {
        if b == 0 { 3 } else { 1 }
    }
}

/// Rank of cell `(i, j)` in the Bayer matrix of side `2^order`.
pub open spec fn bayer_rank(order: nat, i: int, j: int) -> int
    decreases order,
{
    if order == 0 {
        0
    } else {
        let h = two_pow((order - 1) as nat) as int;
        4 * bayer_rank((order - 1) as nat, i % h, j % h) + quadrant(i / h, j / h)
    }
}

pub open spec fn abs(v: int) -> int {
    if v < 0 { -v } else { v }
}

pub open spec fn max(a: int, b: int) -> int {
    if a >= b { a } else { b }
}

/// Distance of `i` from the centre of `[0, n)`, doubled so that it stays whole.
pub open spec fn centre_offset(i: int, n: int) -> int {
    abs(2 * i - (n - 1))
}

/// Folds `v` into `[0, n)` by reflecting every other `n`-stretch.
pub open spec fn fold(v: int, n: int) -> int {
    let m = v % (2 * n);
    if m < n { m } else { 2 * n - 1 - m }
}

pub open spec fn folded(v: int, n: int) -> bool {
    v % (2 * n) >= n
}

/// `v^power` where `v` stands for `v / UNIT`, rounding down at each step.
pub open spec fn power_of(v: int, power: nat) -> int
    decreases power,
{
    if power <= 1 {
        v
    } else {
        power_of(v, (power - 1) as nat) * v / (UNIT as int)
    }
}

/// Sum of `eval(s, ..)` over the first `k` cells of the `w`-square with corner `(x, y)`, row
/// by row.
pub open spec fn blur_sum(s: Strategy, x: int, y: int, w: int, k: int) -> int
    decreases s, k,
{
    if k <= 0 || w <= 0 {
        0
    } else {
        blur_sum(s, x, y, w, k - 1) + eval(s, x + (k - 1) % w, y + (k - 1) / w)
    }
}

/// Coordinates after a quarter-turn rotation of the tile.
pub open spec fn rotated(i: int, j: int, turns: int, n: int) -> (int, int) {
    if turns == 1 {
        (j, n - 1 - i)
    } else if turns == 2 {
        (n - 1 - i, n - 1 - j)
    } else if turns == 3 {
        (n - 1 - j, i)
    } else {
        (i, j)
    }
}

/// How far to the right and below its pixel a strategy may sample.
pub open spec fn reach(s: Strategy) -> int
    decreases s,
{
    match s {
        Strategy::Invert { inner } => reach(*inner),
        Strategy::Mirror { inner, .. } => reach(*inner),
        Strategy::Blur { inner, radius } => 2 * radius + reach(*inner),
        Strategy::Exponentiate { inner, .. } => reach(*inner),
        Strategy::Rotate { inner, .. } => reach(*inner),
        Strategy::Checker { inner, other, .. } => max(reach(*inner), reach(*other)),
        _ => 0,
    }
}

/// The parameters of every layer are in range.
pub open spec fn well_formed(s: Strategy) -> bool
    decreases s,
{
    &&& 0 <= reach(s) <= MAX_REACH
    &&& match s {
        Strategy::Bayer { order } => order <= MAX_BAYER_ORDER,
        Strategy::Diagonals { n, .. } => 1 <= n <= MAX_TILE,
        Strategy::Diamonds { n } => 1 <= n <= MAX_TILE,
        Strategy::Squares { n } => 1 <= n <= MAX_TILE,
        Strategy::Scanline { n, .. } => 1 <= n <= MAX_TILE,
        Strategy::Invert { inner } => well_formed(*inner),
        Strategy::Mirror { inner, n, .. } => 1 <= n <= MAX_FOLD && well_formed(*inner),
        Strategy::Blur { inner, .. } => well_formed(*inner),
        Strategy::Exponentiate { inner, power } => 1 <= power <= MAX_POWER && well_formed(*inner),
        Strategy::Rotate { inner, turns, n } => turns < 4 && 1 <= n <= MAX_FOLD && well_formed(*inner),
        Strategy::Checker { inner, other, cell } => 1 <= cell <= MAX_FOLD && well_formed(*inner)
            && well_formed(*other),
    }
}

/// Value of a generator's rank `r` out of `levels`, scaled to `UNIT`.
pub open spec fn scaled(r: int, levels: int) -> int {
    r * UNIT / levels
}

/// The value of strategy `s` at `(x, y)`.
pub open spec fn eval(s: Strategy, x: int, y: int) -> int
    decreases s, 0int,
{
    match s {
        Strategy::Bayer { order } => {
            let n = two_pow(order as nat) as int;
            scaled(bayer_rank(order as nat, x % n, y % n), n * n)
        },
        Strategy::Diagonals { n, slope, increase } => {
            let r = match slope {
                Slope::Rising => (x + y) % (n as int),
                Slope::Falling => (x % (n as int) + n - y % (n as int)) % (n as int),
            };
            match increase {
                Increase::Linear => scaled(r, n as int),
                Increase::Exponential => scaled(r * r, n * n),
            }
        },
        Strategy::Diamonds { n } => scaled(
            centre_offset(x % (n as int), n as int) + centre_offset(y % (n as int), n as int),
            2 * n - 1,
        ),
        Strategy::Squares { n } => scaled(
            max(centre_offset(x % (n as int), n as int), centre_offset(y % (n as int), n as int)),
            2 * n - 1,
        ),
        Strategy::Scanline { n, orientation } => match orientation {
            Orientation::Horizontal => scaled(y % (n as int), n as int),
            Orientation::Vertical => scaled(x % (n as int), n as int),
        },
        Strategy::Invert { inner } => UNIT - 1 - eval(*inner, x, y),
        Strategy::Mirror { inner, axis, n, thorough } => {
            let (xi, yi, flip) = match axis {
                MirrorAxis::Horizontal => (x, fold(y, n as int), folded(y, n as int)),
                MirrorAxis::Vertical => (fold(x, n as int), y, folded(x, n as int)),
                MirrorAxis::Diagonal => {
                    let i = x % (n as int);
                    let j = y % (n as int);
                    if i > j { (j, i, true) } else { (i, j, false) }
                },
            };
            let v = eval(*inner, xi, yi);
            if thorough && flip { UNIT - 1 - v } else { v }
        },
        Strategy::Blur { inner, radius } => {
            let w = 2 * radius + 1;
            blur_sum(*inner, x, y, w, w * w) / (w * w)
        },
        Strategy::Exponentiate { inner, power } => power_of(eval(*inner, x, y), power as nat),
        Strategy::Rotate { inner, turns, n } => {
            let (i, j) = rotated(x % (n as int), y % (n as int), turns as int, n as int);
            eval(*inner, i, j)
        },
        Strategy::Checker { inner, other, cell } => {
            if (x / (cell as int) + y / (cell as int)) % 2 == 0 {
                eval(*inner, x, y)
            } else {
                eval(*other, x, y)
            }
        },
    }
}

proof fn lemma_bayer_rank_bound(order: nat, i: int, j: int)
    requires
        order <= 8,
        0 <= i < two_pow(order),
        0 <= j < two_pow(order),
    ensures
        0 <= bayer_rank(order, i, j) < two_pow(order) * two_pow(order),
    decreases order,
{
    if order > 0 {
        let h = two_pow((order - 1) as nat) as int;
        lemma_two_pow_bounds((order - 1) as nat);
        lemma_bayer_rank_bound((order - 1) as nat, i % h, j % h);
        let v = bayer_rank((order - 1) as nat, i % h, j % h);
        assert(4 * v + 3 < 4 * (h * h)) by (nonlinear_arith)
            requires v < h * h;
        assert(two_pow(order) * two_pow(order) == 4 * (h * h)) by (nonlinear_arith)
            requires two_pow(order) == 2 * h;
    }
}

proof fn lemma_scaled_range(r: int, levels: int)
    requires
        0 <= r < levels,
    ensures
        0 <= scaled(r, levels) < UNIT,
{
    assert(r * UNIT < levels * UNIT) by (nonlinear_arith)
        requires r < levels;
    assert(0 <= r * UNIT) by (nonlinear_arith)
        requires 0 <= r;
    assert(r * UNIT / levels < UNIT) by (nonlinear_arith)
        requires r * UNIT < levels * UNIT, levels > 0;
    assert(0 <= r * UNIT / levels) by (nonlinear_arith)
        requires 0 <= r * UNIT, levels > 0;
}

proof fn lemma_power_of_range(v: int, power: nat)
    requires
        0 <= v < UNIT,
    ensures
        0 <= power_of(v, power) < UNIT,
    decreases power,
{
    if power > 1 {
        lemma_power_of_range(v, (power - 1) as nat);
        let p = power_of(v, (power - 1) as nat);
        assert(0 <= p * v <= p * UNIT) by (nonlinear_arith)
            requires 0 <= p, 0 <= v < UNIT;
        assert(0 <= p * v / (UNIT as int) <= p) by (nonlinear_arith)
            requires 0 <= p * v <= p * UNIT;
    }
}

proof fn lemma_blur_sum_range(s: Strategy, x: int, y: int, w: int, k: int)
    requires
        k >= 0,
        well_formed(s),
    ensures
        0 <= blur_sum(s, x, y, w, k) <= k * (UNIT - 1),
    decreases s, k,
{
    if k > 0 && w > 0 {
        lemma_blur_sum_range(s, x, y, w, k - 1);
        lemma_eval_range(s, x + (k - 1) % w, y + (k - 1) / w);
    }
}

proof fn lemma_centre_offset_bound(i: int, n: int)
    requires
        0 <= i < n,
    ensures
        0 <= centre_offset(i, n) <= n - 1,
{
}

/// Every value of a well-formed strategy lies in `[0, UNIT)`.
pub proof fn lemma_eval_range(s: Strategy, x: int, y: int)
    requires
        well_formed(s),
    ensures
        0 <= eval(s, x, y) < UNIT,
    decreases s, 0int,
{
    match s {
        Strategy::Bayer { order } => {
            let n = two_pow(order as nat) as int;
            lemma_two_pow_bounds(order as nat);
            assert(0 <= x % n < n && 0 <= y % n < n);
            lemma_bayer_rank_bound(order as nat, x % n, y % n);
            lemma_scaled_range(bayer_rank(order as nat, x % n, y % n), n * n);
        },
        Strategy::Diagonals { n, slope, increase } => {
            let r = match slope {
                Slope::Rising => (x + y) % (n as int),
                Slope::Falling => (x % (n as int) + n - y % (n as int)) % (n as int),
            };
            assert(0 <= r < n);
            match increase {
                Increase::Linear => lemma_scaled_range(r, n as int),
                Increase::Exponential => {
                    assert(0 <= r * r < n * n) by (nonlinear_arith)
                        requires 0 <= r < n;
                    lemma_scaled_range(r * r, n * n);
                },
            }
        },
        Strategy::Diamonds { n } => {
            lemma_centre_offset_bound(x % (n as int), n as int);
            lemma_centre_offset_bound(y % (n as int), n as int);
            lemma_scaled_range(
                centre_offset(x % (n as int), n as int) + centre_offset(y % (n as int), n as int),
                2 * n - 1,
            );
        },
        Strategy::Squares { n } => {
            lemma_centre_offset_bound(x % (n as int), n as int);
            lemma_centre_offset_bound(y % (n as int), n as int);
            lemma_scaled_range(
                max(centre_offset(x % (n as int), n as int), centre_offset(y % (n as int), n as int)),
                2 * n - 1,
            );
        },
        Strategy::Scanline { n, orientation } => {
            lemma_scaled_range(y % (n as int), n as int);
            lemma_scaled_range(x % (n as int), n as int);
        },
        Strategy::Invert { inner } => {
            lemma_eval_range(*inner, x, y);
        },
        Strategy::Mirror { inner, axis, n, thorough } => {
            let (xi, yi, flip) = match axis {
                MirrorAxis::Horizontal => (x, fold(y, n as int), folded(y, n as int)),
                MirrorAxis::Vertical => (fold(x, n as int), y, folded(x, n as int)),
                MirrorAxis::Diagonal => {
                    let i = x % (n as int);
                    let j = y % (n as int);
                    if i > j { (j, i, true) } else { (i, j, false) }
                },
            };
            lemma_eval_range(*inner, xi, yi);
        },
        Strategy::Blur { inner, radius } => {
            let w = 2 * radius + 1;
            assert(w * w >= 1) by (nonlinear_arith)
                requires w >= 1;
            lemma_blur_sum_range(*inner, x, y, w, w * w);
            let sum = blur_sum(*inner, x, y, w, w * w);
            assert(sum / (w * w) < UNIT) by (nonlinear_arith)
                requires 0 <= sum <= (w * w) * (UNIT - 1), w >= 1;
            assert(0 <= sum / (w * w)) by (nonlinear_arith)
                requires 0 <= sum, w >= 1;
        },
        Strategy::Exponentiate { inner, power } => {
            lemma_eval_range(*inner, x, y);
            lemma_power_of_range(eval(*inner, x, y), power as nat);
        },
        Strategy::Rotate { inner, turns, n } => {
            let (i, j) = rotated(x % (n as int), y % (n as int), turns as int, n as int);
            lemma_eval_range(*inner, i, j);
        },
        Strategy::Checker { inner, other, cell } => {
            lemma_eval_range(*inner, x, y);
            lemma_eval_range(*other, x, y);
        },
    }
}

/// Inverting twice gives back the strategy's own value everywhere.
pub proof fn lemma_invert_involution(s: Strategy, x: int, y: int)
    ensures
        eval(Strategy::Invert { inner: Box::new(Strategy::Invert { inner: Box::new(s) }) }, x, y)
            == eval(s, x, y),
{
    let once = Strategy::Invert { inner: Box::new(s) };
    assert(eval(once, x, y) == UNIT - 1 - eval(s, x, y));
}

/// The generators that repeat with a fixed tile, and that tile's side.
pub open spec fn tile_period(s: Strategy) -> int {
    match s {
        Strategy::Bayer { order } => two_pow(order as nat) as int,
        Strategy::Diagonals { n, .. } => n as int,
        Strategy::Diamonds { n } => n as int,
        Strategy::Squares { n } => n as int,
        Strategy::Scanline { n, .. } => n as int,
        _ => 0,
    }
}

/// A tiled generator of side `N` repeats every `N` pixels along both axes.
pub proof fn lemma_tiling(s: Strategy, x: int, y: int)
    requires
        well_formed(s),
        tile_period(s) > 0,
    ensures
        eval(s, x + tile_period(s), y) == eval(s, x, y),
        eval(s, x, y + tile_period(s)) == eval(s, x, y),
{
    let n = tile_period(s);
    assert((x + n) % n == x % n) by {
        vstd::arithmetic::div_mod::lemma_mod_add_multiples_vanish(x, n);
    }
    assert((y + n) % n == y % n) by {
        vstd::arithmetic::div_mod::lemma_mod_add_multiples_vanish(y, n);
    }
    assert((x + n + y) % n == (x + y) % n) by {
        vstd::arithmetic::div_mod::lemma_mod_add_multiples_vanish(x + y, n);
    }
    assert((x + (y + n)) % n == (x + y) % n) by {
        vstd::arithmetic::div_mod::lemma_mod_add_multiples_vanish(x + y, n);
    }
}

fn tile_of(order: u64) -> (n: u64)
    requires
        order <= MAX_BAYER_ORDER,
    ensures
        n == two_pow(order as nat),
        1 <= n <= 256,
{
    let mut n: u64 = 1;
    let mut k: u64 = 0;
    while k < order
        invariant
            k <= order <= 8,
            n == two_pow(k as nat),
        decreases order - k,
    {
        proof {
            lemma_two_pow_bounds(k as nat);
        }
        n = n * 2;
        k = k + 1;
    }
    proof {
        lemma_two_pow_bounds(order as nat);
    }
    n
}

fn quadrant_of(a: u64, b: u64) -> (q: u64)
    ensures
        q == quadrant(a as int, b as int),
        q <= 3,
{
    if a == 0 {
        if b == 0 { 0 } else { 2 }
    } else {
        if b == 0 { 3 } else { 1 }
    }
}

fn bayer_cell(order: u64, i: u64, j: u64) -> (v: u64)
    requires
        order <= MAX_BAYER_ORDER,
        i < two_pow(order as nat),
        j < two_pow(order as nat),
    ensures
        v == bayer_rank(order as nat, i as int, j as int),
        v < two_pow(order as nat) * two_pow(order as nat),
    decreases order,
{
    proof {
        lemma_bayer_rank_bound(order as nat, i as int, j as int);
        lemma_two_pow_bounds(order as nat);
    }
    if order == 0 {
        0
    } else {
        let h = tile_of(order - 1);
        let v = bayer_cell(order - 1, i % h, j % h);
        let q = quadrant_of(i / h, j / h);
        proof {
            assert(v < 65536) by (nonlinear_arith)
                requires v < h * h, h <= 256;
        }
        4 * v + q
    }
}

fn scale(r: u64, levels: u64) -> (t: u64)
    requires
        r < levels,
        levels <= 131072,
    ensures
        t == scaled(r as int, levels as int),
        t < UNIT,
{
    proof {
        lemma_scaled_range(r as int, levels as int);
        assert(r * UNIT < 131072 * 65536) by (nonlinear_arith)
            requires r < 131072;
    }
    r * UNIT / levels
}

fn centre_offset_of(i: u64, n: u64) -> (d: u64)
    requires
        i < n <= MAX_TILE,
    ensures
        d == centre_offset(i as int, n as int),
        d < n,
{
    if 2 * i >= n - 1 {
        2 * i - (n - 1)
    } else {
        (n - 1) - 2 * i
    }
}

fn fold_of(v: u64, n: u64) -> (r: (u64, bool))
    requires
        1 <= n <= MAX_FOLD,
    ensures
        r.0 == fold(v as int, n as int),
        r.1 == folded(v as int, n as int),
        r.0 < n,
{
    let m = v % (2 * n);
    if m < n {
        (m, false)
    } else {
        (2 * n - 1 - m, true)
    }
}

fn power_value(v: u64, power: u64) -> (r: u64)
    requires
        v < UNIT,
    ensures
        r == power_of(v as int, power as nat),
        r < UNIT,
    decreases power,
{
    if power <= 1 {
        v
    } else {
        let p = power_value(v, power - 1);
        proof {
            assert(p * v < UNIT * UNIT) by (nonlinear_arith)
                requires p < UNIT, v < UNIT;
            lemma_power_of_range(v as int, power as nat);
        }
        p * v / UNIT
    }
}

impl Strategy {
    /// The strategy's reach: how far right and down of a pixel it samples.
    pub fn reach_of(&self) -> (r: u64)
        requires
            well_formed(*self),
        ensures
            r == reach(*self),
        decreases self,
    {
        match self {
            Strategy::Invert { inner } => inner.reach_of(),
            Strategy::Mirror { inner, .. } => inner.reach_of(),
            Strategy::Blur { inner, radius } => {
                let r = inner.reach_of();
                2 * *radius + r
            },
            Strategy::Exponentiate { inner, .. } => inner.reach_of(),
            Strategy::Rotate { inner, .. } => inner.reach_of(),
            Strategy::Checker { inner, other, .. } => {
                let a = inner.reach_of();
                let b = other.reach_of();
                if a >= b { a } else { b }
            },
            _ => 0,
        }
    }

    /// The threshold at `(x, y)`, in `[0, UNIT)`.
    #[verifier::loop_isolation(false)]
    pub fn evaluate(&self, x: u64, y: u64) -> (t: u64)
        requires
            well_formed(*self),
            x + reach(*self) <= COORD_LIMIT,
            y + reach(*self) <= COORD_LIMIT,
        ensures
            t == eval(*self, x as int, y as int),
            t < UNIT,
        decreases self,
    {
        proof {
            lemma_eval_range(*self, x as int, y as int);
        }
        match self {
            Strategy::Bayer { order } => {
                let n = tile_of(*order);
                proof {
                    assert(n * n <= 65536) by (nonlinear_arith)
                        requires n <= 256;
                }
                let v = bayer_cell(*order, x % n, y % n);
                scale(v, n * n)
            },
            Strategy::Diagonals { n, slope, increase } => {
                let n = *n;
                let r = match slope {
                    Slope::Rising => (x % n + y % n) % n,
                    Slope::Falling => (x % n + n - y % n) % n,
                };
                proof {
                    if *slope == Slope::Rising {
                        vstd::arithmetic::div_mod::lemma_add_mod_noop(x as int, y as int, n as int);
                    }
                }
                match increase {
                    Increase::Linear => scale(r, n),
                    Increase::Exponential => {
                        proof {
                            assert(r * r < n * n) by (nonlinear_arith)
                                requires r < n;
                            assert(n * n <= 65536) by (nonlinear_arith)
                                requires n <= 256;
                        }
                        scale(r * r, n * n)
                    },
                }
            },
            Strategy::Diamonds { n } => {
                let d = centre_offset_of(x % *n, *n) + centre_offset_of(y % *n, *n);
                scale(d, 2 * *n - 1)
            },
            Strategy::Squares { n } => {
                let a = centre_offset_of(x % *n, *n);
                let b = centre_offset_of(y % *n, *n);
                scale(if a >= b { a } else { b }, 2 * *n - 1)
            },
            Strategy::Scanline { n, orientation } => match orientation {
                Orientation::Horizontal => scale(y % *n, *n),
                Orientation::Vertical => scale(x % *n, *n),
            },
            Strategy::Invert { inner } => {
                let v = inner.evaluate(x, y);
                UNIT - 1 - v
            },
            Strategy::Mirror { inner, axis, n, thorough } => {
                let (xi, yi, flip) = match axis {
                    MirrorAxis::Horizontal => {
                        let (f, b) = fold_of(y, *n);
                        (x, f, b)
                    },
                    MirrorAxis::Vertical => {
                        let (f, b) = fold_of(x, *n);
                        (f, y, b)
                    },
                    MirrorAxis::Diagonal => {
                        let i = x % *n;
                        let j = y % *n;
                        if i > j { (j, i, true) } else { (i, j, false) }
                    },
                };
                let v = inner.evaluate(xi, yi);
                if *thorough && flip { UNIT - 1 - v } else { v }
            },
            Strategy::Blur { inner, radius } => {
                assert(well_formed(**inner));
                assert(reach(**inner) >= 0);
                assert(reach(*self) == 2 * *radius + reach(**inner));
                assert(*radius <= 512);
                let w = 2 * *radius + 1;
                proof {
                    assert(1 <= w * w <= 2049 * 2049) by (nonlinear_arith)
                        requires 1 <= w <= 2049;
                }
                let cells = w * w;
                let mut sum: u64 = 0;
                let mut k: u64 = 0;
                proof {
                    assert(cells <= 2049 * 2049) by (nonlinear_arith)
                        requires w <= 2049, cells == w * w;
                }
                while k < cells
                    invariant
                        well_formed(**inner),
                        w == 2 * *radius + 1,
                        cells == w * w,
                        cells <= 2049 * 2049,
                        x + 2 * *radius + reach(**inner) <= COORD_LIMIT,
                        y + 2 * *radius + reach(**inner) <= COORD_LIMIT,
                        k <= cells,
                        sum == blur_sum(**inner, x as int, y as int, w as int, k as int),
                        sum <= k * (UNIT - 1),
                    decreases cells - k,
                {
                    proof {
                        assert(k / w < w) by (nonlinear_arith)
                            requires k < w * w, w > 0;
                        assert(k % w < w) by (nonlinear_arith)
                            requires w > 0;
                    }
                    let v = inner.evaluate(x + k % w, y + k / w);
                    proof {
                        assert((k + 1) * (UNIT - 1) == k * (UNIT - 1) + (UNIT - 1)) by (nonlinear_arith);
                        assert((k + 1) * (UNIT - 1) <= 2049 * 2049 * (UNIT - 1)) by (nonlinear_arith)
                            requires k + 1 <= 2049 * 2049;
                    }
                    sum = sum + v;
                    k = k + 1;
                }
                sum / cells
            },
            Strategy::Exponentiate { inner, power } => {
                let v = inner.evaluate(x, y);
                power_value(v, *power)
            },
            Strategy::Rotate { inner, turns, n } => {
                let i = x % *n;
                let j = y % *n;
                let (a, b) = if *turns == 1 {
                    (j, *n - 1 - i)
                } else if *turns == 2 {
                    (*n - 1 - i, *n - 1 - j)
                } else if *turns == 3 {
                    (*n - 1 - j, i)
                } else {
                    (i, j)
                };
                inner.evaluate(a, b)
            },
            Strategy::Checker { inner, other, cell } => {
                if (x / *cell + y / *cell) % 2 == 0 {
                    inner.evaluate(x, y)
                } else {
                    other.evaluate(x, y)
                }
            },
        }
    }
}

impl Strategy {
    /// The Bayer matrix of side `size`, a power of two up to `MAX_TILE`.
    pub fn bayer(size: u64) -> (r: Result<Strategy, StrategyError>)
        ensures
            r is Ok <==> exists|k: nat| k <= MAX_BAYER_ORDER && #[trigger] two_pow(k) == size,
            r matches Ok(s) ==> well_formed(s) && (s matches Strategy::Bayer { order }
                && two_pow(order as nat) == size),
            r matches Err(e) ==> e == StrategyError::InvalidSize,
    {
        let mut order: u64 = 0;
        while order <= MAX_BAYER_ORDER
            invariant
                order <= MAX_BAYER_ORDER + 1,
                forall|k: nat| k < order ==> #[trigger] two_pow(k) != size,
            decreases MAX_BAYER_ORDER + 1 - order,
        {
            let n = tile_of(order);
            if n == size {
                return Ok(Strategy::Bayer { order });
            }
            order = order + 1;
        }
        Err(StrategyError::InvalidSize)
    }

    /// Diagonal bands of width `n`, between 1 and `MAX_TILE`.
    pub fn diagonals(n: u64, slope: Slope, increase: Increase) -> (r: Result<Strategy, StrategyError>)
        ensures
            r is Ok <==> 1 <= n <= MAX_TILE,
            r matches Ok(s) ==> s == (Strategy::Diagonals { n, slope, increase }) && well_formed(s),
            r matches Err(e) ==> e == StrategyError::InvalidSize,
    {
        if 1 <= n && n <= MAX_TILE {
            Ok(Strategy::Diagonals { n, slope, increase })
        } else {
            Err(StrategyError::InvalidSize)
        }
    }

    /// Diamonds in tiles of side `n`, between 1 and `MAX_TILE`.
    pub fn diamonds(n: u64) -> (r: Result<Strategy, StrategyError>)
        ensures
            r is Ok <==> 1 <= n <= MAX_TILE,
            r matches Ok(s) ==> s == (Strategy::Diamonds { n }) && well_formed(s),
            r matches Err(e) ==> e == StrategyError::InvalidSize,
    {
        if 1 <= n && n <= MAX_TILE {
            Ok(Strategy::Diamonds { n })
        } else {
            Err(StrategyError::InvalidSize)
        }
    }

    /// Concentric squares in tiles of side `n`, between 1 and `MAX_TILE`.
    pub fn squares(n: u64) -> (r: Result<Strategy, StrategyError>)
        ensures
            r is Ok <==> 1 <= n <= MAX_TILE,
            r matches Ok(s) ==> s == (Strategy::Squares { n }) && well_formed(s),
            r matches Err(e) ==> e == StrategyError::InvalidSize,
    {
        if 1 <= n && n <= MAX_TILE {
            Ok(Strategy::Squares { n })
        } else {
            Err(StrategyError::InvalidSize)
        }
    }

    /// Ramps of `n` lines, `n` between 1 and `MAX_TILE`.
    pub fn scanline(n: u64, orientation: Orientation) -> (r: Result<Strategy, StrategyError>)
        ensures
            r is Ok <==> 1 <= n <= MAX_TILE,
            r matches Ok(s) ==> s == (Strategy::Scanline { n, orientation }) && well_formed(s),
            r matches Err(e) ==> e == StrategyError::InvalidSize,
    {
        if 1 <= n && n <= MAX_TILE {
            Ok(Strategy::Scanline { n, orientation })
        } else {
            Err(StrategyError::InvalidSize)
        }
    }

    /// This strategy with its values turned round: `UNIT - 1 - t`.
    pub fn invert(self) -> (r: Strategy)
        requires
            well_formed(self),
        ensures
            r == (Strategy::Invert { inner: Box::new(self) }),
            well_formed(r),
    {
        Strategy::Invert { inner: Box::new(self) }
    }

    /// This strategy seen through a mirror folding coordinates into tiles of side `n`.
    pub fn mirror(self, axis: MirrorAxis, n: u64, thorough: bool) -> (r: Result<Strategy, StrategyError>)
        requires
            well_formed(self),
        ensures
            r is Ok <==> 1 <= n <= MAX_FOLD,
            r matches Ok(s) ==> s == (Strategy::Mirror { inner: Box::new(self), axis, n, thorough })
                && well_formed(s),
            r matches Err(e) ==> e == StrategyError::InvalidSize,
    {
        if 1 <= n && n <= MAX_FOLD {
            Ok(Strategy::Mirror { inner: Box::new(self), axis, n, thorough })
        } else {
            Err(StrategyError::InvalidSize)
        }
    }

    /// This strategy averaged over squares of side `2 radius + 1`; refused where the total
    /// reach would pass `MAX_REACH`.
    pub fn blur(self, radius: u64) -> (r: Result<Strategy, StrategyError>)
        requires
            well_formed(self),
        ensures
            r is Ok <==> 2 * radius + reach(self) <= MAX_REACH,
            r matches Ok(s) ==> s == (Strategy::Blur { inner: Box::new(self), radius }) && well_formed(s),
            r matches Err(e) ==> e == StrategyError::BlurTooWide,
    {
        let reach = self.reach_of();
        if radius <= MAX_REACH && 2 * radius + reach <= MAX_REACH {
            Ok(Strategy::Blur { inner: Box::new(self), radius })
        } else {
            Err(StrategyError::BlurTooWide)
        }
    }

    /// This strategy raised to the power `power`, between 1 and `MAX_POWER`.
    pub fn exponentiate(self, power: u64) -> (r: Result<Strategy, StrategyError>)
        requires
            well_formed(self),
        ensures
            r is Ok <==> 1 <= power <= MAX_POWER,
            r matches Ok(s) ==> s == (Strategy::Exponentiate { inner: Box::new(self), power })
                && well_formed(s),
            r matches Err(e) ==> e == StrategyError::InvalidExponent,
    {
        if 1 <= power && power <= MAX_POWER {
            Ok(Strategy::Exponentiate { inner: Box::new(self), power })
        } else {
            Err(StrategyError::InvalidExponent)
        }
    }

    /// This strategy with each tile of side `n` turned by `turns` quarter turns (1 to 3).
    pub fn rotate(self, turns: u64, n: u64) -> (r: Result<Strategy, StrategyError>)
        requires
            well_formed(self),
        ensures
            r is Ok <==> 1 <= turns <= 3 && 1 <= n <= MAX_FOLD,
            r matches Ok(s) ==> s == (Strategy::Rotate { inner: Box::new(self), turns, n })
                && well_formed(s),
            r matches Err(e) ==> e == (if 1 <= turns <= 3 {
                StrategyError::InvalidSize
            } else {
                StrategyError::InvalidTurns
            }),
    {
        if turns < 1 || turns > 3 {
            Err(StrategyError::InvalidTurns)
        } else if n < 1 || n > MAX_FOLD {
            Err(StrategyError::InvalidSize)
        } else {
            Ok(Strategy::Rotate { inner: Box::new(self), turns, n })
        }
    }

    /// This strategy on the even cells of a checkerboard of `cell`-squares and `other` on the
    /// odd ones.
    pub fn checker(self, other: Strategy, cell: u64) -> (r: Result<Strategy, StrategyError>)
        requires
            well_formed(self),
            well_formed(other),
        ensures
            r is Ok <==> 1 <= cell <= MAX_FOLD,
            r matches Ok(s) ==> s == (Strategy::Checker { inner: Box::new(self), other: Box::new(other), cell })
                && well_formed(s),
            r matches Err(e) ==> e == StrategyError::InvalidSize,
    {
        if 1 <= cell && cell <= MAX_FOLD {
            Ok(Strategy::Checker { inner: Box::new(self), other: Box::new(other), cell })
        } else {
            Err(StrategyError::InvalidSize)
        }
    }
}

} // verus!
