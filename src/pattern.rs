use vstd::prelude::*;

use crate::names::OrderedKind;
use crate::strategy::{
    reach, two_pow, well_formed, Increase, MirrorAxis, Orientation, Slope, Strategy, StrategyError, MAX_BAYER_ORDER,
    MAX_FOLD, MAX_POWER, MAX_REACH, MAX_TILE,
};

verus! {

/// The parameters a pattern kind may take.
#[derive(Clone, Copy, Debug, PartialEq, Eq, Structural)]
pub struct PatternParams {
    pub size: u64,
    pub orientation: Orientation,
    pub slope: Slope,
    pub increase: Increase,
}

/// The generator of a pattern kind other than Bayer: refused for a side out of range, and for
/// kinds this library has no generator for.
pub open spec fn spec_generator(kind: OrderedKind, p: PatternParams) -> Result<Strategy, StrategyError> {
    match kind {
        OrderedKind::Diamonds => if 1 <= p.size <= MAX_TILE {
            Ok(Strategy::Diamonds { n: p.size })
        } else {
            Err(StrategyError::InvalidSize)
        },
        OrderedKind::DiagonalsN => if 1 <= p.size <= MAX_TILE {
            Ok(Strategy::Diagonals { n: p.size, slope: p.slope, increase: p.increase })
        } else {
            Err(StrategyError::InvalidSize)
        },
        OrderedKind::Scanline => if 1 <= p.size <= MAX_TILE {
            Ok(Strategy::Scanline { n: p.size, orientation: p.orientation })
        } else {
            Err(StrategyError::InvalidSize)
        },
        _ => Err(StrategyError::UnsupportedKind),
    }
}

/// The generator of a pattern kind. Bayer matrices take a power-of-two side; diamonds,
/// diagonal bands and scanlines a side from 1 to `MAX_TILE`; other kinds are refused.
pub fn strategy_for_kind(kind: OrderedKind, p: PatternParams) -> (r: Result<Strategy, StrategyError>)
    ensures
        kind == OrderedKind::Bayer ==> (r is Ok <==> exists|k: nat| k <= MAX_BAYER_ORDER && #[trigger] two_pow(k) == p.size),
        kind == OrderedKind::Bayer ==> (r matches Ok(s) ==> (s matches Strategy::Bayer { order }
            && two_pow(order as nat) == p.size)),
        kind == OrderedKind::Bayer ==> (r matches Err(e) ==> e == StrategyError::InvalidSize),
        kind != OrderedKind::Bayer ==> r == spec_generator(kind, p),
        r matches Ok(s) ==> well_formed(s),
{
    match kind {
        OrderedKind::Bayer => Strategy::bayer(p.size),
        OrderedKind::Diamonds => Strategy::diamonds(p.size),
        OrderedKind::DiagonalsN => Strategy::diagonals(p.size, p.slope, p.increase),
        OrderedKind::Scanline => Strategy::scanline(p.size, p.orientation),
        _ => Err(StrategyError::UnsupportedKind),
    }
}

/// The modifiers of an ordered-dithering configuration, randomness already resolved.
#[derive(Clone, Copy, Debug)]
pub struct Modifiers {
    pub mirror: Option<(MirrorAxis, u64, bool)>,
    pub blur: Option<u64>,
    pub exponentiate: Option<u64>,
    pub rotate: Option<(u64, u64)>,
    pub invert: bool,
}

/// The strategy wrapped in the modifiers, innermost first: mirror, blur, exponentiate, rotate,
/// invert.
pub open spec fn spec_modified(s: Strategy, m: Modifiers) -> Strategy {
    let s1 = match m.mirror {
        Some((axis, n, thorough)) => Strategy::Mirror { inner: Box::new(s), axis, n, thorough },
        None => s,
    };
    let s2 = match m.blur {
        Some(radius) => Strategy::Blur { inner: Box::new(s1), radius },
        None => s1,
    };
    let s3 = match m.exponentiate {
        Some(power) => Strategy::Exponentiate { inner: Box::new(s2), power },
        None => s2,
    };
    let s4 = match m.rotate {
        Some((turns, n)) => Strategy::Rotate { inner: Box::new(s3), turns, n },
        None => s3,
    };
    if m.invert { Strategy::Invert { inner: Box::new(s4) } } else { s4 }
}

/// The first modifier, in the order they are applied, whose parameters are out of range.
pub open spec fn modifier_error(s: Strategy, m: Modifiers) -> Option<StrategyError> {
    if m.mirror matches Some((_, n, _)) && !(1 <= n <= MAX_FOLD) {
        Some(StrategyError::InvalidSize)
    } else if m.blur matches Some(radius) && !(2 * radius + reach(s) <= MAX_REACH) {
        Some(StrategyError::BlurTooWide)
    } else if m.exponentiate matches Some(power) && !(1 <= power <= MAX_POWER) {
        Some(StrategyError::InvalidExponent)
    } else if m.rotate matches Some((turns, _)) && !(1 <= turns <= 3) {
        Some(StrategyError::InvalidTurns)
    } else if m.rotate matches Some((_, n)) && !(1 <= n <= MAX_FOLD) {
        Some(StrategyError::InvalidSize)
    } else {
        None
    }
}

/// Wraps the strategy in its modifiers, in the order mirror, blur, exponentiate, rotate,
/// invert; refused with the first modifier whose parameters are out of range.
pub fn apply_modifiers(s: Strategy, m: &Modifiers) -> (r: Result<Strategy, StrategyError>)
    requires
        well_formed(s),
    ensures
        r is Ok <==> modifier_error(s, *m) is None,
        r matches Ok(t) ==> t == spec_modified(s, *m) && well_formed(t),
        r matches Err(e) ==> modifier_error(s, *m) == Some(e),
{
    let ghost s0 = s;
    let s1 = match m.mirror {
        Some((axis, n, thorough)) => s.mirror(axis, n, thorough)?,
        None => s,
    };
    assert(reach(s1) == reach(s0));
    let s2 = match m.blur {
        Some(radius) => s1.blur(radius)?,
        None => s1,
    };
    let s3 = match m.exponentiate {
        Some(power) => s2.exponentiate(power)?,
        None => s2,
    };
    let s4 = match m.rotate {
        Some((turns, n)) => s3.rotate(turns, n)?,
        None => s3,
    };
    if m.invert {
        Ok(s4.invert())
    } else {
        Ok(s4)
    }
}

} // verus!
