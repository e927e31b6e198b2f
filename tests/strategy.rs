use imgtoy::quantize::UNIT;
use imgtoy::strategy::{Increase, MirrorAxis, Orientation, Slope, Strategy, StrategyError};

#[test]
fn bayer_two_by_two() {
    let s = Strategy::bayer(2).unwrap();
    assert_eq!(s.evaluate(0, 0), 0);
    assert_eq!(s.evaluate(0, 1), UNIT / 2);
    assert_eq!(s.evaluate(1, 0), 3 * UNIT / 4);
    assert_eq!(s.evaluate(1, 1), UNIT / 4);
}

#[test]
fn bayer_four_by_four_values_are_distinct() {
    let s = Strategy::bayer(4).unwrap();
    let mut seen = vec![];
    for x in 0..4 {
        for y in 0..4 {
            let v = s.evaluate(x, y);
            assert!(v < UNIT);
            assert_eq!(v % (UNIT / 16), 0);
            assert!(!seen.contains(&v));
            seen.push(v);
        }
    }
    assert_eq!(s.evaluate(0, 0), 0);
}

#[test]
fn bayer_size_must_be_power_of_two() {
    assert!(matches!(Strategy::bayer(3), Err(StrategyError::InvalidSize)));
    assert!(matches!(Strategy::bayer(0), Err(StrategyError::InvalidSize)));
    assert!(matches!(Strategy::bayer(512), Err(StrategyError::InvalidSize)));
    assert!(Strategy::bayer(1).is_ok());
    assert!(Strategy::bayer(256).is_ok());
}

#[test]
fn generator_sizes_are_checked() {
    assert!(matches!(Strategy::diamonds(0), Err(StrategyError::InvalidSize)));
    assert!(matches!(Strategy::squares(257), Err(StrategyError::InvalidSize)));
    assert!(matches!(Strategy::scanline(0, Orientation::Vertical), Err(StrategyError::InvalidSize)));
    assert!(matches!(
        Strategy::diagonals(300, Slope::Rising, Increase::Linear),
        Err(StrategyError::InvalidSize)
    ));
}

#[test]
fn invert_twice_is_identity() {
    let s = Strategy::diamonds(5).unwrap();
    let t = Strategy::diamonds(5).unwrap().invert().invert();
    for x in 0..12 {
        for y in 0..12 {
            assert_eq!(t.evaluate(x, y), s.evaluate(x, y));
        }
    }
}

#[test]
fn invert_turns_values_round() {
    let s = Strategy::bayer(2).unwrap().invert();
    assert_eq!(s.evaluate(0, 0), UNIT - 1);
    assert_eq!(s.evaluate(1, 0), UNIT / 4 - 1);
}

#[test]
fn tiled_generators_repeat() {
    let gens = vec![
        (Strategy::bayer(8).unwrap(), 8),
        (Strategy::diagonals(6, Slope::Falling, Increase::Exponential).unwrap(), 6),
        (Strategy::diagonals(7, Slope::Rising, Increase::Linear).unwrap(), 7),
        (Strategy::diamonds(5).unwrap(), 5),
        (Strategy::squares(9).unwrap(), 9),
        (Strategy::scanline(4, Orientation::Horizontal).unwrap(), 4),
    ];
    for (s, n) in &gens {
        for x in 0..20u64 {
            for y in 0..20u64 {
                assert_eq!(s.evaluate(x + n, y), s.evaluate(x, y));
                assert_eq!(s.evaluate(x, y + n), s.evaluate(x, y));
            }
        }
    }
}

#[test]
fn diagonal_and_scanline_values() {
    let s = Strategy::diagonals(4, Slope::Rising, Increase::Linear).unwrap();
    assert_eq!(s.evaluate(1, 2), 3 * UNIT / 4);
    let s = Strategy::diagonals(4, Slope::Falling, Increase::Linear).unwrap();
    assert_eq!(s.evaluate(1, 2), 3 * UNIT / 4);
    let s = Strategy::diagonals(4, Slope::Rising, Increase::Exponential).unwrap();
    assert_eq!(s.evaluate(1, 1), 4 * UNIT / 16);
    let s = Strategy::scanline(4, Orientation::Vertical).unwrap();
    assert_eq!(s.evaluate(3, 0), 3 * UNIT / 4);
}

#[test]
fn diamonds_and_squares_values() {
    let s = Strategy::diamonds(3).unwrap();
    assert_eq!(s.evaluate(1, 1), 0);
    assert_eq!(s.evaluate(0, 0), 4 * UNIT / 5);
    let s = Strategy::squares(3).unwrap();
    assert_eq!(s.evaluate(0, 1), 2 * UNIT / 5);
}

#[test]
fn mirror_folds_coordinates() {
    let s = Strategy::scanline(8, Orientation::Vertical).unwrap().mirror(MirrorAxis::Vertical, 4, false).unwrap();
    assert_eq!(s.evaluate(5, 0), s.evaluate(2, 0));
    let t = Strategy::scanline(8, Orientation::Vertical).unwrap().mirror(MirrorAxis::Vertical, 4, true).unwrap();
    assert_eq!(t.evaluate(5, 0), UNIT - 1 - s.evaluate(2, 0));
    let d = Strategy::scanline(8, Orientation::Vertical).unwrap().mirror(MirrorAxis::Diagonal, 8, false).unwrap();
    assert_eq!(d.evaluate(5, 2), d.evaluate(2, 5));
    assert!(matches!(
        Strategy::bayer(2).unwrap().mirror(MirrorAxis::Horizontal, 0, false),
        Err(StrategyError::InvalidSize)
    ));
}

#[test]
fn blur_averages_a_square() {
    let s = Strategy::scanline(4, Orientation::Vertical).unwrap().blur(1).unwrap();
    assert_eq!(s.evaluate(0, 0), (0 + UNIT / 4 + UNIT / 2) / 3);
    assert!(matches!(Strategy::bayer(2).unwrap().blur(513), Err(StrategyError::BlurTooWide)));
    let wide = Strategy::bayer(2).unwrap().blur(500).unwrap();
    assert!(matches!(wide.blur(13), Err(StrategyError::BlurTooWide)));
}

#[test]
fn exponentiate_squares_values() {
    let s = Strategy::bayer(2).unwrap().exponentiate(2).unwrap();
    assert_eq!(s.evaluate(0, 1), UNIT / 4);
    assert!(matches!(Strategy::bayer(2).unwrap().exponentiate(0), Err(StrategyError::InvalidExponent)));
    assert!(matches!(Strategy::bayer(2).unwrap().exponentiate(17), Err(StrategyError::InvalidExponent)));
}

#[test]
fn rotate_turns_tiles() {
    let base = Strategy::scanline(4, Orientation::Vertical).unwrap();
    let s = Strategy::scanline(4, Orientation::Vertical).unwrap().rotate(2, 4).unwrap();
    assert_eq!(s.evaluate(0, 0), base.evaluate(3, 3));
    let q = Strategy::scanline(4, Orientation::Vertical).unwrap().rotate(1, 4).unwrap();
    assert_eq!(q.evaluate(1, 2), base.evaluate(2, 2));
    assert!(matches!(Strategy::bayer(2).unwrap().rotate(4, 4), Err(StrategyError::InvalidTurns)));
    assert!(matches!(Strategy::bayer(2).unwrap().rotate(1, 0), Err(StrategyError::InvalidSize)));
}

#[test]
fn checker_alternates_strategies() {
    let a = Strategy::scanline(4, Orientation::Vertical).unwrap();
    let b = Strategy::scanline(4, Orientation::Vertical).unwrap().invert();
    let s = a.checker(b, 2).unwrap();
    assert_eq!(s.evaluate(1, 0), UNIT / 4);
    assert_eq!(s.evaluate(2, 0), UNIT - 1 - UNIT / 2);
    let c = Strategy::bayer(2).unwrap().checker(Strategy::bayer(2).unwrap(), 0);
    assert!(matches!(c, Err(StrategyError::InvalidSize)));
}

#[test]
fn evaluation_is_repeatable() {
    let s = Strategy::diamonds(6).unwrap().blur(2).unwrap().exponentiate(3).unwrap().invert();
    for x in 0..5 {
        assert_eq!(s.evaluate(x, 3), s.evaluate(x, 3));
    }
}
