use imgtoy::color::{distance, Rgb};
use imgtoy::quantize::{nearest, nearest_index_of, nearest_pair, Palette, PaletteError, UNIT};

fn gray(v: u8) -> Rgb {
    Rgb::new(v, v, v)
}

#[test]
fn distance_weights_follow_red_mean() {
    assert_eq!(distance(&gray(128), &Rgb::black()), 147456);
    assert_eq!(distance(&gray(128), &Rgb::white()), 145161);
    assert_eq!(distance(&Rgb::new(10, 20, 30), &Rgb::new(10, 20, 30)), 0);
    assert_eq!(distance(&Rgb::new(1, 0, 0), &Rgb::new(0, 0, 0)), 2);
    assert_eq!(distance(&Rgb::new(200, 0, 0), &Rgb::new(100, 0, 0)), 30000);
}

#[test]
fn distance_is_symmetric() {
    let a = Rgb::new(12, 200, 40);
    let b = Rgb::new(250, 3, 99);
    assert_eq!(distance(&a, &b), distance(&b, &a));
}

#[test]
fn empty_palette_is_refused() {
    assert!(matches!(Palette::from_colors(vec![]), Err(PaletteError::Empty)));
}

#[test]
fn nearest_is_in_palette_and_closest() {
    let colours = vec![Rgb::new(255, 0, 0), Rgb::new(0, 255, 0), Rgb::new(0, 0, 255), gray(128)];
    let palette = Palette::from_colors(colours.clone()).unwrap();
    for c in [Rgb::new(250, 10, 10), Rgb::new(10, 10, 200), gray(120), Rgb::new(20, 240, 30)] {
        let n = nearest(&c, &palette);
        assert!(colours.contains(&n));
        for p in &colours {
            assert!(distance(&c, &n) <= distance(&c, p));
        }
    }
    assert_eq!(nearest(&Rgb::new(250, 10, 10), &palette), Rgb::new(255, 0, 0));
}

#[test]
fn ties_go_to_the_earliest_entry() {
    let palette = Palette::from_colors(vec![gray(10), gray(30), gray(10)]).unwrap();
    assert_eq!(nearest_index_of(&gray(20), &palette), 0);
    let palette = Palette::from_colors(vec![gray(30), gray(10)]).unwrap();
    assert_eq!(nearest_index_of(&gray(20), &palette), 0);
    assert_eq!(nearest_index_of(&gray(14), &palette), 1);
}

#[test]
fn quantizing_twice_gives_the_same_answer() {
    let palette = Palette::from_colors(vec![gray(0), gray(90), gray(180), gray(255)]).unwrap();
    let c = Rgb::new(77, 140, 3);
    assert_eq!(nearest(&c, &palette), nearest(&c, &palette));
    assert_eq!(nearest_pair(&c, &palette), nearest_pair(&c, &palette));
}

#[test]
fn pair_of_single_entry_palette() {
    let palette = Palette::from_colors(vec![Rgb::black()]).unwrap();
    assert_eq!(nearest_pair(&gray(200), &palette), (Rgb::black(), Rgb::black(), 0));
}

#[test]
fn pair_mix_ratio() {
    let palette = Palette::from_colors(vec![Rgb::black(), Rgb::white()]).unwrap();
    let (a, b, t) = nearest_pair(&gray(128), &palette);
    assert_eq!(a, Rgb::white());
    assert_eq!(b, Rgb::black());
    assert_eq!(t, 145161 * UNIT / (145161 + 147456));
    let (a, b, t) = nearest_pair(&Rgb::black(), &palette);
    assert_eq!((a, b, t), (Rgb::black(), Rgb::white(), 0));
}

#[test]
fn pair_with_duplicates_and_three_entries() {
    let palette = Palette::from_colors(vec![gray(0), gray(100), gray(200)]).unwrap();
    let (a, b, _) = nearest_pair(&gray(120), &palette);
    assert_eq!(a, gray(100));
    assert_eq!(b, gray(200));
}
