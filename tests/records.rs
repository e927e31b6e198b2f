use imgtoy::color::{parse_hex_colour, rgb_from_components, ColourError, Rgb};
use imgtoy::dates::{format_date, generate_random_apod_date, generate_random_date_between, settle_date};
use imgtoy::effectlog::{ExecLog, LogEntry};
use imgtoy::html::generate_palette_html;
use imgtoy::media::{
    fitted_size, resize_image_with_max_dim, Empty, FileType, ImageRequest, ImageResult, LoadPlan, MediaType, PathType,
    Source, SourceKind,
};
use imgtoy::names::{EffectKind, OrderedKind};
use imgtoy::nasa::{album, apod, asset, captions, metadata, search};
use imgtoy::runlog::{AppLog, RunLog};
use imgtoy::text::join_to_string;

use imgtoy::config::{ComplexPrimitive, ParameterError, ParameterList, ParameterRange, Primitive};
use imgtoy::nasa::{ApodText, NoneError};
use imgtoy::pattern::{apply_modifiers, strategy_for_kind, Modifiers, PatternParams};
use imgtoy::quantize::UNIT;
use imgtoy::strategy::{Increase, MirrorAxis, Orientation, Slope, StrategyError};

use image::GenericImageView;
use rand::SeedableRng;

#[test]
fn palette_html_lists_swatches() {
    let html = generate_palette_html(vec![Rgb::new(1, 22, 255)]);
    assert_eq!(
        html,
        "<div style:\"width: 100%; display: flex; flex-wrap: wrap;\"><div style=\"height: 100%; background: rgb(1,22,255); flex-grow: 1; padding:3px;\"></div></div>"
    );
    assert_eq!(generate_palette_html(vec![]), "<div style:\"width: 100%; display: flex; flex-wrap: wrap;\"></div>");
}

#[test]
fn nasa_urls() {
    assert_eq!(search(), "https://images-api.nasa.gov/search");
    assert_eq!(asset("x1"), "https://images-api.nasa.gov/asset/x1");
    assert_eq!(metadata("x1"), "https://images-api.nasa.gov/metadata/x1");
    assert_eq!(captions("x1"), "https://images-api.nasa.gov/captions/x1");
    assert_eq!(album("moon"), "https://images-api.nasa.gov/album/moon");
    assert_eq!(
        apod("KEY", "2001-02-03"),
        "https://api.nasa.gov/planetary/apod?api_key=KEY&date=2001-02-03&hd=true"
    );
}

#[test]
fn dates_are_settled() {
    assert_eq!(settle_date((1995, 3, 2), (1995, 6, 16), (2023, 8, 6)), (1995, 6, 16));
    assert_eq!(settle_date((2000, 2, 31), (1995, 6, 16), (2023, 8, 6)), (2000, 2, 29));
    assert_eq!(settle_date((2001, 2, 31), (1995, 6, 16), (2023, 8, 6)), (2001, 2, 28));
    assert_eq!(settle_date((2001, 4, 31), (1995, 6, 16), (2023, 8, 6)), (2001, 4, 30));
    assert_eq!(settle_date((2001, 8, 31), (1995, 6, 16), (2023, 8, 6)), (2001, 8, 31));
    assert_eq!(settle_date((2023, 12, 20), (1995, 6, 16), (2023, 8, 6)), (2023, 8, 6));
}

#[test]
fn dates_are_formatted() {
    assert_eq!(format_date((1999, 7, 4)), "1999-07-04");
    assert_eq!(format_date((2010, 11, 30)), "2010-11-30");
}

#[test]
fn random_dates_stay_in_window() {
    let mut rng = rand::rngs::StdRng::seed_from_u64(7);
    for _ in 0..200 {
        let (y, m, d) = generate_random_date_between(&mut rng, (1995, 6, 16), (2023, 8, 6));
        assert!((1995..2023).contains(&y));
        assert!((1..=12).contains(&m));
        assert!((1..=31).contains(&d));
        if y == 1995 {
            assert!(m >= 6 && d >= 16);
        }
    }
    let text = generate_random_apod_date(&mut rng);
    assert_eq!(text.len(), 10);
    assert_eq!(&text[4..5], "-");
}

#[test]
fn exec_log_records_entries() {
    let mut log = ExecLog::new();
    log.add_entry(LogEntry::effect("bayer".to_string(), "size=4".to_string()))
        .add_entry(LogEntry::colour(Rgb::new(1, 2, 3)))
        .add_entry(LogEntry::gradient(Rgb::new(10, 20, 30), 5));
    assert_eq!(log.len(), 3);
    assert_eq!(
        log.lines(),
        vec![
            "Effect [bayer] with options [size=4]".to_string(),
            "Rgb::new(1, 2, 3)".to_string(),
            "Rgb::new(10, 20, 30).build_gradient_lch(5)".to_string(),
        ]
    );
    let mut other = ExecLog::new();
    other.add_entry(LogEntry::colour(Rgb::black()));
    log.append_log(other);
    assert_eq!(log.len(), 4);
    assert_eq!(log.reset().len(), 0);
}

#[test]
fn run_log_formats_effects() {
    let mut run = RunLog::init(3);
    run.apply_effect("bayer", vec![("size", "4".to_string())]);
    let expected_line = format!("\t\t[{:>30}]: 4\n", "bayer.size");
    assert_eq!(
        run.render(),
        format!("[00003]\nApplying effect [bayer], with the following parameters...\n{expected_line}")
    );
    let mut app = AppLog::init("in.png".to_string(), "out".to_string(), 2, "image".to_string(), None);
    app.add_run(run);
    let text = app.render();
    assert!(text.starts_with("[ === APP INFO === ]\n[  source  ]: image: in.png\n[  output  ]: out\n"));
    assert!(text.contains("[iterations]: 2\n[ max-dim  ]: (unspecified)\n"));
    assert!(text.ends_with(&format!("\n[ ===== RUNS ===== ]\n[00003]\nApplying effect [bayer], with the following parameters...\n{expected_line}")));
}

#[test]
fn joins_strings() {
    let items = vec!["a".to_string(), "bc".to_string(), "d".to_string()];
    assert_eq!(join_to_string(&items, ", "), "a, bc, d");
    assert_eq!(join_to_string(&vec![], "-"), "");
}

#[test]
fn effect_and_pattern_names() {
    assert_eq!(EffectKind::from_name("hue-rotate"), EffectKind::HueRotate);
    assert_eq!(EffectKind::from_name("ordered"), EffectKind::Ordered);
    assert_eq!(EffectKind::from_name("bayer"), EffectKind::Bayer);
    assert_eq!(EffectKind::from_name("floyd-steinberg"), EffectKind::ErrorPropagator);
    assert_eq!(OrderedKind::from_name("bayer"), Some(OrderedKind::Bayer));
    assert_eq!(OrderedKind::from_name("modulo-snake"), Some(OrderedKind::ModuloSnake));
    assert_eq!(OrderedKind::from_name("zigzag"), Some(OrderedKind::Zigzag));
    assert_eq!(OrderedKind::from_name("nope"), None);
}

#[test]
fn hex_colours() {
    assert_eq!(parse_hex_colour("ff8000"), Ok(Rgb::new(255, 128, 0)));
    assert_eq!(parse_hex_colour("0A0b0C"), Ok(Rgb::new(10, 11, 12)));
    assert_eq!(parse_hex_colour("fff"), Err(ColourError::WrongLength));
    assert_eq!(parse_hex_colour("ggffff"), Err(ColourError::NotHex));
    assert_eq!(rgb_from_components(&vec![1, 256, 300]), Ok(Rgb::new(1, 0, 44)));
    assert_eq!(rgb_from_components(&vec![1, 2]), Err(ColourError::WrongComponentCount));
}

#[test]
fn requests_plan_their_loading() {
    let r = ImageRequest::new("a.png".to_string());
    assert_eq!((r.path_type, r.file_type, r.max_dim), (PathType::File, FileType::Image, None));
    assert_eq!(r.plan(), LoadPlan::ImageFromFile { max_dim: None });
    let r = ImageRequest::new("http://x".to_string()).url().with_max_dim(300);
    assert_eq!(r.plan(), LoadPlan::ImageFromUrl { max_dim: Some(300) });
    let r = r.keep_size().gif();
    assert_eq!(r.plan(), LoadPlan::GifFromUrl);
    let r = r.file().image();
    assert_eq!(r.plan(), LoadPlan::ImageFromFile { max_dim: None });
    let s = Source { source: SourceKind::File("f.gif".to_string()), media_type: MediaType::Gif, max_dim: Some(5) };
    assert_eq!(s.plan(), LoadPlan::GifFromFile);
    assert_eq!(s.target(), "f.gif");
}

#[test]
fn fitting_sizes() {
    assert_eq!(fitted_size(400, 200, 100), Some((100, 50)));
    assert_eq!(fitted_size(30, 90, 45), Some((15, 45)));
    assert_eq!(fitted_size(30, 90, 90), None);
}

#[test]
fn images_are_resized_to_fit() {
    let img = image::DynamicImage::new_rgb8(40, 20);
    let small = resize_image_with_max_dim(&img, 10);
    assert_eq!(small.dimensions(), (10, 5));
    let same = resize_image_with_max_dim(&img, 100);
    assert_eq!(same.dimensions(), (40, 20));
}

#[test]
fn image_results_unwrap_by_kind() {
    let img = image::DynamicImage::new_rgb8(2, 2);
    assert!(ImageResult::Image(img.clone()).into_image().is_ok());
    assert!(matches!(ImageResult::Image(img).into_gif(), Err(Empty)));
    assert!(matches!(ImageResult::Gif(vec![]).into_image(), Err(Empty)));
    assert_eq!(ImageResult::Gif(vec![]).into_gif().unwrap().len(), 0);
}

#[test]
fn parameters_resolve() {
    let mut rng = rand::rngs::StdRng::seed_from_u64(3);
    assert_eq!(ComplexPrimitive::Exact(9).get(&mut rng), Ok(9));
    for _ in 0..50 {
        let v = ComplexPrimitive::Choice(vec![2, 4, 8]).get(&mut rng).unwrap();
        assert!([2, 4, 8].contains(&v));
        let r = ComplexPrimitive::Range(ParameterRange { min: 5, max: 9 }).get(&mut rng).unwrap();
        assert!((5..9).contains(&r));
    }
    assert_eq!(ComplexPrimitive::Choice(vec![]).get(&mut rng), Err(ParameterError::NoChoices));
    assert_eq!(ParameterRange { min: 4, max: 4 }.get(&mut rng), Err(ParameterError::EmptyRange));
    let list = ParameterList::from_items(vec![1u64, 2]);
    assert_eq!(list.len(), 2);
    let p = Primitive::new("x".to_string());
    assert_eq!(p.check(), "x");
    assert_eq!(p.get(), "x");
}

#[test]
fn apod_text_fields() {
    let t = ApodText::from_fields(Some("hd".into()), Some("sd".into()), None, Some("why".into()), true).unwrap();
    assert_eq!((t.url.as_str(), t.title.as_str(), t.explanation.as_str()), ("hd", "(no title)", "why"));
    let t = ApodText::from_fields(None, Some("sd".into()), Some("T".into()), None, false).unwrap();
    assert_eq!((t.url.as_str(), t.title.as_str(), t.explanation.as_str()), ("sd", "T", "(no explanation)"));
    assert!(matches!(ApodText::from_fields(None, Some("sd".into()), None, None, true), Err(NoneError)));
}

#[test]
fn pattern_kinds_build_strategies() {
    let p = PatternParams { size: 4, orientation: Orientation::Vertical, slope: Slope::Rising, increase: Increase::Linear };
    assert_eq!(strategy_for_kind(OrderedKind::Bayer, p).unwrap().evaluate(1, 0), 3 * UNIT / 4);
    assert_eq!(strategy_for_kind(OrderedKind::Scanline, p).unwrap().evaluate(3, 0), 3 * UNIT / 4);
    assert!(matches!(strategy_for_kind(OrderedKind::Stars, p), Err(StrategyError::UnsupportedKind)));
    let bad = PatternParams { size: 3, ..p };
    assert!(matches!(strategy_for_kind(OrderedKind::Bayer, bad), Err(StrategyError::InvalidSize)));
    let m = Modifiers { mirror: None, blur: None, exponentiate: Some(2), rotate: None, invert: true };
    let s = apply_modifiers(strategy_for_kind(OrderedKind::Bayer, p).unwrap(), &m).unwrap();
    assert_eq!(s.evaluate(0, 0), UNIT - 1);
    let m = Modifiers { mirror: Some((MirrorAxis::Vertical, 0, false)), blur: Some(600), exponentiate: None, rotate: None, invert: false };
    assert!(matches!(apply_modifiers(strategy_for_kind(OrderedKind::Bayer, p).unwrap(), &m), Err(StrategyError::InvalidSize)));
    let m = Modifiers { mirror: None, blur: Some(600), exponentiate: None, rotate: None, invert: false };
    assert!(matches!(apply_modifiers(strategy_for_kind(OrderedKind::Bayer, p).unwrap(), &m), Err(StrategyError::BlurTooWide)));
    let m = Modifiers { mirror: None, blur: None, exponentiate: None, rotate: Some((5, 4)), invert: false };
    assert!(matches!(apply_modifiers(strategy_for_kind(OrderedKind::Bayer, p).unwrap(), &m), Err(StrategyError::InvalidTurns)));
}
