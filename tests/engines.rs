use imgtoy::color::Rgb;
use imgtoy::diffusion::{diffuse, Kernel, KernelError};
use imgtoy::effect::{apply_chain, Effect, EffectError};
use imgtoy::kernels::KernelPreset;
use imgtoy::ordered::ordered_dither;
use imgtoy::quantize::Palette;
use imgtoy::strategy::{Orientation, Strategy};
use imgtoy::surface::Surface;

fn gray(v: u8) -> Rgb {
    Rgb::new(v, v, v)
}

fn black_white() -> Palette {
    Palette::from_colors(vec![Rgb::black(), Rgb::white()]).unwrap()
}

fn varied_surface() -> Surface {
    let mut pixels = vec![];
    for i in 0..12u32 {
        pixels.push(Rgb::new((i * 21) as u8, (255 - i * 13) as u8, (i * i) as u8));
    }
    Surface::new(4, 3, pixels).unwrap()
}

#[test]
fn surface_shape_is_checked() {
    assert!(Surface::new(2, 2, vec![gray(1); 3]).is_none());
    assert!(Surface::new(70000, 1, vec![]).is_none());
    let s = Surface::new(2, 1, vec![gray(1), gray(2)]).unwrap();
    assert_eq!(s.get(1, 0), gray(2));
    let f = Surface::filled(3, 2, gray(9)).unwrap();
    assert_eq!(f.pixels, vec![gray(9); 6]);
}

#[test]
fn ordered_mid_gray_pair_splits() {
    let surface = Surface::filled(2, 1, gray(128)).unwrap();
    let strategy = Strategy::bayer(2).unwrap();
    let out = ordered_dither(&surface, &black_white(), &strategy);
    assert_ne!(out.pixels[0], out.pixels[1]);
    assert_eq!(out.pixels, vec![Rgb::black(), Rgb::white()]);
}

#[test]
fn single_entry_palette_paints_everything() {
    let palette = Palette::from_colors(vec![Rgb::black()]).unwrap();
    let surface = varied_surface();
    let ordered = ordered_dither(&surface, &palette, &Strategy::bayer(4).unwrap());
    assert!(ordered.pixels.iter().all(|c| *c == Rgb::black()));
    for preset in [KernelPreset::FloydSteinberg, KernelPreset::Atkinson, KernelPreset::Stucki] {
        let out = diffuse(&surface, &palette, &Kernel::preset(preset));
        assert!(out.pixels.iter().all(|c| *c == Rgb::black()));
    }
}

#[test]
fn outputs_are_palette_entries() {
    let colours = vec![Rgb::new(200, 30, 30), Rgb::new(20, 20, 90), gray(240)];
    let palette = Palette::from_colors(colours.clone()).unwrap();
    let surface = varied_surface();
    let a = ordered_dither(&surface, &palette, &Strategy::diamonds(3).unwrap());
    let b = diffuse(&surface, &palette, &Kernel::preset(KernelPreset::JarvisJudiceNinke));
    assert!(a.pixels.iter().all(|c| colours.contains(c)));
    assert!(b.pixels.iter().all(|c| colours.contains(c)));
    assert_eq!((a.width, a.height, b.width, b.height), (4, 3, 4, 3));
}

#[test]
fn diffusion_tracks_a_gradient() {
    let (w, h) = (64usize, 16usize);
    let mut pixels = vec![];
    for _ in 0..h {
        for x in 0..w {
            pixels.push(gray(((x * 255) / (w - 1)) as u8));
        }
    }
    let surface = Surface::new(w, h, pixels.clone()).unwrap();
    let out = diffuse(&surface, &black_white(), &Kernel::preset(KernelPreset::FloydSteinberg));
    for bx in (0..w).step_by(8) {
        let mut source = 0u32;
        let mut result = 0u32;
        for y in 0..h {
            for x in bx..bx + 8 {
                source += pixels[y * w + x].r as u32;
                result += out.pixels[y * w + x].r as u32;
            }
        }
        let n = (8 * h) as f64;
        let diff = (source as f64 / n - result as f64 / n).abs();
        assert!(diff < 16.0, "window at {bx}: {diff}");
    }
}

#[test]
fn edge_error_is_dropped() {
    // A one-pixel-wide column: of the first pixel's residual only 3/16 lands inside.
    let surface = Surface::filled(1, 2, gray(100)).unwrap();
    let out = diffuse(&surface, &black_white(), &Kernel::preset(KernelPreset::FloydSteinberg));
    assert_eq!(out.pixels, vec![Rgb::black(), Rgb::black()]);
}

#[test]
fn diffusion_mid_gray_pair() {
    let surface = Surface::filled(2, 1, gray(128)).unwrap();
    let out = diffuse(&surface, &black_white(), &Kernel::preset(KernelPreset::FloydSteinberg));
    assert_eq!(out.pixels, vec![Rgb::white(), Rgb::black()]);
}

#[test]
fn diffusion_is_repeatable() {
    let surface = varied_surface();
    let palette = Palette::from_colors(vec![Rgb::black(), Rgb::white(), Rgb::new(255, 0, 0)]).unwrap();
    let kernel = Kernel::preset(KernelPreset::Burkes);
    let a = diffuse(&surface, &palette, &kernel);
    let b = diffuse(&surface, &palette, &kernel);
    assert_eq!(a.pixels, b.pixels);
}

#[test]
fn kernel_presets_match_their_tables() {
    let k = Kernel::preset(KernelPreset::FloydSteinberg);
    assert_eq!(k.entries, vec![(1, 0, 7), (-1, 1, 5), (0, 1, 3), (1, 1, 1)]);
    assert_eq!(k.portions, 16);
    assert_eq!(Kernel::preset(KernelPreset::JarvisJudiceNinke).portions, 48);
    assert_eq!(Kernel::preset(KernelPreset::Atkinson).entries.len(), 6);
    assert_eq!(Kernel::preset(KernelPreset::Burkes).portions, 32);
    assert_eq!(Kernel::preset(KernelPreset::Stucki).portions, 42);
    assert_eq!(Kernel::preset(KernelPreset::Sierra).entries.len(), 10);
    assert_eq!(Kernel::preset(KernelPreset::SierraTwoRow).entries[0], (1, 0, 4));
    assert_eq!(Kernel::preset(KernelPreset::SierraLite).entries, vec![(1, 0, 2), (-1, 1, 1), (0, 1, 1)]);
}

#[test]
fn kernels_by_name() {
    assert_eq!(Kernel::named("Floyd-Steinberg").unwrap().portions, 16);
    assert_eq!(Kernel::named("JARVIS_JUDICE_NINKE").unwrap().portions, 48);
    assert_eq!(Kernel::named("sierra_to_row").unwrap().portions, 4);
    assert!(matches!(Kernel::named("bayer"), Err(KernelError::UnknownName)));
    assert_eq!(Kernel::for_lowercase_name("atkinson").unwrap().portions, 8);
    assert!(matches!(Kernel::for_lowercase_name("Atkinson"), Err(KernelError::UnknownName)));
}

#[test]
fn kernel_validation() {
    assert!(matches!(Kernel::new(vec![(1, 0, 1)], 0), Err(KernelError::NoPortions)));
    assert!(matches!(Kernel::new(vec![(1, 0, 1); 65], 2), Err(KernelError::TooManyEntries)));
    assert!(matches!(Kernel::new(vec![(1, 0, 1), (-1, 0, 1)], 2), Err(KernelError::BackwardEntry)));
    assert!(matches!(Kernel::new(vec![(0, 0, 1)], 2), Err(KernelError::BackwardEntry)));
    assert!(Kernel::new(vec![(1, 0, 1), (-3, 1, 1)], 2).is_ok());
}

#[test]
fn no_op_filters_keep_the_surface() {
    let surface = varied_surface();
    let expected = surface.pixels.clone();
    let effects = vec![Effect::brighten(0), Effect::contrast(7, 7).unwrap(), Effect::brighten(0)];
    let out = apply_chain(&effects, surface);
    assert_eq!(out.pixels, expected);
}

#[test]
fn filters_change_channels() {
    let surface = Surface::new(3, 1, vec![gray(0), gray(128), gray(250)]).unwrap();
    let out = Effect::brighten(10).apply(&surface);
    assert_eq!(out.pixels, vec![gray(10), gray(138), gray(255)]);
    let out = Effect::brighten(-5).apply(&surface);
    assert_eq!(out.pixels, vec![gray(0), gray(123), gray(245)]);
    let out = Effect::contrast(2, 1).unwrap().apply(&surface);
    assert_eq!(out.pixels, vec![gray(0), gray(128), gray(255)]);
    let out = Effect::contrast(1, 2).unwrap().apply(&surface);
    assert_eq!(out.pixels, vec![gray(64), gray(128), gray(189)]);
    assert!(matches!(Effect::contrast(1, 0), Err(EffectError::ZeroDenominator)));
}

#[test]
fn chain_runs_in_order() {
    let surface = Surface::filled(2, 1, gray(118)).unwrap();
    let effects = vec![
        Effect::brighten(10),
        Effect::Ordered { palette: black_white(), strategy: Strategy::bayer(2).unwrap() },
    ];
    let out = apply_chain(&effects, surface);
    assert_eq!(out.pixels, vec![Rgb::black(), Rgb::white()]);
    let surface = Surface::filled(1, 1, gray(200)).unwrap();
    let effects = vec![
        Effect::Diffuse { palette: black_white(), kernel: Kernel::preset(KernelPreset::Atkinson) },
        Effect::brighten(-1),
    ];
    let out = apply_chain(&effects, surface);
    assert_eq!(out.pixels, vec![gray(254)]);
    let vertical = Strategy::scanline(2, Orientation::Vertical).unwrap();
    let out = ordered_dither(&Surface::filled(2, 1, gray(128)).unwrap(), &black_white(), &vertical);
    assert_eq!(out.pixels, vec![Rgb::black(), Rgb::white()]);
}
