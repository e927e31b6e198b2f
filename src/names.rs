use vstd::prelude::*;

use crate::text::str_eq;

verus! {

/// The kinds of effect a pipeline configuration can name.
#[derive(Clone, Copy, Debug, PartialEq, Eq, Structural)]
pub enum EffectKind {
    HueRotate,
    Contrast,
    Brighten,
    Saturate,
    GradientMap,
    QuantizeHue,
    MultiplyHue,
    Bayer,
    Ordered,
    ErrorPropagator,
}

/// The effect kind a name stands for; any name not listed is an error-propagation algorithm's.
pub open spec fn effect_kind_named(name: Seq<char>) -> EffectKind {
    if name == "hue-rotate"@ {
        EffectKind::HueRotate
    } else if name == "contrast"@ {
        EffectKind::Contrast
    } else if name == "brighten"@ {
        EffectKind::Brighten
    } else if name == "saturate"@ {
        EffectKind::Saturate
    } else if name == "gradient-map"@ {
        EffectKind::GradientMap
    } else if name == "quantize-hue"@ {
        EffectKind::QuantizeHue
    } else if name == "multiply-hue"@ {
        EffectKind::MultiplyHue
    } else if name == "bayer"@ {
        EffectKind::Bayer
    } else if name == "ordered"@ {
        EffectKind::Ordered
    } else {
        EffectKind::ErrorPropagator
    }
}

impl EffectKind {
    /// The effect kind a name stands for; any name not listed is taken for an
    /// error-propagation algorithm.
    pub fn from_name(value: &str) -> (k: EffectKind)
        ensures
            k == effect_kind_named(value@),
    {
        if str_eq(value, "hue-rotate") {
            EffectKind::HueRotate
        } else if str_eq(value, "contrast") {
            EffectKind::Contrast
        } else if str_eq(value, "brighten") {
            EffectKind::Brighten
        } else if str_eq(value, "saturate") {
            EffectKind::Saturate
        } else if str_eq(value, "gradient-map") {
            EffectKind::GradientMap
        } else if str_eq(value, "quantize-hue") {
            EffectKind::QuantizeHue
        } else if str_eq(value, "multiply-hue") {
            EffectKind::MultiplyHue
        } else if str_eq(value, "bayer") {
            EffectKind::Bayer
        } else if str_eq(value, "ordered") {
            EffectKind::Ordered
        } else {
            EffectKind::ErrorPropagator
        }
    }
}

/// The ordered-dithering patterns a configuration can name.
#[derive(Clone, Copy, Debug, PartialEq, Eq, Structural)]
pub enum OrderedKind {
    Bayer,
    Diamonds,
    CheckeredDiamonds,
    Stars,
    NewStars,
    Grid,
    Trail,
    CrissCross,
    Static,
    Wavy,
    BootlegBayer,
    Diagonals,
    DiagonalsBig,
    DiamondGrid,
    SpeckleSquares,
    Scales,
    TrailScales,
    DiagonalsN,
    DiagonalTiles,
    BouncingBowtie,
    Scanline,
    Starburst,
    ShinyBowtie,
    MarbleTile,
    CurvePath,
    Zigzag,
    BrokenSpiral,
    ModuloSnake,
}

/// The pattern kind a name stands for, if any.
pub open spec fn ordered_kind_named(name: Seq<char>) -> Option<OrderedKind> {
    if name == "bayer"@ {
        Some(OrderedKind::Bayer)
    } else if name == "diamonds"@ {
        Some(OrderedKind::Diamonds)
    } else if name == "checkered-diamonds"@ {
        Some(OrderedKind::CheckeredDiamonds)
    } else if name == "stars"@ {
        Some(OrderedKind::Stars)
    } else if name == "new-stars"@ {
        Some(OrderedKind::NewStars)
    } else if name == "grid"@ {
        Some(OrderedKind::Grid)
    } else if name == "trail"@ {
        Some(OrderedKind::Trail)
    } else if name == "criss-cross"@ {
        Some(OrderedKind::CrissCross)
    } else if name == "static"@ {
        Some(OrderedKind::Static)
    } else if name == "wavy"@ {
        Some(OrderedKind::Wavy)
    } else if name == "bootleg-bayer"@ {
        Some(OrderedKind::BootlegBayer)
    } else if name == "diagonals"@ {
        Some(OrderedKind::Diagonals)
    } else if name == "diagonals-big"@ {
        Some(OrderedKind::DiagonalsBig)
    } else if name == "diamond-grid"@ {
        Some(OrderedKind::DiamondGrid)
    } else if name == "speckle-squares"@ {
        Some(OrderedKind::SpeckleSquares)
    } else if name == "scales"@ {
        Some(OrderedKind::Scales)
    } else if name == "trail-scales"@ {
        Some(OrderedKind::TrailScales)
    } else if name == "diagonals-n"@ {
        Some(OrderedKind::DiagonalsN)
    } else if name == "diagonal-tiles"@ {
        Some(OrderedKind::DiagonalTiles)
    } else if name == "bouncing-bowtie"@ {
        Some(OrderedKind::BouncingBowtie)
    } else if name == "scanline"@ {
        Some(OrderedKind::Scanline)
    } else if name == "starburst"@ {
        Some(OrderedKind::Starburst)
    } else if name == "shiny-bowtie"@ {
        Some(OrderedKind::ShinyBowtie)
    } else if name == "marble-tile"@ {
        Some(OrderedKind::MarbleTile)
    } else if name == "curve-path"@ {
        Some(OrderedKind::CurvePath)
    } else if name == "zigzag"@ {
        Some(OrderedKind::Zigzag)
    } else if name == "broken-spiral"@ {
        Some(OrderedKind::BrokenSpiral)
    } else if name == "modulo-snake"@ {
        Some(OrderedKind::ModuloSnake)
    } else {
        None
    }
}

impl OrderedKind {
    /// The pattern kind a name stands for; `None` for a name that is not listed.
    pub fn from_name(value: &str) -> (k: Option<OrderedKind>)
        ensures
            k == ordered_kind_named(value@),
    {
        if str_eq(value, "bayer") {
            Some(OrderedKind::Bayer)
        } else if str_eq(value, "diamonds") {
            Some(OrderedKind::Diamonds)
        } else if str_eq(value, "checkered-diamonds") {
            Some(OrderedKind::CheckeredDiamonds)
        } else if str_eq(value, "stars") {
            Some(OrderedKind::Stars)
        } else if str_eq(value, "new-stars") {
            Some(OrderedKind::NewStars)
        } else if str_eq(value, "grid") {
            Some(OrderedKind::Grid)
        } else if str_eq(value, "trail") {
            Some(OrderedKind::Trail)
        } else if str_eq(value, "criss-cross") {
            Some(OrderedKind::CrissCross)
        } else if str_eq(value, "static") {
            Some(OrderedKind::Static)
        } else if str_eq(value, "wavy") {
            Some(OrderedKind::Wavy)
        } else if str_eq(value, "bootleg-bayer") {
            Some(OrderedKind::BootlegBayer)
        } else if str_eq(value, "diagonals") {
            Some(OrderedKind::Diagonals)
        } else if str_eq(value, "diagonals-big") {
            Some(OrderedKind::DiagonalsBig)
        } else if str_eq(value, "diamond-grid") {
            Some(OrderedKind::DiamondGrid)
        } else if str_eq(value, "speckle-squares") {
            Some(OrderedKind::SpeckleSquares)
        } else if str_eq(value, "scales") {
            Some(OrderedKind::Scales)
        } else if str_eq(value, "trail-scales") {
            Some(OrderedKind::TrailScales)
        } else if str_eq(value, "diagonals-n") {
            Some(OrderedKind::DiagonalsN)
        } else if str_eq(value, "diagonal-tiles") {
            Some(OrderedKind::DiagonalTiles)
        } else if str_eq(value, "bouncing-bowtie") {
            Some(OrderedKind::BouncingBowtie)
        } else if str_eq(value, "scanline") {
            Some(OrderedKind::Scanline)
        } else if str_eq(value, "starburst") {
            Some(OrderedKind::Starburst)
        } else if str_eq(value, "shiny-bowtie") {
            Some(OrderedKind::ShinyBowtie)
        } else if str_eq(value, "marble-tile") {
            Some(OrderedKind::MarbleTile)
        } else if str_eq(value, "curve-path") {
            Some(OrderedKind::CurvePath)
        } else if str_eq(value, "zigzag") {
            Some(OrderedKind::Zigzag)
        } else if str_eq(value, "broken-spiral") {
            Some(OrderedKind::BrokenSpiral)
        } else if str_eq(value, "modulo-snake") {
            Some(OrderedKind::ModuloSnake)
        } else {
            None
        }
    }
}

/// How hues are spread over a generated palette.
#[derive(Clone, Copy, Debug, PartialEq, Eq, Structural)]
pub enum HueDistribution {
    Linear,
    Random,
}

} // verus!
