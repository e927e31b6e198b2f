use vstd::prelude::*;

use crate::diffusion::{Kernel, KernelError, kernel_wf};
use crate::text::{lower_of, lowercase, str_eq};

verus! {

/// The named error-diffusion kernels.
#[derive(Clone, Copy, Debug, PartialEq, Eq, Structural)]
pub enum KernelPreset {
    FloydSteinberg,
    JarvisJudiceNinke,
    Atkinson,
    Burkes,
    Stucki,
    Sierra,
    SierraTwoRow,
    SierraLite,
}

/// The entries of each named kernel.
pub open spec fn preset_entries(p: KernelPreset) -> Seq<(i8, i8, u8)> {
    match p {
        KernelPreset::FloydSteinberg => seq![(1i8, 0i8, 7u8), (-1i8, 1, 5), (0, 1, 3), (1, 1, 1)],
        KernelPreset::JarvisJudiceNinke => seq![
            (1i8, 0i8, 7u8), (2, 0, 5),
            (-2i8, 1, 3), (-1i8, 1, 5), (0, 1, 7), (1, 1, 5), (2, 1, 3),
            (-2i8, 2, 1), (-1i8, 2, 3), (0, 2, 5), (1, 2, 3), (2, 2, 1),
        ],
        KernelPreset::Atkinson => seq![
            (1i8, 0i8, 1u8), (2, 0, 1),
            (-1i8, 1, 1), (0, 1, 1), (1, 1, 1),
            (0, 2, 1),
        ],
        KernelPreset::Burkes => seq![
            (1i8, 0i8, 8u8), (2, 0, 4),
            (-2i8, 1, 2), (-1i8, 1, 4), (0, 1, 8), (1, 1, 4), (2, 1, 2),
        ],
        KernelPreset::Stucki => seq![
            (1i8, 0i8, 8u8), (2, 0, 4),
            (-2i8, 1, 2), (-1i8, 1, 4), (0, 1, 8), (1, 1, 4), (2, 1, 2),
            (-2i8, 2, 1), (-1i8, 2, 2), (0, 2, 4), (1, 2, 2), (2, 2, 1),
        ],
        KernelPreset::Sierra => seq![
            (1i8, 0i8, 5u8), (2, 0, 3),
            (-2i8, 1, 2), (-1i8, 1, 4), (0, 1, 5), (1, 1, 4), (2, 1, 2),
            (-1i8, 2, 2), (0, 2, 3), (1, 2, 2),
        ],
        KernelPreset::SierraTwoRow => seq![
            (1i8, 0i8, 4u8), (2, 0, 3),
            (-2i8, 1, 1), (-1i8, 1, 2), (0, 1, 3), (1, 1, 2), (2, 1, 1),
        ],
        KernelPreset::SierraLite => seq![(1i8, 0i8, 2u8), (-1i8, 1, 1), (0, 1, 1)],
    }
}

/// The portion count of each named kernel.
pub open spec fn preset_portions(p: KernelPreset) -> u16 {
    match p {
        KernelPreset::FloydSteinberg => 16,
        KernelPreset::JarvisJudiceNinke => 48,
        KernelPreset::Atkinson => 8,
        KernelPreset::Burkes => 32,
        KernelPreset::Stucki => 42,
        KernelPreset::Sierra => 32,
        KernelPreset::SierraTwoRow => 16,
        KernelPreset::SierraLite => 4,
    }
}

/// The preset that a lower-case kernel name stands for.
pub open spec fn preset_named(name: Seq<char>) -> Option<KernelPreset> {
    if name == "floydsteinberg"@ || name == "floyd-steinberg"@ || name == "floyd_steinberg"@ {
        Some(KernelPreset::FloydSteinberg)
    } else if name == "jarvisjudiceninke"@ || name == "jarvis-judice-ninke"@ || name == "jarvis_judice_ninke"@ {
        Some(KernelPreset::JarvisJudiceNinke)
    } else if name == "atkinson"@ {
        Some(KernelPreset::Atkinson)
    } else if name == "burkes"@ {
        Some(KernelPreset::Burkes)
    } else if name == "stucki"@ {
        Some(KernelPreset::Stucki)
    } else if name == "sierra"@ {
        Some(KernelPreset::Sierra)
    } else if name == "sierra-two-row"@ || name == "sierra_two_row"@ {
        Some(KernelPreset::SierraTwoRow)
    } else if name == "sierra-lite"@ || name == "sierra_to_row"@ {
        Some(KernelPreset::SierraLite)
    } else {
        None
    }
}

/// Relies on `image_effects::dither::FLOYD_STEINBERG`: its matrix and portion count.
#[verifier::external_body]
fn floyd_steinberg_table() -> (r: (Vec<(i8, i8, u8)>, u16))
    ensures
        r.0@ == preset_entries(KernelPreset::FloydSteinberg),
        r.1 == preset_portions(KernelPreset::FloydSteinberg),
{
    let k = image_effects::dither::FLOYD_STEINBERG;
    (k.matrix.to_vec(), k.portions)
}

/// Relies on `image_effects::dither::JARVIS_JUDICE_NINKE`: its matrix and portion count.
#[verifier::external_body]
fn jarvis_judice_ninke_table() -> (r: (Vec<(i8, i8, u8)>, u16))
    ensures
        r.0@ == preset_entries(KernelPreset::JarvisJudiceNinke),
        r.1 == preset_portions(KernelPreset::JarvisJudiceNinke),
{
    let k = image_effects::dither::JARVIS_JUDICE_NINKE;
    (k.matrix.to_vec(), k.portions)
}

/// Relies on `image_effects::dither::ATKINSON`: its matrix and portion count.
#[verifier::external_body]
fn atkinson_table() -> (r: (Vec<(i8, i8, u8)>, u16))
    ensures
        r.0@ == preset_entries(KernelPreset::Atkinson),
        r.1 == preset_portions(KernelPreset::Atkinson),
{
    let k = image_effects::dither::ATKINSON;
    (k.matrix.to_vec(), k.portions)
}

/// Relies on `image_effects::dither::BURKES`: its matrix and portion count.
#[verifier::external_body]
fn burkes_table() -> (r: (Vec<(i8, i8, u8)>, u16))
    ensures
        r.0@ == preset_entries(KernelPreset::Burkes),
        r.1 == preset_portions(KernelPreset::Burkes),
{
    let k = image_effects::dither::BURKES;
    (k.matrix.to_vec(), k.portions)
}

/// Relies on `image_effects::dither::STUCKI`: its matrix and portion count.
#[verifier::external_body]
fn stucki_table() -> (r: (Vec<(i8, i8, u8)>, u16))
    ensures
        r.0@ == preset_entries(KernelPreset::Stucki),
        r.1 == preset_portions(KernelPreset::Stucki),
{
    let k = image_effects::dither::STUCKI;
    (k.matrix.to_vec(), k.portions)
}

/// Relies on `image_effects::dither::SIERRA`: its matrix and portion count.
#[verifier::external_body]
fn sierra_table() -> (r: (Vec<(i8, i8, u8)>, u16))
    ensures
        r.0@ == preset_entries(KernelPreset::Sierra),
        r.1 == preset_portions(KernelPreset::Sierra),
{
    let k = image_effects::dither::SIERRA;
    (k.matrix.to_vec(), k.portions)
}

/// Relies on `image_effects::dither::SIERRA_TWO_ROW`: its matrix and portion count.
#[verifier::external_body]
fn sierra_two_row_table() -> (r: (Vec<(i8, i8, u8)>, u16))
    ensures
        r.0@ == preset_entries(KernelPreset::SierraTwoRow),
        r.1 == preset_portions(KernelPreset::SierraTwoRow),
{
    let k = image_effects::dither::SIERRA_TWO_ROW;
    (k.matrix.to_vec(), k.portions)
}

/// Relies on `image_effects::dither::SIERRA_LITE`: its matrix and portion count.
#[verifier::external_body]
fn sierra_lite_table() -> (r: (Vec<(i8, i8, u8)>, u16))
    ensures
        r.0@ == preset_entries(KernelPreset::SierraLite),
        r.1 == preset_portions(KernelPreset::SierraLite),
{
    let k = image_effects::dither::SIERRA_LITE;
    (k.matrix.to_vec(), k.portions)
}

/// Every named kernel is well formed.
pub proof fn lemma_presets_wf(p: KernelPreset)
    ensures
        kernel_wf(preset_entries(p), preset_portions(p)),
{
    let e = preset_entries(p);
    assert forall|i: int| 0 <= i < e.len() implies crate::diffusion::forward(#[trigger] e[i]) by {
        if i == 0 {} else if i == 1 {} else if i == 2 {} else if i == 3 {} else if i == 4 {}
        else if i == 5 {} else if i == 6 {} else if i == 7 {} else if i == 8 {} else if i == 9 {}
        else if i == 10 {} else {}
    }
}

impl Kernel {
    /// The kernel of a named preset.
    pub fn preset(p: KernelPreset) -> (k: Kernel)
        ensures
            k.entries@ == preset_entries(p),
            k.portions == preset_portions(p),
            k.wf(),
    {
        proof {
            lemma_presets_wf(p);
        }
        let (entries, portions) = match p {
            KernelPreset::FloydSteinberg => floyd_steinberg_table(),
            KernelPreset::JarvisJudiceNinke => jarvis_judice_ninke_table(),
            KernelPreset::Atkinson => atkinson_table(),
            KernelPreset::Burkes => burkes_table(),
            KernelPreset::Stucki => stucki_table(),
            KernelPreset::Sierra => sierra_table(),
            KernelPreset::SierraTwoRow => sierra_two_row_table(),
            KernelPreset::SierraLite => sierra_lite_table(),
        };
        Kernel { entries, portions }
    }

    /// The kernel that a lower-case name stands for.
    pub fn for_lowercase_name(name: &str) -> (r: Result<Kernel, KernelError>)
        ensures
            r is Ok <==> preset_named(name@) is Some,
            r matches Ok(k) ==> k.entries@ == preset_entries(preset_named(name@)->0)
                && k.portions == preset_portions(preset_named(name@)->0) && k.wf(),
            r matches Err(e) ==> e == KernelError::UnknownName,
    {
        let p = if str_eq(name, "floydsteinberg") || str_eq(name, "floyd-steinberg") || str_eq(name, "floyd_steinberg") {
            KernelPreset::FloydSteinberg
        } else if str_eq(name, "jarvisjudiceninke") || str_eq(name, "jarvis-judice-ninke")
            || str_eq(name, "jarvis_judice_ninke") {
            KernelPreset::JarvisJudiceNinke
        } else if str_eq(name, "atkinson") {
            KernelPreset::Atkinson
        } else if str_eq(name, "burkes") {
            KernelPreset::Burkes
        } else if str_eq(name, "stucki") {
            KernelPreset::Stucki
        } else if str_eq(name, "sierra") {
            KernelPreset::Sierra
        } else if str_eq(name, "sierra-two-row") || str_eq(name, "sierra_two_row") {
            KernelPreset::SierraTwoRow
        } else if str_eq(name, "sierra-lite") || str_eq(name, "sierra_to_row") {
            KernelPreset::SierraLite
        } else {
            return Err(KernelError::UnknownName);
        };
        Ok(Kernel::preset(p))
    }

    /// The kernel that a name stands for, in any case.
    pub fn named(name: &str) -> (r: Result<Kernel, KernelError>)
        ensures
            r is Ok <==> preset_named(lower_of(name@)) is Some,
            r matches Ok(k) ==> k.entries@ == preset_entries(preset_named(lower_of(name@))->0)
                && k.portions == preset_portions(preset_named(lower_of(name@))->0) && k.wf(),
            r matches Err(e) ==> e == KernelError::UnknownName,
    {
        let lowered = lowercase(name);
        Kernel::for_lowercase_name(lowered.as_str())
    }
}

} // verus!
