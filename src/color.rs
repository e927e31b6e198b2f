use vstd::prelude::*;
use vstd::string::*;

verus! {

/// A device colour: three 8-bit sRGB channels.
#[derive(Clone, Copy, Debug, PartialEq, Eq, Structural)]
pub struct Rgb {
    pub r: u8,
    pub g: u8,
    pub b: u8,
}

pub open spec fn square(d: int) -> int {
    d * d
}

/// Per-channel weights of the distance. The red-mean rule: where the two reds average above
/// the middle of the range red counts more and blue less, and the other way round below it.
pub open spec fn channel_weights(a: Rgb, b: Rgb) -> (int, int, int) {
    if a.r as int + b.r as int > 255 {
        (3, 4, 2)
    } else {
        (2, 4, 3)
    }
}

/// Weighted squared distance between two colours.
pub open spec fn spec_distance(a: Rgb, b: Rgb) -> int {
    let (wr, wg, wb) = channel_weights(a, b);
    wr * square(a.r - b.r) + wg * square(a.g - b.g) + wb * square(a.b - b.b)
}

/// The largest value `spec_distance` takes.
pub const MAX_DISTANCE: u32 = 780300;

proof fn lemma_square_bounds(d: int)
    requires
        -255 <= d <= 255,
    ensures
        0 <= square(d) <= 65025,
        square(d) == 0 <==> d == 0,
{
    if d > 0 {
        assert(d * d <= 255 * d) by (nonlinear_arith)
            requires d <= 255, d > 0;
        assert(255 * d <= 65025) by (nonlinear_arith)
            requires d <= 255;
        assert(d * d > 0) by (nonlinear_arith)
            requires d > 0;
    } else if d < 0 {
        assert(d * d <= 255 * (-d)) by (nonlinear_arith)
            requires d >= -255, d < 0;
        assert(d * d > 0) by (nonlinear_arith)
            requires d < 0;
    }
}

pub proof fn lemma_distance_bounds(a: Rgb, b: Rgb)
    ensures
        0 <= spec_distance(a, b) <= MAX_DISTANCE,
{
    lemma_square_bounds(a.r - b.r);
    lemma_square_bounds(a.g - b.g);
    lemma_square_bounds(a.b - b.b);
}

/// The distance is symmetric.
pub proof fn lemma_distance_symmetric(a: Rgb, b: Rgb)
    ensures
        spec_distance(a, b) == spec_distance(b, a),
{
    assert(square(a.r - b.r) == square(b.r - a.r)) by (nonlinear_arith);
    assert(square(a.g - b.g) == square(b.g - a.g)) by (nonlinear_arith);
    assert(square(a.b - b.b) == square(b.b - a.b)) by (nonlinear_arith);
}

/// The distance is zero exactly between equal colours.
pub proof fn lemma_distance_zero_iff_equal(a: Rgb, b: Rgb)
    ensures
        (spec_distance(a, b) == 0) <==> (a == b),
{
    lemma_square_bounds(a.r - b.r);
    lemma_square_bounds(a.g - b.g);
    lemma_square_bounds(a.b - b.b);
}

impl Rgb {
    pub fn new(r: u8, g: u8, b: u8) -> (c: Rgb)
        ensures
            c == (Rgb { r, g, b }),
    {
        Rgb { r, g, b }
    }

    pub fn black() -> (c: Rgb)
        ensures
            c == (Rgb { r: 0, g: 0, b: 0 }),
    {
        Rgb { r: 0, g: 0, b: 0 }
    }

    pub fn white() -> (c: Rgb)
        ensures
            c == (Rgb { r: 255, g: 255, b: 255 }),
    {
        Rgb { r: 255, g: 255, b: 255 }
    }
}

fn abs_diff(x: u8, y: u8) -> (d: u32)
    ensures
        d == if x >= y { x - y } else { y - x },
{
    if x >= y {
        (x - y) as u32
    } else {
        (y - x) as u32
    }
}

/// Perceptual distance between two colours: the red-mean weighted squared Euclidean distance.
pub fn distance(a: &Rgb, b: &Rgb) -> (d: u32)
    ensures
        d == spec_distance(*a, *b),
        d <= MAX_DISTANCE,
{
    let dr = abs_diff(a.r, b.r);
    let dg = abs_diff(a.g, b.g);
    let db = abs_diff(a.b, b.b);
    proof {
        lemma_distance_bounds(*a, *b);
        assert(square(a.r - b.r) == dr * dr) by (nonlinear_arith)
            requires dr == if a.r >= b.r { a.r - b.r } else { b.r - a.r };
        assert(square(a.g - b.g) == dg * dg) by (nonlinear_arith)
            requires dg == if a.g >= b.g { a.g - b.g } else { b.g - a.g };
        assert(square(a.b - b.b) == db * db) by (nonlinear_arith)
            requires db == if a.b >= b.b { a.b - b.b } else { b.b - a.b };
        assert(dr * dr <= 65025) by (nonlinear_arith) requires dr <= 255;
        assert(dg * dg <= 65025) by (nonlinear_arith) requires dg <= 255;
        assert(db * db <= 65025) by (nonlinear_arith) requires db <= 255;
    }
    let (wr, wg, wb): (u32, u32, u32) = if a.r as u32 + b.r as u32 > 255 {
        (3, 4, 2)
    } else {
        (2, 4, 3)
    };
    wr * (dr * dr) + wg * (dg * dg) + wb * (db * db)
}

/// Why a colour could not be read.
#[derive(Clone, Copy, Debug, PartialEq, Eq, Structural)]
pub enum ColourError {
    WrongLength,
    NotHex,
    WrongComponentCount,
}

/// The value of a hexadecimal digit, in either case.
pub open spec fn hex_value(c: char) -> Option<int> {
    let v = c as u32;
    if 48 <= v <= 57 {
        Some(v - 48)
    } else if 97 <= v <= 102 {
        Some(v - 87)
    } else if 65 <= v <= 70 {
        Some(v - 55)
    } else {
        None
    }
}

pub open spec fn hex_pair(s: Seq<char>, i: int) -> int {
    hex_value(s[i])->0 * 16 + hex_value(s[i + 1])->0
}

/// A colour written as six hexadecimal digits, two per channel.
pub open spec fn spec_parse_hex(s: Seq<char>) -> Result<Rgb, ColourError> {
    if s.len() != 6 {
        Err(ColourError::WrongLength)
    } else if forall|i: int| 0 <= i < 6 ==> #[trigger] hex_value(s[i]) is Some {
        Ok(Rgb { r: hex_pair(s, 0) as u8, g: hex_pair(s, 2) as u8, b: hex_pair(s, 4) as u8 })
    } else {
        Err(ColourError::NotHex)
    }
}

fn hex_digit(c: char) -> (r: Option<u8>)
    ensures
        r matches Some(v) ==> hex_value(c) == Some(v as int) && v < 16,
        r is None ==> hex_value(c) is None,
{
    let v = c as u32;
    if 48 <= v && v <= 57 {
        Some((v - 48) as u8)
    } else if 97 <= v && v <= 102 {
        Some((v - 87) as u8)
    } else if 65 <= v && v <= 70 {
        Some((v - 55) as u8)
    } else {
        None
    }
}

/// Reads a colour written as six hexadecimal digits, such as `ff8000`.
pub fn parse_hex_colour(value: &str) -> (r: Result<Rgb, ColourError>)
    ensures
        r == spec_parse_hex(value@),
{
    let n = value.unicode_len();
    if n != 6 {
        return Err(ColourError::WrongLength);
    }
    let mut digits: Vec<u8> = Vec::new();
    let mut i: usize = 0;
    while i < 6
        invariant
            n == value@.len() == 6,
            i <= 6,
            digits@.len() == i,
            forall|j: int| 0 <= j < i ==> hex_value(value@[j]) == Some(#[trigger] digits@[j] as int),
            forall|j: int| 0 <= j < i ==> #[trigger] digits@[j] < 16,
        decreases 6 - i,
    {
        match hex_digit(value.get_char(i)) {
            Some(d) => digits.push(d),
            None => {
                assert(!(forall|j: int| 0 <= j < 6 ==> #[trigger] hex_value(value@[j]) is Some));
                return Err(ColourError::NotHex);
            },
        }
        i = i + 1;
    }
    assert(forall|j: int| 0 <= j < 6 ==> #[trigger] hex_value(value@[j]) is Some) by {
        assert forall|j: int| 0 <= j < 6 implies #[trigger] hex_value(value@[j]) is Some by {
            assert(hex_value(value@[j]) == Some(digits@[j] as int));
        }
    }
    assert(hex_pair(value@, 0) == digits@[0] * 16 + digits@[1]);
    assert(hex_pair(value@, 2) == digits@[2] * 16 + digits@[3]);
    assert(hex_pair(value@, 4) == digits@[4] * 16 + digits@[5]);
    Ok(Rgb {
        r: digits[0] * 16 + digits[1],
        g: digits[2] * 16 + digits[3],
        b: digits[4] * 16 + digits[5],
    })
}

/// A colour from three integer channels, each cut to its low eight bits; any other count of
/// channels is refused.
pub fn rgb_from_components(components: &Vec<u64>) -> (r: Result<Rgb, ColourError>)
    ensures
        components@.len() != 3 <==> r is Err,
        r matches Err(e) ==> e == ColourError::WrongComponentCount,
        r matches Ok(c) ==> c.r == components@[0] % 256 && c.g == components@[1] % 256
            && c.b == components@[2] % 256,
{
    if components.len() != 3 {
        return Err(ColourError::WrongComponentCount);
    }
    Ok(Rgb {
        r: (components[0] % 256) as u8,
        g: (components[1] % 256) as u8,
        b: (components[2] % 256) as u8,
    })
}

} // verus!
