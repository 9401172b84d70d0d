//! The fixed palettes of line colours and dash patterns. Both are cyclic: a
//! series of any index has a colour and a pattern.

use vstd::prelude::*;

verus! {

/// A colour by its red, green and blue parts. The palette and the colour
/// pools hold a colour as the array of the three.
#[derive(Debug, Clone, Copy, PartialEq, Eq, Structural)]
pub struct Rgb {
    pub r: u8,
    pub g: u8,
    pub b: u8,
}

/// How the stroke of a line is broken up.
#[derive(Debug, Clone, Copy, PartialEq, Eq, Structural)]
pub enum DashType {
    Solid,
    Dash,
    Dot,
    DashDot,
    LongDash,
    LongDashDot,
}

/// Number of entries of the colour palette.
pub const PALETTE_LEN: usize = 48;

/// Number of distinct dash patterns.
pub const DASH_PATTERNS: usize = 6;

/// Number of entries of the dash palette: the patterns, six times over.
pub const DASH_PALETTE_LEN: usize = 36;

/// The colour with these red, green and blue parts.
pub open spec fn rgb(r: u8, g: u8, b: u8) -> Rgb {
    Rgb { r, g, b }
}

/// The colour that an array of red, green and blue stands for.
pub open spec fn rgb_of(c: [u8; 3]) -> Rgb {
    rgb(c[0], c[1], c[2])
}

/// The colour palette. Its first seventeen entries are all different; the
/// next sixteen are these without the dark gray, in an order of their own;
/// the last fifteen are the sixteen again, without the black at their end.
pub open spec fn palette() -> Seq<[u8; 3]> {
    seq![
        [68u8, 119u8, 170u8],   // blue
        [238u8, 119u8, 51u8],   // orange
        [34u8, 136u8, 51u8],    // green
        [80u8, 80u8, 80u8],     // dark gray
        [170u8, 51u8, 119u8],   // cherry
        [0u8, 153u8, 136u8],    // teal
        [204u8, 51u8, 17u8],    // red
        [102u8, 37u8, 6u8],     // brown
        [221u8, 170u8, 51u8],   // yellow
        [102u8, 204u8, 238u8],  // sky blue
        [51u8, 34u8, 136u8],    // indigo
        [204u8, 187u8, 68u8],   // lemon
        [187u8, 187u8, 187u8],  // gray
        [0u8, 68u8, 136u8],     // darker blue
        [153u8, 153u8, 51u8],   // olive
        [136u8, 34u8, 85u8],    // wine
        [0u8, 0u8, 0u8],        // black
        [68u8, 119u8, 170u8],   // blue
        [238u8, 119u8, 51u8],   // orange
        [34u8, 136u8, 51u8],    // green
        [221u8, 170u8, 51u8],   // yellow
        [204u8, 51u8, 17u8],    // red
        [170u8, 51u8, 119u8],   // cherry
        [0u8, 153u8, 136u8],    // teal
        [102u8, 37u8, 6u8],     // brown
        [102u8, 204u8, 238u8],  // sky blue
        [51u8, 34u8, 136u8],    // indigo
        [204u8, 187u8, 68u8],   // lemon
        [187u8, 187u8, 187u8],  // gray
        [0u8, 68u8, 136u8],     // darker blue
        [153u8, 153u8, 51u8],   // olive
        [136u8, 34u8, 85u8],    // wine
        [0u8, 0u8, 0u8],        // black
        [68u8, 119u8, 170u8],   // blue
        [238u8, 119u8, 51u8],   // orange
        [34u8, 136u8, 51u8],    // green
        [221u8, 170u8, 51u8],   // yellow
        [204u8, 51u8, 17u8],    // red
        [170u8, 51u8, 119u8],   // cherry
        [0u8, 153u8, 136u8],    // teal
        [102u8, 37u8, 6u8],     // brown
        [102u8, 204u8, 238u8],  // sky blue
        [51u8, 34u8, 136u8],    // indigo
        [204u8, 187u8, 68u8],   // lemon
        [187u8, 187u8, 187u8],  // gray
        [0u8, 68u8, 136u8],     // darker blue
        [153u8, 153u8, 51u8],   // olive
        [136u8, 34u8, 85u8],    // wine
    ]
}

/// The colour of the series with index `i`: the palette, gone through again
/// and again.
pub open spec fn color_cycle(i: nat) -> [u8; 3] {
    palette()[(i % 48) as int]
}

/// The dash pattern with number `k`, for `k` below six.
pub open spec fn dash_pattern(k: int) -> DashType {
    if k == 0 {
        DashType::Solid
    } else if k == 1 {
        DashType::Dash
    } else if k == 2 {
        DashType::Dot
    } else if k == 3 {
        DashType::DashDot
    } else if k == 4 {
        DashType::LongDash
    } else {
        DashType::LongDashDot
    }
}

/// The dash palette: the six patterns in their order, six times.
pub open spec fn dash_palette() -> Seq<DashType> {
    Seq::new(36, |k: int| dash_pattern(k % 6))
}

/// The dash pattern of the series with index `i`.
pub open spec fn dash_cycle(i: nat) -> DashType {
    dash_palette()[(i % 36) as int]
}

impl Rgb {
    pub fn new(r: u8, g: u8, b: u8) -> (c: Rgb)
        ensures
            c == rgb(r, g, b),
    {
        Rgb { r, g, b }
    }

    /// The colour of an array of red, green and blue.
    pub fn from_array(c: [u8; 3]) -> (color: Rgb)
        ensures
            color == rgb_of(c),
    {
        Rgb { r: c[0], g: c[1], b: c[2] }
    }
}

/// The palette entry at `k`.
fn palette_entry(k: usize) -> (c: [u8; 3])
    requires
        k < 48,
    ensures
        c == palette()[k as int],
{
    match k {
        0 | 17 | 33 => [68, 119, 170],
        1 | 18 | 34 => [238, 119, 51],
        2 | 19 | 35 => [34, 136, 51],
        3 => [80, 80, 80],
        4 | 22 | 38 => [170, 51, 119],
        5 | 23 | 39 => [0, 153, 136],
        6 | 21 | 37 => [204, 51, 17],
        7 | 24 | 40 => [102, 37, 6],
        8 | 20 | 36 => [221, 170, 51],
        9 | 25 | 41 => [102, 204, 238],
        10 | 26 | 42 => [51, 34, 136],
        11 | 27 | 43 => [204, 187, 68],
        12 | 28 | 44 => [187, 187, 187],
        13 | 29 | 45 => [0, 68, 136],
        14 | 30 | 46 => [153, 153, 51],
        15 | 31 | 47 => [136, 34, 85],
        _ => [0, 0, 0],
    }
}

/// The colour for the series with index `i`. No index is out of range: past
/// the palette's end the colours start again.
pub fn color_at(i: usize) -> (c: [u8; 3])
    ensures
        c == color_cycle(i as nat),
{
    palette_entry(i % PALETTE_LEN)
}

/// The dash pattern for the series with index `i`, cyclic as the colours are.
pub fn dash_at(i: usize) -> (d: DashType)
    ensures
        d == dash_cycle(i as nat),
        d == dash_pattern(i as int % 6),
{
    let k: usize = i % DASH_PATTERNS;
    assert((i as int % 36) % 6 == i as int % 6) by {
        lemma_mod_of_multiple(i as int);
    }
    if k == 0 {
        DashType::Solid
    } else if k == 1 {
        DashType::Dash
    } else if k == 2 {
        DashType::Dot
    } else if k == 3 {
        DashType::DashDot
    } else if k == 4 {
        DashType::LongDash
    } else {
        DashType::LongDashDot
    }
}

/// The whole colour palette, in order.
pub fn default_colors() -> (v: Vec<[u8; 3]>)
    ensures
        v@ == palette(),
{
    let mut v: Vec<[u8; 3]> = Vec::new();
    let mut k: usize = 0;
    while k < PALETTE_LEN
        invariant
            k <= 48,
            v@.len() == k,
            forall|j: int| 0 <= j < k ==> v@[j] == palette()[j],
        decreases 48 - k,
    {
        v.push(palette_entry(k));
        k += 1;
    }
    assert(v@ =~= palette());
    v
}

/// The whole dash palette, in order.
pub fn dash_types() -> (v: Vec<DashType>)
    ensures
        v@ == dash_palette(),
{
    let mut v: Vec<DashType> = Vec::new();
    let mut k: usize = 0;
    while k < DASH_PALETTE_LEN
        invariant
            k <= 36,
            v@.len() == k,
            forall|j: int| 0 <= j < k ==> v@[j] == dash_palette()[j],
        decreases 36 - k,
    {
        v.push(dash_at(k));
        k += 1;
    }
    assert(v@ =~= dash_palette());
    v
}

proof fn lemma_mod_of_multiple(i: int)
    requires
        0 <= i,
    ensures
        (i % 36) % 6 == i % 6,
{
    assert((i % 36) % 6 == i % 6) by (nonlinear_arith)
        requires
            0 <= i,
    ;
}

/// The palette has 48 entries. The first seventeen differ from one another;
/// the last fifteen are the fifteen that follow the first seventeen.
pub proof fn lemma_palette_blocks()
    ensures
        palette().len() == 48,
        forall|i: int, j: int| 0 <= i < j < 17 ==> rgb_of(palette()[i]) != rgb_of(palette()[j]),
        forall|k: int| 33 <= k < 48 ==> #[trigger] palette()[k] == palette()[k - 16],
{
}

/// The colours repeat with the palette's length: a series and the one 48
/// places after it have the same colour.
pub proof fn lemma_color_cycle_periodic(i: nat)
    ensures
        color_cycle(i) == color_cycle(i + 48),
{
    assert((i + 48) % 48 == i % 48) by (nonlinear_arith);
}

/// The dash patterns repeat with the dash palette's length, and already
/// with the number of patterns.
pub proof fn lemma_dash_cycle_periodic(i: nat)
    ensures
        dash_cycle(i) == dash_cycle(i + 36),
        dash_cycle(i) == dash_cycle(i + 6),
        dash_cycle(i) == dash_pattern(i as int % 6),
{
    assert((i + 36) % 36 == i % 36) by (nonlinear_arith);
    lemma_mod_of_multiple(i as int);
    lemma_mod_of_multiple(i as int + 6);
    assert((i + 6) % 6 == i % 6) by (nonlinear_arith);
}

} // verus!
