use vstd::prelude::*;

verus! {

/// The number that `pseudo_random` maps `val` to: `((val + 987456) *
/// 3464972813 + 654731)` modulo 2^32.
pub open spec fn spec_pseudo_random(val: u32) -> int {
    let m = 0x1_0000_0000int;
    ((((val + 987456) % m) * 3464972813) % m + 654731) % m
}

/// Scrambles a number, so that close numbers (critter ids) get unrelated ones.
pub fn pseudo_random(val: u32) -> (r: u32)
    ensures
        r == spec_pseudo_random(val),
{
    let a = val.wrapping_add(987456);
    let b = a.wrapping_mul(3464972813);
    b.wrapping_add(654731)
}

/// A colour by hue (degrees), saturation and lightness (percent).
#[derive(Debug, Clone, Copy, PartialEq, Eq, Structural)]
pub struct Hsl {
    pub h: u16,
    pub s: u8,
    pub l: u8,
}

/// The colours of a speaker's name button: the colour itself, and a darker
/// and a lighter one for a pressed and a hovered button.
#[derive(Debug, Clone, Copy, PartialEq, Eq, Structural)]
pub struct Color {
    pub normal: Hsl,
    pub darker: Hsl,
    pub lighter: Hsl,
}

/// The colour that `random_color` derives from a seed: the hue from the low
/// two bytes of the scrambled seed, saturation and lightness from its third
/// byte; darker and lighter differ by ten points of lightness.
pub open spec fn spec_random_color(seed: u32) -> Color {
    let r = spec_pseudo_random(seed);
    let low = r % 0x10000;
    let third = (r / 0x10000) % 0x100;
    let h = (low % 360) as u16;
    let s = (third % 56 + 42) as u8;
    let l = third % 25 + 25;
    Color {
        normal: Hsl { h, s, l: l as u8 },
        darker: Hsl { h, s, l: (l - 10) as u8 },
        lighter: Hsl { h, s, l: (l + 10) as u8 },
    }
}

/// A colour that depends on the seed alone, for telling speakers apart.
pub fn random_color(seed: u32) -> (r: Color)
    ensures
        r == spec_random_color(seed),
        25 <= r.normal.l < 50,
        42 <= r.normal.s < 98,
        r.normal.h < 360,
{
    let rand = pseudo_random(seed);
    let low: u32 = rand % 0x10000;
    let third: u32 = (rand / 0x10000) % 0x100;
    let h: u16 = (low % 360) as u16;
    let s: u8 = (third % 56 + 42) as u8;
    let l: u8 = (third % 25 + 25) as u8;
    Color {
        normal: Hsl { h, s, l },
        darker: Hsl { h, s, l: l - 10 },
        lighter: Hsl { h, s, l: l + 10 },
    }
}

/// Different numbers scramble to different numbers: the multiplier is odd,
/// so every step can be undone modulo 2^32.
pub proof fn lemma_pseudo_random_injective(v: u32, w: u32)
    requires
        v != w,
    ensures
        spec_pseudo_random(v) != spec_pseudo_random(w),
{
    lemma_pseudo_random_undone(v);
    lemma_pseudo_random_undone(w);
}

/// The number that `pseudo_random` scrambled, from the result: subtract the
/// last term, multiply by the inverse of the multiplier, subtract the first.
pub open spec fn unscramble(r: int) -> int {
    let m = 0x1_0000_0000int;
    let y = (r - 654731 + m) % m;
    ((y * 2965836997) % m - 987456 + m) % m
}

proof fn lemma_pseudo_random_undone(v: u32)
    ensures
        unscramble(spec_pseudo_random(v)) == v,
{
    let m = 0x1_0000_0000int;
    let x: u32 = ((v + 987456) % m) as u32;
    let y: u32 = ((x * 3464972813) % m) as u32;
    let x64: u64 = x as u64;
    assert((((x64 * 3464972813) % 0x1_0000_0000) * 2965836997) % 0x1_0000_0000 == x64) by (bit_vector)
        requires
            x64 < 0x1_0000_0000,
    ;
    assert(((y as int + 654731) % m - 654731 + m) % m == y);
    assert((y as int * 2965836997) % m == x);
    assert((x as int - 987456 + m) % m == v);
}

} // verus!
