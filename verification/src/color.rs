//! Device-native 16-bit colors and the 16-entry antialiasing gradient.

use vstd::prelude::*;

verus! {

/// A device-native RGB565 pixel value.
#[derive(Clone, Copy, PartialEq, Eq, Structural, Debug)]
pub struct Color {
    pub v: u16,
}

/// Red channel (5 bits) of a packed RGB565 value.
pub open spec fn spec_red(c: Color) -> int {
    (c.v as int) / 2048 % 32
}

/// Green channel (6 bits) of a packed RGB565 value.
pub open spec fn spec_green(c: Color) -> int {
    (c.v as int) / 32 % 64
}

/// Blue channel (5 bits) of a packed RGB565 value.
pub open spec fn spec_blue(c: Color) -> int {
    (c.v as int) % 32
}

/// One channel interpolated from `a` to `b` with weight `i` out of 15.
pub open spec fn spec_lerp_channel(a: int, b: int, i: int) -> int {
    (a * (15 - i) + b * i) / 15
}

/// `a` blended toward `b` with weight `i` out of 15, channel by channel:
/// weight 0 gives `a`, weight 15 gives `b`.
pub open spec fn spec_blend(a: Color, b: Color, i: int) -> Color {
    Color {
        v: (spec_lerp_channel(spec_red(a), spec_red(b), i) * 2048
            + spec_lerp_channel(spec_green(a), spec_green(b), i) * 32
            + spec_lerp_channel(spec_blue(a), spec_blue(b), i)) as u16,
    }
}

/// Entry `i` of the gradient between `bg` (entry 0) and `fg` (entry 15).
pub open spec fn spec_color_table(fg: Color, bg: Color, i: int) -> Color {
    spec_blend(bg, fg, i)
}

impl Color {
    pub fn from_u16(v: u16) -> (r: Color)
        ensures
            r.v == v,
    {
        Color { v }
    }

    pub fn to_u16(self) -> (r: u16)
        ensures
            r == self.v,
    {
        self.v
    }
}

/// `a` blended toward `b` with weight `i` out of 15.
pub fn blend(a: Color, b: Color, i: u8) -> (r: Color)
    requires
        i <= 15,
    ensures
        r == spec_blend(a, b, i as int),
{
    let av = a.v as u32;
    let bv = b.v as u32;
    let w = i as u32;
    let ar = av / 2048 % 32;
    let ag = av / 32 % 64;
    let ab = av % 32;
    let br = bv / 2048 % 32;
    let bg = bv / 32 % 64;
    let bb = bv % 32;
    assert(ar < 32 && ag < 64 && ab < 32 && br < 32 && bg < 64 && bb < 32 && w <= 15);
    proof {
        assert(ar * (15 - w) + br * w <= 465 && ab * (15 - w) + bb * w <= 465 && ag * (15 - w)
            + bg * w <= 945) by (nonlinear_arith)
            requires
                ar <= 31,
                ag <= 63,
                ab <= 31,
                br <= 31,
                bg <= 63,
                bb <= 31,
                w <= 15,
        ;
    }
    let rr = (ar * (15 - w) + br * w) / 15;
    let rg = (ag * (15 - w) + bg * w) / 15;
    let rb = (ab * (15 - w) + bb * w) / 15;
    assert(rr < 32 && rg < 64 && rb < 32);
    let out = rr * 2048 + rg * 32 + rb;
    assert(out == (spec_blend(a, b, i as int).v as int));
    Color { v: out as u16 }
}

/// The 16-entry gradient from `bg` (index 0) to `fg` (index 15) used to
/// resolve an antialiasing intensity into a pixel color.
pub struct ColorTable {
    pub colors: Vec<Color>,
}

impl ColorTable {
    /// Every entry is the blend its index calls for.
    pub open spec fn wf(self, fg: Color, bg: Color) -> bool {
        self.colors@.len() == 16 && forall|i: int|
            0 <= i < 16 ==> self.colors@[i] == spec_color_table(fg, bg, i)
    }

    pub fn get(&self, i: u8) -> (r: Color)
        requires
            i <= 15,
            self.colors@.len() == 16,
        ensures
            r == self.colors@[i as int],
    {
        self.colors[i as usize]
    }
}

/// Builds the discrete gradient between a foreground and a background color.
pub fn get_color_table(fg_color: Color, bg_color: Color) -> (r: ColorTable)
    ensures
        r.wf(fg_color, bg_color),
{
    let mut colors: Vec<Color> = Vec::new();
    let mut i: u8 = 0;
    while i < 16
        invariant
            i <= 16,
            colors@.len() == i as int,
            forall|j: int| 0 <= j < i as int ==> colors@[j] == spec_color_table(
                fg_color,
                bg_color,
                j,
            ),
        decreases 16 - i as int,
    {
        colors.push(blend(bg_color, fg_color, i));
        i = i + 1;
    }
    ColorTable { colors }
}

} // verus!
