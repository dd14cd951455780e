use vstd::prelude::*;

verus! {

// Colours are converted between the RGB channel space (each channel 0..=255)
// and an integer hue/saturation/value space: hue in hundredths of a degree
// (0..36000), saturation and value scaled to 0..=255. The hue grid is fine
// enough to tell any two channel ratios apart, each division rounds to the
// nearest step, and each channel of the way back is produced by one single
// rounded division, so a round trip through this space reproduces a colour
// to within one 8-bit step per channel (the value channel exactly:
// `lemma_round_trip_value` in the laws).

pub open spec fn spec_max3(a: int, b: int, c: int) -> int {
    if a >= b && a >= c {
        a
    } else if b >= c {
        b
    } else {
        c
    }
}

pub open spec fn spec_min3(a: int, b: int, c: int) -> int {
    if a <= b && a <= c {
        a
    } else if b <= c {
        b
    } else {
        c
    }
}

/// The hue, in hundredths of a degree (0..36000), of an RGB colour: 0 for
/// grey, otherwise 60 degrees per sector, offset within the sector by the
/// ratio of the two non-extremal channels, rounded to the nearest step.
pub open spec fn spec_hue(r: int, g: int, b: int) -> int {
    let mx = spec_max3(r, g, b);
    let mn = spec_min3(r, g, b);
    let d = mx - mn;
    if d == 0 {
        0
    } else if mx == r {
        if g >= b {
            (6000 * (g - b) + d / 2) / d
        } else {
            let q = (6000 * (b - g) + d / 2) / d;
            if q == 0 {
                0
            } else {
                36000 - q
            }
        }
    } else if mx == g {
        if b >= r {
            12000 + (6000 * (b - r) + d / 2) / d
        } else {
            12000 - (6000 * (r - b) + d / 2) / d
        }
    } else {
        if r >= g {
            24000 + (6000 * (r - g) + d / 2) / d
        } else {
            24000 - (6000 * (g - r) + d / 2) / d
        }
    }
}

/// The saturation, scaled to 0..=255 and rounded to the nearest step: the
/// spread between the largest and smallest channel relative to the largest.
pub open spec fn spec_sat(r: int, g: int, b: int) -> int {
    let mx = spec_max3(r, g, b);
    let mn = spec_min3(r, g, b);
    if mx == 0 {
        0
    } else {
        (255 * (mx - mn) + mx / 2) / mx
    }
}

/// The value channel, scaled to 0..=255: the largest channel.
pub open spec fn spec_val(r: int, g: int, b: int) -> int {
    spec_max3(r, g, b)
}

/// The RGB colour of an integer hue/saturation/value triple. Each channel
/// comes from one rounded division over the common grid of a full sector
/// (6000 hue steps times 255 saturation steps).
pub open spec fn spec_hsv_to_rgb(h: int, s: int, v: int) -> (int, int, int) {
    let region = h / 6000;
    let hrem = h % 6000;
    let p = (v * (255 - s) + 127) / 255;
    let q = (v * (1530000 - s * hrem) + 765000) / 1530000;
    let t = (v * (1530000 - s * (6000 - hrem)) + 765000) / 1530000;
    if region == 0 {
        (v, t, p)
    } else if region == 1 {
        (q, v, p)
    } else if region == 2 {
        (p, v, t)
    } else if region == 3 {
        (p, q, v)
    } else if region == 4 {
        (t, p, v)
    } else {
        (v, p, q)
    }
}

/// Convert an RGB colour to its integer hue/saturation/value triple.
/// The hue is always below 36000.
pub fn rgb_to_hsv(r: u8, g: u8, b: u8) -> (hsv: (u16, u8, u8))
    ensures
        hsv.0 as int == spec_hue(r as int, g as int, b as int),
        hsv.1 as int == spec_sat(r as int, g as int, b as int),
        hsv.2 as int == spec_val(r as int, g as int, b as int),
        hsv.0 < 36000,
{
    let r32 = r as u32;
    let g32 = g as u32;
    let b32 = b as u32;
    let mx: u32 = if r32 >= g32 && r32 >= b32 {
        r32
    } else if g32 >= b32 {
        g32
    } else {
        b32
    };
    let mn: u32 = if r32 <= g32 && r32 <= b32 {
        r32
    } else if g32 <= b32 {
        g32
    } else {
        b32
    };
    let d: u32 = mx - mn;

    let v: u8 = mx as u8;
    let s: u8 = if mx == 0 {
        0
    } else {
        proof {
            assert((255 * (d as int) + (mx as int) / 2) / (mx as int) <= 255) by (nonlinear_arith)
                requires
                    d as int <= mx as int,
                    1 <= mx as int,
            ;
        }
        ((255 * d + mx / 2) / mx) as u8
    };

    let h: u16 = if d == 0 {
        0
    } else if mx == r32 {
        if g32 >= b32 {
            proof {
                assert((6000 * (g32 as int - b32 as int) + (d as int) / 2) / (d as int) <= 6000)
                    by (nonlinear_arith)
                    requires
                        g32 as int - b32 as int <= d as int,
                        1 <= d as int,
                ;
            }
            ((6000 * (g32 - b32) + d / 2) / d) as u16
        } else {
            proof {
                assert((6000 * (b32 as int - g32 as int) + (d as int) / 2) / (d as int) <= 6000)
                    by (nonlinear_arith)
                    requires
                        b32 as int - g32 as int <= d as int,
                        1 <= d as int,
                ;
            }
            let q = (6000 * (b32 - g32) + d / 2) / d;
            if q == 0 {
                0
            } else {
                (36000 - q) as u16
            }
        }
    } else if mx == g32 {
        if b32 >= r32 {
            proof {
                assert((6000 * (b32 as int - r32 as int) + (d as int) / 2) / (d as int) <= 6000)
                    by (nonlinear_arith)
                    requires
                        b32 as int - r32 as int <= d as int,
                        1 <= d as int,
                ;
            }
            (12000 + (6000 * (b32 - r32) + d / 2) / d) as u16
        } else {
            proof {
                assert((6000 * (r32 as int - b32 as int) + (d as int) / 2) / (d as int) <= 6000)
                    by (nonlinear_arith)
                    requires
                        r32 as int - b32 as int <= d as int,
                        1 <= d as int,
                ;
            }
            (12000 - (6000 * (r32 - b32) + d / 2) / d) as u16
        }
    } else {
        if r32 >= g32 {
            proof {
                assert((6000 * (r32 as int - g32 as int) + (d as int) / 2) / (d as int) <= 6000)
                    by (nonlinear_arith)
                    requires
                        r32 as int - g32 as int <= d as int,
                        1 <= d as int,
                ;
            }
            (24000 + (6000 * (r32 - g32) + d / 2) / d) as u16
        } else {
            proof {
                assert((6000 * (g32 as int - r32 as int) + (d as int) / 2) / (d as int) <= 6000)
                    by (nonlinear_arith)
                    requires
                        g32 as int - r32 as int <= d as int,
                        1 <= d as int,
                ;
            }
            (24000 - (6000 * (g32 - r32) + d / 2) / d) as u16
        }
    };

    (h, s, v)
}

/// Convert an integer hue/saturation/value triple to its RGB colour.
pub fn hsv_to_rgb(h: u16, s: u8, v: u8) -> (rgb: (u8, u8, u8))
    requires
        h < 36000,
    ensures
        (rgb.0 as int, rgb.1 as int, rgb.2 as int) == spec_hsv_to_rgb(
            h as int,
            s as int,
            v as int,
        ),
{
    let h32 = h as u32;
    let s32 = s as u32;
    let v32 = v as u32;
    let region = h32 / 6000;
    let hrem: u32 = h32 % 6000;

    proof {
        assert(0 <= s32 * hrem <= 1530000 && 0 <= s32 * (6000 - hrem) <= 1530000)
            by (nonlinear_arith)
            requires
                0 <= s32 <= 255,
                0 <= hrem < 6000,
        ;
        assert(v32 * (1530000 - s32 * hrem) <= 390150000 && v32 * (1530000 - s32 * (6000 - hrem))
            <= 390150000) by (nonlinear_arith)
            requires
                0 <= v32 <= 255,
                0 <= s32 * hrem <= 1530000,
                0 <= s32 * (6000 - hrem) <= 1530000,
        ;
        assert((v32 * (1530000 - s32 * hrem) + 765000) / 1530000 <= 255 && (v32 * (1530000 - s32 * (
        6000 - hrem)) + 765000) / 1530000 <= 255) by (nonlinear_arith)
            requires
                0 <= v32 * (1530000 - s32 * hrem) <= 390150000,
                0 <= v32 * (1530000 - s32 * (6000 - hrem)) <= 390150000,
        ;
        assert(v32 * (255 - s32) <= 255 * 255 && (v32 * (255 - s32) + 127) / 255 <= 255)
            by (nonlinear_arith)
            requires
                v32 <= 255,
                s32 <= 255,
        ;
    }
    let p: u8 = ((v32 * (255 - s32) + 127) / 255) as u8;
    let q: u8 = ((v32 * (1530000 - s32 * hrem) + 765000) / 1530000) as u8;
    let t: u8 = ((v32 * (1530000 - s32 * (6000 - hrem)) + 765000) / 1530000) as u8;

    let v8: u8 = v;
    if region == 0 {
        (v8, t, p)
    } else if region == 1 {
        (q, v8, p)
    } else if region == 2 {
        (p, v8, t)
    } else if region == 3 {
        (p, q, v8)
    } else if region == 4 {
        (t, p, v8)
    } else {
        (v8, p, q)
    }
}

} // verus!
