use vstd::prelude::*;

verus! {

use crate::hsv::{spec_hsv_to_rgb, spec_val};
use crate::my_strip::{CmdV, LightView, ModeV, spec_transition};
use crate::rgb::Rgb;
use crate::strip::spec_frame_pulses;

/// Encoding is a pure function of the frame: any two byte streams that
/// encode the same frame, as `to_spi_data` and `refresh` pin their output,
/// are identical byte for byte.
pub proof fn lemma_encode_deterministic(frame: Seq<Rgb>, out1: Seq<u8>, out2: Seq<u8>)
    requires
        out1 == spec_frame_pulses(frame),
        out2 == spec_frame_pulses(frame),
    ensures
        out1 == out2,
{
}

/// The value channel survives a conversion to RGB exactly: the largest
/// channel of the colour an integer hue/saturation/value triple renders
/// as is the value itself.
pub proof fn lemma_round_trip_value(h: int, s: int, v: int)
    requires
        0 <= h < 36000,
        0 <= s <= 255,
        0 <= v <= 255,
    ensures
        ({
            let rgb = spec_hsv_to_rgb(h, s, v);
            spec_val(rgb.0, rgb.1, rgb.2) == v
        }),
{
    let hrem = h % 6000;
    assert(0 <= hrem < 6000);
    assert(0 <= (v * (255 - s) + 127) / 255 <= v) by (nonlinear_arith)
        requires
            0 <= s <= 255,
            0 <= v <= 255,
    ;
    assert(0 <= s * hrem <= 1530000 && 0 <= s * (6000 - hrem) <= 1530000) by (nonlinear_arith)
        requires
            0 <= s <= 255,
            0 <= hrem < 6000,
    ;
    assert(0 <= (v * (1530000 - s * hrem) + 765000) / 1530000 <= v) by (nonlinear_arith)
        requires
            0 <= v <= 255,
            0 <= s * hrem <= 1530000,
    ;
    assert(0 <= (v * (1530000 - s * (6000 - hrem)) + 765000) / 1530000 <= v) by (nonlinear_arith)
        requires
            0 <= v <= 255,
            0 <= s * (6000 - hrem) <= 1530000,
    ;
}

/// Mode restore: make a static colour authoritative, set its brightness,
/// turn the strip off, then back on: the colour and the brightness come
/// back exactly.
pub proof fn lemma_mode_restore(s: LightView, h: u16, sat: u8, level: u8)
    ensures
        ({
            let s1 = spec_transition(s, CmdV::StaticV(h, sat));
            let s2 = spec_transition(s1, CmdV::BrightnessV(level));
            let s3 = spec_transition(s2, CmdV::OffV);
            let s4 = spec_transition(s3, CmdV::OnV);
            s4.mode == ModeV::StaticV(h, sat) && s4.brightness == level
        }),
{
}

/// Off-relative dimming: while the strip is off and the remembered mode is
/// a static colour, a brightness level scales the remembered brightness
/// multiplicatively and turns that colour back on, and the remembered
/// brightness itself stays untouched.
pub proof fn lemma_off_relative_dimming(s: LightView, h: u16, sat: u8, level: u8)
    requires
        s.mode == ModeV::OffV,
        s.previous_mode == ModeV::StaticV(h, sat),
    ensures
        ({
            let t = spec_transition(s, CmdV::BrightnessV(level));
            &&& t.mode == ModeV::StaticV(h, sat)
            &&& t.brightness == s.previous_brightness * level / 255
            &&& t.previous_mode == s.previous_mode
            &&& t.previous_brightness == s.previous_brightness
        }),
{
    assert(s.previous_brightness * level / 255 <= 255) by (nonlinear_arith)
        requires
            s.previous_brightness <= 255,
            level <= 255,
    ;
}

/// Effect brightness no-op: while an animation is authoritative, a
/// brightness level changes nothing at all.
pub proof fn lemma_effect_brightness_noop(s: LightView, name: Seq<char>, level: u8)
    requires
        s.mode == ModeV::DynamicV(name),
    ensures
        spec_transition(s, CmdV::BrightnessV(level)) == s,
{
}

} // verus!
