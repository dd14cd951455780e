use vstd::prelude::*;

verus! {

/// The RGB approximation of a black-body radiator at a colour temperature
/// in Kelvin: a fixed approximation table, a function of the temperature
/// alone.
pub uninterp spec fn spec_blackbody_rgb(kelvin: i64) -> (u8, u8, u8);

/// Relies on colortemp's temp_to_rgb: each channel of its result is clamped
/// to 0.0..=255.0 and rounded, so it fits a byte exactly; the result depends
/// on the temperature alone. Its source saturates the red channel for any
/// temperature up to 6600 K.
#[verifier::external_body]
pub fn kelvin_to_rgb(kelvin: i64) -> (rgb: (u8, u8, u8))
    ensures
        rgb == spec_blackbody_rgb(kelvin),
        0 < kelvin <= 6600 ==> rgb.0 == 255,
{
    let c = colortemp::temp_to_rgb(kelvin);
    (c.r as u8, c.g as u8, c.b as u8)
}

} // verus!
