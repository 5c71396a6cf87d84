//! Plain color values: linear RGB triples and hue/saturation/value triples.

use vstd::prelude::*;

verus! {

/// A color as a linear RGB triple, one byte per channel.
#[derive(Clone, Copy, Debug, PartialEq, Eq, Structural)]
pub struct Rgb8 {
    pub r: u8,
    pub g: u8,
    pub b: u8,
}

/// A color in hue/saturation/value form, one byte per channel.
///
/// Hue arithmetic wraps modulo 256 rather than clamping.
#[derive(Clone, Copy, Debug, PartialEq, Eq, Structural)]
pub struct Hsv {
    pub hue: u8,
    pub sat: u8,
    pub val: u8,
}

/// The color of an element that is switched off.
pub open spec fn off_color() -> Rgb8 {
    Rgb8 { r: 0, g: 0, b: 0 }
}

/// The RGB triple that `smart_leds::hsv::hsv2rgb` computes for a given
/// hue/saturation/value triple; a function of the triple alone.
pub uninterp spec fn rgb_of_hsv(hue: u8, sat: u8, val: u8) -> (u8, u8, u8);

/// The RGB color corresponding to a hue/saturation/value color, as
/// `smart_leds::hsv::hsv2rgb` computes it.
pub open spec fn spec_hsv_to_rgb(c: Hsv) -> Rgb8 {
    let (r, g, b) = rgb_of_hsv(c.hue, c.sat, c.val);
    Rgb8 { r, g, b }
}

/// Relies on `smart_leds::hsv::hsv2rgb`: converts a hue/saturation/value
/// triple to an RGB triple; the result depends on the triple alone.
#[verifier::external_body]
pub(crate) fn hsv_to_rgb(c: Hsv) -> (r: Rgb8)
    ensures
        (r.r, r.g, r.b) == rgb_of_hsv(c.hue, c.sat, c.val),
{
    let converted = smart_leds::hsv::hsv2rgb(smart_leds::hsv::Hsv {
        hue: c.hue,
        sat: c.sat,
        val: c.val,
    });
    Rgb8 { r: converted.r, g: converted.g, b: converted.b }
}

} // verus!
