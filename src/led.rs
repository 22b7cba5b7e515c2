//! Colour of a phase on the RGB LED: the phase's high byte is the hue of a
//! fully saturated, fully bright colour.
use vstd::prelude::*;

verus! {

/// The colour that smart-leds computes for hue `hue`, saturation `sat` and
/// value `val`, as red, green and blue.
pub uninterp spec fn hsv_rgb(hue: u8, sat: u8, val: u8) -> (u8, u8, u8);

/// Relies on smart_leds::hsv::hsv2rgb: an integer conversion whose result
/// depends on the three components alone.
#[verifier::external_body]
fn hsv_to_rgb(hue: u8, sat: u8, val: u8) -> (r: (u8, u8, u8))
    ensures
        r == hsv_rgb(hue, sat, val),
{
    let c = smart_leds::hsv::hsv2rgb(smart_leds::hsv::Hsv { hue, sat, val });
    (c.r, c.g, c.b)
}

/// The hue byte shown for a phase: 0 is red, a third of the circle green,
/// two thirds blue.
pub open spec fn hue_byte(phase: u16) -> u8 {
    (phase / 256) as u8
}

/// The LED colour for `phase`.
pub fn hue_color(phase: u16) -> (r: (u8, u8, u8))
    ensures
        r == hsv_rgb(hue_byte(phase), 255, 255),
{
    let hue = (phase / 256) as u8;
    hsv_to_rgb(hue, 255, 255)
}

} // verus!
