//! The lights under the keys.

use vstd::prelude::*;
use crate::keymap::SWITCH_COUNT;

verus! {

/// The brightness that the lights are shown at.
pub const LIGHT_LEVEL: u8 = 10;

/// A colour by hue, saturation and value.
#[derive(Clone, Copy, Debug, PartialEq, Eq, Structural)]
pub struct Hsv {
    /// The hue.
    pub hue: u8,
    /// The saturation.
    pub sat: u8,
    /// The value.
    pub val: u8,
}

/// A colour by its red, green and blue parts.
#[derive(Clone, Copy, Debug, PartialEq, Eq, Structural)]
pub struct Rgb {
    /// The red part.
    pub r: u8,
    /// The green part.
    pub g: u8,
    /// The blue part.
    pub b: u8,
}

/// No light.
pub open spec fn dark() -> Rgb {
    Rgb { r: 0, g: 0, b: 0 }
}

/// The red, green and blue parts that `smart_leds::hsv::hsv2rgb` gives for a hue, a saturation
/// and a value.
pub uninterp spec fn hsv_parts(hue: u8, sat: u8, val: u8) -> (u8, u8, u8);

/// The level that the table of `smart_leds::gamma` puts in place of a level.
pub uninterp spec fn gamma_level(level: u8) -> u8;

/// A colour after gamma correction.
pub open spec fn gamma_corrected(color: Rgb) -> Rgb {
    Rgb { r: gamma_level(color.r), g: gamma_level(color.g), b: gamma_level(color.b) }
}

/// A level of light under reduced brightness.
pub open spec fn dimmed_level(part: u8, level: u8) -> u8 {
    (part * (level + 1) / 256) as u8
}

/// A colour under reduced brightness.
pub open spec fn dimmed(color: Rgb, level: u8) -> Rgb {
    Rgb {
        r: dimmed_level(color.r, level),
        g: dimmed_level(color.g, level),
        b: dimmed_level(color.b, level),
    }
}

/// `smart_leds::hsv::hsv2rgb`: the colour depends on the three parts alone, and there is no light
/// where the value is zero. At full saturation and value, the lowest hues run from red towards
/// yellow and the hues from 85 to 127 from green towards cyan, in steps of six. What the other
/// hues and the paler and darker colours give is left to the name `hsv_parts`.
#[verifier::external_body]
fn hsv_to_rgb(color: Hsv) -> (rgb: Rgb)
    ensures
        (rgb.r, rgb.g, rgb.b) == hsv_parts(color.hue, color.sat, color.val),
        color.val == 0 ==> rgb == dark(),
        color.sat == 255 && color.val == 255 && color.hue <= 42 ==> rgb == (Rgb {
            r: 255,
            g: (6 * color.hue) as u8,
            b: 0,
        }),
        color.sat == 255 && color.val == 255 && 85 <= color.hue <= 127 ==> rgb == (Rgb {
            r: 0,
            g: 255,
            b: (6 * (color.hue - 85)) as u8,
        }),
{
    let hsv = smart_leds::hsv::Hsv { hue: color.hue, sat: color.sat, val: color.val };
    let rgb = smart_leds::hsv::hsv2rgb(hsv);
    Rgb { r: rgb.r, g: rgb.g, b: rgb.b }
}

/// `smart_leds::gamma`: every part of every colour is replaced by what one table holds for it,
/// and the order stays. The table holds zero for zero.
#[verifier::external_body]
fn correct_gamma(colors: &[Rgb]) -> (corrected: Vec<Rgb>)
    ensures
        corrected@.len() == colors@.len(),
        forall|i: int|
            #![trigger corrected@[i]]
            0 <= i < colors@.len() ==> {
                &&& corrected@[i].r == gamma_level(colors@[i].r)
                &&& corrected@[i].g == gamma_level(colors@[i].g)
                &&& corrected@[i].b == gamma_level(colors@[i].b)
                &&& colors@[i] == dark() ==> corrected@[i] == dark()
            },
{
    smart_leds::gamma(colors.iter().map(|c| smart_leds::RGB8 { r: c.r, g: c.g, b: c.b }))
        .map(|c| Rgb { r: c.r, g: c.g, b: c.b })
        .collect()
}

/// `smart_leds::brightness`: every part of every colour is multiplied by one more than the level
/// and divided by 256, rounded down, and the order stays.
#[verifier::external_body]
fn reduce_brightness(colors: &[Rgb], level: u8) -> (reduced: Vec<Rgb>)
    ensures
        reduced@ == colors@.map_values(|color: Rgb| dimmed(color, level)),
{
    let colors = colors.iter().map(|c| smart_leds::RGB8 { r: c.r, g: c.g, b: c.b });
    smart_leds::brightness(colors, level).map(|c| Rgb { r: c.r, g: c.g, b: c.b }).collect()
}

/// The colours of the lights.
#[derive(Clone, Copy, Debug, PartialEq, Eq, Structural)]
pub struct Palette {
    /// Red.
    pub red: Rgb,
    /// The colour at hue 100, a green.
    pub color_100: Rgb,
    /// No light.
    pub off: Rgb,
}

/// The colour of a hue, a saturation and a value.
pub open spec fn hsv_color(color: Hsv) -> Rgb {
    let parts = hsv_parts(color.hue, color.sat, color.val);
    Rgb { r: parts.0, g: parts.1, b: parts.2 }
}

/// Mixes the colours of the lights.
pub fn palette() -> (palette: Palette)
    ensures
        palette.red == hsv_color(Hsv { hue: 0, sat: 255, val: 255 }),
        palette.red == (Rgb { r: 255, g: 0, b: 0 }),
        palette.color_100 == hsv_color(Hsv { hue: 100, sat: 255, val: 255 }),
        palette.color_100 == (Rgb { r: 0, g: 255, b: 90 }),
        palette.off == hsv_color(Hsv { hue: 100, sat: 255, val: 0 }),
        palette.off == dark(),
        palette.off == (Rgb { r: 0, g: 0, b: 0 }),
{
    Palette {
        red: hsv_to_rgb(Hsv { hue: 0, sat: 255, val: 255 }),
        color_100: hsv_to_rgb(Hsv { hue: 100, sat: 255, val: 255 }),
        off: hsv_to_rgb(Hsv { hue: 100, sat: 255, val: 0 }),
    }
}

/// Gives every light the same colour.
pub fn uniform(color: Rgb) -> (colors: [Rgb; SWITCH_COUNT])
    ensures
        colors@ == Seq::new(SWITCH_COUNT as nat, |i: int| color),
        colors@.len() == 21,
        forall|i: int| 0 <= i < 21 ==> #[trigger] colors@[i] == color,
{
    let colors: [Rgb; SWITCH_COUNT] = [color; SWITCH_COUNT];
    assert(colors@ =~= Seq::new(SWITCH_COUNT as nat, |i: int| color));
    colors
}

/// The colours as the light chain is to show them: corrected for the eye first, then reduced in
/// brightness.
pub fn shown(colors: &[Rgb], level: u8) -> (frame: Vec<Rgb>)
    ensures
        frame@ == colors@.map_values(|color: Rgb| dimmed(gamma_corrected(color), level)),
        frame@.len() == colors@.len(),
        forall|i: int|
            0 <= i < colors@.len() ==> {
                &&& (#[trigger] frame@[i]).r == gamma_level(colors@[i].r) * (level + 1) / 256
                &&& frame@[i].g == gamma_level(colors@[i].g) * (level + 1) / 256
                &&& frame@[i].b == gamma_level(colors@[i].b) * (level + 1) / 256
            },
        forall|i: int|
            0 <= i < colors@.len() && colors@[i] == dark() ==> #[trigger] frame@[i] == dark(),
{
    let corrected = correct_gamma(colors);
    let frame = reduce_brightness(&corrected, level);
    assert(frame@ =~= colors@.map_values(|color: Rgb| dimmed(gamma_corrected(color), level)));
    proof {
        assert forall|i: int| 0 <= i < colors@.len() implies {
            &&& (#[trigger] frame@[i]).r == gamma_level(colors@[i].r) * (level + 1) / 256
            &&& frame@[i].g == gamma_level(colors@[i].g) * (level + 1) / 256
            &&& frame@[i].b == gamma_level(colors@[i].b) * (level + 1) / 256
        } by {
            dimming_is_proportional(gamma_level(colors@[i].r), level);
            dimming_is_proportional(gamma_level(colors@[i].g), level);
            dimming_is_proportional(gamma_level(colors@[i].b), level);
        }
    }
    frame
}

/// The frame that a half shows: every light is off.
pub fn idle_frame() -> (frame: Vec<Rgb>)
    ensures
        frame@ == Seq::new(SWITCH_COUNT as nat, |i: int| dark()),
        frame@.len() == 21,
        forall|i: int|
            0 <= i < 21 ==> (#[trigger] frame@[i]).r == 0 && frame@[i].g == 0 && frame@[i].b == 0,
{
    let colors = uniform(palette().off);
    let frame = shown(&colors, LIGHT_LEVEL);
    assert(frame@ =~= Seq::new(SWITCH_COUNT as nat, |i: int| dark()));
    frame
}

/// A part of a dimmed colour is the part times one more than the level, divided by 256 and
/// rounded down.
pub proof fn dimming_is_proportional(part: u8, level: u8)
    ensures
        dimmed_level(part, level) == part * (level + 1) / 256,
{
    assert(0 <= part * (level + 1) / 256 <= 255) by (nonlinear_arith)
        requires
            part <= 255,
            level <= 255,
    ;
}

/// Colours are corrected and dimmed part by part: red by red, green by green and blue by blue.
pub proof fn parts_are_not_mixed(color: Rgb, level: u8)
    ensures
        gamma_corrected(color).r == gamma_level(color.r),
        gamma_corrected(color).g == gamma_level(color.g),
        gamma_corrected(color).b == gamma_level(color.b),
        dimmed(color, level).r == color.r * (level + 1) / 256,
        dimmed(color, level).g == color.g * (level + 1) / 256,
        dimmed(color, level).b == color.b * (level + 1) / 256,
        dark().r == 0 && dark().g == 0 && dark().b == 0,
{
    dimming_is_proportional(color.r, level);
    dimming_is_proportional(color.g, level);
    dimming_is_proportional(color.b, level);
}

/// A colour by hue, saturation and value has the red, green and blue parts that
/// `smart_leds::hsv::hsv2rgb` gives, in that order.
pub proof fn mixed_colors(color: Hsv)
    ensures
        (hsv_color(color).r, hsv_color(color).g, hsv_color(color).b) == hsv_parts(
            color.hue,
            color.sat,
            color.val,
        ),
{
}

} // verus!
