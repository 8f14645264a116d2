use smart_leds::hsv::{hsv2rgb, Hsv};
use split_keyboard::lights::{idle_frame, palette, shown, uniform, Rgb, LIGHT_LEVEL};

#[test]
fn palette_colors() {
    let palette = palette();
    assert_eq!(palette.red, Rgb { r: 255, g: 0, b: 0 });
    assert_eq!(palette.color_100, Rgb { r: 0, g: 255, b: 90 });
    assert_eq!(palette.off, Rgb { r: 0, g: 0, b: 0 });
}

#[test]
fn gamma_comes_before_brightness() {
    let colors = [Rgb { r: 255, g: 128, b: 27 }, Rgb { r: 28, g: 0, b: 200 }];
    let frame = shown(&colors, 255);
    assert_eq!(frame, vec![Rgb { r: 255, g: 37, b: 0 }, Rgb { r: 1, g: 0, b: 129 }]);
    let frame = shown(&colors, LIGHT_LEVEL);
    assert_eq!(frame, vec![Rgb { r: 10, g: 1, b: 0 }, Rgb { r: 0, g: 0, b: 5 }]);
}

#[test]
fn uniform_fills_every_light() {
    let color = Rgb { r: 1, g: 2, b: 3 };
    assert_eq!(uniform(color), [color; 21]);
}

#[test]
fn idle_lights_are_off() {
    assert_eq!(idle_frame(), vec![Rgb { r: 0, g: 0, b: 0 }; 21]);
}

#[test]
fn saturated_hues_run_in_steps_of_six() {
    for step in 0..=42u8 {
        let warm = hsv2rgb(Hsv { hue: step, sat: 255, val: 255 });
        assert_eq!((warm.r, warm.g, warm.b), (255, 6 * step, 0));
        let cool = hsv2rgb(Hsv { hue: 85 + step, sat: 255, val: 255 });
        assert_eq!((cool.r, cool.g, cool.b), (0, 255, 6 * step));
    }
    for hue in 0..=255u8 {
        let none = hsv2rgb(Hsv { hue, sat: 200, val: 0 });
        assert_eq!((none.r, none.g, none.b), (0, 0, 0));
    }
}
