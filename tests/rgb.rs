use light_color::color::Color;
use light_color::rgb::{RGBColor, RGB};

const EPS: f64 = 1e-5;

fn units(v: f64) -> i64 {
    (v * 1e9).round() as i64
}

fn decimal(u: u64) -> f64 {
    u as f64 / 1e9
}

fn xyz(x: f64, y: f64, z: f64) -> Color {
    Color::new(units(x), units(y), units(z))
}

fn check_xyz(rgb: RGB, x: f64, y: f64, z: f64) {
    let c = Color::from_rgb(&rgb);
    for (got, want) in [(decimal(c.x.get()), x), (decimal(c.y.get()), y), (decimal(c.z.get()), z)] {
        assert!((got - want).abs() <= EPS, "Left: {}\nRight: {}", got, want);
    }
}

fn check_rgb(c: Color, red: u8, green: u8, blue: u8) {
    let rgb = RGB::from_color(&c);
    assert_eq!(rgb.red, red);
    assert_eq!(rgb.green, green);
    assert_eq!(rgb.blue, blue);
}

#[test]
fn rgb_white() {
    check_xyz(RGB::new(255, 255, 255), 0.950470, 1f64, 1.088830);
}

#[test]
fn rgb_red() {
    check_xyz(RGB::new(255, 0, 0), 0.412456, 0.212673, 0.019334);
}

#[test]
fn rgb_green() {
    check_xyz(RGB::new(0, 255, 0), 0.357576, 0.715152, 0.119192);
}

#[test]
fn rgb_blue() {
    check_xyz(RGB::new(0, 0, 255), 0.180437, 0.072175, 0.950304);
}

#[test]
fn rgb_black() {
    check_xyz(RGB::new(0, 0, 0), 0f64, 0f64, 0f64);
}

#[test]
fn rgb_random1() {
    check_xyz(RGB::new(73, 193, 229), 0.359547, 0.452095, 0.809450);
}

#[test]
fn rgb_random2() {
    check_xyz(RGB::new(255, 170, 0), 0.556194, 0.500148, 0.067246);
}

#[test]
fn xyz_white() {
    check_rgb(xyz(0.950470, 1f64, 1.088830), 255, 255, 255);
}

#[test]
fn xyz_red() {
    check_rgb(xyz(0.412456, 0.212673, 0.019334), 255, 0, 0);
}

#[test]
fn xyz_green() {
    check_rgb(xyz(0.357576, 0.715152, 0.119192), 0, 255, 0);
}

#[test]
fn xyz_blue() {
    check_rgb(xyz(0.180437, 0.072175, 0.950304), 0, 0, 255);
}

#[test]
fn xyz_black() {
    check_rgb(xyz(0f64, 0f64, 0f64), 0, 0, 0);
}

#[test]
fn xyz_random1() {
    check_rgb(xyz(0.359547, 0.452095, 0.809450), 73, 193, 229);
}

#[test]
fn xyz_random2() {
    check_rgb(xyz(0.556194, 0.500148, 0.067246), 255, 170, 0);
}

#[test]
fn rgb_out_of_bound() {
    check_rgb(xyz(1f64, 1f64, 1f64), 255, 249, 244);
}

#[test]
fn far_out_of_gamut_is_clamped() {
    check_rgb(Color::new(i64::MAX, 0, 0), 255, 0, 255);
    check_rgb(Color::new(0, i64::MAX, 0), 0, 255, 0);
    check_rgb(Color::new(-5, -5, -5), 0, 0, 0);
}

#[test]
fn round_trip_on_samples() {
    for (r, g, b) in [(255, 255, 255), (0, 0, 0), (255, 0, 0), (0, 255, 0), (0, 0, 255), (73, 193, 229), (255, 170, 0), (1, 2, 3), (128, 127, 129)] {
        let back = RGB::from_color(&Color::from_rgb(&RGB::new(r, g, b)));
        assert_eq!(back, RGB::new(r, g, b));
    }
}

#[test]
fn round_trip_on_every_level_of_each_channel() {
    for level in 0..=255u8 {
        for c in [RGB::new(level, 0, 0), RGB::new(0, level, 0), RGB::new(0, 0, level), RGB::new(level, level, level), RGB::new(level, 255 - level, level / 2)] {
            assert_eq!(RGB::from_color(&Color::from_rgb(&c)), c);
        }
    }
}

#[test]
fn decoding_curve_levels() {
    // Level 1 sits on the linear part of the curve, level 128 on the power part.
    let c = Color::from_rgb(&RGB::new(0, 1, 0));
    assert_eq!(c.y.get(), (7151522u64 * 303527 + 5_000_000) / 10_000_000);
    let c = Color::from_rgb(&RGB::new(0, 128, 0));
    let lin = ((128.0f64 / 255.0 + 0.055) / 1.055).powf(2.4);
    assert!((decimal(c.y.get()) - 0.7151522 * lin).abs() < 1e-8);
}

#[test]
fn rgb_color_to_rgb() {
    let c = RGBColor::new(1, 2, 3);
    assert_eq!(c.to_rgb(), Some(RGB::new(1, 2, 3)));
}

#[test]
fn from_conversions_match_named_ones() {
    let rgb = RGB::new(73, 193, 229);
    let xyz: Color = rgb.into();
    let named = Color::from_rgb(&rgb);
    assert_eq!((xyz.x.get(), xyz.y.get(), xyz.z.get()), (named.x.get(), named.y.get(), named.z.get()));
    let back: RGB = xyz.into();
    assert_eq!(back, rgb);
}
