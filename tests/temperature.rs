use light_color::color::Color;
use light_color::rgb::RGBColor;
use light_color::scalar::NON_NEGATIVE_CEILING;
use light_color::temperature::Temperature;

fn units(v: f64) -> i64 {
    (v * 1e9).round() as i64
}

fn decimal(u: u64) -> f64 {
    u as f64 / 1e9
}

fn illuminant(xc: f64, yc: f64) -> Color {
    Color::new(units(xc / yc), units(1.0), units((1.0 - xc - yc) / yc))
}

fn mccamy(xc: f64, yc: f64) -> f64 {
    let n = (xc - 0.3320) / (0.1858 - yc);
    449.0 * n.powi(3) + 3525.0 * n.powi(2) + 6823.3 * n + 5520.33
}

fn temperature(c: &Color) -> f64 {
    decimal(c.to_temperature().expect("CCT value should form").get())
}

#[test]
fn d65_is_near_6504_kelvin() {
    let t = temperature(&illuminant(0.31271, 0.32902));
    assert!((t - 6504.0).abs() <= 1.0, "{}", t);
}

#[test]
fn d50_is_near_5003_kelvin() {
    let t = temperature(&illuminant(0.34567, 0.35850));
    assert!((t - 5003.0).abs() <= 1.0, "{}", t);
}

#[test]
fn d55_is_near_5503_kelvin() {
    let t = temperature(&illuminant(0.33242, 0.34743));
    assert!((t - 5503.0).abs() <= 1.0, "{}", t);
}

#[test]
fn illuminants_follow_the_cubic() {
    for (xc, yc) in [(0.44757, 0.40745), (0.31271, 0.32902), (0.29902, 0.31485), (0.38, 0.38)] {
        let t = temperature(&illuminant(xc, yc));
        assert!((t - mccamy(xc, yc)).abs() <= 1e-3, "{} {}", t, mccamy(xc, yc));
    }
}

#[test]
fn equal_energy_white() {
    let c = Color::new(1_000_000_000, 1_000_000_000, 1_000_000_000);
    let t = temperature(&c);
    assert!((t - mccamy(1.0 / 3.0, 1.0 / 3.0)).abs() <= 1e-3, "{}", t);
}

#[test]
fn black_has_no_temperature() {
    assert!(Color::new(0, 0, 0).to_temperature().is_none());
}

#[test]
fn chromaticity_y_at_the_pole_has_no_temperature() {
    // y / (x + y + z) == 0.1858 exactly
    assert!(Color::new(500_000_000, 185_800_000, 314_200_000).to_temperature().is_none());
}

#[test]
fn negative_results_clamp_to_zero() {
    // a pure-x colour: n = (1 - 0.332) / 0.1858, the cubic is positive
    let t = temperature(&Color::new(1_000_000_000, 0, 0));
    assert!((t - mccamy(1.0, 0.0)).abs() <= 1e-3, "{}", t);
    // chromaticity (0.1, 0.18): n = -0.232 / 0.0058 = -40, the cubic is negative
    assert!(mccamy(0.1, 0.18) < 0.0);
    assert_eq!(Color::new(100_000_000, 180_000_000, 720_000_000).to_temperature().expect("defined").get(), 0);
}

#[test]
fn near_the_pole_the_result_saturates() {
    // y share just above 0.1858: n is huge and negative, the cubic hugely negative
    let below = Color::new(500_000_000, 185_800_001, 314_199_999).to_temperature().expect("defined");
    // y share just below 0.1858 with x share above 0.332: n is huge and positive
    let above = Color::new(500_000_000, 185_799_999, 314_200_001).to_temperature().expect("defined");
    assert_eq!(below.get(), 0);
    assert_eq!(above.get(), NON_NEGATIVE_CEILING);
}

#[test]
fn rgb_color_temperature_goes_through_xyz() {
    let c = RGBColor::new(255, 235, 12);
    let direct = Color::from_rgb(&light_color::rgb::RGB::new(255, 235, 12)).to_temperature().expect("defined");
    assert_eq!(c.to_temperature().expect("defined").get(), direct.get());
    assert!((decimal(direct.get()) - 3634.797).abs() < 1e-2);
}

#[test]
fn temperature_inverse_is_a_fixed_placeholder() {
    let warm = Color::placeholder_from_temperature(&Temperature::new(units(2700.0)));
    let cold = Color::placeholder_from_temperature(&Temperature::new(units(9000.0)));
    assert_eq!((warm.x.get(), warm.y.get(), warm.z.get()), (1_009_794_293, 1_000_000_000, 644_485_733));
    assert_eq!((cold.x.get(), cold.y.get(), cold.z.get()), (warm.x.get(), warm.y.get(), warm.z.get()));
    // the way back does not give the temperature that went in
    let back = temperature(&warm);
    assert!((back - 2700.0).abs() > 1.0);
    assert!((back - 4008.917).abs() < 1e-2, "{}", back);
}
