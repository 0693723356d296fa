use light_color::scalar::{
    BoundedScalar, ClampPolicy, NonNegativeScalar, Normalized, UnitScalar, Unsigned, NON_NEGATIVE_CEILING, UNIT,
};
use std::mem::{align_of, size_of};

fn units(v: f64) -> i64 {
    (v * 1e9).round() as i64
}

fn decimal(u: u64) -> f64 {
    u as f64 / 1e9
}

fn serialize(u: u64) -> String {
    serde_json::to_string(&decimal(u)).expect("Should be parsed")
}

fn deserialize(text: &str) -> i64 {
    units(serde_json::from_str::<f64>(text).expect("Value is correct"))
}

#[test]
fn misc_size() {
    assert_eq!(size_of::<NonNegativeScalar>(), size_of::<u64>());
    assert_eq!(size_of::<UnitScalar>(), size_of::<u64>());
}

#[test]
fn misc_align() {
    assert_eq!(align_of::<NonNegativeScalar>(), align_of::<u64>());
    assert_eq!(align_of::<UnitScalar>(), align_of::<u64>());
}

#[test]
fn unsigned_basic() {
    let number = NonNegativeScalar::new(units(0.5));
    assert_eq!(decimal(number.get()), 0.5);
}

#[test]
fn unsigned_above_one() {
    let number = NonNegativeScalar::new(units(1.5));
    assert_eq!(decimal(number.get()), 1.5);
}

#[test]
fn unsigned_below_zero() {
    let number = NonNegativeScalar::new(units(-0.5));
    assert_eq!(decimal(number.get()), 0f64);
}

#[test]
fn unsigned_largest_value_is_kept() {
    let number = NonNegativeScalar::new(i64::MAX);
    assert_eq!(number.get(), NON_NEGATIVE_CEILING);
}

#[test]
fn normalized_basic() {
    let number = UnitScalar::new(units(0.5));
    assert_eq!(decimal(number.get()), 0.5);
}

#[test]
fn normalized_above_one() {
    let number = UnitScalar::new(units(1.5));
    assert_eq!(decimal(number.get()), 1f64);
}

#[test]
fn normalized_below_zero() {
    let number = UnitScalar::new(units(-0.5));
    assert_eq!(decimal(number.get()), 0f64);
}

#[test]
fn normalized_ends_are_kept() {
    assert_eq!(UnitScalar::new(0).get(), 0);
    assert_eq!(UnitScalar::new(UNIT as i64).get(), UNIT);
    assert_eq!(UnitScalar::new(UNIT as i64 + 1).get(), UNIT);
    assert_eq!(UnitScalar::new(i64::MIN).get(), 0);
}

#[test]
fn rewrapping_is_a_no_op() {
    for raw in [units(1.5), units(-0.5), units(0.25), 0, i64::MAX, i64::MIN] {
        let once = UnitScalar::new(raw);
        let twice = UnitScalar::new(once.get() as i64);
        assert_eq!(once.get(), twice.get());
        let once = BoundedScalar::<Unsigned>::new(raw);
        let twice = BoundedScalar::<Unsigned>::new(once.get() as i64);
        assert_eq!(once.get(), twice.get());
    }
    assert_eq!(UnitScalar::new(units(1.5)).get(), UNIT);
    assert_eq!(UnitScalar::new(units(-0.5)).get(), 0);
    assert_eq!(BoundedScalar::<Unsigned>::new(units(-0.5)).get(), 0);
}

#[test]
fn policies_clamp_through_check() {
    assert_eq!(Normalized::check(2_000_000_000), UNIT);
    assert_eq!(Normalized::check(-1), 0);
    assert_eq!(Normalized::check(7), 7);
    assert_eq!(Unsigned::check(-1), 0);
    assert_eq!(Unsigned::check(2_000_000_000), 2_000_000_000);
}

#[test]
fn unsigned_basic_json() {
    assert_eq!(serialize(NonNegativeScalar::new(units(0.5)).get()), "0.5");
}

#[test]
fn unsigned_above_one_json() {
    assert_eq!(serialize(NonNegativeScalar::new(units(1.5)).get()), "1.5");
}

#[test]
fn unsigned_below_zero_json() {
    assert_eq!(serialize(NonNegativeScalar::new(units(-0.5)).get()), "0.0");
}

#[test]
fn unsigned_basic_json_load() {
    let number = NonNegativeScalar::new(deserialize("0.5"));
    assert_eq!(decimal(number.get()), 0.5);
}

#[test]
fn unsigned_above_one_json_load() {
    let number = NonNegativeScalar::new(deserialize("1.5"));
    assert_eq!(decimal(number.get()), 1.5);
}

#[test]
fn unsigned_below_zero_json_load() {
    let number = NonNegativeScalar::new(deserialize("-0.5"));
    assert_eq!(decimal(number.get()), 0f64);
}

#[test]
fn normalized_basic_json() {
    assert_eq!(serialize(UnitScalar::new(units(0.5)).get()), "0.5");
}

#[test]
fn normalized_above_one_json() {
    assert_eq!(serialize(UnitScalar::new(units(1.5)).get()), "1.0");
}

#[test]
fn normalized_below_zero_json() {
    assert_eq!(serialize(UnitScalar::new(units(-0.5)).get()), "0.0");
}

#[test]
fn normalized_basic_json_load() {
    let number = UnitScalar::new(deserialize("0.5"));
    assert_eq!(decimal(number.get()), 0.5);
}

#[test]
fn normalized_above_one_json_load() {
    let number = UnitScalar::new(deserialize("1.5"));
    assert_eq!(decimal(number.get()), 1f64);
}

#[test]
fn normalized_below_zero_json_load() {
    let number = UnitScalar::new(deserialize("-0.5"));
    assert_eq!(decimal(number.get()), 0f64);
}
