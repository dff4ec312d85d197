use weight_balance::utils::coordinate::Coordinate;
use weight_balance::utils::decimal::parse_decimal;
use weight_balance::utils::fixed::floor_div;
use weight_balance::utils::fixed::Fixed;
use weight_balance::utils::fixed::SCALE;
use weight_balance::utils::point::Point;
use weight_balance::utils::weight::Weight;
use weight_balance::utils::{deg_to_rad, in_to_ft, kg_to_lb, m2_to_ft2};

fn raw(text: &str) -> Option<i64> {
    parse_decimal(text.as_bytes()).map(|f| f.raw)
}

#[test]
fn scale_is_a_million() {
    assert_eq!(SCALE, 1_000_000);
}

#[test]
fn parses_whole_numbers() {
    assert_eq!(raw("0"), Some(0));
    assert_eq!(raw("7"), Some(7_000_000));
    assert_eq!(raw("84350"), Some(84_350_000_000));
    assert_eq!(raw("007"), Some(7_000_000));
}

#[test]
fn parses_fractions() {
    assert_eq!(raw("3.75"), Some(3_750_000));
    assert_eq!(raw("0.0003"), Some(300));
    assert_eq!(raw("17.4"), Some(17_400_000));
    assert_eq!(raw("1.000001"), Some(1_000_001));
}

#[test]
fn parses_signs() {
    assert_eq!(raw("-2.5"), Some(-2_500_000));
    assert_eq!(raw("+2.5"), Some(2_500_000));
    assert_eq!(raw("-0"), Some(0));
}

#[test]
fn parses_bare_point_forms() {
    assert_eq!(raw("5."), Some(5_000_000));
    assert_eq!(raw(".5"), Some(500_000));
    assert_eq!(raw("-.25"), Some(-250_000));
}

#[test]
fn drops_digits_after_the_sixth_place() {
    assert_eq!(raw("0.0174533"), Some(17_453));
    assert_eq!(raw("1.9999999"), Some(1_999_999));
    assert_eq!(raw("-1.9999999"), Some(-1_999_999));
}

#[test]
fn refuses_text_that_is_no_decimal() {
    assert_eq!(raw(""), None);
    assert_eq!(raw("."), None);
    assert_eq!(raw("-"), None);
    assert_eq!(raw("+"), None);
    assert_eq!(raw("abc"), None);
    assert_eq!(raw("1.2.3"), None);
    assert_eq!(raw("1,5"), None);
    assert_eq!(raw(" 1"), None);
    assert_eq!(raw("1 "), None);
    assert_eq!(raw("--1"), None);
    assert_eq!(raw("1e"), None);
    assert_eq!(raw("e3"), None);
    assert_eq!(raw(".e3"), None);
    assert_eq!(raw("1e-"), None);
    assert_eq!(raw("1e+"), None);
    assert_eq!(raw("1e3.5"), None);
    assert_eq!(raw("1e3e3"), None);
    assert_eq!(raw("1e 3"), None);
    assert_eq!(raw("inf"), None);
    assert_eq!(raw("NaN"), None);
    assert_eq!(raw("0x10"), None);
    assert_eq!(raw("1.5x"), None);
    assert_eq!(raw("1.x"), None);
}

#[test]
fn parses_exponents() {
    assert_eq!(raw("1e3"), Some(1_000_000_000));
    assert_eq!(raw("1E3"), Some(1_000_000_000));
    assert_eq!(raw("1e+3"), Some(1_000_000_000));
    assert_eq!(raw("2.5e6"), Some(2_500_000_000_000));
    assert_eq!(raw("-2.5e6"), Some(-2_500_000_000_000));
    assert_eq!(raw("1e-3"), Some(1_000));
    assert_eq!(raw("1e-6"), Some(1));
    assert_eq!(raw("1e-7"), Some(0));
    assert_eq!(raw("-1e-7"), Some(0));
    assert_eq!(raw("19e-7"), Some(1));
    assert_eq!(raw("1.5E2"), Some(150_000_000));
    assert_eq!(raw("1.e2"), Some(100_000_000));
    assert_eq!(raw(".5e1"), Some(5_000_000));
    assert_eq!(raw("1e0"), Some(1_000_000));
    assert_eq!(raw("1e-0"), Some(1_000_000));
    assert_eq!(raw("1e012"), Some(1_000_000_000_000_000_000));
    assert_eq!(raw("0.0174533e2"), Some(1_745_330));
}

#[test]
fn parses_long_numbers() {
    assert_eq!(raw("0.000000000000000000001e21"), Some(1_000_000));
    assert_eq!(raw("123456789012345678901234567890e-24"), Some(123_456_789_012));
    assert_eq!(raw("123456789012345678901234567890"), None);
    assert_eq!(raw("0.00000000000000000000000000000000000001"), Some(0));
    assert_eq!(raw("000000000000000000000000000000000000042"), Some(42_000_000));
    assert_eq!(raw("0e99999999999999999999999999999999"), Some(0));
    assert_eq!(raw("0.000e-99999999999999999999999999999999"), Some(0));
    assert_eq!(raw("1e99999999999999999999999999999999"), None);
    assert_eq!(raw("1e-99999999999999999999999999999999"), Some(0));
    assert_eq!(raw("9e12"), Some(9_000_000_000_000_000_000));
    assert_eq!(raw("1e13"), None);
    assert_eq!(raw("9223372036854775807e-6"), Some(i64::MAX));
    assert_eq!(raw("-9223372036854775808e-6"), Some(i64::MIN));
    assert_eq!(raw("9223372036854775808e-6"), None);
    assert_eq!(raw("92233720368547758079e-7"), Some(i64::MAX));
}

#[test]
fn parses_up_to_the_largest_value() {
    assert_eq!(raw("9223372036854.775807"), Some(i64::MAX));
    assert_eq!(raw("-9223372036854.775808"), Some(i64::MIN));
    assert_eq!(raw("9223372036854.775808"), None);
    assert_eq!(raw("-9223372036854.775809"), None);
    assert_eq!(raw("9223372036855"), None);
    assert_eq!(raw("99999999999999999999999999999999999999999999"), None);
}

#[test]
fn floor_div_rounds_down() {
    assert_eq!(floor_div(7, 2), 3);
    assert_eq!(floor_div(-7, 2), -4);
    assert_eq!(floor_div(-8, 2), -4);
    assert_eq!(floor_div(0, 5), 0);
    assert_eq!(floor_div(-1, 1_000_000), -1);
    assert_eq!(floor_div(i128::MIN, 1), i128::MIN);
    assert_eq!(floor_div(i128::MIN, 3), -56713727820156410577229101238628035243);
}

#[test]
fn from_units_scales_by_a_million() {
    assert_eq!(Fixed::from_units(3), Some(Fixed { raw: 3_000_000 }));
    assert_eq!(Fixed::from_units(-3), Some(Fixed { raw: -3_000_000 }));
    assert_eq!(Fixed::from_units(9_223_372_036_854), Some(Fixed { raw: 9_223_372_036_854_000_000 }));
    assert_eq!(Fixed::from_units(9_223_372_036_855), None);
}

#[test]
fn checked_add_adds_or_fails() {
    let a = Fixed { raw: 1_500_000 };
    let b = Fixed { raw: -250_000 };
    assert_eq!(a.checked_add(b), Some(Fixed { raw: 1_250_000 }));
    assert_eq!(Fixed { raw: i64::MAX }.checked_add(Fixed { raw: 1 }), None);
    assert_eq!(Fixed { raw: i64::MIN }.checked_add(Fixed { raw: -1 }), None);
    assert_eq!(Fixed { raw: i64::MAX }.checked_add(Fixed { raw: 0 }), Some(Fixed { raw: i64::MAX }));
}

#[test]
fn scaled_multiplies_by_a_fraction() {
    assert_eq!(Fixed { raw: 10_000_000 }.scaled(3, 4), Some(Fixed { raw: 7_500_000 }));
    assert_eq!(Fixed { raw: 1 }.scaled(1, 3), Some(Fixed { raw: 0 }));
    assert_eq!(Fixed { raw: -1 }.scaled(1, 3), Some(Fixed { raw: -1 }));
    assert_eq!(Fixed { raw: i64::MAX }.scaled(2, 1), None);
    assert_eq!(Fixed { raw: i64::MAX }.scaled(i64::MAX, i64::MAX), Some(Fixed { raw: i64::MAX }));
}

#[test]
fn kilograms_to_pounds() {
    assert_eq!(kg_to_lb(Fixed { raw: 1_000_000 }), Some(Fixed { raw: 2_204_620 }));
    assert_eq!(kg_to_lb(Fixed { raw: 38_249_000_000 }), Some(Fixed { raw: 84_324_510_380 }));
    assert_eq!(kg_to_lb(Fixed { raw: i64::MAX }), None);
}

#[test]
fn square_metres_to_square_feet() {
    assert_eq!(m2_to_ft2(Fixed { raw: 1_000_000 }), Some(Fixed { raw: 10_763_900 }));
    assert_eq!(m2_to_ft2(Fixed { raw: 93_500_000 }), Some(Fixed { raw: 1_006_424_650 }));
}

#[test]
fn degrees_to_radians() {
    assert_eq!(deg_to_rad(Fixed { raw: 1_000_000 }), Some(Fixed { raw: 17_453 }));
    assert_eq!(deg_to_rad(Fixed { raw: 90_000_000 }), Some(Fixed { raw: 1_570_797 }));
    assert_eq!(deg_to_rad(Fixed { raw: -5_000_000 }), Some(Fixed { raw: -87_267 }));
}

#[test]
fn inches_to_feet() {
    assert_eq!(in_to_ft(Fixed { raw: 12_000_000 }), Fixed { raw: 1_000_000 });
    assert_eq!(in_to_ft(Fixed { raw: 39_370_000 }), Fixed { raw: 3_280_833 });
    assert_eq!(in_to_ft(Fixed { raw: -1 }), Fixed { raw: -1 });
}

#[test]
fn point_new_and_getters() {
    let p = Point::new(1.5f64, -2.0, 0.25);
    assert_eq!(*p.x(), 1.5);
    assert_eq!(*p.y(), -2.0);
    assert_eq!(*p.z(), 0.25);
    let q = Point::new("a", "b", "c");
    assert_eq!((*q.x(), *q.y(), *q.z()), ("a", "b", "c"));
}

#[test]
fn point_adds_coordinate_wise() {
    let p = Point::new(1i64, 2, 3) + Point::new(10, 20, 30);
    assert_eq!((p.x, p.y, p.z), (11, 22, 33));
}

#[test]
fn point_scales_and_divides() {
    let p = Point::new(1.0f64, -2.0, 3.0) * 2.5;
    assert_eq!((p.x, p.y, p.z), (2.5, -5.0, 7.5));
    let q = Point::new(10i128, -20, 31) / 10;
    assert_eq!((q.x, q.y, q.z), (1, -2, 3));
}

#[test]
fn weight_is_never_negative() {
    assert!(Weight::new(Fixed { raw: -1 }).is_none());
    assert_eq!(Weight::new(Fixed { raw: 0 }).unwrap().get_val(), Fixed { raw: 0 });
    assert_eq!(Weight::new(Fixed { raw: 5_000_000 }).unwrap().get_val(), Fixed { raw: 5_000_000 });
}

#[test]
fn weights_add() {
    let a = Weight::new(Fixed { raw: 1_250_000 }).unwrap();
    let b = Weight::new(Fixed { raw: 2_000_000 }).unwrap();
    assert_eq!((a + b).get_val(), Fixed { raw: 3_250_000 });
    assert_eq!(a.checked_add(b).unwrap().get_val(), Fixed { raw: 3_250_000 });
    let top = Weight::new(Fixed { raw: i64::MAX }).unwrap();
    assert!(top.checked_add(a).is_none());
}

#[test]
fn coordinate_origin_and_sum() {
    let o = Coordinate::new_origin();
    assert_eq!((o.x.raw, o.y.raw, o.z.raw), (0, 0, 0));
    let a = Coordinate::new(Fixed { raw: 1 }, Fixed { raw: 2 }, Fixed { raw: 3 });
    let b = a + Coordinate::new(Fixed { raw: 10 }, Fixed { raw: -20 }, Fixed { raw: 30 });
    assert_eq!((b.x.raw, b.y.raw, b.z.raw), (11, -18, 33));
}
