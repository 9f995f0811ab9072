use price_sniffer::decimal::{cmp_dec, Cmp, Dec};
use price_sniffer::errors::AppError;

#[test]
fn parse_reads_mantissa_and_scale() {
    let d = Dec::parse("10.50").unwrap();
    assert_eq!(d.m, 1050);
    assert_eq!(d.s, 2);
}

#[test]
fn parse_plain_integer() {
    let d = Dec::parse("7").unwrap();
    assert_eq!(d.m, 7);
    assert_eq!(d.s, 0);
}

#[test]
fn parse_negative() {
    let d = Dec::parse("-3.14").unwrap();
    assert_eq!(d.m, -314);
    assert_eq!(d.s, 2);
}

#[test]
fn parse_rejects_garbage() {
    let e = Dec::parse("not a number").unwrap_err();
    assert!(matches!(e, AppError::ParseError(_)));
}

#[test]
fn render_keeps_trailing_zeros() {
    let d = Dec::new(1050, 2).unwrap();
    assert_eq!(d.render(), "10.50");
}

#[test]
fn render_small_fraction_pads_zeros() {
    let d = Dec::new(5, 3).unwrap();
    assert_eq!(d.render(), "0.005");
}

#[test]
fn render_negative_and_integer() {
    assert_eq!(Dec::new(-314, 2).unwrap().render(), "-3.14");
    assert_eq!(Dec::new(7, 0).unwrap().render(), "7");
}

#[test]
fn parse_then_render_round_trips_text() {
    let d = Dec::parse("10.50").unwrap();
    assert_eq!(d.render(), "10.50");
}

#[test]
fn equal_values_across_scales() {
    let a = Dec::new(105, 1).unwrap();
    let b = Dec::new(1050, 2).unwrap();
    assert_eq!(cmp_dec(a, b), Cmp::Eq);
}

#[test]
fn ordering_across_scales() {
    let one = Dec::new(1, 0).unwrap();
    let ten_and_a_half = Dec::new(105, 1).unwrap();
    assert_eq!(cmp_dec(one, ten_and_a_half), Cmp::Lt);
    assert_eq!(cmp_dec(ten_and_a_half, one), Cmp::Gt);
}

#[test]
fn ordering_with_signs() {
    let neg = Dec::new(-1, 0).unwrap();
    let zero_a = Dec::new(0, 0).unwrap();
    let zero_b = Dec::new(0, 5).unwrap();
    let pos = Dec::new(1, 28).unwrap();
    assert_eq!(cmp_dec(neg, pos), Cmp::Lt);
    assert_eq!(cmp_dec(zero_a, zero_b), Cmp::Eq);
    assert_eq!(cmp_dec(pos, zero_a), Cmp::Gt);
    assert_eq!(cmp_dec(neg, zero_a), Cmp::Lt);
}

#[test]
fn large_scale_difference_compares_without_overflow() {
    // 79228162514264337593543950335 * 10^28 would overflow any machine word
    let big = Dec::new(79228162514264337593543950335, 0).unwrap();
    let tiny = Dec::new(1, 28).unwrap();
    assert_eq!(cmp_dec(big, tiny), Cmp::Gt);
    assert_eq!(cmp_dec(tiny, big), Cmp::Lt);
}

#[test]
fn new_rejects_out_of_range() {
    assert!(Dec::new(0, 29).is_none());
    assert!(Dec::new(79228162514264337593543950336, 0).is_none());
    assert!(Dec::new(-79228162514264337593543950336, 0).is_none());
}
