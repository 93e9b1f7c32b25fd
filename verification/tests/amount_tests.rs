use rwa_gold_protocol::decimal::Amount;
use rwa_gold_protocol::time::Timestamp;

fn parts(a: &Amount) -> (i128, u32) {
    (a.mantissa(), a.scale())
}

#[test]
fn add_aligns_scales() {
    let a = Amount::new(15, 1);
    let b = Amount::new(225, 2);
    assert_eq!(parts(&a.add(b)), (375, 2));
}

#[test]
fn add_to_zero_keeps_other_operand() {
    let zero = Amount::new(0, 1);
    assert_eq!(parts(&zero.add(Amount::new(20000, 0))), (20000, 0));
}

#[test]
fn sub_can_go_negative() {
    let a = Amount::new(5, 0);
    let b = Amount::new(75, 1);
    assert_eq!(parts(&a.sub(b)), (-25, 1));
}

#[test]
fn mul_adds_scales() {
    let g = Amount::new(2, 0);
    let p = Amount::new(625600, 2);
    assert_eq!(parts(&g.mul(p)), (1251200, 2));
    let fee = Amount::new(1251200, 2).mul(Amount::new(1, 3));
    assert_eq!(parts(&fee), (1251200, 5));
}

#[test]
fn mul_by_zero_is_plain_zero() {
    let z = Amount::new(0, 1).mul(Amount::new(5, 2));
    assert_eq!(parts(&z), (0, 0));
}

#[test]
fn mul_rounds_beyond_twenty_eight_places() {
    let a = Amount::from_i128_with_scale(1, 28);
    let b = Amount::new(5, 1);
    // 0.5e-28 rounds half to even, to zero at 28 places
    let r = a.mul(b);
    assert_eq!(r.scale(), 28);
    assert_eq!(r.mantissa(), 0);
}

#[test]
fn comparisons_use_values() {
    let a = Amount::new(10, 0);
    let b = Amount::new(1000, 2);
    assert!(a.le(&b));
    assert!(b.le(&a));
    assert!(!a.lt(&b));
    assert!(Amount::new(99, 1).lt(&a));
}

#[test]
fn text_keeps_scale() {
    assert_eq!(Amount::new(0, 1).to_text(), "0.0");
    assert_eq!(Amount::new(1252451200, 5).to_text(), "12524.51200");
    assert_eq!(Amount::new(-25, 1).to_text(), "-2.5");
}

#[test]
fn text_with_two_places() {
    assert_eq!(Amount::new(625600, 2).to_text_2dp(), "6256.00");
    assert_eq!(Amount::new(6, 0).to_text_2dp(), "6.00");
}

#[test]
fn parse_reads_decimals() {
    let a = Amount::parse("12.50").unwrap();
    assert_eq!(parts(&a), (1250, 2));
    assert!(Amount::parse("twelve").is_none());
    assert_eq!(parts(&Amount::parse("-3").unwrap()), (-3, 0));
}

#[test]
fn timestamp_formats() {
    let t = Timestamp { secs: 1_700_000_000, nanos: 0 };
    assert_eq!(t.format("%H:%M:%S"), "22:13:20");
    assert_eq!(t.format("%Y-%m-%d"), "2023-11-14");
}

#[test]
fn timestamp_out_of_range_writes_nothing() {
    let t = Timestamp { secs: i64::MAX, nanos: 0 };
    assert_eq!(t.format("%H:%M:%S"), "");
}

#[test]
fn add_rounds_when_the_mantissa_overflows() {
    let a = Amount::from_i128_with_scale(79_228_162_514_264_337_593_543_950_335, 28);
    let r = a.add(Amount::new(1, 0));
    assert_eq!(parts(&r), (8_922_816_251_426_433_759_354_395_034, 27));
}

#[test]
fn text_of_small_and_negative_amounts() {
    assert_eq!(Amount::new(-5, 3).to_text(), "-0.005");
    assert_eq!(Amount::new(0, 0).to_text(), "0");
    assert_eq!(Amount::new(0, 2).to_text(), "0.00");
    assert_eq!(Amount::new(120, 0).to_text(), "120");
}

#[test]
fn two_places_cut_off_without_rounding() {
    assert_eq!(Amount::new(12399, 4).to_text_2dp(), "1.23");
    assert_eq!(Amount::new(7, 0).to_text_2dp(), "7.00");
    assert_eq!(Amount::new(-5, 1).to_text_2dp(), "-0.50");
    assert_eq!(Amount::new(0, 0).to_text_2dp(), "0.00");
}

#[test]
fn checked_operations_report_overflow() {
    let max = Amount::from_i128_with_scale(79228162514264337593543950335, 0);
    assert!(max.checked_add(Amount::new(1, 0)).is_none());
    assert!(max.checked_sub(Amount::new(-1, 0)).is_none());
    assert!(max.checked_mul(Amount::new(2, 0)).is_none());
    assert_eq!(parts(&max.checked_add(Amount::new(4, 1)).unwrap()), (79228162514264337593543950335, 0));
    assert_eq!(parts(&max.checked_sub(Amount::new(1, 0)).unwrap()), (79228162514264337593543950334, 0));
}

#[test]
fn negative_zero_keeps_its_sign() {
    let nz = Amount::negative_zero(2);
    assert_eq!(nz.to_text(), "-0.00");
    assert_eq!(nz.to_text_2dp(), "-0.00");
    assert!(nz.is_sign_negative());
    assert!(!Amount::new(0, 2).is_sign_negative());
    let z = Amount::new(0, 1);
    assert_eq!(z.add(nz).to_text(), "-0.00");
    assert_eq!(nz.add(z).to_text(), "0.0");
    assert_eq!(z.sub(nz).to_text(), "-0.00");
    assert!(!nz.lt(&z) && !z.lt(&nz) && nz.le(&z));
    assert_eq!(Amount::new(-5, 0).add(Amount::new(5, 0)).to_text(), "0");
}

#[test]
fn product_rounded_to_zero_keeps_the_sign() {
    let a = Amount::from_i128_with_scale(-4294967296, 28);
    let b = Amount::new(1, 28);
    let p = a.mul(b);
    assert_eq!(parts(&p), (0, 28));
    assert!(p.is_sign_negative());
    assert_eq!(p.to_text(), "-0.0000000000000000000000000000");
}
