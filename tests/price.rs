use rust_decimal::prelude::FromPrimitive;
use rust_decimal::Decimal;
use supply_domain::decimal::Amount;
use supply_domain::price::Price;

fn amount_of(d: Decimal) -> Amount {
    Amount::from_i128_with_scale(d.mantissa(), d.scale())
}

#[test]
fn create_price_one_cent_test() {
    let price = Price::new("kg", 1);
    assert_eq!(price.get_value_formatted(), "0.01");
    assert_eq!(price.get_value(), Amount::new(1, 2));
    assert_eq!(price.get_unit(), "kg");
}

#[test]
fn create_price_from_f64_one_cent_test() {
    let value = 1.0;
    let price = Price::from_dec("kg", amount_of(Decimal::from_f64(value).unwrap()));
    assert_eq!(price.get_value_formatted(), "0.01");
    assert_eq!(price.get_value(), Amount::new(1, 2));
    assert_eq!(price.get_unit(), "kg");
}

#[test]
fn create_price_from_f64_str_one_cent_test() {
    let value = 1.0.to_string();
    let price = Price::from_str("kg", &value).unwrap();
    assert_eq!(price.get_value_formatted(), "0.01");
    assert_eq!(price.get_value(), Amount::new(1, 2));
    assert_eq!(price.get_unit(), "kg");
}

#[test]
fn create_price_from_dec_one_cent_test() {
    let price = Price::from_dec("kg", Amount::new(1, 0));
    assert_eq!(price.get_value_formatted(), "0.01");
    assert_eq!(price.get_value(), Amount::new(1, 2));
    assert_eq!(price.get_unit(), "kg");
}

#[test]
fn create_price_from_str_one_cent_test() {
    let price = Price::from_str("kg", "1").unwrap();
    assert_eq!(price.get_value_formatted(), "0.01");
    assert_eq!(price.get_value(), Amount::new(1, 2));
    assert_eq!(price.get_unit(), "kg");
}

#[test]
fn create_price_zero_cent_test() {
    let price = Price::new("kg", 0);
    assert_eq!(price.get_value_formatted(), "0.00");
    assert_eq!(price.get_value(), Amount::new(0, 2));
    assert_eq!(price.get_unit(), "kg");
}

#[test]
fn price_from_decimal_one_hundredth_keeps_one_cent() {
    let price = Price::from_dec("kg", amount_of(Decimal::from_f64(0.01).unwrap()));
    assert_eq!(price.get_value_formatted(), "0.01");
}

#[test]
fn price_from_str_rejects_non_numeral() {
    assert!(Price::from_str("kg", "abc").is_err());
    assert!(Price::from_str("kg", "").is_err());
}

#[test]
fn price_from_str_keeps_mantissa_of_fraction() {
    let price = Price::from_str("kg", "1.5").unwrap();
    assert_eq!(price.get_value_formatted(), "0.15");
    let price = Price::from_str("kg", "-12.34").unwrap();
    assert_eq!(price.get_value_formatted(), "-12.34");
}

#[test]
fn price_display_formats() {
    assert_eq!(Price::new("sc", 25000).get_value_formatted(), "250.00");
    assert_eq!(Price::new("sc", 2500).get_value_formatted(), "25.00");
    assert_eq!(Price::new("kg", 250).get_value_formatted(), "2.50");
    assert_eq!(Price::new("kg", -5).get_value_formatted(), "-0.05");
    assert_eq!(Price::new("kg", i64::MAX).get_value_formatted(), "92233720368547758.07");
    assert_eq!(Price::new("kg", i64::MIN).get_value_formatted(), "-92233720368547758.08");
}

#[test]
fn price_descriptive_text() {
    assert_eq!(Price::new("sc", 2500).to_string(), "unit:sc value:25.00");
    assert_eq!(Price::new("kg", 250).to_string(), "unit:kg value:2.50");
}

#[test]
fn amount_text_at_other_scales() {
    assert_eq!(Amount::new(3141, 3).to_text(), "3.141");
    assert_eq!(Amount::new(7, 0).to_text(), "7");
    assert_eq!(Amount::new(0, 0).to_text(), "0");
    assert_eq!(Amount::new(5, 4).to_text(), "0.0005");
    assert_eq!(Amount::new(1, 2).with_scale(0).to_text(), "1");
}

#[test]
fn amount_parse() {
    let a = Amount::parse("0.001").unwrap();
    assert_eq!(a.mantissa(), 1);
    assert_eq!(a.scale(), 3);
    assert!(Amount::parse("x1").is_none());
}

#[test]
fn price_from_amount_keeps_value() {
    let p = Price::from_amount("sc", &Amount::new(250, 0)).unwrap();
    assert_eq!(p.get_value_formatted(), "250.00");
    let p = Price::from_amount("sc", &Amount::new(25, 1)).unwrap();
    assert_eq!(p.get_value_formatted(), "2.50");
    let p = Price::from_amount("sc", &Amount::new(1, 2)).unwrap();
    assert_eq!(p.get_value_formatted(), "0.01");
    let p = Price::from_amount("kg", &Amount::new(12345, 4)).unwrap();
    assert_eq!(p.get_value_formatted(), "1.23");
    let p = Price::from_amount("kg", &Amount::new(-12399, 4)).unwrap();
    assert_eq!(p.get_value_formatted(), "-1.23");
    assert_eq!(p.get_unit(), "kg");
}

#[test]
fn price_from_amount_of_float_json_value() {
    let p = Price::from_amount("sc", &amount_of(Decimal::from_f64(250.0).unwrap())).unwrap();
    assert_eq!(p.get_value_formatted(), "250.00");
    let p = Price::from_amount("kg", &amount_of(Decimal::from_f64(0.01).unwrap())).unwrap();
    assert_eq!(p.get_value_formatted(), "0.01");
}

#[test]
fn price_from_amount_rereads_own_value() {
    let original = Price::new("sc", 2500);
    let again = Price::from_amount("sc", &original.get_value()).unwrap();
    assert_eq!(again.get_value_formatted(), original.get_value_formatted());
    assert_eq!(again.to_string(), original.to_string());
}

#[test]
fn price_from_amount_rejects_overflow() {
    let big = Amount::from_i128_with_scale(79228162514264337593543950335, 0);
    assert!(Price::from_amount("sc", &big).is_none());
    let edge = Amount::from_i128_with_scale(792281625142643375935439503, 0);
    assert!(Price::from_amount("sc", &edge).is_some());
}
