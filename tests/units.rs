use wethr::units::Units;

#[test]
fn units_to_string() {
    assert_eq!(Units::Celsius.to_string(), "metric");
    assert_eq!(Units::Fahrenheit.to_string(), "imperial");
}

#[test]
fn units_symbol() {
    assert_eq!(Units::Celsius.symbol(), "C");
    assert_eq!(Units::Fahrenheit.symbol(), "F");
}

#[test]
fn units_default_is_celsius() {
    assert_eq!(Units::default(), Units::Celsius);
}

#[test]
fn units_from_flags() {
    assert_eq!(Units::from_flags(false, false, None), None);
    assert_eq!(Units::from_flags(true, false, None), Some(Units::Celsius));
    assert_eq!(Units::from_flags(true, true, Some("F")), Some(Units::Celsius));
    assert_eq!(Units::from_flags(false, true, None), Some(Units::Fahrenheit));
    assert_eq!(Units::from_flags(false, false, Some("C")), Some(Units::Celsius));
    assert_eq!(Units::from_flags(false, false, Some("c")), Some(Units::Celsius));
    assert_eq!(Units::from_flags(false, false, Some("F")), Some(Units::Fahrenheit));
    assert_eq!(Units::from_flags(false, false, Some("f")), Some(Units::Fahrenheit));
    assert_eq!(Units::from_flags(false, false, Some("K")), None);
    assert_eq!(Units::from_flags(false, false, Some("CC")), None);
    assert_eq!(Units::from_flags(false, false, Some("")), None);
}
