use ocsd::Celsius;

#[test]
fn temperature() {
    assert_eq!(Celsius::new(0).unwrap().raw_value(), 0);
    assert_eq!(Celsius::new(40).unwrap().raw_value(), 40);
    assert_eq!(
        Celsius::from_raw(40).raw_value(),
        Celsius::new(40).unwrap().raw_value()
    );
    assert_eq!(Celsius::new(-1).unwrap().raw_value(), 255);
}

#[test]
fn temperature_range_edges() {
    assert_eq!(Celsius::new(127).unwrap().raw_value(), 127);
    assert_eq!(Celsius::new(-128).unwrap().raw_value(), 128);
    assert!(Celsius::new(128).is_err());
    assert!(Celsius::new(-129).is_err());
    assert!(Celsius::new(1000).is_err());
    assert!(Celsius::new(-1000).is_err());
}

#[test]
fn temperature_round_trip() {
    for degrees in [-128i16, -1, 0, 1, 40, 90, 127] {
        let constructed = Celsius::new(degrees).unwrap();
        let round_tripped = Celsius::from_raw(constructed.raw_value());
        assert_eq!(round_tripped.degrees(), degrees);
    }
}

#[test]
fn temperature_from_raw_total() {
    assert_eq!(Celsius::from_raw(50).raw_value(), 50);
    assert_eq!(Celsius::from_raw(255).degrees(), -1);
    assert_eq!(Celsius::from_raw(128).degrees(), -128);
    assert_eq!(Celsius::from_raw(0).degrees(), 0);
}
